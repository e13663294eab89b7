[package]
name = "finshir"
version = "0.1.0"
edition = "2021"
publish = false

[dependencies]
serde_json = "1"
colored = "*"
humantime = "*"
log = "0.4"
may = "0.3"
openssl = "0.10"
openssl-probe = "*"
signal-hook = "*"
socks = "0.3"
structopt = "0.2"
treexml = "*"
