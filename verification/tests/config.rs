use finshir::config::{
    parse_host_port, parse_non_zero_usize, AddressError, IpAddress, NonZeroUsizeError,
    ReceiverAddrs, ResolvedAddr,
};

// Check that ordinary values are parsed correctly
#[test]
fn parses_valid_non_zero_usize() {
    let check = |num: &str| {
        assert_eq!(
            parse_non_zero_usize(num),
            Ok(num.parse::<usize>().unwrap()),
            "Parses valid NonZeroUsize incorrectly"
        )
    };

    check("1");
    check("3");
    check("26655");
    check("+75");
}

// Invalid numbers must produce the invalid format error
#[test]
fn parses_invalid_non_zero_usize() {
    let check = |num: &str| {
        assert!(
            parse_non_zero_usize(num).is_err(),
            "Parses invalid NonZeroUsize correctly"
        )
    };

    check("   ");
    check("abc5653odr!");
    check("6485&02hde");
    check("-565642");
    check(&"2178".repeat(50));
}

#[test]
fn zero_count_is_rejected_as_zero() {
    assert_eq!(parse_non_zero_usize("0"), Err(NonZeroUsizeError::ZeroValue));
    assert_eq!(parse_non_zero_usize("+0"), Err(NonZeroUsizeError::ZeroValue));
    assert_eq!(
        parse_non_zero_usize("000"),
        Err(NonZeroUsizeError::ZeroValue)
    );
    assert_eq!(parse_non_zero_usize(""), Err(NonZeroUsizeError::InvalidFormat));
    assert_eq!(parse_non_zero_usize("+"), Err(NonZeroUsizeError::InvalidFormat));
}

#[test]
fn splits_receiver_into_host_and_port() {
    let (host, port) = parse_host_port("127.0.0.1:8080").expect("a valid receiver was rejected");
    assert_eq!(host, "127.0.0.1");
    assert_eq!(port, 8080);

    let (host, port) = parse_host_port("example.com:443").expect("a valid receiver was rejected");
    assert_eq!(host, "example.com");
    assert_eq!(port, 443);
}

#[test]
fn rejects_malformed_receivers() {
    assert_eq!(parse_host_port("not-an-address"), Err(AddressError::MissingPort));
    assert_eq!(parse_host_port(""), Err(AddressError::MissingPort));
    assert_eq!(parse_host_port("host:"), Err(AddressError::InvalidPort));
    assert_eq!(parse_host_port("host:port"), Err(AddressError::InvalidPort));
    assert_eq!(parse_host_port("host:65536"), Err(AddressError::InvalidPort));
    assert_eq!(parse_host_port("host:-1"), Err(AddressError::InvalidPort));
    assert!(parse_host_port("host:65535").is_ok());
}

#[test]
fn error_messages_are_stable() {
    assert_eq!(
        NonZeroUsizeError::ZeroValue.message(),
        "The value equals to zero"
    );
    assert_eq!(
        NonZeroUsizeError::InvalidFormat.message(),
        "invalid unsigned number"
    );
    assert_eq!(AddressError::MissingPort.message(), "no colon-delimited port");
    assert_eq!(
        AddressError::NoAddresses.message(),
        "resolution produced no addresses"
    );
}

#[test]
fn duration_conversion_saturates() {
    assert_eq!(finshir::duration_to_millis(0, 0), 0);
    assert_eq!(finshir::duration_to_millis(2, 250), 2250);
    assert_eq!(finshir::duration_to_millis(u64::MAX, 999), u64::MAX);
}

#[test]
fn resolved_endpoint_needs_at_least_one_address() {
    let (host, port) = parse_host_port("127.0.0.1:8080").unwrap();
    let addr = ResolvedAddr {
        ip: IpAddress::V4(127, 0, 0, 1),
        port,
    };

    let endpoint = ReceiverAddrs::from_parts(host.clone(), port, vec![addr])
        .expect("an endpoint with one address was rejected");
    assert_eq!(endpoint.host, "127.0.0.1");
    assert_eq!(endpoint.port, 8080);
    assert!(!endpoint.recognised_addrs.is_empty());

    assert_eq!(
        ReceiverAddrs::from_parts(host, port, Vec::new()),
        Err(AddressError::NoAddresses)
    );
}
