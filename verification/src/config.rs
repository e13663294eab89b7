//! Configuration records shared read-only by the scheduler and every worker,
//! together with the small verified parsers that validate user-supplied
//! values: positive counts and the receiver's `host:port` string.

use vstd::prelude::*;

verus! {

/// Chooses where the final statistics report goes. At most one of the file
/// destinations is used; the first one set wins, in the order JSON, XML, text.
pub struct ReportConfig {
    pub json_report: Option<String>,
    pub xml_report: Option<String>,
    pub text_report: Option<String>,
}

/// Mathematical image of a [`ReportConfig`]: each destination as a character
/// sequence.
pub ghost struct ReportConfigView {
    pub json_report: Option<Seq<char>>,
    pub xml_report: Option<Seq<char>>,
    pub text_report: Option<Seq<char>>,
}

impl View for ReportConfig {
    type V = ReportConfigView;

    open spec fn view(&self) -> ReportConfigView {
        ReportConfigView {
            json_report: match self.json_report {
                Some(p) => Some(p@),
                None => None,
            },
            xml_report: match self.xml_report {
                Some(p) => Some(p@),
                None => None,
            },
            text_report: match self.text_report {
                Some(p) => Some(p@),
                None => None,
            },
        }
    }
}

/// How chatty the excluded logging layer should be; carried through unchanged.
#[derive(Debug, Clone, PartialEq, Eq)]
pub struct LoggingConfig {
    /// Verbosity level: zero prints nothing, the highest level everything.
    pub verbosity: i32,
    /// A `strftime`-style format for dates and times in log messages.
    pub date_time_format: String,
}

/// Whether `c` is a decimal digit.
pub open spec fn is_digit(c: char) -> bool {
    '0' <= c <= '9'
}

/// The value of a decimal digit; zero for anything else.
pub open spec fn digit_value(c: char) -> nat {
    if is_digit(c) {
        (c as nat - '0' as nat) as nat
    } else {
        0
    }
}

/// Whether every character of `s` is a decimal digit.
pub open spec fn all_digits(s: Seq<char>) -> bool {
    forall|i: int| 0 <= i < s.len() ==> is_digit(s[i])
}

/// The number the digits of `s` spell, read left to right.
pub open spec fn uint_value(s: Seq<char>) -> nat
    decreases s.len(),
{
    if s.len() == 0 {
        0
    } else {
        uint_value(s.drop_last()) * 10 + digit_value(s.last())
    }
}

/// Whether `s` is a decimal unsigned-integer literal as the standard library
/// parses one: an optional leading plus sign, then at least one digit and
/// nothing else.
pub open spec fn is_uint_string(s: Seq<char>) -> bool {
    if s.len() > 0 && s[0] == '+' {
        s.len() >= 2 && all_digits(s.subrange(1, s.len() as int))
    } else {
        s.len() >= 1 && all_digits(s)
    }
}

/// The numeric value of a literal, the optional sign skipped.
pub open spec fn uint_string_value(s: Seq<char>) -> nat {
    if s.len() > 0 && s[0] == '+' {
        uint_value(s.subrange(1, s.len() as int))
    } else {
        uint_value(s)
    }
}

/// Reading one more digit multiplies the prefix value by ten and adds it.
proof fn lemma_uint_value_extend(s: Seq<char>, j: int)
    requires
        0 <= j < s.len(),
    ensures
        uint_value(s.subrange(0, j + 1)) == uint_value(s.subrange(0, j)) * 10 + digit_value(s[j]),
{
    assert(s.subrange(0, j + 1).drop_last() =~= s.subrange(0, j));
    assert(s.subrange(0, j + 1).last() == s[j]);
}

/// A prefix of a digit string never spells a larger number than the whole.
proof fn lemma_uint_value_prefix_le(s: Seq<char>, j: int)
    requires
        0 <= j <= s.len(),
    ensures
        uint_value(s.subrange(0, j)) <= uint_value(s),
    decreases s.len() - j,
{
    if j == s.len() {
        assert(s.subrange(0, j) =~= s);
    } else {
        lemma_uint_value_extend(s, j);
        assert(uint_value(s.subrange(0, j)) * 10 >= uint_value(s.subrange(0, j))) by (nonlinear_arith);
        lemma_uint_value_prefix_le(s, j + 1);
    }
}

/// Parses the digits of `s@` between `from` and the end, after the caller
/// disposed of any sign: the digits' value when they fit in a `u64`, `None`
/// on an empty range, a non-digit, or a value above `u64::MAX`.
fn parse_digits(s: &str, from: usize) -> (r: Option<u64>)
    requires
        from <= s@.len(),
    ensures
        ({
            let digits = s@.subrange(from as int, s@.len() as int);
            match r {
                Some(v) => digits.len() >= 1 && all_digits(digits) && v == uint_value(digits),
                None => digits.len() == 0 || !all_digits(digits) || uint_value(digits)
                    > u64::MAX,
            }
        }),
{
    let ghost digits = s@.subrange(from as int, s@.len() as int);
    let n = s.unicode_len();
    if from >= n {
        return None;
    }
    let mut acc: u64 = 0;
    let mut i: usize = from;
    while i < n
        invariant
            from <= i <= n,
            n == s@.len(),
            digits == s@.subrange(from as int, n as int),
            all_digits(s@.subrange(from as int, i as int)),
            acc == uint_value(s@.subrange(from as int, i as int)),
        decreases n - i,
    {
        let c = s.get_char(i);
        if c < '0' || c > '9' {
            proof {
                assert(digits[i - from] == s@[i as int]);
                assert(!is_digit(digits[i - from]));
            }
            return None;
        }
        let d: u64 = (c as u32 as u64) - ('0' as u32 as u64);
        proof {
            assert(s@.subrange(from as int, i as int) =~= digits.subrange(0, i - from));
            assert(digits.subrange(0, i - from + 1) =~= s@.subrange(from as int, i + 1 as int));
            lemma_uint_value_extend(digits, i - from);
        }
        if acc > (u64::MAX - d) / 10 {
            proof {
                assert(uint_value(digits.subrange(0, i - from + 1)) == acc * 10 + d);
                assert(acc * 10 + d > u64::MAX) by (nonlinear_arith)
                    requires
                        acc > (u64::MAX - d) / 10,
                        d < 10,
                ;
                lemma_uint_value_prefix_le(digits, i - from + 1);
            }
            return None;
        }
        acc = acc * 10 + d;
        i = i + 1;
    }
    proof {
        assert(s@.subrange(from as int, i as int) =~= digits);
    }
    Some(acc)
}

/// Parses a whole string as a decimal unsigned integer, as the standard
/// library's grammar has it: an optional leading plus sign, then digits.
/// `None` exactly when the grammar does not match or the value exceeds
/// `u64::MAX`.
fn parse_uint(s: &str) -> (r: Option<u64>)
    ensures
        match r {
            Some(v) => is_uint_string(s@) && uint_string_value(s@) <= u64::MAX && v
                == uint_string_value(s@),
            None => !is_uint_string(s@) || uint_string_value(s@) > u64::MAX,
        },
{
    let n = s.unicode_len();
    if n == 0 {
        return None;
    }
    let first = s.get_char(0);
    let from: usize = if first == '+' {
        1
    } else {
        0
    };
    let r = parse_digits(s, from);
    proof {
        if from == 0 {
            assert(s@.subrange(0, s@.len() as int) =~= s@);
        }
    }
    r
}

/// Why a user-supplied positive count was rejected: not a decimal number in
/// range, or the (well-formed) number zero.
#[derive(Debug, Copy, Clone, PartialEq, Eq, Structural)]
pub enum NonZeroUsizeError {
    InvalidFormat,
    ZeroValue,
}

impl NonZeroUsizeError {
    /// The human-readable description the rendering layer prints.
    pub fn message(&self) -> (m: &'static str)
        ensures
            m@ == match self {
                NonZeroUsizeError::InvalidFormat => "invalid unsigned number"@,
                NonZeroUsizeError::ZeroValue => "The value equals to zero"@,
            },
    {
        match self {
            NonZeroUsizeError::InvalidFormat => "invalid unsigned number",
            NonZeroUsizeError::ZeroValue => "The value equals to zero",
        }
    }
}

/// Parses a positive count: a decimal unsigned integer that fits the machine
/// and is not zero. Exactly the inputs the standard grammar accepts with a
/// value in `1 ..= usize::MAX` yield `Ok`; a well-formed zero yields
/// `ZeroValue`, everything else `InvalidFormat`.
pub fn parse_non_zero_usize(number: &str) -> (r: Result<usize, NonZeroUsizeError>)
    ensures
        match r {
            Ok(v) => is_uint_string(number@) && 0 < uint_string_value(number@) <= usize::MAX && v
                == uint_string_value(number@),
            Err(NonZeroUsizeError::ZeroValue) => is_uint_string(number@) && uint_string_value(
                number@,
            ) == 0,
            Err(NonZeroUsizeError::InvalidFormat) => !is_uint_string(number@)
                || uint_string_value(number@) > usize::MAX,
        },
{
    match parse_uint(number) {
        None => Err(NonZeroUsizeError::InvalidFormat),
        Some(v) => {
            if v == 0 {
                Err(NonZeroUsizeError::ZeroValue)
            } else if v > usize::MAX as u64 {
                Err(NonZeroUsizeError::InvalidFormat)
            } else {
                Ok(v as usize)
            }
        },
    }
}

/// One concrete address the resolver produced, as plain values: the numeric
/// form of an IP address and a port.
#[derive(Debug, Copy, Clone, PartialEq, Eq, Structural)]
pub enum IpAddress {
    /// The four octets of a version-4 address, in textual order.
    V4(u8, u8, u8, u8),
    /// The sixteen octets of a version-6 address, as one big-endian number.
    V6(u128),
}

/// One resolved socket address.
#[derive(Debug, Copy, Clone, PartialEq, Eq, Structural)]
pub struct ResolvedAddr {
    pub ip: IpAddress,
    pub port: u16,
}

/// Why a receiver string was rejected: each case is fatal before any worker
/// starts.
#[derive(Debug, Copy, Clone, PartialEq, Eq, Structural)]
pub enum AddressError {
    /// No colon-delimited port is present.
    MissingPort,
    /// What follows the last colon is not a valid 16-bit unsigned integer.
    InvalidPort,
    /// Resolution produced no address at all.
    NoAddresses,
    /// The resolver itself failed to look the host up.
    LookupFailed,
}

impl AddressError {
    /// The human-readable description the rendering layer prints.
    pub fn message(&self) -> (m: &'static str)
        ensures
            m@ == match self {
                AddressError::MissingPort => "no colon-delimited port"@,
                AddressError::InvalidPort => "the port is not a valid 16-bit unsigned integer"@,
                AddressError::NoAddresses => "resolution produced no addresses"@,
                AddressError::LookupFailed => "the address lookup failed"@,
            },
    {
        match self {
            AddressError::MissingPort => "no colon-delimited port",
            AddressError::InvalidPort => "the port is not a valid 16-bit unsigned integer",
            AddressError::NoAddresses => "resolution produced no addresses",
            AddressError::LookupFailed => "the address lookup failed",
        }
    }
}

/// The position of the last colon of `s`, or minus one when there is none.
pub open spec fn last_colon_index(s: Seq<char>) -> int
    decreases s.len(),
{
    if s.len() == 0 {
        -1
    } else if s.last() == ':' {
        s.len() - 1
    } else {
        last_colon_index(s.drop_last())
    }
}

/// Everything before the last colon: the host the user named.
pub open spec fn host_part(s: Seq<char>) -> Seq<char> {
    s.subrange(0, last_colon_index(s))
}

/// Everything after the last colon: the port the user named.
pub open spec fn port_part(s: Seq<char>) -> Seq<char> {
    s.subrange(last_colon_index(s) + 1, s.len() as int)
}

/// Whether a receiver string is well-formed: a colon-delimited port is
/// present and names a 16-bit unsigned integer.
pub open spec fn receiver_syntax_ok(s: Seq<char>) -> bool {
    &&& last_colon_index(s) >= 0
    &&& is_uint_string(port_part(s))
    &&& uint_string_value(port_part(s)) <= u16::MAX
}

/// A colon with none to its right is the last one.
proof fn lemma_last_colon_found(s: Seq<char>, j: int)
    requires
        0 <= j < s.len(),
        s[j] == ':',
        forall|k: int| j < k < s.len() ==> s[k] != ':',
    ensures
        last_colon_index(s) == j,
    decreases s.len(),
{
    if j < s.len() - 1 {
        assert(s.last() != ':');
        lemma_last_colon_found(s.drop_last(), j);
    }
}

/// A string without a colon has no last one.
proof fn lemma_no_colon(s: Seq<char>)
    requires
        forall|k: int| 0 <= k < s.len() ==> s[k] != ':',
    ensures
        last_colon_index(s) == -1,
    decreases s.len(),
{
    if s.len() > 0 {
        lemma_no_colon(s.drop_last());
    }
}

/// Splits a receiver string at its last colon and parses the port, exactly as
/// [`receiver_syntax_ok`] has it: the host may be empty, but the port must be
/// a decimal 16-bit unsigned integer.
pub fn parse_host_port(s: &str) -> (r: Result<(String, u16), AddressError>)
    ensures
        match r {
            Ok(hp) => receiver_syntax_ok(s@) && hp.0@ == host_part(s@) && hp.1
                == uint_string_value(port_part(s@)),
            Err(AddressError::MissingPort) => last_colon_index(s@) == -1,
            Err(AddressError::InvalidPort) => last_colon_index(s@) >= 0 && (!is_uint_string(
                port_part(s@),
            ) || uint_string_value(port_part(s@)) > u16::MAX),
            Err(_) => false,
        },
{
    let n = s.unicode_len();
    let mut i: usize = n;
    while i > 0
        invariant
            i <= n,
            n == s@.len(),
            forall|k: int| i <= k < n ==> s@[k] != ':',
        decreases i,
    {
        if s.get_char(i - 1) == ':' {
            let idx = i - 1;
            proof {
                lemma_last_colon_found(s@, idx as int);
            }
            let port_str = s.substring_char(idx + 1, n);
            proof {
                assert(port_str@ == port_part(s@));
            }
            let port = match parse_uint(port_str) {
                Some(v) if v <= u16::MAX as u64 => v as u16,
                _ => {
                    return Err(AddressError::InvalidPort);
                },
            };
            let host = s.substring_char(0, idx).to_owned();
            return Ok((host, port));
        }
        i = i - 1;
    }
    proof {
        lemma_no_colon(s@);
    }
    Err(AddressError::MissingPort)
}

/// The receiver endpoint, built once at startup and immutable afterwards: the
/// host and port the user named, and the resolver's concrete addresses.
#[derive(Debug, Clone, PartialEq, Eq)]
pub struct ReceiverAddrs {
    /// The host as the user wrote it: a domain name or an IP address.
    pub host: String,
    /// The port the user wrote after the last colon.
    pub port: u16,
    /// The resolver's addresses for the host, never empty.
    pub recognised_addrs: Vec<ResolvedAddr>,
}

impl ReceiverAddrs {
    /// Assembles the endpoint from the parsed parts and the resolver's
    /// answer. Zero addresses are a fatal error, so a built endpoint always
    /// has at least one.
    pub fn from_parts(host: String, port: u16, recognised_addrs: Vec<ResolvedAddr>) -> (r: Result<
        ReceiverAddrs,
        AddressError,
    >)
        ensures
            recognised_addrs@.len() > 0 ==> (r matches Ok(e) && e.host@ == host@ && e.port == port
                && e.recognised_addrs@ == recognised_addrs@),
            recognised_addrs@.len() == 0 ==> r == Err::<ReceiverAddrs, AddressError>(
                AddressError::NoAddresses,
            ),
    {
        if recognised_addrs.len() == 0 {
            Err(AddressError::NoAddresses)
        } else {
            Ok(ReceiverAddrs { host, port, recognised_addrs })
        }
    }
}

/// How a worker's transport reaches the receiver.
#[derive(Debug, Copy, Clone, PartialEq, Eq, Structural)]
pub enum ProxyMode {
    /// Connect to a resolved address directly.
    Direct,
    /// Tunnel through the given SOCKS5 proxy.
    Socks5(ResolvedAddr),
    /// Tunnel through the local anonymity-network entry point.
    AnonymityNetwork,
}

/// Everything one transport needs: the receiver, the timeouts and retry
/// interval (as milliseconds), TLS on or off, an optional IP time-to-live,
/// and the proxy mode. Immutable and shared read-only.
#[derive(Debug, Clone, PartialEq, Eq)]
pub struct SocketConfig {
    pub receiver: ReceiverAddrs,
    pub connect_timeout_ms: u64,
    pub connect_periodicity_ms: u64,
    pub write_timeout_ms: u64,
    pub use_tls: bool,
    pub ip_ttl: Option<u32>,
    pub proxy: ProxyMode,
}

/// Everything one worker's send cycle needs: the pacing delay, the write
/// attempt budget (at least one), the whole test duration, and the transport
/// configuration. Immutable and shared read-only.
#[derive(Debug, Clone, PartialEq, Eq)]
pub struct TesterConfig {
    pub write_periodicity_ms: u64,
    pub failed_count: usize,
    pub test_duration_ms: u64,
    pub socket_config: SocketConfig,
}

/// Whether a tester configuration is usable: the write attempt budget is at
/// least one, as its parser guarantees.
pub open spec fn tester_config_wf(c: TesterConfig) -> bool {
    c.failed_count >= 1
}

/// The whole run's configuration, as the excluded argument parser hands it
/// over.
#[derive(Debug, Clone, PartialEq, Eq)]
pub struct ArgsConfig {
    /// The initial waiting time before launch, a guard against an unwanted
    /// test.
    pub wait_ms: u64,
    /// The user's portions file, when one was given.
    pub portions_file: Option<String>,
    /// How many workers — simultaneous connections — to launch.
    pub connections: usize,
    pub tester_config: TesterConfig,
    pub logging_config: LoggingConfig,
}

/// Whether a run configuration is usable: at least one worker, and a usable
/// tester configuration, as the parsers guarantee.
pub open spec fn args_config_wf(c: ArgsConfig) -> bool {
    c.connections >= 1 && tester_config_wf(c.tester_config)
}

} // verus!
