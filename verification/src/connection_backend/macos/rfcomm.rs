use vstd::prelude::*;
use vstd::string::{StrSliceExecFns, StringExecFns};

verus! {

/// RFCOMM through IOBluetooth. The Bluetooth calls themselves live outside the library; here
/// are the decisions and conversions they rely on.
#[derive(Debug, Default, Clone, Copy)]
pub struct MacosRfcommBackend;

/// The uppercase hexadecimal digit for `n` in `0..16`.
pub open spec fn spec_hex_upper(n: int) -> char {
    if n < 10 {
        (48 + n) as char
    } else {
        (55 + n) as char
    }
}

/// The value of a hexadecimal digit of either case.
pub open spec fn spec_hex_value(c: char) -> Option<int> {
    if '0' <= c && c <= '9' {
        Some(c as int - 48)
    } else if 'a' <= c && c <= 'f' {
        Some(c as int - 87)
    } else if 'A' <= c && c <= 'F' {
        Some(c as int - 55)
    } else {
        None
    }
}

/// Character `i` of the colon-separated form of a six-byte address.
pub open spec fn spec_mac_display_char(bytes: Seq<u8>, i: int) -> char {
    if i % 3 == 2 {
        ':'
    } else if i % 3 == 0 {
        spec_hex_upper((bytes[i / 3] / 16) as int)
    } else {
        spec_hex_upper((bytes[i / 3] % 16) as int)
    }
}

/// A six-byte address as `AB:0D:EF:12:34:56`: two uppercase hexadecimal digits per byte,
/// separated by colons.
pub open spec fn spec_mac_display(bytes: Seq<u8>) -> Seq<char> {
    Seq::new(17, |i: int| spec_mac_display_char(bytes, i))
}

/// `s` reads as six pairs of hexadecimal digits separated by colons.
pub open spec fn spec_is_colon_format(s: Seq<char>) -> bool {
    &&& s.len() == 17
    &&& forall|i: int| 0 <= i < 17 ==> if i % 3 == 2 {
        #[trigger] s[i] == ':'
    } else {
        spec_hex_value(s[i]) is Some
    }
}

/// The six bytes that a string of colon format spells.
pub open spec fn spec_decode_colon(s: Seq<char>) -> Seq<u8> {
    Seq::new(6, |j: int| (spec_hex_value(s[3 * j]).unwrap() * 16 + spec_hex_value(s[3 * j + 1]).unwrap()) as u8)
}

/// `s` with every `from` replaced by `to`.
pub open spec fn spec_replace(s: Seq<char>, from: char, to: char) -> Seq<char> {
    Seq::new(s.len(), |i: int| if s[i] == from { to } else { s[i] })
}

/// What `macaddr` makes of a string when parsing a six-byte address.
pub uninterp spec fn spec_parse_mac_addr6(s: Seq<char>) -> Option<Seq<u8>>;

/// Parses a six-byte address with `<macaddr::MacAddr6 as FromStr>::from_str`. Its result is
/// named by `spec_parse_mac_addr6`; beyond that, the contract claims what the parser's source
/// shows for the colon-separated form: six pairs of hexadecimal digits of either case with a
/// colon between pairs parse to the bytes they spell.
#[verifier::external_body]
fn parse_mac_addr6(s: &str) -> (r: Option<[u8; 6]>)
    ensures
        match r {
            Some(b) => spec_parse_mac_addr6(s@) == Some(b@),
            None => spec_parse_mac_addr6(s@) is None,
        },
        spec_is_colon_format(s@) ==> r is Some && r.unwrap()@ == spec_decode_colon(s@),
{
    match s.parse::<macaddr::MacAddr6>() {
        Ok(address) => Some(address.into_array()),
        Err(_) => None,
    }
}

/// Formats a six-byte address with `<macaddr::MacAddr6 as Display>::fmt` and no flags, which
/// the source writes as `{:02X}` per byte joined by colons; the contract claims exactly that.
#[verifier::external_body]
fn mac_addr6_to_string(bytes: [u8; 6]) -> (r: String)
    ensures
        r@ == spec_mac_display(bytes@),
{
    macaddr::MacAddr6::from(bytes).to_string()
}

/// A copy of `s` with every `from` replaced by the one-character string `to`.
fn replace_char(s: &str, from: char, to: &str) -> (r: String)
    requires
        to@.len() == 1,
    ensures
        r@ == spec_replace(s@, from, to@[0]),
{
    let n = s.unicode_len();
    let mut r = String::new();
    let mut i: usize = 0;
    while i < n
        invariant
            n == s@.len(),
            to@.len() == 1,
            i <= n,
            r@ == spec_replace(s@, from, to@[0]).subrange(0, i as int),
        decreases n - i,
    {
        let c = s.get_char(i);
        if c == from {
            r.append(to);
        } else {
            r.append(s.substring_char(i, i + 1));
        }
        i = i + 1;
        assert(r@ =~= spec_replace(s@, from, to@[0]).subrange(0, i as int));
    }
    assert(spec_replace(s@, from, to@[0]).subrange(0, n as int) =~= spec_replace(s@, from, to@[0]));
    r
}

/// The address of a device from the address string that IOBluetooth reports
/// (`xx-xx-xx-xx-xx-xx`): dashes become colons and the result is parsed.
pub fn mac_address_of(address_string: &str) -> (r: Option<[u8; 6]>)
    ensures
        match r {
            Some(b) => spec_parse_mac_addr6(spec_replace(address_string@, '-', ':')) == Some(b@),
            None => spec_parse_mac_addr6(spec_replace(address_string@, '-', ':')) is None,
        },
        spec_is_colon_format(spec_replace(address_string@, '-', ':')) ==> (r matches Some(b) && b@
            == spec_decode_colon(spec_replace(address_string@, '-', ':'))),
{
    proof {
        reveal_strlit(":");
    }
    let colons = replace_char(address_string, '-', ":");
    parse_mac_addr6(colons.as_str())
}

/// The address string that IOBluetooth looks devices up by: the colon form with colons
/// replaced by dashes.
pub fn device_address_string(mac_address: [u8; 6]) -> (r: String)
    ensures
        r@ == spec_replace(spec_mac_display(mac_address@), ':', '-'),
{
    proof {
        reveal_strlit("-");
    }
    let colons = mac_addr6_to_string(mac_address);
    replace_char(colons.as_str(), ':', "-")
}

/// The address string built for a device reads back as the device's address.
pub proof fn lemma_device_address_roundtrip(mac_address: Seq<u8>)
    requires
        mac_address.len() == 6,
    ensures
        spec_replace(spec_replace(spec_mac_display(mac_address), ':', '-'), '-', ':') == spec_mac_display(mac_address),
        spec_is_colon_format(spec_mac_display(mac_address)),
        spec_decode_colon(spec_mac_display(mac_address)) == mac_address,
{
    let d = spec_mac_display(mac_address);
    assert forall|i: int| 0 <= i < 17 implies d[i] != '-' by {
        let b = mac_address[i / 3];
        assert(0 <= b / 16 < 16 && 0 <= b % 16 < 16);
    }
    assert(spec_replace(spec_replace(d, ':', '-'), '-', ':') =~= d);
    assert forall|i: int| 0 <= i < 17 implies if i % 3 == 2 {
        #[trigger] d[i] == ':'
    } else {
        spec_hex_value(d[i]) is Some
    } by {
        let b = mac_address[i / 3];
        assert(0 <= b / 16 < 16 && 0 <= b % 16 < 16);
    }
    assert forall|j: int| 0 <= j < 6 implies #[trigger] spec_decode_colon(d)[j] == mac_address[j] by {
        let b = mac_address[j];
        assert((3 * j) / 3 == j && (3 * j) % 3 == 0);
        assert((3 * j + 1) / 3 == j && (3 * j + 1) % 3 == 1);
        assert(spec_hex_value(d[3 * j]) == Some((b / 16) as int));
        assert(spec_hex_value(d[3 * j + 1]) == Some((b % 16) as int));
        assert((b / 16) * 16 + b % 16 == b);
    }
    assert(spec_decode_colon(d) =~= mac_address);
}

/// `kIOReturnNotOpen`: the channel is not open yet.
pub const IO_RETURN_NOT_OPEN: i32 = -536870195;

/// How many times a write is tried while the channel reports not open.
pub const WRITE_NOT_OPEN_RETRIES: u32 = 50;

/// What to do after a write attempt.
#[derive(Debug, Clone, Copy, PartialEq, Eq, Structural)]
pub enum WriteStep {
    /// Wait and try again: the channel is still opening.
    Retry,
    /// The write succeeded.
    Written,
    /// The write failed with this status.
    Failed(i32),
}

/// The step after attempt number `attempt` (counting from 1) returned `status`: retry while the
/// channel reports not open and fewer than 50 attempts were made; then succeed on status 0 and
/// fail otherwise.
pub open spec fn spec_write_step(status: i32, attempt: u32) -> WriteStep {
    if status == IO_RETURN_NOT_OPEN && attempt < WRITE_NOT_OPEN_RETRIES {
        WriteStep::Retry
    } else if status == 0 {
        WriteStep::Written
    } else {
        WriteStep::Failed(status)
    }
}

pub fn write_step(status: i32, attempt: u32) -> (r: WriteStep)
    ensures
        r == spec_write_step(status, attempt),
{
    if status == IO_RETURN_NOT_OPEN && attempt < WRITE_NOT_OPEN_RETRIES {
        WriteStep::Retry
    } else if status == 0 {
        WriteStep::Written
    } else {
        WriteStep::Failed(status)
    }
}

/// A write is never tried more than 50 times, and only a not-open status is retried.
pub proof fn lemma_write_retries_bounded(status: i32, attempt: u32)
    ensures
        attempt >= WRITE_NOT_OPEN_RETRIES ==> spec_write_step(status, attempt) != WriteStep::Retry,
        status != IO_RETURN_NOT_OPEN ==> spec_write_step(status, attempt) != WriteStep::Retry,
{
}

/// The step after a write attempt: retry exactly when the status is `kIOReturnNotOpen`
/// (`-536870195`) on one of the first 49 attempts; otherwise the write is done on status 0
/// and has failed with its status on any other.
pub proof fn lemma_write_step_outcomes(status: i32, attempt: u32)
    ensures
        (spec_write_step(status, attempt) == WriteStep::Retry) <==> (status == -536870195 && attempt < 50),
        !(status == -536870195 && attempt < 50) && status == 0 ==> spec_write_step(status, attempt) == WriteStep::Written,
        !(status == -536870195 && attempt < 50) && status != 0 ==> spec_write_step(status, attempt) == WriteStep::Failed(status),
{
}

} // verus!
