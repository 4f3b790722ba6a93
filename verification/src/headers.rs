//! Which header names and values may be put on a request.

use vstd::prelude::*;
use vstd::string::*;

verus! {

/// The longest header name, in bytes.
pub const MAX_HEADER_NAME_LEN: usize = 65535;

/// A byte that may stand in a header name: a letter, a digit, or one of
/// ``!#$%&'*+-.^_`|~``.
pub open spec fn is_name_byte(b: u8) -> bool {
    ||| 0x30 <= b <= 0x39
    ||| 0x41 <= b <= 0x5a
    ||| 0x61 <= b <= 0x7a
    ||| b == 0x21
    ||| 0x23 <= b <= 0x27
    ||| b == 0x2a
    ||| b == 0x2b
    ||| b == 0x2d
    ||| b == 0x2e
    ||| b == 0x5e
    ||| b == 0x5f
    ||| b == 0x60
    ||| b == 0x7c
    ||| b == 0x7e
}

/// A byte that may stand in a header value: anything but the control
/// characters, with the tab allowed.
pub open spec fn is_value_byte(b: u8) -> bool {
    (b >= 32 && b != 127) || b == 9
}

/// A header name is valid when it has between 1 and 65535 bytes, each of
/// them a name byte.
pub open spec fn is_header_name(bytes: Seq<u8>) -> bool {
    &&& 1 <= bytes.len() <= MAX_HEADER_NAME_LEN
    &&& forall|i: int| 0 <= i < bytes.len() ==> is_name_byte(#[trigger] bytes[i])
}

/// A header value is valid when each of its bytes is a value byte.
pub open spec fn is_header_value(bytes: Seq<u8>) -> bool {
    forall|i: int| 0 <= i < bytes.len() ==> is_value_byte(#[trigger] bytes[i])
}

/// Calls `reqwest::header::HeaderName::from_str` (the `http` crate's
/// `HeaderName`) and reports whether it accepted the text. The contract
/// restates the crate's table of name characters and its length limit.
#[verifier::external_body]
pub(crate) fn header_name_accepted(name: &str) -> (ok: bool)
    ensures
        ok == is_header_name(name.spec_bytes()),
{
    <reqwest::header::HeaderName as std::str::FromStr>::from_str(name).is_ok()
}

/// Calls `reqwest::header::HeaderValue::from_str` (the `http` crate's
/// `HeaderValue`) and reports whether it accepted the text. The contract
/// restates the crate's test on each byte.
#[verifier::external_body]
pub(crate) fn header_value_accepted(value: &str) -> (ok: bool)
    ensures
        ok == is_header_value(value.spec_bytes()),
{
    reqwest::header::HeaderValue::from_str(value).is_ok()
}

/// Whether a header, given as the views of its name and value, is kept.
pub open spec fn header_kept(header: (Seq<char>, Seq<char>)) -> bool {
    &&& is_header_name(vstd::utf8::encode_utf8(header.0))
    &&& is_header_value(vstd::utf8::encode_utf8(header.1))
}

/// Decides whether one header can be sent: both its name and its value
/// must be valid on their own.
pub fn header_is_valid(name: &str, value: &str) -> (ok: bool)
    ensures
        ok == header_kept((name@, value@)),
{
    let name_ok = header_name_accepted(name);
    let value_ok = header_value_accepted(value);
    name_ok && value_ok
}

} // verus!
