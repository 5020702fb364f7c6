use vstd::prelude::*;

verus! {

/// Why a packet body could not be parsed.
#[derive(Debug, Clone, Copy, PartialEq, Eq)]
pub enum ParseError {
    /// The input ended before the structure being read was complete.
    UnexpectedEndOfInput,
    /// A field held a value that its format does not allow.
    InvalidValue,
    /// A packet's checksum byte does not match its other bytes.
    ChecksumMismatch,
}

/// A byte read as a boolean: only `1` is true.
pub open spec fn spec_bool_from_byte(b: u8) -> bool {
    b == 1
}

/// Reads one byte as a boolean (`1` is true, anything else false).
pub fn take_bool(input: &[u8]) -> (r: Result<(&[u8], bool), ParseError>)
    ensures
        input@.len() >= 1 <==> r is Ok,
        r matches Ok((rest, v)) ==> v == spec_bool_from_byte(input@[0]) && rest@ == input@.skip(1),
{
    if input.len() < 1 {
        return Err(ParseError::UnexpectedEndOfInput);
    }
    let rest = vstd::slice::slice_subrange(input, 1, input.len());
    Ok((rest, input[0] == 1))
}

/// Reads one byte.
pub fn take_u8(input: &[u8]) -> (r: Result<(&[u8], u8), ParseError>)
    ensures
        input@.len() >= 1 <==> r is Ok,
        r matches Ok((rest, v)) ==> v == input@[0] && rest@ == input@.skip(1),
{
    if input.len() < 1 {
        return Err(ParseError::UnexpectedEndOfInput);
    }
    let rest = vstd::slice::slice_subrange(input, 1, input.len());
    Ok((rest, input[0]))
}

/// The wire form of a boolean.
pub fn bool_byte(b: bool) -> (r: u8)
    ensures
        r == (if b { 1u8 } else { 0u8 }),
{
    if b { 1 } else { 0 }
}

} // verus!
