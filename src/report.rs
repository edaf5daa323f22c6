use vstd::prelude::*;

use crate::compare::Verdict;
use crate::operation::Operation;

verus! {

/// The lowercase hex digit of a value below sixteen.
pub open spec fn hex_digit(n: int) -> char {
    if n < 10 {
        (48 + n) as char
    } else {
        (87 + n) as char
    }
}

/// Lowercase hex text of a byte sequence: two digits per byte, high nibble
/// first.
pub open spec fn hex_lower(b: Seq<u8>) -> Seq<char>
    decreases b.len(),
{
    if b.len() == 0 {
        Seq::empty()
    } else {
        seq![hex_digit(b[0] as int / 16), hex_digit(b[0] as int % 16)] + hex_lower(b.drop_first())
    }
}

/// Relies on hex::encode: two lowercase hex digits per byte, in order.
#[verifier::external_body]
fn encode_hex(data: &[u8]) -> (r: String)
    ensures
        r@ == hex_lower(data@),
{
    ::hex::encode(data)
}

/// What the driver reports when the oracles disagree: the operation, the
/// verdict, and the input buffer as hex text so that it can be replayed.
#[derive(Debug)]
pub struct Mismatch {
    pub operation: Operation,
    pub verdict: Verdict,
    pub input_hex: String,
}

impl Mismatch {
    pub fn new(operation: Operation, verdict: Verdict, input: &[u8]) -> (r: Mismatch)
        ensures
            r.operation == operation,
            r.verdict == verdict,
            r.input_hex@ == hex_lower(input@),
    {
        Mismatch { operation, verdict, input_hex: encode_hex(input) }
    }
}

} // verus!
