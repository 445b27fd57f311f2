//! Decimal text of a byte, as the `numtoa` crate writes it.

use numtoa::NumToA;
use vstd::prelude::*;

verus! {

/// The ASCII code of the digit `0`.
pub const ASCII_ZERO: u8 = 48;

/// The decimal text of `n`, right-aligned in three bytes: the digits stand at
/// the end, and the bytes before the first digit are zero.
pub open spec fn right_aligned_decimal(n: u8) -> Seq<u8> {
    seq![
        if n > 99 { (48 + n / 100) as u8 } else { 0u8 },
        if n > 9 { (48 + (n / 10) % 10) as u8 } else { 0u8 },
        (48 + n % 10) as u8,
    ]
}

/// Calls `numtoa::NumToA::numtoa_str` on a `u8`, in base 10, with a zeroed
/// buffer of three bytes, and hands the buffer back.
///
/// Trusted: that the crate writes the ASCII decimal digits of `n` at the end
/// of the buffer and leaves the bytes before them as they were.
#[verifier::external_body]
pub(crate) fn decimal_text(n: u8) -> (text: [u8; 3])
    ensures
        text@ == right_aligned_decimal(n),
{
    let mut text = [0u8; 3];
    n.numtoa_str(10, &mut text);
    text
}

/// The last decimal digit of `n`, as a number.
pub fn last_digit(n: u8) -> (digit: u8)
    ensures
        digit == n % 10,
{
    let text = decimal_text(n);
    text[2] - ASCII_ZERO
}

} // verus!
