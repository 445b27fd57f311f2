//! Answers as bytes, and the feedback records that grading hands out.

use crate::problem::{operands_in_range, solve, solve_operation};
use vstd::prelude::*;

verus! {

/// The number that an answer byte stands for: the byte read as a signed
/// eight-bit value in two's complement.
pub open spec fn signed_value(byte: u8) -> int {
    if byte > 127 { byte as int - 256 } else { byte as int }
}

/// The byte that stands for a signed eight-bit value in two's complement.
pub open spec fn byte_of(value: int) -> u8
    recommends
        -128 <= value <= 127,
{
    if value < 0 { (value + 256) as u8 } else { value as u8 }
}

/// An answer byte is correct for a record when it stands for the value of
/// the record's problem.
pub open spec fn is_correct(record: Seq<u8>, answer: u8) -> bool {
    signed_value(answer) == solve(record)
}

/// The twelve bytes of a feedback record: the ASCII text `Correct` or
/// `Incorrect`, followed by zeros.
pub open spec fn feedback_text(correct: bool) -> Seq<u8> {
    if correct {
        seq![67u8, 111u8, 114u8, 114u8, 101u8, 99u8, 116u8, 0u8, 0u8, 0u8, 0u8, 0u8]
    } else {
        seq![73u8, 110u8, 99u8, 111u8, 114u8, 114u8, 101u8, 99u8, 116u8, 0u8, 0u8, 0u8]
    }
}

/// Reads an answer byte as a signed value.
pub fn answer_value(byte: u8) -> (value: i8)
    ensures
        value as int == signed_value(byte),
{
    if byte > 127 {
        (byte as i16 - 256) as i8
    } else {
        byte as i8
    }
}

/// Writes a signed value as an answer byte.
pub fn answer_byte(value: i8) -> (byte: u8)
    ensures
        byte == byte_of(value as int),
        signed_value(byte) == value,
{
    if value < 0 {
        (value as i16 + 256) as u8
    } else {
        value as u8
    }
}

/// Tells whether an answer byte is correct for a record.
pub fn grade_answer(record: &[u8; 6], answer: u8) -> (correct: bool)
    requires
        operands_in_range(record@),
    ensures
        correct == is_correct(record@, answer),
{
    answer_value(answer) == solve_operation(record)
}

/// Writes the feedback record for one answer.
pub fn feedback_record(correct: bool) -> (record: [u8; 12])
    ensures
        record@ == feedback_text(correct),
{
    let record: [u8; 12] = if correct {
        [67, 111, 114, 114, 101, 99, 116, 0, 0, 0, 0, 0]
    } else {
        [73, 110, 99, 111, 114, 114, 101, 99, 116, 0, 0, 0]
    };
    assert(record@ =~= feedback_text(correct));
    record
}

} // verus!
