//! Amounts that arrive as decimal text.

use crate::error::ValuationError;
use vstd::prelude::*;

verus! {

/// Whether `c` is one of the ASCII digits `0` to `9`.
pub open spec fn is_digit(c: char) -> bool {
    48 <= c as u32 && c as u32 <= 57
}

/// The number a run of digits denotes, most significant digit first.
pub open spec fn digits_value(digits: Seq<char>) -> nat
    decreases digits.len(),
{
    if digits.len() == 0 {
        0
    } else {
        digits_value(digits.drop_last()) * 10 + (digits.last() as u32 - 48) as nat
    }
}

/// `text` without the one `+` that may lead it.
pub open spec fn unsigned_part(text: Seq<char>) -> Seq<char> {
    if text.len() > 0 && text[0] == '+' {
        text.skip(1)
    } else {
        text
    }
}

/// Whether `text` is an amount: an optional `+`, then one or more ASCII
/// digits and nothing else, denoting a number of at most 128 bits.
pub open spec fn is_amount_text(text: Seq<char>) -> bool {
    let digits = unsigned_part(text);
    &&& digits.len() > 0
    &&& forall|i: int| 0 <= i < digits.len() ==> is_digit(#[trigger] digits[i])
    &&& digits_value(digits) <= u128::MAX
}

/// The number that an amount text denotes.
pub open spec fn amount_of_text(text: Seq<char>) -> nat {
    digits_value(unsigned_part(text))
}

/// Declares `cosmwasm_std::StdError`, the error of
/// `cosmwasm_std::Uint128::from_str`. Nothing is read of it.
#[verifier::external_type_specification]
#[verifier::external_body]
pub struct ExStdError(cosmwasm_std::StdError);

/// Calls `cosmwasm_std::Uint128::from_str`, which parses with
/// `str::parse::<u128>`.
///
/// Trusted: the call succeeds exactly on an optional `+` followed by one or
/// more ASCII digits whose value fits 128 bits, and then returns that value.
/// The empty text, a lone sign, a `-`, blanks, underscores and any other
/// character make it fail.
#[verifier::external_body]
fn uint128_from_str(text: &str) -> (r: Result<u128, cosmwasm_std::StdError>)
    ensures
        r is Ok <==> is_amount_text(text@),
        r matches Ok(value) ==> value == amount_of_text(text@),
{
    match <cosmwasm_std::Uint128 as core::str::FromStr>::from_str(text) {
        Ok(value) => Ok(value.u128()),
        Err(e) => Err(e),
    }
}

/// Reads an amount from decimal text.
pub fn parse_amount(text: &str) -> (r: Result<u128, ValuationError>)
    ensures
        is_amount_text(text@) ==> r == Ok::<u128, ValuationError>(amount_of_text(text@) as u128),
        !is_amount_text(text@) ==> r == Err::<u128, ValuationError>(ValuationError::ParseFailure),
{
    match uint128_from_str(text) {
        Ok(value) => Ok(value),
        Err(_) => Err(ValuationError::ParseFailure),
    }
}

} // verus!
