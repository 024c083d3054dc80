//! Text conversions that the notification logic relies on.

use vstd::prelude::*;

verus! {

/// The upper-case form of `text` as `str::to_uppercase` computes it.
pub uninterp spec fn uppercase(text: Seq<char>) -> Seq<char>;

/// Calls `str::to_uppercase`. The contract claims only that the result is
/// a function of the characters of `text`, named [`uppercase`].
#[verifier::external_body]
pub(crate) fn to_uppercase(text: &str) -> (upper: String)
    ensures
        upper@ == uppercase(text@),
{
    text.to_uppercase()
}

/// The character that writes the decimal digit `d`.
pub open spec fn digit(d: nat) -> char {
    if d == 0 {
        '0'
    } else if d == 1 {
        '1'
    } else if d == 2 {
        '2'
    } else if d == 3 {
        '3'
    } else if d == 4 {
        '4'
    } else if d == 5 {
        '5'
    } else if d == 6 {
        '6'
    } else if d == 7 {
        '7'
    } else if d == 8 {
        '8'
    } else {
        '9'
    }
}

/// The decimal numeral of `n`: no sign, no leading zero, `"0"` for zero.
pub open spec fn decimal(n: nat) -> Seq<char>
    decreases n,
{
    if n < 10 {
        seq![digit(n)]
    } else {
        decimal(n / 10).push(digit(n % 10))
    }
}

/// Calls `u64::to_string`. The contract claims that the result is the
/// decimal numeral of `n`.
#[verifier::external_body]
pub(crate) fn decimal_string(n: u64) -> (numeral: String)
    ensures
        numeral@ == decimal(n as nat),
{
    n.to_string()
}

} // verus!
