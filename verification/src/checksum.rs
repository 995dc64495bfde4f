//! The check digit: the weighted sum of a candidate's characters, and the
//! test that the ninth character agrees with it.

use vstd::prelude::*;
use crate::alphabet::{
    decimal_digit, digit_value, is_decimal_digit, lemma_transliteration_range, transliteration,
};
use crate::weights::{lemma_position_weight_range, position_weight};

verus! {

/// The modulus of the check digit.
pub const MODULUS: u32 = 11;

/// The sum, over every position of `s`, of the value of the character there
/// times the weight of the position.
pub open spec fn weighted_sum(s: Seq<char>) -> nat
    decreases s.len(),
{
    if s.len() == 0 {
        0
    } else {
        weighted_sum(s.drop_last()) + transliteration(s.last()) * position_weight(s.len() as int)
    }
}

/// The character in the check digit's position, if `s` is long enough to
/// have one.
pub open spec fn check_digit(s: Seq<char>) -> Option<char> {
    if s.len() >= 9 {
        Some(s[8])
    } else {
        None
    }
}

/// True when the check digit `c` stands for `remainder`: the letter `X` stands
/// for ten, a decimal digit for the number it denotes, and no other character
/// stands for anything.
pub open spec fn stands_for(c: char, remainder: nat) -> bool {
    (c == 'X' && remainder == 10) || (is_decimal_digit(c) && digit_value(c) == remainder)
}

/// True when `s` has a check digit and it stands for the weighted sum of `s`
/// modulo eleven.
pub open spec fn checksum_consistent(s: Seq<char>) -> bool {
    match check_digit(s) {
        Some(c) => stands_for(c, weighted_sum(s) % 11),
        None => false,
    }
}

/// Tells whether the check digit `c` stands for `remainder`.
pub fn check_digit_stands_for(c: char, remainder: u32) -> (b: bool)
    ensures
        b == stands_for(c, remainder as nat),
{
    if c == 'X' {
        remainder == 10
    } else {
        match decimal_digit(c) {
            Some(d) => d == remainder,
            None => false,
        }
    }
}

/// One term of the weighted sum is at most ninety.
pub proof fn lemma_term_bound(c: char, position: int)
    ensures
        transliteration(c) * position_weight(position) <= 90,
        position_weight(position) == 0 ==> transliteration(c) * position_weight(position) == 0,
{
    lemma_transliteration_range(c);
    lemma_position_weight_range(position);
    let v = transliteration(c);
    let w = position_weight(position);
    assert(v * w <= 90) by (nonlinear_arith)
        requires
            v <= 9,
            w <= 10,
    ;
    assert(w == 0 ==> v * w == 0) by (nonlinear_arith);
}

/// Appending a character adds its value times the weight of the position it
/// lands in.
pub proof fn lemma_weighted_sum_push(s: Seq<char>, c: char)
    ensures
        weighted_sum(s.push(c)) == weighted_sum(s) + transliteration(c) * position_weight(
            s.len() as int + 1,
        ),
{
    assert(s.push(c).drop_last() =~= s);
}

/// The weighted sum never exceeds ninety for each weighted position, however
/// long the string is.
pub proof fn lemma_weighted_sum_bound(s: Seq<char>)
    ensures
        weighted_sum(s) <= 90 * s.len(),
        weighted_sum(s) <= 90 * 17,
    decreases s.len(),
{
    if s.len() > 0 {
        lemma_weighted_sum_bound(s.drop_last());
        lemma_term_bound(s.last(), s.len() as int);
        lemma_position_weight_range(s.len() as int);
    }
}

} // verus!
