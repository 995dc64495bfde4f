//! What holds of every candidate: how the three flags answer to the string
//! that was typed, and how far the check digit guards against a mistyped
//! character.

use vstd::prelude::*;
use crate::alphabet::{
    free_of_excluded, is_excluded, is_permitted, lemma_transliteration_range, normalized,
    transliteration, upper,
};
use crate::checksum::{lemma_term_bound, weighted_sum};
use crate::vin::{unvalidated, validation, VinView};
use crate::weights::{lemma_position_weight_range, position_weight};

verus! {

/// The length flag is set exactly for the candidates that were typed with
/// seventeen characters.
pub proof fn lemma_length_valid(raw: Seq<char>)
    ensures
        validation(normalized(raw)).length_valid <==> raw.len() == 17,
{
}

/// The character flag is cleared exactly for the candidates in which one of
/// the letters `I`, `O`, `Q` occurs, in upper or in lower case.
pub proof fn lemma_chars_valid(raw: Seq<char>)
    ensures
        !validation(normalized(raw)).chars_valid <==> exists|i: int|
            0 <= i < raw.len() && (#[trigger] raw[i] == 'I' || raw[i] == 'i' || raw[i] == 'O'
                || raw[i] == 'o' || raw[i] == 'Q' || raw[i] == 'q'),
{
    let folded = normalized(raw);
    if free_of_excluded(folded) {
        assert forall|i: int| 0 <= i < raw.len() implies !(#[trigger] raw[i] == 'I' || raw[i]
            == 'i' || raw[i] == 'O' || raw[i] == 'o' || raw[i] == 'Q' || raw[i] == 'q') by {
            assert(!is_excluded(folded[i]));
        }
    } else {
        let i = choose|i: int| 0 <= i < folded.len() && is_excluded(#[trigger] folded[i]);
        assert(raw[i] == 'I' || raw[i] == 'i' || raw[i] == 'O' || raw[i] == 'o' || raw[i] == 'Q'
            || raw[i] == 'q');
    }
}

/// The character flag is set for every candidate that is drawn from the
/// alphabet alone, in upper or in lower case.
pub proof fn lemma_permitted_alphabet_is_valid(raw: Seq<char>)
    requires
        forall|i: int| 0 <= i < raw.len() ==> is_permitted(upper(#[trigger] raw[i])),
    ensures
        validation(normalized(raw)).chars_valid,
{
    let folded = normalized(raw);
    assert forall|i: int| 0 <= i < folded.len() implies !is_excluded(#[trigger] folded[i]) by {
        assert(is_permitted(upper(raw[i])));
    }
}

/// A candidate whose ninth character is `X` has its checksum flag set exactly
/// when its weighted sum leaves the remainder ten.
pub proof fn lemma_check_digit_x(s: Seq<char>)
    requires
        s.len() >= 9,
        s[8] == 'X',
    ensures
        validation(s).checksum_valid <==> weighted_sum(s) % 11 == 10,
{
}

/// A candidate shorter than nine characters never has its checksum flag set.
pub proof fn lemma_no_check_digit(s: Seq<char>)
    requires
        s.len() < 9,
    ensures
        !validation(s).checksum_valid,
{
}

/// Validation depends on the candidate alone, and validating the outcome
/// once more gives the same outcome: the flags a candidate had before play
/// no part.
pub proof fn lemma_validation_is_repeatable(first: VinView, second: VinView)
    requires
        first.full_vin == second.full_vin,
    ensures
        validation(first.full_vin) == validation(second.full_vin),
        validation(validation(first.full_vin).full_vin) == validation(first.full_vin),
        validation(unvalidated(first.full_vin).full_vin) == validation(first.full_vin),
{
}

/// Replacing one character changes the weighted sum by the difference of the
/// two values, times the weight of the position.
pub proof fn lemma_weighted_sum_update(s: Seq<char>, i: int, c: char)
    requires
        0 <= i < s.len(),
    ensures
        weighted_sum(s.update(i, c)) + transliteration(s[i]) * position_weight(i + 1)
            == weighted_sum(s) + transliteration(c) * position_weight(i + 1),
    decreases s.len(),
{
    let t = s.update(i, c);
    if i == s.len() - 1 {
        assert(t.drop_last() =~= s.drop_last());
    } else {
        assert(t.drop_last() =~= s.drop_last().update(i, c));
        lemma_weighted_sum_update(s.drop_last(), i, c);
    }
}

/// The positions past the seventeenth add nothing to the weighted sum.
pub proof fn lemma_weighted_sum_ignores_tail(s: Seq<char>)
    requires
        s.len() >= 17,
    ensures
        weighted_sum(s) == weighted_sum(s.take(17)),
    decreases s.len(),
{
    if s.len() == 17 {
        assert(s.take(17) =~= s);
    } else {
        assert(s.drop_last().take(17) =~= s.take(17));
        lemma_weighted_sum_ignores_tail(s.drop_last());
        lemma_term_bound(s.last(), s.len() as int);
    }
}

/// A weight times the difference of two distinct values is no multiple of
/// eleven.
proof fn lemma_not_a_multiple_of_eleven(w: int, d: int)
    requires
        1 <= w <= 10,
        -9 <= d <= 9,
        d != 0,
    ensures
        (w * d) % 11 != 0,
{
    if w == 1 {
        assert(w * d == d);
    } else if w == 2 {
        assert(w * d == 2 * d);
    } else if w == 3 {
        assert(w * d == 3 * d);
    } else if w == 4 {
        assert(w * d == 4 * d);
    } else if w == 5 {
        assert(w * d == 5 * d);
    } else if w == 6 {
        assert(w * d == 6 * d);
    } else if w == 7 {
        assert(w * d == 7 * d);
    } else if w == 8 {
        assert(w * d == 8 * d);
    } else if w == 9 {
        assert(w * d == 9 * d);
    } else {
        assert(w * d == 10 * d);
    }
}

/// The check digit guards every weighted position against a single mistyped
/// character. If a candidate with a consistent check digit has one character
/// replaced, the check digit stays consistent only in these cases: the
/// replaced character is the check digit itself and the new one is the same
/// character; or it stands in another of the first seventeen positions and
/// the new one has the same value; or it stands past the seventeenth
/// position, which carries no weight.
pub proof fn lemma_single_substitution(s: Seq<char>, i: int, c: char)
    requires
        validation(s).checksum_valid,
        0 <= i < s.len(),
    ensures
        validation(s.update(i, c)).checksum_valid <==> (if i == 8 {
            c == s[8]
        } else {
            i >= 17 || transliteration(c) == transliteration(s[i])
        }),
{
    let t = s.update(i, c);
    let w = position_weight(i + 1) as int;
    let old_value = transliteration(s[i]) as int;
    let new_value = transliteration(c) as int;
    lemma_weighted_sum_update(s, i, c);
    lemma_position_weight_range(i + 1);
    lemma_transliteration_range(s[i]);
    lemma_transliteration_range(c);
    assert(new_value * w - old_value * w == w * (new_value - old_value)) by (nonlinear_arith);
    assert(weighted_sum(t) == weighted_sum(s) + w * (new_value - old_value));
    if i == 8 || i >= 17 || new_value == old_value {
        assert(w * (new_value - old_value) == 0) by (nonlinear_arith)
            requires
                w == 0 || new_value == old_value,
        ;
        assert(weighted_sum(t) == weighted_sum(s));
    } else {
        lemma_not_a_multiple_of_eleven(w, new_value - old_value);
        assert(weighted_sum(t) % 11 != weighted_sum(s) % 11);
    }
}

} // verus!
