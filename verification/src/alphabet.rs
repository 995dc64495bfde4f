//! The characters of a vehicle identification number: case folding, the
//! letters that never occur in one, and the number that stands for each
//! character when the check digit is computed.

use vstd::prelude::*;

verus! {

/// `String::push` of the standard library appends one character to the end of
/// a string and changes nothing else. Nothing here proves it: it is taken
/// from the documentation of the standard library.
pub assume_specification[ String::push ](s: &mut String, c: char)
    ensures
        final(s)@ == old(s)@.push(c),
;

/// The upper-case form of a character: an ASCII letter `a`..`z` becomes the
/// matching letter `A`..`Z`, every other character is left as it is.
pub open spec fn upper(c: char) -> char {
    if 'a' <= c <= 'z' {
        ((c as int) - 32) as char
    } else {
        c
    }
}

/// A string with every character replaced by its upper-case form.
pub open spec fn normalized(s: Seq<char>) -> Seq<char> {
    Seq::new(s.len(), |i: int| upper(s[i]))
}

/// The letters `I`, `O` and `Q` are left out of the alphabet because they are
/// too easily mistaken for the digits `1` and `0`.
pub open spec fn is_excluded(c: char) -> bool {
    c == 'I' || c == 'O' || c == 'Q'
}

/// True when none of the excluded letters occurs in `s`.
pub open spec fn free_of_excluded(s: Seq<char>) -> bool {
    forall|i: int| 0 <= i < s.len() ==> !is_excluded(#[trigger] s[i])
}

/// The alphabet of a vehicle identification number: the decimal digits and
/// the upper-case letters other than the excluded three.
pub open spec fn is_permitted(c: char) -> bool {
    is_decimal_digit(c) || ('A' <= c <= 'Z' && !is_excluded(c))
}

/// The decimal digits `0`..`9`.
pub open spec fn is_decimal_digit(c: char) -> bool {
    '0' <= c <= '9'
}

/// The number a decimal digit denotes.
pub open spec fn digit_value(c: char) -> nat
    recommends
        is_decimal_digit(c),
{
    (c as int - '0' as int) as nat
}

/// The number that stands for a character in the weighted sum. A digit stands
/// for itself, a letter of the alphabet for the number the standard table
/// gives it, and anything else (an excluded letter, a lower-case letter, a
/// symbol, a blank) for zero.
pub open spec fn transliteration(c: char) -> nat {
    match c {
        'A' => 1,
        'B' => 2,
        'C' => 3,
        'D' => 4,
        'E' => 5,
        'F' => 6,
        'G' => 7,
        'H' => 8,
        'J' => 1,
        'K' => 2,
        'L' => 3,
        'M' => 4,
        'N' => 5,
        'P' => 7,
        'R' => 9,
        'S' => 2,
        'T' => 3,
        'U' => 4,
        'V' => 5,
        'W' => 6,
        'X' => 7,
        'Y' => 8,
        'Z' => 9,
        _ => if is_decimal_digit(c) {
            digit_value(c)
        } else {
            0
        },
    }
}

/// Folds one character to upper case.
pub fn to_upper(c: char) -> (u: char)
    ensures
        u == upper(c),
{
    if 'a' <= c && c <= 'z' {
        ((c as u8) - 32) as char
    } else {
        c
    }
}

/// Folds a string to upper case, character by character.
pub fn normalize(raw: &str) -> (folded: String)
    ensures
        folded@ == normalized(raw@),
{
    let mut folded = String::new();
    for c in it: raw.chars()
        invariant
            it.seq() == raw@,
            folded@ == normalized(raw@.take(it.index())),
    {
        proof {
            assert(normalized(raw@.take(it.index() + 1)) =~= normalized(
                raw@.take(it.index()),
            ).push(upper(c)));
        }
        folded.push(to_upper(c));
    }
    proof {
        assert(raw@.take(raw@.len() as int) =~= raw@);
    }
    folded
}

/// Tells whether a string is free of the excluded letters.
pub fn has_no_excluded(s: &str) -> (b: bool)
    ensures
        b == free_of_excluded(s@),
{
    let mut free: bool = true;
    for c in it: s.chars()
        invariant
            it.seq() == s@,
            free == free_of_excluded(s@.take(it.index())),
    {
        proof {
            assert(s@.take(it.index() + 1) =~= s@.take(it.index()).push(c));
            lemma_free_of_excluded_push(s@.take(it.index()), c);
        }
        if c == 'I' || c == 'O' || c == 'Q' {
            free = false;
        }
    }
    proof {
        assert(s@.take(s@.len() as int) =~= s@);
    }
    free
}

/// The value of a decimal digit, or `None` for any other character.
pub fn decimal_digit(c: char) -> (d: Option<u32>)
    ensures
        d is Some <==> is_decimal_digit(c),
        d is Some ==> d->0 == digit_value(c),
{
    if '0' <= c && c <= '9' {
        Some((c as u32) - ('0' as u32))
    } else {
        None
    }
}

/// The value of one character in the weighted sum.
pub fn transliterate_char(c: char) -> (v: u32)
    ensures
        v == transliteration(c),
{
    match c {
        '0' => 0,
        '1' | 'A' | 'J' => 1,
        '2' | 'B' | 'K' | 'S' => 2,
        '3' | 'C' | 'L' | 'T' => 3,
        '4' | 'D' | 'M' | 'U' => 4,
        '5' | 'E' | 'N' | 'V' => 5,
        '6' | 'F' | 'W' => 6,
        '7' | 'G' | 'P' | 'X' => 7,
        '8' | 'H' | 'Y' => 8,
        '9' | 'R' | 'Z' => 9,
        _ => 0,
    }
}

/// Folding to upper case keeps the length of a string, and folding a folded
/// string changes nothing.
pub proof fn lemma_normalized_is_stable(raw: Seq<char>)
    ensures
        normalized(raw).len() == raw.len(),
        normalized(normalized(raw)) == normalized(raw),
{
    assert(normalized(normalized(raw)) =~= normalized(raw));
}

/// A string extended by one character is free of the excluded letters exactly
/// when the string was and the new character is not one of them.
pub proof fn lemma_free_of_excluded_push(s: Seq<char>, c: char)
    ensures
        free_of_excluded(s.push(c)) <==> free_of_excluded(s) && !is_excluded(c),
{
    let t = s.push(c);
    if free_of_excluded(t) {
        assert(t[s.len() as int] == c);
        assert forall|i: int| 0 <= i < s.len() implies !is_excluded(#[trigger] s[i]) by {
            assert(t[i] == s[i]);
        }
    }
}

/// Every character's value is a single decimal digit, and a decimal digit's
/// value is the number it denotes.
pub proof fn lemma_transliteration_range(c: char)
    ensures
        transliteration(c) <= 9,
        is_decimal_digit(c) ==> transliteration(c) == digit_value(c),
{
}

} // verus!
