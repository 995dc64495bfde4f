//! A candidate vehicle identification number together with the outcome of
//! validating it.

use vstd::prelude::*;
use vstd::string::StrSliceExecFns;
use crate::alphabet::{
    free_of_excluded, has_no_excluded, lemma_normalized_is_stable, normalize, normalized,
    transliterate_char, transliteration,
};
use crate::checksum::{
    check_digit_stands_for, checksum_consistent, lemma_term_bound, lemma_weighted_sum_bound,
    lemma_weighted_sum_push, weighted_sum, MODULUS,
};
use crate::weights::{position_weight, weight_at, CHECK_DIGIT_POSITION, WEIGHTED_POSITIONS};

verus! {

/// A candidate and the three facts that validation establishes about it.
///
/// The candidate is held in upper case. The three flags start out `false`;
/// [`Vin::validate`] gives each of them the answer to its own question, and
/// none of them depends on another. At any moment a flag that is set is true
/// of the candidate.
#[derive(Debug, PartialEq, Eq)]
pub struct Vin {
    _full_vin: String,
    _length_valid: bool,
    _chars_valid: bool,
    _checksum_valid: bool,
}

/// What a [`Vin`] holds, as mathematical values.
pub struct VinView {
    /// The candidate, in upper case.
    pub full_vin: Seq<char>,
    /// Whether the candidate has exactly seventeen characters.
    pub length_valid: bool,
    /// Whether the candidate is free of the letters `I`, `O` and `Q`.
    pub chars_valid: bool,
    /// Whether the candidate's ninth character is the check digit of the rest.
    pub checksum_valid: bool,
}

/// A candidate that has not been validated: every flag is `false`.
pub open spec fn unvalidated(s: Seq<char>) -> VinView {
    VinView { full_vin: s, length_valid: false, chars_valid: false, checksum_valid: false }
}

/// The outcome of validating the candidate `s`.
pub open spec fn validation(s: Seq<char>) -> VinView {
    VinView {
        full_vin: s,
        length_valid: s.len() == 17,
        chars_valid: free_of_excluded(s),
        checksum_valid: checksum_consistent(s),
    }
}

impl View for Vin {
    type V = VinView;

    closed spec fn view(&self) -> VinView {
        VinView {
            full_vin: self._full_vin@,
            length_valid: self._length_valid,
            chars_valid: self._chars_valid,
            checksum_valid: self._checksum_valid,
        }
    }
}

impl Vin {
    /// Holds of every `Vin` at every moment: the candidate is in upper case,
    /// and a flag that is set is true of the candidate.
    #[verifier::type_invariant]
    spec fn well_formed(&self) -> bool {
        &&& normalized(self._full_vin@) == self._full_vin@
        &&& self._length_valid ==> self._full_vin@.len() == 17
        &&& self._chars_valid ==> free_of_excluded(self._full_vin@)
        &&& self._checksum_valid ==> checksum_consistent(self._full_vin@)
    }

    /// Takes a candidate as it was typed, folds it to upper case, and leaves
    /// the three flags unset.
    pub fn new(raw: &str) -> (vin: Vin)
        ensures
            vin@ == unvalidated(normalized(raw@)),
    {
        proof {
            lemma_normalized_is_stable(raw@);
        }
        Vin {
            _full_vin: normalize(raw),
            _length_valid: false,
            _chars_valid: false,
            _checksum_valid: false,
        }
    }

    /// The candidate, which is in upper case.
    pub fn full_vin(&self) -> (s: &str)
        ensures
            s@ == self@.full_vin,
            normalized(s@) == s@,
    {
        proof {
            use_type_invariant(self);
        }
        self._full_vin.as_str()
    }

    /// Whether the candidate was found to have exactly seventeen characters.
    /// Before validation the answer is `false`; an answer of `true` is never
    /// wrong.
    pub fn length_valid(&self) -> (b: bool)
        ensures
            b == self@.length_valid,
            b ==> self@.full_vin.len() == 17,
    {
        proof {
            use_type_invariant(self);
        }
        self._length_valid
    }

    /// Whether the candidate was found free of the letters `I`, `O` and `Q`.
    /// Before validation the answer is `false`; an answer of `true` is never
    /// wrong.
    pub fn chars_valid(&self) -> (b: bool)
        ensures
            b == self@.chars_valid,
            b ==> free_of_excluded(self@.full_vin),
    {
        proof {
            use_type_invariant(self);
        }
        self._chars_valid
    }

    /// Whether the candidate's check digit was found to agree with the rest.
    /// Before validation the answer is `false`; an answer of `true` is never
    /// wrong.
    pub fn checksum_valid(&self) -> (b: bool)
        ensures
            b == self@.checksum_valid,
            b ==> checksum_consistent(self@.full_vin),
    {
        proof {
            use_type_invariant(self);
        }
        self._checksum_valid
    }

    /// The value of each character of the candidate, in order.
    pub fn _transliterate(&self) -> (values: Vec<u32>)
        ensures
            values@.len() == self@.full_vin.len(),
            forall|i: int|
                0 <= i < values@.len() ==> #[trigger] values@[i] == transliteration(
                    self@.full_vin[i],
                ),
    {
        let s = self._full_vin.as_str();
        let mut values: Vec<u32> = Vec::new();
        for c in it: s.chars()
            invariant
                it.seq() == s@,
                values@.len() == it.index(),
                forall|i: int|
                    0 <= i < values@.len() ==> #[trigger] values@[i] == transliteration(s@[i]),
        {
            values.push(transliterate_char(c));
        }
        values
    }

    /// The weight of each position of the candidate, in order.
    pub fn _weight(&self) -> (weights: Vec<u32>)
        ensures
            weights@.len() == self@.full_vin.len(),
            forall|i: int|
                0 <= i < weights@.len() ==> #[trigger] weights@[i] == position_weight(i + 1),
    {
        let n: usize = self._full_vin.as_str().unicode_len();
        let mut weights: Vec<u32> = Vec::new();
        let mut i: usize = 0;
        while i < n
            invariant
                i <= n,
                weights@.len() == i,
                forall|j: int|
                    0 <= j < weights@.len() ==> #[trigger] weights@[j] == position_weight(j + 1),
            decreases n - i,
        {
            weights.push(weight_at(i + 1));
            i += 1;
        }
        weights
    }

    /// Sets the checksum flag and leaves the rest as it was. The flag becomes
    /// `true` when the candidate has a ninth character and that character
    /// stands for the weighted sum of the candidate modulo eleven, and `false`
    /// otherwise. A candidate shorter than nine characters has no check
    /// digit, so its flag becomes `false`.
    pub fn _checksum(&mut self)
        ensures
            final(self)@ == (VinView {
                checksum_valid: checksum_consistent(old(self)@.full_vin),
                ..old(self)@
            }),
    {
        proof {
            use_type_invariant(&*self);
        }
        let values: Vec<u32> = self._transliterate();
        let weights: Vec<u32> = self._weight();
        let ghost s = self._full_vin@;
        let n: usize = values.len();
        let mut sum_product: u32 = 0;
        let mut i: usize = 0;
        while i < n
            invariant
                i <= n,
                n == s.len(),
                values@.len() == n,
                weights@.len() == n,
                forall|j: int| 0 <= j < n ==> #[trigger] values@[j] == transliteration(s[j]),
                forall|j: int| 0 <= j < n ==> #[trigger] weights@[j] == position_weight(j + 1),
                sum_product == weighted_sum(s.take(i as int)),
            decreases n - i,
        {
            proof {
                assert(s.take(i + 1) =~= s.take(i as int).push(s[i as int]));
                lemma_weighted_sum_push(s.take(i as int), s[i as int]);
                lemma_term_bound(s[i as int], i + 1);
                lemma_weighted_sum_bound(s.take(i as int));
            }
            sum_product = sum_product + values[i] * weights[i];
            i += 1;
        }
        proof {
            assert(s.take(n as int) =~= s);
        }
        let remainder: u32 = sum_product % MODULUS;
        if n >= CHECK_DIGIT_POSITION {
            let digit: char = self._full_vin.as_str().get_char(CHECK_DIGIT_POSITION - 1);
            self._checksum_valid = check_digit_stands_for(digit, remainder);
        } else {
            self._checksum_valid = false;
        }
    }

    /// Validates the candidate and records the outcome: whether it has
    /// seventeen characters, whether it is free of the letters `I`, `O` and
    /// `Q`, and whether its check digit agrees with the rest. The three
    /// answers are found independently of one another, and every candidate
    /// gets all three, whatever its length and whatever characters it holds.
    pub fn validate(&mut self)
        ensures
            final(self)@ == validation(old(self)@.full_vin),
    {
        proof {
            use_type_invariant(&*self);
        }
        self._chars_valid = has_no_excluded(self._full_vin.as_str());
        self._length_valid = self._full_vin.as_str().unicode_len() == WEIGHTED_POSITIONS;
        self._checksum();
    }
}

} // verus!
