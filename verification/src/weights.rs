//! The weight that each position of a vehicle identification number carries
//! in the check-digit sum.

use vstd::prelude::*;

verus! {

/// The number of positions that carry a weight.
pub const WEIGHTED_POSITIONS: usize = 17;

/// The position of the check digit, counted from one.
pub const CHECK_DIGIT_POSITION: usize = 9;

/// The weight of a position, counted from one. The check digit's own
/// position weighs nothing, and neither does any position past the
/// seventeenth.
pub open spec fn position_weight(position: int) -> nat {
    if position == 1 {
        8
    } else if position == 2 {
        7
    } else if position == 3 {
        6
    } else if position == 4 {
        5
    } else if position == 5 {
        4
    } else if position == 6 {
        3
    } else if position == 7 {
        2
    } else if position == 8 {
        10
    } else if position == 9 {
        0
    } else if position == 10 {
        9
    } else if position == 11 {
        8
    } else if position == 12 {
        7
    } else if position == 13 {
        6
    } else if position == 14 {
        5
    } else if position == 15 {
        4
    } else if position == 16 {
        3
    } else if position == 17 {
        2
    } else {
        0
    }
}

/// The weights of the seventeen positions, in order.
const WEIGHTS: [u32; 17] = [8, 7, 6, 5, 4, 3, 2, 10, 0, 9, 8, 7, 6, 5, 4, 3, 2];

/// The weight of a position, counted from one.
pub fn weight_at(position: usize) -> (w: u32)
    ensures
        w == position_weight(position as int),
{
    if 1 <= position && position <= WEIGHTED_POSITIONS {
        WEIGHTS[position - 1]
    } else {
        0
    }
}

/// No weight exceeds ten; only the first seventeen positions, and among
/// them all but the ninth, weigh anything.
pub proof fn lemma_position_weight_range(position: int)
    ensures
        position_weight(position) <= 10,
        position_weight(position) != 0 ==> 1 <= position <= 17 && position != 9,
        1 <= position <= 17 && position != 9 ==> 2 <= position_weight(position),
{
}

} // verus!
