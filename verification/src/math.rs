//! Integer formulas used when presenting player data.

use vstd::prelude::*;

verus! {

/// The rank badge that belongs to a player level.
///
/// Negative levels have no badge (rank 0). Up to level 419 a new rank starts
/// every ten levels, levels 420 to 499 share rank 43, from 500 on a new rank
/// starts every hundred levels, and rank 49 is the highest.
pub open spec fn level_rank(level: int) -> int {
    if level < 0 {
        0
    } else if level < 420 {
        level / 10 + 1
    } else if level < 500 {
        43
    } else if level < 1000 {
        43 + (level - 400) / 100
    } else {
        49
    }
}

/// Determines the rank badge of a player from their level.
pub fn determine_level_rank(level: i32) -> (rank: i8)
    ensures
        rank == level_rank(level as int),
        0 <= rank <= 49,
{
    if level < 0 {
        0i8
    } else if level < 420 {
        (level / 10 + 1) as i8
    } else if level < 1000 {
        if level < 500 {
            43i8
        } else {
            (43 + (level - 400) / 100) as i8
        }
    } else {
        49i8
    }
}

} // verus!
