use vstd::prelude::*;

verus! {

/// Percent paid on a referred investment: 10 at level 1, 2 at level 2, and
/// 1 at every other level.
pub open spec fn referral_rate_of(level: u8) -> u64 {
    if level == 1 {
        10
    } else if level == 2 {
        2
    } else {
        1
    }
}

/// Percent of a referral's daily earnings that is matched, by generation:
/// 30 for the first, 10 up to the fifth, 8 up to the tenth, 5 up to the
/// fifteenth, 1 up to the twentieth, and nothing otherwise.
pub open spec fn matching_rate_of(generation: u8) -> u64 {
    if generation == 1 {
        30
    } else if 2 <= generation <= 5 {
        10
    } else if 6 <= generation <= 10 {
        8
    } else if 11 <= generation <= 15 {
        5
    } else if 16 <= generation <= 20 {
        1
    } else {
        0
    }
}

/// Looks up the referral commission rate, in percent, for a level.
pub fn referral_rate(level: u8) -> (r: u64)
    ensures
        r == referral_rate_of(level),
        1 <= r <= 10,
{
    match level {
        1 => 10,
        2 => 2,
        _ => 1,
    }
}

/// Looks up the matching bonus rate, in percent, for a generation.
pub fn matching_rate(generation: u8) -> (r: u64)
    ensures
        r == matching_rate_of(generation),
        r <= 30,
{
    match generation {
        1 => 30,
        2..=5 => 10,
        6..=10 => 8,
        11..=15 => 5,
        16..=20 => 1,
        _ => 0,
    }
}

} // verus!
