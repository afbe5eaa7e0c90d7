//! Random numbers, from the process-wide generator of `quad_rand`.

use vstd::prelude::*;

verus! {

/// Calls `quad_rand::gen_range::<u32>`. That function scales the next number
/// of its generator, a fraction from 0 up to but not including 1, onto the
/// distance from `low` to `high`, adds `low` and drops what follows the
/// point: the result is never under `low` and never over `high`. Nothing
/// else is claimed of it.
#[verifier::external_body]
fn gen_range(low: u32, high: u32) -> (r: u32)
    requires
        low <= high,
    ensures
        low <= r <= high,
{
    quad_rand::gen_range(low, high)
}

/// `drawn`, moved to the nearer end of `min ..= max` if it lies outside.
pub open spec fn within(drawn: int, min: int, max: int) -> int {
    if drawn < min {
        min
    } else if drawn > max {
        max
    } else {
        drawn
    }
}

/// Brings a drawn number into `min ..= max`.
pub fn settle(drawn: u32, min: u32, max: u32) -> (r: u32)
    ensures
        r as int == within(drawn as int, min as int, max as int),
        min <= max ==> min <= r <= max,
{
    if drawn < min {
        min
    } else if drawn > max {
        max
    } else {
        drawn
    }
}

/// A random whole number from `min` to `max`, both included. With
/// `max <= min` the result is `min`.
pub fn roll(min: u32, max: u32) -> (r: u32)
    ensures
        min <= max ==> min <= r <= max,
        max <= min ==> r == min,
{
    if max <= min {
        return min;
    }
    let top: u32 = if max < u32::MAX {
        max + 1
    } else {
        max
    };
    let drawn: u32 = gen_range(min, top);
    settle(drawn, min, max)
}

} // verus!
