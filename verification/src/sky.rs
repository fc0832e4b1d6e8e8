use vstd::prelude::*;

verus! {

/// Number of altitude samples in an almanac day (15-minute intervals over 24 h).
pub const ALMANAC_STEPS: usize = 96;

/// Minutes per almanac sample.
pub const ALMANAC_STEP_MINUTES: i64 = 15;

/// The almanac sample that `minutes` after local midnight falls into: times
/// before midnight count as the first sample, times past the last sample as
/// the last one.
pub open spec fn almanac_step_of(minutes: int) -> int {
    let q = if minutes < 0 { 0 } else { minutes / 15 };
    if q > 95 { 95 } else { q }
}

/// Index of the almanac sample holding the current moment, given the minutes
/// elapsed since the start of the almanac day.
pub fn almanac_step(minutes: i64) -> (r: usize)
    ensures
        r == almanac_step_of(minutes as int),
        r < ALMANAC_STEPS,
{
    let q: i64 = if minutes < 0 { 0 } else { minutes / ALMANAC_STEP_MINUTES };
    if q > 95 {
        95
    } else {
        q as usize
    }
}

} // verus!
