//! One ramp-up step of the UFCS current vote.

use vstd::prelude::*;
use crate::config::Config;

verus! {

/// `current + step`, stopped at `i32::MAX` as `i32::saturating_add_unsigned` stops it.
pub open spec fn saturated_sum(current: int, step: int) -> int {
    if current + step > i32::MAX as int {
        i32::MAX as int
    } else {
        current + step
    }
}

/// The vote after one ramp step, and whether the cap was reached: the vote
/// grows by `step` (saturating at `i32::MAX`); once that sum passes the
/// profile's cap, the cap is voted and the ramp is over.
pub open spec fn spec_next(current: int, step: int, max_vote: int) -> (int, bool) {
    let stepped = saturated_sum(current, step);
    if stepped > max_vote {
        (max_vote, true)
    } else {
        (stepped, false)
    }
}

/// Raises `current` by `step` (saturating), capped at
/// `config.ufcs_max_vote`; the flag tells whether the saturated sum passed
/// the cap.
pub fn next(current: i32, step: u32, config: &Config) -> (r: (i32, bool))
    ensures
        (r.0 as int, r.1) == spec_next(current as int, step as int, config.ufcs_max_vote as int),
        r.0 <= config.ufcs_max_vote,
        current + step <= config.ufcs_max_vote ==> r.0 == current + step && !r.1,
        r.1 <==> (current + step > config.ufcs_max_vote && config.ufcs_max_vote < i32::MAX),
        r.1 ==> r.0 == config.ufcs_max_vote,
        !r.1 ==> r.0 == current + step || r.0 == i32::MAX,
{
    let sum: i64 = current as i64 + step as i64;
    let stepped: i32 = if sum > i32::MAX as i64 {
        i32::MAX
    } else {
        sum as i32
    };
    if stepped > config.ufcs_max_vote {
        (config.ufcs_max_vote, true)
    } else {
        (stepped, false)
    }
}

} // verus!
