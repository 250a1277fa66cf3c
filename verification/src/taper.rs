//! One taper step of the UFCS current vote.

use vstd::prelude::*;
use crate::config::Config;

verus! {

/// `current` less the profile's taper step, but never below zero.
pub open spec fn spec_next(current: int, taper_step: int) -> int {
    if current - taper_step > 0 {
        current - taper_step
    } else {
        0
    }
}

/// Lowers `current` by `config.ufcs_taper_step_ma`, floored at zero.
pub fn next(current: i32, config: &Config) -> (r: i32)
    ensures
        r == spec_next(current as int, config.ufcs_taper_step_ma as int),
        0 <= r,
        r <= current || r == 0,
        r >= current - config.ufcs_taper_step_ma,
        r == 0 || r == current - config.ufcs_taper_step_ma,
{
    let lowered: i64 = current as i64 - config.ufcs_taper_step_ma as i64;
    if lowered > 0 {
        lowered as i32
    } else {
        0
    }
}

} // verus!
