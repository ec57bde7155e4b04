//! The day/night gate: a pure predicate over absolute timestamps.
//!
//! Sunrise and sunset are computed elsewhere (they depend on geographic
//! coordinates); this predicate only compares instants. Daytime starts
//! exactly at sunrise (inclusive) and ends exactly at sunset (exclusive).

use vstd::prelude::*;

verus! {

/// True exactly when `now` lies in the half-open interval
/// `[sunrise, sunset)`.
pub open spec fn daytime(sunrise: int, sunset: int, now: int) -> bool {
    sunrise <= now < sunset
}

/// Decides whether `now` is a daytime instant of the day whose sunrise and
/// sunset are given: true on `[sunrise, sunset)`, false outside.
pub fn is_daytime(sunrise: i64, sunset: i64, now: i64) -> (day: bool)
    ensures
        day == daytime(sunrise as int, sunset as int, now as int),
{
    sunrise <= now && now < sunset
}

} // verus!
