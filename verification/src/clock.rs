//! The two clocks that the daemon reads. What a clock shows is not known in advance, so
//! nothing is promised of a reading; the functions that take a reading as an argument say
//! what is done with it.

use vstd::prelude::*;
use crate::time::{Moment, Span, WallTime};

verus! {

/// `std::time::Instant`, carried as the origin of the monotonic clock and never looked into.
#[verifier::external_type_specification]
#[verifier::external_body]
pub struct ExInstant(std::time::Instant);

/// Calls `std::time::Instant::now`: the point from which a daemon counts its moments.
/// Nothing is claimed of the value.
#[verifier::external_body]
pub(crate) fn start_clock() -> (origin: std::time::Instant) {
    std::time::Instant::now()
}

/// Calls `std::time::Instant::elapsed`: the time that has passed since `origin`, which is
/// zero if the clock has not advanced. Nothing is claimed of the value.
#[verifier::external_body]
pub(crate) fn read_clock(origin: &std::time::Instant) -> (now: Moment) {
    Moment { nanos: origin.elapsed().as_nanos() }
}

/// Calls `std::time::SystemTime::elapsed` on `UNIX_EPOCH`: how far the wall clock stands
/// after the epoch or, where that call fails, how far before it. Nothing is claimed of
/// the value.
#[verifier::external_body]
pub(crate) fn read_wall_clock() -> (wall: WallTime) {
    match std::time::UNIX_EPOCH.elapsed() {
        Ok(after) => WallTime::After(Span { nanos: after.as_nanos() }),
        Err(before) => WallTime::Before(Span { nanos: before.duration().as_nanos() }),
    }
}

} // verus!
