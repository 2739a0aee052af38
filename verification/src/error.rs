//! The ways in which the daemon's own time arithmetic can fail.

use vstd::prelude::*;

verus! {

/// A time that the daemon cannot represent. None of these is recoverable: the caller is
/// expected to stop the daemon rather than go on with a wrong deadline.
#[derive(Clone, Copy, Debug, PartialEq, Eq, Structural)]
pub enum DaemonError {
    /// The new deadline lies beyond the last moment of the monotonic clock.
    DeadlineOverflow,
    /// The wake-up time lies before the UNIX epoch.
    WakeTimeBeforeEpoch,
    /// The wake-up time, in epoch seconds, does not fit in 64 bits.
    WakeTimeOverflow,
}

} // verus!
