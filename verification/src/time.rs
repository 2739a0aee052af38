//! Time as plain integers, counted in nanoseconds: lengths of time, points on the
//! daemon's monotonic clock, and readings of the wall clock.

use vstd::prelude::*;

verus! {

/// Nanoseconds in one second.
pub const NANOS_PER_SEC: u128 = 1_000_000_000;

/// Nanoseconds in one minute.
pub const NANOS_PER_MINUTE: u128 = 60_000_000_000;

/// The longest span that a timer accepts: `u64::MAX` seconds and 999,999,999 nanoseconds.
pub const MAX_TIMER_NANOS: u128 = 18_446_744_073_709_551_615_999_999_999;

/// A length of time in nanoseconds.
#[derive(Clone, Copy, Debug, PartialEq, Eq, Structural)]
pub struct Span {
    pub nanos: u128,
}

impl View for Span {
    type V = nat;

    open spec fn view(&self) -> nat {
        self.nanos as nat
    }
}

impl Span {
    /// The empty span.
    pub fn zero() -> (span: Span)
        ensures
            span@ == 0,
    {
        Span { nanos: 0 }
    }

    /// A span of whole seconds.
    pub fn from_secs(secs: u64) -> (span: Span)
        ensures
            span@ == secs * NANOS_PER_SEC,
    {
        let wide: u128 = secs as u128;
        Span { nanos: wide * NANOS_PER_SEC }
    }

    /// A span of `nanos` nanoseconds.
    pub fn from_nanos(nanos: u128) -> (span: Span)
        ensures
            span@ == nanos,
    {
        Span { nanos }
    }

    /// The longest span that a timer accepts; waiting for it stands for waiting without end.
    pub fn unbounded() -> (span: Span)
        ensures
            span@ == MAX_TIMER_NANOS,
    {
        Span { nanos: MAX_TIMER_NANOS }
    }

    /// The span as a timer takes it, in whole seconds and the nanoseconds beyond them; a
    /// span that is longer than any timer accepts is cut to the longest.
    pub fn timer_parts(&self) -> (parts: (u64, u32))
        ensures
            parts.1 < NANOS_PER_SEC,
            self@ <= MAX_TIMER_NANOS ==> parts.0 * NANOS_PER_SEC + parts.1 == self@,
            self@ > MAX_TIMER_NANOS ==> parts.0 * NANOS_PER_SEC + parts.1 == MAX_TIMER_NANOS,
    {
        let secs: u128 = self.nanos / NANOS_PER_SEC;
        if secs > u64::MAX as u128 {
            (u64::MAX, 999_999_999)
        } else {
            (secs as u64, (self.nanos % NANOS_PER_SEC) as u32)
        }
    }
}

/// A point on the daemon's monotonic clock: nanoseconds since the daemon started.
#[derive(Clone, Copy, Debug, PartialEq, Eq, Structural)]
pub struct Moment {
    pub nanos: u128,
}

impl View for Moment {
    type V = nat;

    open spec fn view(&self) -> nat {
        self.nanos as nat
    }
}

impl Moment {
    /// The moment `nanos` nanoseconds after the daemon started.
    pub fn from_nanos(nanos: u128) -> (moment: Moment)
        ensures
            moment@ == nanos,
    {
        Moment { nanos }
    }
}

/// A reading of the wall clock, as its distance from the UNIX epoch.
#[derive(Clone, Copy, Debug, PartialEq, Eq, Structural)]
pub enum WallTime {
    /// The clock stands this long after the epoch.
    After(Span),
    /// The clock stands this long before the epoch.
    Before(Span),
}

impl WallTime {
    /// Nanoseconds from the epoch to the reading; negative before the epoch.
    pub open spec fn offset(self) -> int {
        match self {
            WallTime::After(span) => span@ as int,
            WallTime::Before(span) => -(span@ as int),
        }
    }

    /// The reading `secs` whole seconds after the epoch.
    pub fn from_unix_secs(secs: u64) -> (wall: WallTime)
        ensures
            wall.offset() == secs * NANOS_PER_SEC,
    {
        WallTime::After(Span::from_secs(secs))
    }
}

} // verus!
