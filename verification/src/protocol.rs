//! The values that control clients and the daemon exchange.

use vstd::prelude::*;
use crate::time::Span;

verus! {

/// An adjustment of the deadline until which the machine stays awake.
#[derive(Clone, Copy, Debug, PartialEq, Eq, Structural)]
pub enum DurationUpdate {
    /// Extend the deadline, counted from now if none is set.
    Add(Span),
    /// Shorten the deadline.
    Sub(Span),
    /// Replace the deadline by now plus the span.
    SetTo(Span),
}

/// What observers see of the daemon.
#[derive(Clone, Copy, Debug, PartialEq, Eq, Structural)]
pub struct Status {
    /// Whether the machine is being kept awake.
    pub active: bool,
    /// UNIX epoch seconds until which it is kept awake; 0 when inactive.
    pub wake_until: u64,
}

} // verus!
