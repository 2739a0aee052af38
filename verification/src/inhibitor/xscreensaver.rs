//! The timer-reset mechanism: a periodic task resets the screen saver's idle timer.

use vstd::prelude::*;
use crate::inhibitor::Inhibitor;
use crate::time::Span;

verus! {

/// Bookkeeping of the timer-reset mechanism. `T` is the handle of the periodic task.
pub struct XScreensaver<T> {
    interval: Span,
    task: Option<T>,
}

impl<T> XScreensaver<T> {
    /// The time between two resets of the idle timer.
    pub closed spec fn period(&self) -> Span {
        self.interval
    }

    /// An inhibitor at rest that will reset the idle timer every `interval`.
    pub fn new(interval: Span) -> (inhibitor: Self)
        ensures
            inhibitor.handle() is None,
            inhibitor.period() == interval,
    {
        Self { interval, task: None }
    }

    /// The time between two resets of the idle timer.
    pub fn interval(&self) -> (interval: Span)
        ensures
            interval == self.period(),
    {
        self.interval
    }
}

impl<T> Inhibitor for XScreensaver<T> {
    type Handle = T;

    closed spec fn handle(&self) -> Option<T> {
        self.task
    }

    fn inhibit(&self) -> (acquire: bool) {
        self.task.is_none()
    }

    fn acquired(&mut self, handle: T) -> (surplus: Option<T>)
        ensures
            final(self).period() == old(self).period(),
    {
        if self.task.is_some() {
            Some(handle)
        } else {
            self.task = Some(handle);
            None
        }
    }

    fn uninhibit(&mut self) -> (released: Option<T>)
        ensures
            final(self).period() == old(self).period(),
    {
        self.task.take()
    }
}

} // verus!
