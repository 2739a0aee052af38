//! The synthetic-input mechanism: a periodic task samples the pointer and, while the
//! pointer rests, moves it by one unit and back, which resets the idle timer.

use vstd::prelude::*;
use crate::inhibitor::Inhibitor;
use crate::time::Span;

verus! {

/// The stretch of time, in nanoseconds, over which the pointer has to rest: one minute.
pub const REST_NANOS: u128 = 60_000_000_000;

/// How many samples the trailing window holds when one is taken every `interval`
/// nanoseconds: as many as it takes to span the rest time, rounded up, and one more;
/// cut off at the largest number of samples that a window can hold, which also stands
/// for an interval of zero.
pub open spec fn window_len_for(interval: nat) -> nat {
    if interval == 0 {
        usize::MAX as nat
    } else {
        let samples = (REST_NANOS as nat + interval - 1) as nat / interval + 1;
        if samples > usize::MAX {
            usize::MAX as nat
        } else {
            samples
        }
    }
}

/// The window after `position` was sampled: the sample is appended, and the oldest
/// samples leave until no more than `capacity` are left.
pub open spec fn slide(samples: Seq<Point>, position: Point, capacity: nat) -> Seq<Point> {
    let longer = samples.push(position);
    if longer.len() > capacity {
        longer.subrange(longer.len() - capacity, longer.len() as int)
    } else {
        longer
    }
}

/// Whether every sample in the window is `position`: the pointer has not moved.
pub open spec fn at_rest(samples: Seq<Point>, position: Point) -> bool {
    forall|i: int| 0 <= i < samples.len() ==> samples[i] == position
}

/// A pointer position on the screen, or a step between two of them.
#[derive(Clone, Copy, Debug, PartialEq, Eq, Structural)]
pub struct Point {
    pub x: i32,
    pub y: i32,
}

/// The two moves that reset the idle timer without displacing the pointer.
#[derive(Clone, Copy, Debug, PartialEq, Eq, Structural)]
pub struct Jitter {
    /// First move, relative to where the pointer is.
    pub nudge: Point,
    /// Second move, to this absolute position: where the pointer was.
    pub restore: Point,
}

/// The jitter for a pointer that rests at `position`: one unit down, then back.
pub open spec fn jitter_at(position: Point) -> Jitter {
    Jitter { nudge: Point { x: 0, y: 1 }, restore: position }
}

/// The trailing window of pointer samples.
pub struct JitterWindow {
    history: Vec<Point>,
    history_len: usize,
}

impl JitterWindow {
    /// The samples in the window, oldest first.
    pub closed spec fn samples(&self) -> Seq<Point> {
        self.history@
    }

    /// The most samples that the window holds.
    pub closed spec fn capacity(&self) -> nat {
        self.history_len as nat
    }

    /// An empty window for `capacity` samples.
    pub fn new(capacity: usize) -> (window: JitterWindow)
        ensures
            window.samples() == Seq::<Point>::empty(),
            window.capacity() == capacity,
    {
        JitterWindow { history: Vec::new(), history_len: capacity }
    }

    /// Adds the sample `position` and says what to do: jitter if the pointer has rested
    /// at `position` for all of the window, nothing if it has moved.
    pub fn observe(&mut self, position: Point) -> (jitter: Option<Jitter>)
        ensures
            final(self).samples() == slide(old(self).samples(), position, old(self).capacity()),
            final(self).capacity() == old(self).capacity(),
            at_rest(final(self).samples(), position) ==> jitter == Some(jitter_at(position)),
            !at_rest(final(self).samples(), position) ==> jitter is None,
    {
        self.history.push(position);
        let ghost longer = self.history@;
        let ghost mut removed: int = 0;
        // the window keeps the most recent samples only
        while self.history.len() > self.history_len
            invariant
                self.history_len == old(self).history_len,
                0 <= removed <= longer.len(),
                self.history@ == longer.subrange(removed, longer.len() as int),
                removed == 0 || self.history@.len() >= self.history_len,
            decreases self.history@.len(),
        {
            self.history.remove(0);
            proof {
                removed = removed + 1;
            }
        }
        assert(self.history@ =~= slide(old(self).samples(), position, old(self).capacity()));
        let mut index: usize = 0;
        while index < self.history.len()
            invariant
                self.history_len == old(self).history_len,
                self.history@ == slide(old(self).samples(), position, old(self).capacity()),
                index <= self.history@.len(),
                forall|i: int| 0 <= i < index ==> self.history@[i] == position,
            decreases self.history@.len() - index,
        {
            let sample = self.history[index];
            if sample != position {
                return None;
            }
            index += 1;
        }
        Some(Jitter { nudge: Point { x: 0, y: 1 }, restore: position })
    }
}

/// Bookkeeping of the synthetic-input mechanism. `T` is the handle of the periodic task.
pub struct MouseJitter<T> {
    interval: Span,
    task: Option<T>,
}

impl<T> MouseJitter<T> {
    /// The time between two samples of the pointer.
    pub closed spec fn period(&self) -> Span {
        self.interval
    }

    /// An inhibitor at rest that will sample the pointer every `jitter_interval`.
    pub fn new(jitter_interval: Span) -> (inhibitor: Self)
        ensures
            inhibitor.handle() is None,
            inhibitor.period() == jitter_interval,
    {
        Self { interval: jitter_interval, task: None }
    }

    /// The time between two samples of the pointer.
    pub fn interval(&self) -> (interval: Span)
        ensures
            interval == self.period(),
    {
        self.interval
    }

    /// How many samples the trailing window of this inhibitor holds.
    pub fn window_len(&self) -> (len: usize)
        ensures
            len == window_len_for(self.period()@),
    {
        let interval: u128 = self.interval.nanos;
        if interval == 0 {
            return usize::MAX;
        }
        let whole: u128 = REST_NANOS / interval;
        let samples: u128 = if REST_NANOS % interval == 0 {
            whole + 1
        } else {
            whole + 2
        };
        assert(samples == (REST_NANOS as nat + interval - 1) as nat / (interval as nat) + 1) by {
            ceiling_by_remainder(REST_NANOS as nat, interval as nat);
        }
        if samples > usize::MAX as u128 {
            usize::MAX
        } else {
            samples as usize
        }
    }

    /// The empty window that the periodic task starts with.
    pub fn window(&self) -> (window: JitterWindow)
        ensures
            window.samples() == Seq::<Point>::empty(),
            window.capacity() == window_len_for(self.period()@),
    {
        JitterWindow::new(self.window_len())
    }
}

/// Rounding a quotient up is the same as adding one to it where a remainder is left.
proof fn ceiling_by_remainder(amount: nat, unit: nat)
    requires
        unit > 0,
    ensures
        (amount + unit - 1) as nat / unit == if amount % unit == 0 {
            amount / unit
        } else {
            amount / unit + 1
        },
{
    let whole = amount / unit;
    let rest = amount % unit;
    assert(amount == unit * whole + rest) by {
        vstd::arithmetic::div_mod::lemma_fundamental_div_mod(amount as int, unit as int);
    }
    if rest == 0 {
        assert(whole * unit == unit * whole) by (nonlinear_arith);
        vstd::arithmetic::div_mod::lemma_fundamental_div_mod_converse(
            (amount + unit - 1) as int,
            unit as int,
            whole as int,
            (unit - 1) as int,
        );
    } else {
        assert((whole + 1) * unit == unit * whole + unit) by (nonlinear_arith);
        vstd::arithmetic::div_mod::lemma_fundamental_div_mod_converse(
            (amount + unit - 1) as int,
            unit as int,
            whole as int + 1,
            (rest - 1) as int,
        );
    }
}

impl<T> Inhibitor for MouseJitter<T> {
    type Handle = T;

    closed spec fn handle(&self) -> Option<T> {
        self.task
    }

    fn inhibit(&self) -> (acquire: bool) {
        self.task.is_none()
    }

    fn acquired(&mut self, handle: T) -> (surplus: Option<T>)
        ensures
            final(self).period() == old(self).period(),
    {
        if self.task.is_some() {
            Some(handle)
        } else {
            self.task = Some(handle);
            None
        }
    }

    fn uninhibit(&mut self) -> (released: Option<T>)
        ensures
            final(self).period() == old(self).period(),
    {
        self.task.take()
    }
}

} // verus!
