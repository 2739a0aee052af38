//! The daemon's state machine: the one deadline, how events change it, and what the
//! event loop has to do after each event.

use vstd::prelude::*;
use crate::clock::{read_clock, read_wall_clock, start_clock};
use crate::deadline::{apply, apply_outcome};
use crate::error::DaemonError;
use crate::protocol::{DurationUpdate, Status};
use crate::time::{Moment, Span, WallTime, NANOS_PER_SEC};

verus! {

/// What the event loop hands to the state machine.
#[derive(Clone, Copy, Debug, PartialEq, Eq, Structural)]
pub enum DaemonEvent {
    /// A client asked to change the deadline.
    DurationUpdate(DurationUpdate),
    /// A client asked for the status.
    StatusRequest,
    /// The timer armed for the current deadline fired.
    Deadline,
    /// The process was told to terminate.
    ExitSignal,
    /// The control channel was closed.
    DbusServiceExit,
}

/// What the inhibitor is told after the deadline was re-evaluated.
#[derive(Clone, Copy, Debug, PartialEq, Eq, Structural)]
pub enum InhibitorCommand {
    /// Keep the machine awake; a no-op if it already is.
    Inhibit,
    /// Let the machine sleep; a no-op if it already may.
    Uninhibit,
}

/// What the event loop does after an event.
#[derive(Clone, Copy, Debug, PartialEq, Eq, Structural)]
pub enum Reaction {
    /// The deadline was re-evaluated: give `command` to the inhibitor and, if `notify`,
    /// tell subscribers once that the status changed.
    Transition { command: InhibitorCommand, notify: bool },
    /// Answer the query with this status.
    Reply(Status),
    /// Leave the loop after giving `command` to the inhibitor: a cookie or a lease
    /// would otherwise outlive the daemon.
    Exit { command: InhibitorCommand },
}

/// One event together with the clock readings taken when it was handled.
pub struct Tick {
    pub event: DaemonEvent,
    pub now: Moment,
    pub wall: WallTime,
}

/// The command that matches a deadline: inhibit while one is set, uninhibit otherwise.
pub open spec fn command_for(deadline: Option<Moment>) -> InhibitorCommand {
    if deadline is Some {
        InhibitorCommand::Inhibit
    } else {
        InhibitorCommand::Uninhibit
    }
}

/// How long the deadline is still ahead of `now`; zero once it has passed.
pub open spec fn remaining(deadline: Moment, now: Moment) -> nat {
    if deadline@ > now@ {
        (deadline@ - now@) as nat
    } else {
        0
    }
}

/// The status of a daemon with this deadline, read at `now` on the monotonic clock and
/// at `wall` on the wall clock: inactive without a deadline; otherwise active until the
/// wall-clock time that lies as far ahead as the deadline does, in whole epoch seconds.
pub open spec fn status_outcome(deadline: Option<Moment>, now: Moment, wall: WallTime) -> Result<
    Status,
    DaemonError,
> {
    match deadline {
        None => Ok(Status { active: false, wake_until: 0 }),
        Some(deadline) => {
            let wake = wall.offset() + remaining(deadline, now);
            if wake < 0 {
                Err(DaemonError::WakeTimeBeforeEpoch)
            } else if wake / (NANOS_PER_SEC as int) > u64::MAX {
                Err(DaemonError::WakeTimeOverflow)
            } else {
                Ok(Status { active: true, wake_until: (wake / (NANOS_PER_SEC as int)) as u64 })
            }
        },
    }
}

/// The deadline and the reaction after `event`, or the error that leaves the deadline
/// as it was.
///
/// An update re-evaluates the deadline and notifies exactly if the deadline changed. The
/// timer clears the deadline and notifies exactly if one was set. A query changes
/// nothing. A termination signal and the end of the control channel leave the deadline
/// and end the loop, with the inhibitor released.
pub open spec fn step(deadline: Option<Moment>, event: DaemonEvent, now: Moment, wall: WallTime)
    -> Result<(Option<Moment>, Reaction), DaemonError> {
    match event {
        DaemonEvent::DurationUpdate(update) => match apply_outcome(deadline, update, now) {
            Ok(next) => Ok(
                (
                    next,
                    Reaction::Transition { command: command_for(next), notify: next != deadline },
                ),
            ),
            Err(error) => Err(error),
        },
        DaemonEvent::StatusRequest => match status_outcome(deadline, now, wall) {
            Ok(status) => Ok((deadline, Reaction::Reply(status))),
            Err(error) => Err(error),
        },
        DaemonEvent::Deadline => Ok(
            (
                None,
                Reaction::Transition {
                    command: InhibitorCommand::Uninhibit,
                    notify: deadline is Some,
                },
            ),
        ),
        DaemonEvent::ExitSignal => Ok(
            (deadline, Reaction::Exit { command: InhibitorCommand::Uninhibit }),
        ),
        DaemonEvent::DbusServiceExit => Ok(
            (deadline, Reaction::Exit { command: InhibitorCommand::Uninhibit }),
        ),
    }
}

/// `outcome` and the deadline `after` are what `update`, applied at `now`, makes of the
/// deadline `before`.
pub open spec fn updated(
    before: Option<Moment>,
    update: DurationUpdate,
    now: Moment,
    outcome: Result<(), DaemonError>,
    after: Option<Moment>,
) -> bool {
    match apply_outcome(before, update, now) {
        Ok(next) => outcome == Ok::<(), DaemonError>(()) && after == next,
        Err(error) => outcome == Err::<(), DaemonError>(error) && after == before,
    }
}

/// `outcome` and the deadline `after` are what `step` gives for the deadline `before`.
pub open spec fn stepped(
    before: Option<Moment>,
    event: DaemonEvent,
    now: Moment,
    wall: WallTime,
    outcome: Result<Reaction, DaemonError>,
    after: Option<Moment>,
) -> bool {
    match step(before, event, now, wall) {
        Ok((next, reaction)) => outcome == Ok::<Reaction, DaemonError>(reaction) && after == next,
        Err(error) => outcome == Err::<Reaction, DaemonError>(error) && after == before,
    }
}

/// The wait that the timer is armed with: none without a deadline, else the time left.
pub open spec fn timer_for(deadline: Option<Moment>, now: Moment) -> Option<Span> {
    match deadline {
        None => None,
        Some(deadline) => Some(Span { nanos: remaining(deadline, now) as u128 }),
    }
}

/// The daemon: the single deadline until which the machine stays awake, and the origin
/// of the clock it is measured on.
pub struct Daemon {
    // None: the machine is free to sleep
    wake_until: Option<Moment>,
    origin: std::time::Instant,
}

impl Daemon {
    /// The deadline; `None` while the daemon is idle.
    pub closed spec fn deadline(&self) -> Option<Moment> {
        self.wake_until
    }

    /// The origin of the daemon's monotonic clock.
    pub closed spec fn clock(&self) -> std::time::Instant {
        self.origin
    }

    /// An idle daemon whose clock starts now.
    pub fn new() -> (daemon: Daemon)
        ensures
            daemon.deadline() is None,
    {
        Daemon { wake_until: None, origin: start_clock() }
    }

    /// The deadline; `None` while the daemon is idle.
    pub fn wake_until(&self) -> (deadline: Option<Moment>)
        ensures
            deadline == self.deadline(),
    {
        self.wake_until
    }

    /// The current reading of the daemon's monotonic clock.
    fn now(&self) -> Moment {
        read_clock(&self.origin)
    }

    /// Applies `update` at the clock reading `now`. On an error the deadline stays.
    pub fn update_duration_at(&mut self, update: DurationUpdate, now: Moment) -> (outcome: Result<
        (),
        DaemonError,
    >)
        ensures
            updated(old(self).deadline(), update, now, outcome, final(self).deadline()),
            final(self).clock() == old(self).clock(),
    {
        match apply(self.wake_until, update, now) {
            Ok(next) => {
                self.wake_until = next;
                Ok(())
            },
            Err(error) => Err(error),
        }
    }

    /// Applies `update` at the current reading of the clock: whatever the clock shows,
    /// the result is that of `update_duration_at` for some reading.
    pub fn update_duration(&mut self, update: DurationUpdate) -> (outcome: Result<(), DaemonError>)
        ensures
            exists|now: Moment| #[trigger]
                updated(old(self).deadline(), update, now, outcome, final(self).deadline()),
            final(self).clock() == old(self).clock(),
    {
        let now = self.now();
        self.update_duration_at(update, now)
    }

    /// The command for the inhibitor in the current state. It is given after every
    /// re-evaluation, also when nothing changed, so that a failed call is tried again.
    pub fn update_inhibitor(&self) -> (command: InhibitorCommand)
        ensures
            command == command_for(self.deadline()),
    {
        match self.wake_until {
            None => InhibitorCommand::Uninhibit,
            Some(_) => InhibitorCommand::Inhibit,
        }
    }

    /// The status at the clock readings `now` and `wall`.
    pub fn status_at(&self, now: Moment, wall: WallTime) -> (outcome: Result<Status, DaemonError>)
        ensures
            outcome == status_outcome(self.deadline(), now, wall),
    {
        let deadline = match self.wake_until {
            None => {
                return Ok(Status { wake_until: 0, active: false });
            },
            Some(deadline) => deadline,
        };
        let wake_after: u128 = deadline.nanos.saturating_sub(now.nanos);
        let wake: u128 = match wall {
            WallTime::After(since) => match since.nanos.checked_add(wake_after) {
                Some(wake) => wake,
                None => {
                    return Err(DaemonError::WakeTimeOverflow);
                },
            },
            WallTime::Before(until) => {
                if wake_after < until.nanos {
                    return Err(DaemonError::WakeTimeBeforeEpoch);
                }
                wake_after - until.nanos
            },
        };
        let secs: u128 = wake / NANOS_PER_SEC;
        if secs > u64::MAX as u128 {
            return Err(DaemonError::WakeTimeOverflow);
        }
        Ok(Status { wake_until: secs as u64, active: true })
    }

    /// The status at the current readings of the clocks: whatever they show, the result
    /// is that of `status_at` for some readings. An idle daemon reads no clock.
    pub fn status(&self) -> (outcome: Result<Status, DaemonError>)
        ensures
            exists|now: Moment, wall: WallTime| outcome == #[trigger] status_outcome(
                self.deadline(),
                now,
                wall,
            ),
            self.deadline() is None ==> outcome == Ok::<Status, DaemonError>(
                Status { active: false, wake_until: 0 },
            ),
    {
        if self.wake_until.is_none() {
            let idle = self.status_at(Moment { nanos: 0 }, WallTime::After(Span { nanos: 0 }));
            return idle;
        }
        let now = self.now();
        let wall = read_wall_clock();
        self.status_at(now, wall)
    }

    /// The wait to arm the timer with at the clock reading `now`: `None`, a wait without
    /// end, while idle; otherwise the time left until the deadline.
    pub fn timer_at(&self, now: Moment) -> (wait: Option<Span>)
        ensures
            wait == timer_for(self.deadline(), now),
    {
        match self.wake_until {
            None => None,
            Some(deadline) => Some(Span { nanos: deadline.nanos.saturating_sub(now.nanos) }),
        }
    }

    /// The wait to arm the timer with, at the current reading of the clock.
    pub fn timer(&self) -> (wait: Option<Span>)
        ensures
            exists|now: Moment| wait == #[trigger] timer_for(self.deadline(), now),
    {
        let now = self.now();
        self.timer_at(now)
    }

    /// Handles `event` at the clock readings `now` and `wall`. On an error the deadline
    /// stays.
    pub fn handle_event_at(&mut self, event: DaemonEvent, now: Moment, wall: WallTime) -> (outcome:
        Result<Reaction, DaemonError>)
        ensures
            stepped(old(self).deadline(), event, now, wall, outcome, final(self).deadline()),
            final(self).clock() == old(self).clock(),
    {
        match event {
            DaemonEvent::DurationUpdate(update) => {
                let before = self.wake_until;
                match self.update_duration_at(update, now) {
                    Ok(()) => {},
                    Err(error) => {
                        return Err(error);
                    },
                }
                let command = self.update_inhibitor();
                let notify = !same_deadline(before, self.wake_until);
                Ok(Reaction::Transition { command, notify })
            },
            DaemonEvent::StatusRequest => match self.status_at(now, wall) {
                Ok(status) => Ok(Reaction::Reply(status)),
                Err(error) => Err(error),
            },
            DaemonEvent::Deadline => {
                let notify = self.wake_until.is_some();
                self.wake_until = None;
                let command = self.update_inhibitor();
                Ok(Reaction::Transition { command, notify })
            },
            DaemonEvent::ExitSignal => Ok(
                Reaction::Exit { command: InhibitorCommand::Uninhibit },
            ),
            DaemonEvent::DbusServiceExit => Ok(
                Reaction::Exit { command: InhibitorCommand::Uninhibit },
            ),
        }
    }

    /// Handles `event` at the current readings of the clocks: whatever they show, the
    /// result is that of `handle_event_at` for some readings.
    pub fn handle_event(&mut self, event: DaemonEvent) -> (outcome: Result<Reaction, DaemonError>)
        ensures
            exists|now: Moment, wall: WallTime| #[trigger]
                stepped(old(self).deadline(), event, now, wall, outcome, final(self).deadline()),
            final(self).clock() == old(self).clock(),
    {
        let now = self.now();
        let wall = read_wall_clock();
        self.handle_event_at(event, now, wall)
    }
}

/// Whether two deadlines are the same.
fn same_deadline(left: Option<Moment>, right: Option<Moment>) -> (same: bool)
    ensures
        same == (left == right),
{
    match (left, right) {
        (None, None) => true,
        (Some(a), Some(b)) => a.nanos == b.nanos,
        _ => false,
    }
}

/// The deadline after `tick`, handled from the deadline `before`; an error leaves it.
pub open spec fn deadline_after(before: Option<Moment>, tick: Tick) -> Option<Moment> {
    match step(before, tick.event, tick.now, tick.wall) {
        Ok((next, _)) => next,
        Err(_) => before,
    }
}

/// Whether handling `tick` from the deadline `before` tells subscribers of a change.
pub open spec fn notifies(before: Option<Moment>, tick: Tick) -> bool {
    step(before, tick.event, tick.now, tick.wall) matches Ok((_, Reaction::Transition { notify, .. }))
        && notify
}

/// The deadline after all of `ticks`, handled in order from the deadline `start`.
pub open spec fn deadline_after_all(start: Option<Moment>, ticks: Seq<Tick>) -> Option<Moment>
    decreases ticks.len(),
{
    if ticks.len() == 0 {
        start
    } else {
        deadline_after(deadline_after_all(start, ticks.drop_last()), ticks.last())
    }
}

/// How many change notifications the daemon emits while it handles `ticks` from `start`.
pub open spec fn notifications(start: Option<Moment>, ticks: Seq<Tick>) -> nat
    decreases ticks.len(),
{
    if ticks.len() == 0 {
        0
    } else {
        let before = deadline_after_all(start, ticks.drop_last());
        notifications(start, ticks.drop_last()) + if notifies(before, ticks.last()) {
            1nat
        } else {
            0nat
        }
    }
}

/// How many of `ticks`, handled from `start`, leave another deadline than they found.
pub open spec fn status_changes(start: Option<Moment>, ticks: Seq<Tick>) -> nat
    decreases ticks.len(),
{
    if ticks.len() == 0 {
        0
    } else {
        let before = deadline_after_all(start, ticks.drop_last());
        status_changes(start, ticks.drop_last()) + if deadline_after(before, ticks.last())
            != before {
            1nat
        } else {
            0nat
        }
    }
}

/// An event is followed by a notification exactly if it changed the deadline, and with
/// it what the status shows.
pub proof fn notifies_exactly_on_change(before: Option<Moment>, tick: Tick)
    ensures
        notifies(before, tick) <==> deadline_after(before, tick) != before,
{
}

/// Over any run of events the daemon emits as many notifications as there are events
/// that change the deadline: none is missing and none is repeated for an unchanged state.
pub proof fn notifications_count_changes(start: Option<Moment>, ticks: Seq<Tick>)
    ensures
        notifications(start, ticks) == status_changes(start, ticks),
    decreases ticks.len(),
{
    if ticks.len() > 0 {
        notifications_count_changes(start, ticks.drop_last());
        notifies_exactly_on_change(deadline_after_all(start, ticks.drop_last()), ticks.last());
    }
}

/// When the timer fires on an active daemon, the daemon becomes idle, tells its
/// subscribers once, and has the inhibitor released by one command.
pub proof fn deadline_reached_goes_idle(deadline: Moment, now: Moment, wall: WallTime)
    ensures
        step(Some(deadline), DaemonEvent::Deadline, now, wall) == Ok::<
            (Option<Moment>, Reaction),
            DaemonError,
        >(
            (
                None,
                Reaction::Transition { command: InhibitorCommand::Uninhibit, notify: true },
            ),
        ),
{
}

/// A status query never changes the deadline and never notifies.
pub proof fn status_request_is_a_pure_read(before: Option<Moment>, now: Moment, wall: WallTime)
    ensures
        deadline_after(before, Tick { event: DaemonEvent::StatusRequest, now, wall }) == before,
        !notifies(before, Tick { event: DaemonEvent::StatusRequest, now, wall }),
{
}

} // verus!
