//! The client side of status watching: what a status means for a human reader, when to
//! look again, and what to do when the connection to the daemon ends.

use vstd::prelude::*;
use vstd::string::StringExecFns;
use crate::clock::read_wall_clock;
use crate::protocol::Status;
use crate::time::{Span, WallTime, MAX_TIMER_NANOS, NANOS_PER_MINUTE, NANOS_PER_SEC};

verus! {

/// Seconds to wait before connecting again after the daemon could not be reached.
pub const RETRY_DELAY_SECS: u64 = 5;

/// The decimal digit for a number below ten.
pub open spec fn digit(value: nat) -> char {
    if value == 0 {
        '0'
    } else if value == 1 {
        '1'
    } else if value == 2 {
        '2'
    } else if value == 3 {
        '3'
    } else if value == 4 {
        '4'
    } else if value == 5 {
        '5'
    } else if value == 6 {
        '6'
    } else if value == 7 {
        '7'
    } else if value == 8 {
        '8'
    } else {
        '9'
    }
}

/// A number in decimal digits, without leading zeros.
pub open spec fn decimal(value: nat) -> Seq<char>
    decreases value,
{
    if value < 10 {
        seq![digit(value)]
    } else {
        decimal(value / 10).push(digit(value % 10))
    }
}

/// Nanoseconds from the wall-clock reading `wall` until `wake_until` epoch seconds; zero
/// if that time has passed.
pub open spec fn time_left(wake_until: u64, wall: WallTime) -> nat {
    let left = wake_until * NANOS_PER_SEC - wall.offset();
    if left > 0 {
        left as nat
    } else {
        0
    }
}

/// The whole seconds in `left` nanoseconds, cut off at the largest `u64`.
pub open spec fn seconds_in(left: nat) -> u64 {
    if left / (NANOS_PER_SEC as nat) > u64::MAX {
        u64::MAX
    } else {
        (left / (NANOS_PER_SEC as nat)) as u64
    }
}

/// The minutes in `left` nanoseconds, rounded up and cut off at the largest `u64`.
pub open spec fn minutes_in(left: nat) -> u64 {
    let minutes = (left + NANOS_PER_MINUTE - 1) as nat / (NANOS_PER_MINUTE as nat);
    if minutes > u64::MAX {
        u64::MAX
    } else {
        minutes as u64
    }
}

/// The seconds that a report shows as left: the whole seconds until the wake-up time
/// while active, none otherwise.
pub open spec fn seconds_left(msg: Status, wall: WallTime) -> Option<u64> {
    if msg.active {
        Some(seconds_in(time_left(msg.wake_until, wall)))
    } else {
        None
    }
}

/// The message of a report: the minutes left, followed by `m`, while active; empty
/// otherwise.
pub open spec fn message_for(active: bool, left: nat) -> Seq<char> {
    if active {
        decimal(minutes_in(left) as nat).push('m')
    } else {
        Seq::<char>::empty()
    }
}

/// How long to wait before the status is looked at again: to the next full minute of
/// the time left, or a minute if it is a whole number of minutes; without end while
/// inactive.
pub open spec fn next_check(remaining_seconds: Option<u64>) -> nat {
    match remaining_seconds {
        None => MAX_TIMER_NANOS as nat,
        Some(secs) => if secs % 60 == 0 {
            60 * NANOS_PER_SEC as nat
        } else {
            (secs % 60) as nat * NANOS_PER_SEC as nat
        },
    }
}

/// A status as a watcher prints it.
#[derive(Debug, PartialEq, Eq)]
pub struct StatusReport {
    pub active: bool,
    pub remaining_seconds: Option<u64>,
    pub message: String,
}

/// The text of one decimal digit.
fn digit_text(value: u64) -> (text: &'static str)
    requires
        value < 10,
    ensures
        text@ == seq![digit(value as nat)],
{
    proof {
        reveal_strlit("0");
        reveal_strlit("1");
        reveal_strlit("2");
        reveal_strlit("3");
        reveal_strlit("4");
        reveal_strlit("5");
        reveal_strlit("6");
        reveal_strlit("7");
        reveal_strlit("8");
        reveal_strlit("9");
    }
    let text = if value == 0 {
        "0"
    } else if value == 1 {
        "1"
    } else if value == 2 {
        "2"
    } else if value == 3 {
        "3"
    } else if value == 4 {
        "4"
    } else if value == 5 {
        "5"
    } else if value == 6 {
        "6"
    } else if value == 7 {
        "7"
    } else if value == 8 {
        "8"
    } else {
        "9"
    };
    assert(text@ =~= seq![digit(value as nat)]);
    text
}

/// Writes a number in decimal digits.
pub fn decimal_text(value: u64) -> (text: String)
    ensures
        text@ == decimal(value as nat),
    decreases value,
{
    if value < 10 {
        String::from_str(digit_text(value))
    } else {
        let mut text = decimal_text(value / 10);
        text.append(digit_text(value % 10));
        assert(text@ =~= decimal(value as nat));
        text
    }
}

impl StatusReport {
    /// The report on `msg` at the wall-clock reading `wall`.
    pub fn from_status_at(msg: Status, wall: WallTime) -> (report: StatusReport)
        ensures
            report.active == msg.active,
            report.remaining_seconds == seconds_left(msg, wall),
            report.message@ == message_for(msg.active, time_left(msg.wake_until, wall)),
    {
        if !msg.active {
            return StatusReport { active: false, remaining_seconds: None, message: String::new() };
        }
        let wake: u128 = msg.wake_until as u128 * NANOS_PER_SEC;
        let left: Option<u128> = match wall {
            WallTime::After(since) => Some(wake.saturating_sub(since.nanos)),
            WallTime::Before(until) => wake.checked_add(until.nanos),
        };
        let (seconds, minutes): (u64, u64) = match left {
            Some(left) => {
                let whole: u128 = left / NANOS_PER_SEC;
                let seconds: u64 = if whole > u64::MAX as u128 {
                    u64::MAX
                } else {
                    whole as u64
                };
                let full: u128 = left / NANOS_PER_MINUTE;
                let up: u128 = if left % NANOS_PER_MINUTE == 0 {
                    full
                } else {
                    full + 1
                };
                assert(up == (left + NANOS_PER_MINUTE - 1) as nat / (NANOS_PER_MINUTE as nat));
                let minutes: u64 = if up > u64::MAX as u128 {
                    u64::MAX
                } else {
                    up as u64
                };
                (seconds, minutes)
            },
            None => (u64::MAX, u64::MAX),
        };
        let mut message = decimal_text(minutes);
        proof {
            reveal_strlit("m");
        }
        message.append("m");
        assert(message@ =~= decimal(minutes as nat).push('m'));
        StatusReport { active: true, remaining_seconds: Some(seconds), message }
    }

    /// The report on `msg` at the current reading of the wall clock: whatever the clock
    /// shows, the report is that of `from_status_at` for some reading.
    pub fn from_status(msg: Status) -> (report: StatusReport)
        ensures
            report.active == msg.active,
            report.remaining_seconds is Some == msg.active,
            exists|wall: WallTime|
                report.remaining_seconds == #[trigger] seconds_left(msg, wall) && report.message@
                    == message_for(msg.active, time_left(msg.wake_until, wall)),
    {
        let wall = read_wall_clock();
        StatusReport::from_status_at(msg, wall)
    }

    /// How long to wait before the status is looked at again.
    pub fn next_check_duration(&self) -> (wait: Span)
        ensures
            wait@ == next_check(self.remaining_seconds),
    {
        match self.remaining_seconds {
            None => Span::unbounded(),
            Some(secs) => if secs % 60 == 0 {
                Span::from_secs(60)
            } else {
                Span::from_secs(secs % 60)
            },
        }
    }
}

/// What a watcher waits for once it has printed the status.
#[derive(Clone, Copy, Debug, PartialEq, Eq, Structural)]
pub enum WatchEvent {
    /// The daemon announced a change of status.
    StatusChanged,
    /// The wait of `next_check_duration` is over.
    CheckDue,
    /// The stream of announcements has ended.
    StreamClosed,
}

/// What a watcher does after an event.
#[derive(Clone, Copy, Debug, PartialEq, Eq, Structural)]
pub enum WatchStep {
    /// Fetch the status again and print it.
    Refresh,
    /// End the session without an error.
    Finish,
}

/// How a watching session ended.
#[derive(Clone, Copy, Debug, PartialEq, Eq, Structural)]
pub enum SessionEnd {
    /// Without an error.
    Finished,
    /// A call to the daemon failed, as it does while the daemon is not running.
    Unreachable,
    /// Any other error.
    Failed,
}

/// What follows a watching session.
#[derive(Clone, Copy, Debug, PartialEq, Eq, Structural)]
pub enum Retry {
    /// Subscribe again at once.
    AtOnce,
    /// Subscribe again after this delay.
    After(Span),
    /// Stop watching and report the error.
    GiveUp,
}

/// What a watcher does after `event`: a change and a due check both refresh the status,
/// and the end of the stream ends the session.
pub open spec fn watch_step(event: WatchEvent) -> WatchStep {
    match event {
        WatchEvent::StatusChanged => WatchStep::Refresh,
        WatchEvent::CheckDue => WatchStep::Refresh,
        WatchEvent::StreamClosed => WatchStep::Finish,
    }
}

/// What follows a session that ended with `end`: a finished one is started again at
/// once, an unreachable daemon is tried again after a fixed delay, and any other error
/// ends the watching.
pub open spec fn retry_after(end: SessionEnd) -> Retry {
    match end {
        SessionEnd::Finished => Retry::AtOnce,
        SessionEnd::Unreachable => Retry::After(
            Span { nanos: (RETRY_DELAY_SECS * NANOS_PER_SEC) as u128 },
        ),
        SessionEnd::Failed => Retry::GiveUp,
    }
}

/// Decides what a watcher does after `event`.
pub fn on_watch_event(event: WatchEvent) -> (step: WatchStep)
    ensures
        step == watch_step(event),
{
    match event {
        WatchEvent::StatusChanged => WatchStep::Refresh,
        WatchEvent::CheckDue => WatchStep::Refresh,
        WatchEvent::StreamClosed => WatchStep::Finish,
    }
}

/// Decides what follows a watching session that ended with `end`.
pub fn on_session_end(end: SessionEnd) -> (retry: Retry)
    ensures
        retry == retry_after(end),
{
    match end {
        SessionEnd::Finished => Retry::AtOnce,
        SessionEnd::Unreachable => Retry::After(Span::from_secs(RETRY_DELAY_SECS)),
        SessionEnd::Failed => Retry::GiveUp,
    }
}

} // verus!
