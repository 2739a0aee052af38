//! The update algebra: how an update and the current deadline give the next deadline.

use vstd::prelude::*;
use crate::error::DaemonError;
use crate::protocol::DurationUpdate;
use crate::time::{Moment, Span};

verus! {

/// The moment that `update` aims at, before it is compared with `now`; it may lie in the
/// past, and beyond what a `Moment` holds.
pub open spec fn target(current: Option<Moment>, update: DurationUpdate, now: Moment) -> int {
    match update {
        DurationUpdate::Add(span) => match current {
            Some(deadline) => (deadline@ + span@) as int,
            None => (now@ + span@) as int,
        },
        DurationUpdate::Sub(span) => match current {
            Some(deadline) => deadline@ - span@,
            None => now@ as int,
        },
        DurationUpdate::SetTo(span) => (now@ + span@) as int,
    }
}

/// The deadline after `update`: none if the target is not after `now`, the target if a
/// `Moment` holds it, and an error otherwise.
pub open spec fn apply_outcome(
    current: Option<Moment>,
    update: DurationUpdate,
    now: Moment,
) -> Result<Option<Moment>, DaemonError> {
    let aim = target(current, update, now);
    if aim <= now@ {
        Ok(None)
    } else if aim > u128::MAX {
        Err(DaemonError::DeadlineOverflow)
    } else {
        Ok(Some(Moment { nanos: aim as u128 }))
    }
}

/// A moment that is kept as the deadline only while it lies after `now`.
fn keep_if_ahead(aim: u128, now: Moment) -> (deadline: Option<Moment>)
    ensures
        aim <= now.nanos ==> deadline is None,
        aim > now.nanos ==> deadline == Some(Moment { nanos: aim }),
{
    if aim <= now.nanos {
        None
    } else {
        Some(Moment { nanos: aim })
    }
}

/// Applies `update` to the deadline `current` at the clock reading `now`.
pub fn apply(current: Option<Moment>, update: DurationUpdate, now: Moment) -> (outcome: Result<
    Option<Moment>,
    DaemonError,
>)
    ensures
        outcome == apply_outcome(current, update, now),
{
    match update {
        DurationUpdate::Add(span) => {
            let base = match current {
                Some(deadline) => deadline,
                None => now,
            };
            match base.nanos.checked_add(span.nanos) {
                Some(aim) => Ok(keep_if_ahead(aim, now)),
                None => Err(DaemonError::DeadlineOverflow),
            }
        },
        DurationUpdate::Sub(span) => match current {
            Some(deadline) => {
                if span.nanos >= deadline.nanos {
                    Ok(None)
                } else {
                    Ok(keep_if_ahead(deadline.nanos - span.nanos, now))
                }
            },
            None => Ok(None),
        },
        DurationUpdate::SetTo(span) => match now.nanos.checked_add(span.nanos) {
            Some(aim) => Ok(keep_if_ahead(aim, now)),
            None => Err(DaemonError::DeadlineOverflow),
        },
    }
}

/// Shortening the deadline while none is set changes nothing and is no error.
pub proof fn sub_while_idle_is_a_no_op(span: Span, now: Moment)
    ensures
        apply_outcome(None, DurationUpdate::Sub(span), now) == Ok::<Option<Moment>, DaemonError>(
            None,
        ),
{
}

/// Setting the deadline to zero from now clears it, whatever it was.
pub proof fn set_zero_deactivates(current: Option<Moment>, now: Moment)
    ensures
        apply_outcome(current, DurationUpdate::SetTo(Span { nanos: 0 }), now) == Ok::<
            Option<Moment>,
            DaemonError,
        >(None),
{
}

/// An update either clears the deadline or leaves one that lies after `now` and is the
/// moment the update aimed at: no deadline in the past is ever kept.
pub proof fn kept_deadline_is_ahead(current: Option<Moment>, update: DurationUpdate, now: Moment)
    ensures
        target(current, update, now) <= now@ ==> apply_outcome(current, update, now) == Ok::<
            Option<Moment>,
            DaemonError,
        >(None),
        apply_outcome(current, update, now) matches Ok(Some(deadline)) ==> (deadline@ > now@
            && deadline@ == target(current, update, now)),
{
}

} // verus!
