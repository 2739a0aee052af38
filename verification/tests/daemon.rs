use vigilare::daemon::{Daemon, DaemonEvent, InhibitorCommand, Reaction};
use vigilare::error::DaemonError;
use vigilare::protocol::{DurationUpdate, Status};
use vigilare::time::{Moment, Span, WallTime};

const SEC: u128 = 1_000_000_000;

fn at(secs: u128) -> Moment {
    Moment::from_nanos(secs * SEC)
}

fn wall(secs: u64) -> WallTime {
    WallTime::from_unix_secs(secs)
}

fn update(update: DurationUpdate) -> DaemonEvent {
    DaemonEvent::DurationUpdate(update)
}

fn active_until(secs: u128, now: u128) -> Daemon {
    let mut daemon = Daemon::new();
    let set = DurationUpdate::SetTo(Span::from_nanos((secs - now) * SEC));
    assert_eq!(daemon.update_duration_at(set, at(now)), Ok(()));
    assert_eq!(daemon.wake_until(), Some(at(secs)));
    daemon
}

#[test]
fn a_new_daemon_is_idle() {
    let daemon = Daemon::new();
    assert_eq!(daemon.wake_until(), None);
    assert_eq!(daemon.update_inhibitor(), InhibitorCommand::Uninhibit);
    assert_eq!(daemon.timer_at(at(3)), None);
    assert_eq!(
        daemon.status_at(at(3), wall(1_700_000_000)),
        Ok(Status { active: false, wake_until: 0 })
    );
}

#[test]
fn scenario_add_thirty_minutes_while_idle() {
    let mut daemon = Daemon::new();
    let reaction = daemon.handle_event_at(
        update(DurationUpdate::Add(Span::from_secs(1800))),
        at(10),
        wall(1_700_000_000),
    );
    assert_eq!(
        reaction,
        Ok(Reaction::Transition { command: InhibitorCommand::Inhibit, notify: true })
    );
    assert_eq!(
        daemon.status_at(at(10), wall(1_700_000_000)),
        Ok(Status { active: true, wake_until: 1_700_001_800 })
    );
}

#[test]
fn scenario_add_thirty_minutes_on_the_real_clocks() {
    let mut daemon = Daemon::new();
    let before = std::time::SystemTime::now()
        .duration_since(std::time::UNIX_EPOCH)
        .unwrap()
        .as_secs();
    let reaction = daemon.handle_event(update(DurationUpdate::Add(Span::from_secs(1800))));
    assert_eq!(
        reaction,
        Ok(Reaction::Transition { command: InhibitorCommand::Inhibit, notify: true })
    );
    let status = daemon.status().unwrap();
    assert!(status.active);
    assert!(status.wake_until >= before + 1799);
    assert!(status.wake_until <= before + 1801);
    match daemon.handle_event(DaemonEvent::StatusRequest) {
        Ok(Reaction::Reply(reply)) => {
            assert!(reply.active);
            assert!(reply.wake_until >= before + 1799 && reply.wake_until <= before + 1802);
        }
        other => panic!("unexpected reaction {:?}", other),
    }
    let wait = daemon.timer().unwrap();
    assert!(wait.nanos <= 1800 * SEC);
    assert!(wait.nanos >= 1790 * SEC);
}

#[test]
fn scenario_sub_fifteen_minutes_with_ten_left() {
    let mut daemon = active_until(700, 100);
    let reaction = daemon.handle_event_at(
        update(DurationUpdate::Sub(Span::from_secs(900))),
        at(100),
        wall(50),
    );
    assert_eq!(
        reaction,
        Ok(Reaction::Transition { command: InhibitorCommand::Uninhibit, notify: true })
    );
    assert_eq!(daemon.wake_until(), None);
    assert_eq!(daemon.status_at(at(100), wall(50)), Ok(Status { active: false, wake_until: 0 }));
}

#[test]
fn scenario_zero_with_five_minutes_left() {
    let mut daemon = active_until(400, 100);
    let reaction =
        daemon.handle_event_at(update(DurationUpdate::SetTo(Span::zero())), at(100), wall(50));
    assert_eq!(
        reaction,
        Ok(Reaction::Transition { command: InhibitorCommand::Uninhibit, notify: true })
    );
    assert_eq!(daemon.status_at(at(100), wall(50)), Ok(Status { active: false, wake_until: 0 }));
}

#[test]
fn scenario_deadline_reached() {
    let mut daemon = active_until(400, 100);
    let reaction = daemon.handle_event_at(DaemonEvent::Deadline, at(400), wall(50));
    assert_eq!(
        reaction,
        Ok(Reaction::Transition { command: InhibitorCommand::Uninhibit, notify: true })
    );
    assert_eq!(daemon.wake_until(), None);
    assert_eq!(daemon.timer_at(at(400)), None);
    // nothing is left to announce when the timer fires on an idle daemon
    let again = daemon.handle_event_at(DaemonEvent::Deadline, at(401), wall(51));
    assert_eq!(
        again,
        Ok(Reaction::Transition { command: InhibitorCommand::Uninhibit, notify: false })
    );
}

#[test]
fn updates_notify_only_when_the_deadline_changes() {
    let mut daemon = Daemon::new();
    let quiet = Ok(Reaction::Transition { command: InhibitorCommand::Uninhibit, notify: false });
    assert_eq!(
        daemon.handle_event_at(update(DurationUpdate::Sub(Span::from_secs(5))), at(1), wall(1)),
        quiet
    );
    assert_eq!(
        daemon.handle_event_at(update(DurationUpdate::SetTo(Span::zero())), at(1), wall(1)),
        quiet
    );
    assert_eq!(
        daemon.handle_event_at(update(DurationUpdate::Add(Span::zero())), at(1), wall(1)),
        quiet
    );
    let mut daemon = active_until(400, 100);
    let still = Ok(Reaction::Transition { command: InhibitorCommand::Inhibit, notify: false });
    assert_eq!(
        daemon.handle_event_at(update(DurationUpdate::Add(Span::zero())), at(100), wall(1)),
        still
    );
    assert_eq!(
        daemon.handle_event_at(update(DurationUpdate::Sub(Span::zero())), at(100), wall(1)),
        still
    );
    // the smallest change is announced
    assert_eq!(
        daemon.handle_event_at(update(DurationUpdate::Add(Span::from_nanos(1))), at(100), wall(1)),
        Ok(Reaction::Transition { command: InhibitorCommand::Inhibit, notify: true })
    );
    assert_eq!(daemon.wake_until(), Some(Moment::from_nanos(400 * SEC + 1)));
}

#[test]
fn notifications_match_the_changes_of_a_run() {
    let mut daemon = Daemon::new();
    let events = [
        (update(DurationUpdate::Sub(Span::from_secs(1))), 1),
        (update(DurationUpdate::Add(Span::from_secs(60))), 2),
        (DaemonEvent::StatusRequest, 3),
        (update(DurationUpdate::Add(Span::zero())), 4),
        (update(DurationUpdate::Sub(Span::from_secs(10))), 5),
        (update(DurationUpdate::Add(Span::from_secs(10))), 6),
        (DaemonEvent::Deadline, 62),
        (DaemonEvent::Deadline, 63),
        (update(DurationUpdate::SetTo(Span::zero())), 64),
    ];
    let mut notifications = 0;
    let mut changes = 0;
    for (event, now) in events {
        let before = daemon.wake_until();
        let reaction = daemon.handle_event_at(event, at(now), wall(1000 + now as u64));
        if let Ok(Reaction::Transition { notify: true, .. }) = reaction {
            notifications += 1;
        }
        if daemon.wake_until() != before {
            changes += 1;
        }
    }
    assert_eq!(notifications, 4);
    assert_eq!(changes, 4);
}

#[test]
fn a_status_request_changes_nothing() {
    let mut daemon = active_until(400, 100);
    let reaction = daemon.handle_event_at(DaemonEvent::StatusRequest, at(150), wall(1000));
    assert_eq!(reaction, Ok(Reaction::Reply(Status { active: true, wake_until: 1250 })));
    assert_eq!(daemon.wake_until(), Some(at(400)));
    let mut idle = Daemon::new();
    assert_eq!(
        idle.handle_event_at(DaemonEvent::StatusRequest, at(150), wall(1000)),
        Ok(Reaction::Reply(Status { active: false, wake_until: 0 }))
    );
}

#[test]
fn exit_events_leave_the_loop_in_either_state() {
    let mut daemon = active_until(400, 100);
    assert_eq!(daemon.handle_event_at(DaemonEvent::ExitSignal, at(1), wall(1)), Ok(Reaction::Exit { command: InhibitorCommand::Uninhibit }));
    assert_eq!(
        daemon.handle_event_at(DaemonEvent::DbusServiceExit, at(1), wall(1)),
        Ok(Reaction::Exit { command: InhibitorCommand::Uninhibit })
    );
    assert_eq!(daemon.wake_until(), Some(at(400)));
    let mut idle = Daemon::new();
    assert_eq!(idle.handle_event(DaemonEvent::ExitSignal), Ok(Reaction::Exit { command: InhibitorCommand::Uninhibit }));
    assert_eq!(idle.handle_event(DaemonEvent::DbusServiceExit), Ok(Reaction::Exit { command: InhibitorCommand::Uninhibit }));
}

#[test]
fn status_counts_whole_epoch_seconds() {
    let daemon = active_until(400, 100);
    let clock = WallTime::After(Span::from_nanos(1000 * SEC + 999_999_999));
    // 300 s left on top of 1000.999999999 s
    assert_eq!(daemon.status_at(at(100), clock), Ok(Status { active: true, wake_until: 1300 }));
    let later = Moment::from_nanos(100 * SEC + 1);
    assert_eq!(daemon.status_at(later, clock), Ok(Status { active: true, wake_until: 1300 }));
    let clock = WallTime::After(Span::from_nanos(1000 * SEC + 1));
    assert_eq!(daemon.status_at(at(100), clock), Ok(Status { active: true, wake_until: 1300 }));
    assert_eq!(daemon.status_at(later, clock), Ok(Status { active: true, wake_until: 1300 }));
    let clock = WallTime::After(Span::from_nanos(1000 * SEC));
    assert_eq!(daemon.status_at(later, clock), Ok(Status { active: true, wake_until: 1299 }));
}

#[test]
fn status_of_a_passed_deadline_is_active_until_now() {
    let daemon = active_until(400, 100);
    assert_eq!(daemon.status_at(at(500), wall(2000)), Ok(Status { active: true, wake_until: 2000 }));
}

#[test]
fn status_before_the_epoch() {
    let daemon = active_until(400, 100);
    let clock = WallTime::Before(Span::from_secs(1000));
    assert_eq!(daemon.status_at(at(100), clock), Err(DaemonError::WakeTimeBeforeEpoch));
    let clock = WallTime::Before(Span::from_secs(300));
    assert_eq!(daemon.status_at(at(100), clock), Ok(Status { active: true, wake_until: 0 }));
    let clock = WallTime::Before(Span::from_secs(100));
    assert_eq!(daemon.status_at(at(100), clock), Ok(Status { active: true, wake_until: 200 }));
    let mut daemon = daemon;
    assert_eq!(
        daemon.handle_event_at(DaemonEvent::StatusRequest, at(100), WallTime::Before(Span::from_secs(1000))),
        Err(DaemonError::WakeTimeBeforeEpoch)
    );
    assert_eq!(daemon.wake_until(), Some(at(400)));
}

#[test]
fn status_beyond_sixty_four_bits() {
    let daemon = active_until(400, 100);
    let clock = WallTime::After(Span::from_nanos(u128::MAX));
    assert_eq!(daemon.status_at(at(100), clock), Err(DaemonError::WakeTimeOverflow));
    let clock = WallTime::After(Span::from_nanos((u64::MAX as u128 - 299) * SEC));
    assert_eq!(daemon.status_at(at(100), clock), Err(DaemonError::WakeTimeOverflow));
    let clock = WallTime::After(Span::from_nanos((u64::MAX as u128 - 300) * SEC));
    assert_eq!(
        daemon.status_at(at(100), clock),
        Ok(Status { active: true, wake_until: u64::MAX })
    );
}

#[test]
fn a_failed_update_leaves_the_deadline() {
    let mut daemon = active_until(400, 100);
    let too_far = DurationUpdate::Add(Span::from_nanos(u128::MAX));
    assert_eq!(daemon.update_duration_at(too_far, at(100)), Err(DaemonError::DeadlineOverflow));
    assert_eq!(daemon.wake_until(), Some(at(400)));
    assert_eq!(
        daemon.handle_event_at(update(too_far), at(100), wall(1)),
        Err(DaemonError::DeadlineOverflow)
    );
    assert_eq!(daemon.wake_until(), Some(at(400)));
    assert_eq!(daemon.update_duration(too_far), Err(DaemonError::DeadlineOverflow));
    assert_eq!(daemon.wake_until(), Some(at(400)));
}

#[test]
fn the_timer_is_armed_for_the_time_left() {
    let daemon = active_until(400, 100);
    assert_eq!(daemon.timer_at(at(100)), Some(Span::from_secs(300)));
    assert_eq!(daemon.timer_at(at(399)), Some(Span::from_secs(1)));
    assert_eq!(daemon.timer_at(at(400)), Some(Span::zero()));
    assert_eq!(daemon.timer_at(at(900)), Some(Span::zero()));
    assert_eq!(Daemon::new().timer(), None);
}

#[test]
fn the_inhibitor_command_follows_the_deadline() {
    let mut daemon = Daemon::new();
    assert_eq!(daemon.update_inhibitor(), InhibitorCommand::Uninhibit);
    assert_eq!(daemon.update_duration(DurationUpdate::Add(Span::from_secs(60))), Ok(()));
    assert_eq!(daemon.update_inhibitor(), InhibitorCommand::Inhibit);
    assert_eq!(daemon.update_duration(DurationUpdate::SetTo(Span::zero())), Ok(()));
    assert_eq!(daemon.update_inhibitor(), InhibitorCommand::Uninhibit);
    assert_eq!(daemon.status(), Ok(Status { active: false, wake_until: 0 }));
}
