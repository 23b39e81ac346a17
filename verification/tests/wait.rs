use blocking_wait::outcome::{resolve_direct, resolve_race, RaceWinner, TimedOut, Waited};
use blocking_wait::wait::{
    choose_strategy, compute_deadline, drive, step, Observation, Polled, Strategy, WaitStep,
};
use blocking_wait::waker::ParkToken;

#[test]
fn resolved_success_returns_immediately() {
    // Future already resolved to 42, timeout of five seconds: the value comes
    // back from the very first poll, so the single-entry schedule suffices and
    // no park is ever reached.
    let deadline = compute_deadline(0, Some(5_000_000_000));
    assert_eq!(deadline, Some(5_000_000_000));
    let schedule: Vec<Observation<u32, &str>> = vec![Observation {
        polled: Polled::Ready(Ok(42)),
        now: 0,
    }];
    assert!(matches!(drive(schedule, deadline), Some(Ok(42))));
}

#[test]
fn never_resolving_times_out_at_deadline() {
    // Future never resolves, timeout of 100ms: pending polls park until a
    // check observes the clock at the deadline, then TimedOut.
    let deadline = compute_deadline(0, Some(100_000_000));
    let schedule: Vec<Observation<u32, &str>> = vec![
        Observation { polled: Polled::Pending, now: 0 },
        Observation { polled: Polled::Pending, now: 50_000_000 },
        Observation { polled: Polled::Pending, now: 100_000_000 },
    ];
    assert!(matches!(
        drive(schedule, deadline),
        Some(Err(Waited::TimedOut(TimedOut)))
    ));
}

#[test]
fn pending_before_deadline_keeps_waiting() {
    // Every check before the deadline parks again: no outcome yet.
    let deadline = compute_deadline(0, Some(100_000_000));
    let schedule: Vec<Observation<u32, &str>> = vec![
        Observation { polled: Polled::Pending, now: 0 },
        Observation { polled: Polled::Pending, now: 99_999_999 },
    ];
    assert!(drive(schedule, deadline).is_none());
}

#[test]
fn park_is_bounded_by_time_left() {
    let s: WaitStep<u32, &str> = step(Polled::Pending, Some(100_000_000), 40_000_000);
    assert!(matches!(s, WaitStep::ParkFor(60_000_000)));
}

#[test]
fn inner_failure_reported_before_deadline() {
    // Future fails with "boom" at 10ms, timeout of one second: the failure is
    // passed through as Inner, never turned into a timeout.
    let deadline = compute_deadline(0, Some(1_000_000_000));
    let schedule: Vec<Observation<u32, &str>> = vec![
        Observation { polled: Polled::Pending, now: 0 },
        Observation { polled: Polled::Ready(Err("boom")), now: 10_000_000 },
    ];
    assert!(matches!(
        drive(schedule, deadline),
        Some(Err(Waited::Inner("boom")))
    ));
}

#[test]
fn unbounded_wait_returns_resolution() {
    // No timeout given: the loop blocks through arbitrarily late wakes until
    // the future resolves, then returns its success.
    let schedule: Vec<Observation<u32, &str>> = vec![
        Observation { polled: Polled::Pending, now: 5 },
        Observation { polled: Polled::Pending, now: 1_000_000_000_000 },
        Observation { polled: Polled::Ready(Ok(7)), now: 2_000_000_000_000 },
    ];
    assert!(matches!(drive(schedule, None), Some(Ok(7))));
}

#[test]
fn unbounded_wait_never_times_out() {
    // Without a deadline a pending poll always parks again, no matter how
    // late the clock runs: blocking forever is the requested behavior.
    let s: WaitStep<u32, &str> = step(Polled::Pending, None, u64::MAX);
    assert!(matches!(s, WaitStep::Park));
    let schedule: Vec<Observation<u32, &str>> = vec![
        Observation { polled: Polled::Pending, now: 0 },
        Observation { polled: Polled::Pending, now: u64::MAX },
    ];
    assert!(drive(schedule, None).is_none());
}

#[test]
fn tie_at_deadline_favors_operation() {
    // Readiness is checked before the deadline: a poll that resolves exactly
    // at the deadline still wins the race.
    let deadline = compute_deadline(0, Some(50));
    let schedule: Vec<Observation<u32, &str>> = vec![Observation {
        polled: Polled::Ready(Ok(9)),
        now: 50,
    }];
    assert!(matches!(drive(schedule, deadline), Some(Ok(9))));
}

#[test]
fn spurious_wake_changes_nothing() {
    // An unrelated wake before the deadline re-polls to Pending and parks
    // again: the outcome is the same with or without it.
    let deadline = compute_deadline(0, Some(100));
    let plain: Vec<Observation<u32, &str>> = vec![
        Observation { polled: Polled::Pending, now: 10 },
        Observation { polled: Polled::Ready(Ok(3)), now: 90 },
    ];
    let with_spurious: Vec<Observation<u32, &str>> = vec![
        Observation { polled: Polled::Pending, now: 10 },
        Observation { polled: Polled::Pending, now: 50 },
        Observation { polled: Polled::Ready(Ok(3)), now: 90 },
    ];
    assert!(matches!(drive(plain, deadline), Some(Ok(3))));
    assert!(matches!(drive(with_spurious, deadline), Some(Ok(3))));
}

#[test]
fn wake_is_idempotent_and_never_lost() {
    let mut token = ParkToken::new();
    // Nothing pending yet: the thread would block.
    assert!(token.park());
    // Two wakes before the next park coalesce into one pending wake, and the
    // park returns immediately instead of blocking: no lost wakeup.
    token.wake();
    token.wake();
    assert!(!token.park());
    // The pending wake was consumed: the next park blocks again.
    assert!(token.park());
}

#[test]
fn deadline_arithmetic_exact() {
    assert_eq!(compute_deadline(5, Some(10)), Some(15));
    assert_eq!(compute_deadline(5, None), None);
}

#[test]
fn zero_timeout_times_out_without_parking() {
    let deadline = compute_deadline(0, Some(0));
    let schedule: Vec<Observation<u32, &str>> = vec![Observation {
        polled: Polled::Pending,
        now: 0,
    }];
    assert!(matches!(
        drive(schedule, deadline),
        Some(Err(Waited::TimedOut(TimedOut)))
    ));
}

#[test]
fn empty_schedule_is_still_waiting() {
    let schedule: Vec<Observation<u32, &str>> = vec![];
    assert!(drive(schedule, Some(100)).is_none());
}

#[test]
fn translation_of_direct_outcomes() {
    assert!(matches!(resolve_direct::<u32, &str>(Ok(1)), Ok(1)));
    assert!(matches!(
        resolve_direct::<u32, &str>(Err("boom")),
        Err(Waited::Inner("boom"))
    ));
}

#[test]
fn translation_of_race_outcomes() {
    assert!(matches!(
        resolve_race::<u32, &str>(RaceWinner::Operation(Ok(1))),
        Ok(1)
    ));
    assert!(matches!(
        resolve_race::<u32, &str>(RaceWinner::Operation(Err("boom"))),
        Err(Waited::Inner("boom"))
    ));
    assert!(matches!(
        resolve_race::<u32, &str>(RaceWinner::Timer),
        Err(Waited::TimedOut(TimedOut))
    ));
}

#[test]
fn strategy_follows_runtime_detection() {
    assert_eq!(choose_strategy(true), Strategy::Delegated);
    assert_eq!(choose_strategy(false), Strategy::SelfContained);
}
