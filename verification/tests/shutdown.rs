use rust_proxy::drain::{DrainReaction, DrainStep, ShutdownDrain, TimeLeft, WaitOutcome};

#[test]
fn nothing_to_wait_for_without_connections() {
    assert!(!ShutdownDrain::must_wait(0));
    assert!(ShutdownDrain::must_wait(1));
    assert!(ShutdownDrain::must_wait(17));
}

#[test]
fn drain_waits_for_the_rest_of_the_timeout() {
    let drain = ShutdownDrain { timeout_ms: 1500 };
    assert_eq!(
        drain.next_step(2, 0),
        DrainStep::WaitUpTo(TimeLeft { secs: 1, subsec_nanos: 500_000_000 })
    );
    assert_eq!(
        drain.next_step(2, 250_000_000),
        DrainStep::WaitUpTo(TimeLeft { secs: 1, subsec_nanos: 250_000_000 })
    );
    assert_eq!(
        drain.next_step(1, 1_499_999_999),
        DrainStep::WaitUpTo(TimeLeft { secs: 0, subsec_nanos: 1 })
    );
}

#[test]
fn drain_aborts_at_the_deadline() {
    let drain = ShutdownDrain { timeout_ms: 1500 };
    assert_eq!(drain.next_step(1, 1_500_000_000), DrainStep::AbortRemaining);
    assert_eq!(drain.next_step(3, 9_000_000_000), DrainStep::AbortRemaining);
}

#[test]
fn drain_finishes_when_connections_are_gone() {
    let drain = ShutdownDrain { timeout_ms: 1500 };
    assert_eq!(drain.next_step(0, 0), DrainStep::Finished);
    assert_eq!(drain.next_step(0, 9_000_000_000), DrainStep::Finished);
}

#[test]
fn zero_timeout_aborts_at_once() {
    let drain = ShutdownDrain { timeout_ms: 0 };
    assert_eq!(drain.next_step(1, 0), DrainStep::AbortRemaining);
    assert_eq!(drain.next_step(0, 0), DrainStep::Finished);
}

#[test]
fn longest_timeout_is_split_exactly() {
    let drain = ShutdownDrain { timeout_ms: u64::MAX };
    assert_eq!(
        drain.next_step(1, 0),
        DrainStep::WaitUpTo(TimeLeft { secs: 18_446_744_073_709_551, subsec_nanos: 615_000_000 })
    );
}

#[test]
fn wait_outcomes_decide_the_drain() {
    assert_eq!(ShutdownDrain::after_wait(WaitOutcome::TaskCompleted), DrainReaction::KeepWaiting);
    assert_eq!(ShutdownDrain::after_wait(WaitOutcome::TaskFailed), DrainReaction::ReportFailure);
    assert_eq!(ShutdownDrain::after_wait(WaitOutcome::NoTasksLeft), DrainReaction::Finished);
    assert_eq!(ShutdownDrain::after_wait(WaitOutcome::TimedOut), DrainReaction::AbortRemaining);
}

#[test]
fn later_waits_are_shorter_on_concrete_values() {
    let drain = ShutdownDrain { timeout_ms: 10 };
    let early = drain.next_step(5, 1_000_000);
    let late = drain.next_step(2, 7_000_000);
    assert_eq!(early, DrainStep::WaitUpTo(TimeLeft { secs: 0, subsec_nanos: 9_000_000 }));
    assert_eq!(late, DrainStep::WaitUpTo(TimeLeft { secs: 0, subsec_nanos: 3_000_000 }));
}
