use vstd::prelude::*;

verus! {

/// Nanoseconds in a millisecond.
pub const NANOS_PER_MILLI: u128 = 1_000_000;

/// Nanoseconds in a second.
pub const NANOS_PER_SEC: u128 = 1_000_000_000;

/// A span of time in the two parts that `std::time::Duration::new` takes.
#[derive(Debug, Clone, Copy, PartialEq, Eq, Structural)]
pub struct TimeLeft {
    /// Whole seconds.
    pub secs: u64,
    /// Nanoseconds beyond the whole seconds.
    pub subsec_nanos: u32,
}

impl TimeLeft {
    /// The span in nanoseconds.
    pub open spec fn nanos(self) -> int {
        self.secs * NANOS_PER_SEC + self.subsec_nanos
    }
}

/// A span of `n` nanoseconds split into seconds and the nanoseconds beyond them.
pub open spec fn time_left_of(n: int) -> TimeLeft {
    TimeLeft { secs: (n / NANOS_PER_SEC as int) as u64, subsec_nanos: (n % NANOS_PER_SEC as int) as u32 }
}

/// The time a shutdown may wait, in nanoseconds, for a timeout of `timeout_ms` milliseconds.
pub open spec fn budget_nanos(timeout_ms: u64) -> int {
    timeout_ms * NANOS_PER_MILLI
}

/// What a shutdown does next while connections may still be open.
#[derive(Debug, PartialEq, Eq, Structural)]
pub enum DrainStep {
    /// No connection is open: the shutdown is complete.
    Finished,
    /// The deadline has passed with connections still open: abort them all.
    AbortRemaining,
    /// Wait for the next connection to end, but no longer than this.
    WaitUpTo(TimeLeft),
}

/// How one wait for the next connection to end came out.
#[derive(Debug, Clone, Copy, PartialEq, Eq, Structural)]
pub enum WaitOutcome {
    /// A connection task ended normally.
    TaskCompleted,
    /// A connection task panicked or was cancelled.
    TaskFailed,
    /// There was no connection task left.
    NoTasksLeft,
    /// The wait reached the deadline.
    TimedOut,
}

/// What a shutdown does after one wait.
#[derive(Debug, PartialEq, Eq, Structural)]
pub enum DrainReaction {
    /// Go on waiting.
    KeepWaiting,
    /// Report the failed task, then go on waiting.
    ReportFailure,
    /// Every connection has ended: the shutdown is complete.
    Finished,
    /// The deadline was reached: abort the connections still open.
    AbortRemaining,
}

/// The step a shutdown with a timeout of `timeout_ms` milliseconds takes when
/// `active` connections are open and `elapsed` nanoseconds have passed since it began.
pub open spec fn drain_step(timeout_ms: u64, active: int, elapsed: int) -> DrainStep {
    if active == 0 {
        DrainStep::Finished
    } else if elapsed >= budget_nanos(timeout_ms) {
        DrainStep::AbortRemaining
    } else {
        DrainStep::WaitUpTo(time_left_of(budget_nanos(timeout_ms) - elapsed))
    }
}

/// The reaction of a shutdown to the outcome of one wait.
pub open spec fn drain_reaction(outcome: WaitOutcome) -> DrainReaction {
    match outcome {
        WaitOutcome::TaskCompleted => DrainReaction::KeepWaiting,
        WaitOutcome::TaskFailed => DrainReaction::ReportFailure,
        WaitOutcome::NoTasksLeft => DrainReaction::Finished,
        WaitOutcome::TimedOut => DrainReaction::AbortRemaining,
    }
}

/// Waits for the open connections at shutdown, for at most a fixed time.
pub struct ShutdownDrain {
    /// How long the shutdown waits, in milliseconds.
    pub timeout_ms: u64,
}

impl ShutdownDrain {
    /// Whether a shutdown has anything to wait for when `active` connections are open.
    pub fn must_wait(active: usize) -> (w: bool)
        ensures
            w == (active > 0),
    {
        active > 0
    }

    /// What to do when `active` connections are open and `elapsed_nanos`
    /// nanoseconds have passed since the shutdown began.
    pub fn next_step(&self, active: usize, elapsed_nanos: u128) -> (s: DrainStep)
        ensures
            s == drain_step(self.timeout_ms, active as int, elapsed_nanos as int),
            (s == DrainStep::Finished) <==> active == 0,
            (s == DrainStep::AbortRemaining) <==> (active > 0 && elapsed_nanos >= self.timeout_ms
                * 1_000_000),
            s matches DrainStep::WaitUpTo(t) ==> {
                &&& active > 0
                &&& elapsed_nanos < self.timeout_ms * 1_000_000
                &&& t.subsec_nanos < 1_000_000_000
                &&& elapsed_nanos + t.secs * 1_000_000_000 + t.subsec_nanos == self.timeout_ms
                    * 1_000_000
            },
    {
        proof {
            lemma_wait_ends_at_deadline(self.timeout_ms, active as int, elapsed_nanos as int);
            lemma_abort_only_at_deadline(self.timeout_ms, active as int, elapsed_nanos as int);
        }
        if active == 0 {
            return DrainStep::Finished;
        }
        let ms = self.timeout_ms;
        assert(ms * NANOS_PER_MILLI <= u64::MAX * NANOS_PER_MILLI) by (nonlinear_arith)
            requires ms <= u64::MAX;
        let budget: u128 = ms as u128 * NANOS_PER_MILLI;
        if elapsed_nanos >= budget {
            return DrainStep::AbortRemaining;
        }
        let left: u128 = budget - elapsed_nanos;
        DrainStep::WaitUpTo(TimeLeft {
            secs: (left / NANOS_PER_SEC) as u64,
            subsec_nanos: (left % NANOS_PER_SEC) as u32,
        })
    }

    /// What to do once a wait for the next connection to end has come out as `outcome`.
    pub fn after_wait(outcome: WaitOutcome) -> (r: DrainReaction)
        ensures
            r == drain_reaction(outcome),
    {
        match outcome {
            WaitOutcome::TaskCompleted => DrainReaction::KeepWaiting,
            WaitOutcome::TaskFailed => DrainReaction::ReportFailure,
            WaitOutcome::NoTasksLeft => DrainReaction::Finished,
            WaitOutcome::TimedOut => DrainReaction::AbortRemaining,
        }
    }
}

/// Splitting a span into seconds and nanoseconds loses nothing, for every span
/// that a shutdown can wait.
proof fn lemma_time_left_exact(n: int)
    requires
        0 <= n <= u64::MAX * NANOS_PER_MILLI,
    ensures
        time_left_of(n).nanos() == n,
        time_left_of(n).subsec_nanos < 1_000_000_000,
{
    let s = n / NANOS_PER_SEC as int;
    let r = n % NANOS_PER_SEC as int;
    assert(n == s * NANOS_PER_SEC + r && 0 <= r < NANOS_PER_SEC) by (nonlinear_arith)
        requires
            s == n / NANOS_PER_SEC as int,
            r == n % NANOS_PER_SEC as int,
            0 <= n,
    ;
    assert(0 <= s <= u64::MAX) by (nonlinear_arith)
        requires
            s == n / NANOS_PER_SEC as int,
            0 <= n <= u64::MAX * NANOS_PER_MILLI,
    ;
}

/// A shutdown never waits past its deadline: when it waits, the wait is longer
/// than nothing and ends exactly when the time since the shutdown began reaches
/// the timeout.
pub proof fn lemma_wait_ends_at_deadline(timeout_ms: u64, active: int, elapsed: int)
    requires
        0 <= elapsed,
    ensures
        drain_step(timeout_ms, active, elapsed) matches DrainStep::WaitUpTo(t) ==> {
            &&& active != 0
            &&& elapsed < timeout_ms * 1_000_000
            &&& t.secs * 1_000_000_000 + t.subsec_nanos > 0
            &&& t.subsec_nanos < 1_000_000_000
            &&& elapsed + t.secs * 1_000_000_000 + t.subsec_nanos == timeout_ms * 1_000_000
        },
{
    if active != 0 && elapsed < budget_nanos(timeout_ms) {
        assert(budget_nanos(timeout_ms) <= u64::MAX * NANOS_PER_MILLI) by (nonlinear_arith)
            requires
                timeout_ms <= u64::MAX,
        ;
        lemma_time_left_exact(budget_nanos(timeout_ms) - elapsed);
    }
}

/// Open connections are aborted exactly when some are open and the time since
/// the shutdown began has reached the timeout; the shutdown is complete exactly
/// when none is open.
pub proof fn lemma_abort_only_at_deadline(timeout_ms: u64, active: int, elapsed: int)
    requires
        0 <= active,
        0 <= elapsed,
    ensures
        (drain_step(timeout_ms, active, elapsed) == DrainStep::AbortRemaining) <==> (active > 0
            && elapsed >= timeout_ms * NANOS_PER_MILLI),
        (drain_step(timeout_ms, active, elapsed) == DrainStep::Finished) <==> active == 0,
{
}

/// Once a shutdown has decided to abort, it decides so again at every later
/// moment at which connections are still open.
pub proof fn lemma_abort_persists(
    timeout_ms: u64,
    active_before: int,
    elapsed_before: int,
    active_after: int,
    elapsed_after: int,
)
    requires
        elapsed_before <= elapsed_after,
        active_after > 0,
        drain_step(timeout_ms, active_before, elapsed_before) == DrainStep::AbortRemaining,
    ensures
        drain_step(timeout_ms, active_after, elapsed_after) == DrainStep::AbortRemaining,
{
}

/// The later a shutdown waits, the shorter it may wait.
pub proof fn lemma_later_waits_are_shorter(
    timeout_ms: u64,
    active_before: int,
    elapsed_before: int,
    active_after: int,
    elapsed_after: int,
)
    requires
        0 <= elapsed_before <= elapsed_after,
    ensures
        drain_step(timeout_ms, active_before, elapsed_before) matches DrainStep::WaitUpTo(t1)
            ==> drain_step(timeout_ms, active_after, elapsed_after) matches DrainStep::WaitUpTo(t2)
            ==> t2.nanos() <= t1.nanos(),
{
    lemma_wait_ends_at_deadline(timeout_ms, active_before, elapsed_before);
    lemma_wait_ends_at_deadline(timeout_ms, active_after, elapsed_after);
}

/// Waiting for connections ends the shutdown only when no connection task is
/// left or the deadline is reached; a failed task is reported and waiting goes on.
pub proof fn lemma_only_empty_or_deadline_ends_waiting(outcome: WaitOutcome)
    ensures
        (drain_reaction(outcome) == DrainReaction::Finished) <==> outcome == WaitOutcome::NoTasksLeft,
        (drain_reaction(outcome) == DrainReaction::AbortRemaining) <==> outcome == WaitOutcome::TimedOut,
        outcome == WaitOutcome::TaskFailed ==> drain_reaction(outcome) == DrainReaction::ReportFailure,
{
}

} // verus!
