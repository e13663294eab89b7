//! The connection/session engine: the per-worker connect/send/retry state
//! machine and the scheduler's decisions. The unverified shell performs the
//! actual connects, writes and sleeps, and feeds each outcome back in as an
//! event; every decision in between is made here, so the retry budgets, the
//! emitted statistics and the cancellation behaviour are all verified.

use vstd::prelude::*;

use crate::report::Update;
use crate::testing::portions::PortionSet;

pub mod global;
pub mod portions;

verus! {

/// Where one worker stands in its connect/send/reconnect cycle.
#[derive(Debug, Copy, Clone, PartialEq, Eq, Structural)]
pub enum WorkerState {
    /// No live transport; the next step is one connection attempt.
    Connecting,
    /// The last connection attempt failed; the connect-retry interval passes
    /// before the next attempt.
    RetryWait,
    /// A live transport is held; portion `portion` is being sent, with
    /// `attempts` failed write attempts on it so far.
    Sending { portion: usize, attempts: usize },
    /// The last write went through; the pacing delay passes before portion
    /// `next` — or, one past the last portion, before a deliberate reconnect.
    Pacing { next: usize },
    /// Cancelled; the worker holds nothing and does nothing further.
    Stopped,
}

/// The outcome of one suspension point, reported back by the unverified
/// shell. Cancellation is delivered only here — never mid-write.
#[derive(Debug, Copy, Clone, PartialEq, Eq, Structural)]
pub enum WorkerEvent {
    /// A connection attempt produced a live transport, TLS handshake
    /// included.
    ConnectSucceeded,
    /// A connection attempt failed: timeout, refusal, proxy failure or TLS
    /// handshake failure.
    ConnectFailed,
    /// One full write of the current portion went through.
    WriteSucceeded,
    /// One write attempt of the current portion failed.
    WriteFailed,
    /// The pending sleep has elapsed.
    SleepFinished,
    /// Cancellation was requested.
    Cancelled,
}

/// What the unverified shell must do next for a worker. `Connect` from a
/// state that held a transport means: drop it first, then attempt anew.
#[derive(Debug, Copy, Clone, PartialEq, Eq, Structural)]
pub enum WorkerAction {
    /// Attempt one connection: through the configured proxy if any, bounded
    /// by the connect timeout, with the TLS handshake when enabled.
    Connect,
    /// Sleep the connect-retry interval.
    SleepRetry,
    /// Attempt one full write of portion `portion` on the live transport.
    Write { portion: usize },
    /// Sleep the pacing delay.
    SleepPacing,
    /// The worker is done; drop any held transport.
    Stop,
}

/// Which events can arrive in which state. Cancellation can arrive at every
/// suspension point; everything else answers exactly the pending action.
pub open spec fn event_fits_state(s: WorkerState, e: WorkerEvent) -> bool {
    e is Cancelled || (match s {
        WorkerState::Connecting => e is ConnectSucceeded || e is ConnectFailed,
        WorkerState::RetryWait => e is SleepFinished,
        WorkerState::Sending { .. } => e is WriteSucceeded || e is WriteFailed,
        WorkerState::Pacing { .. } => e is SleepFinished,
        WorkerState::Stopped => false,
    })
}

/// Bounds a state carries relative to the portion count `n` and the write
/// attempt budget `max`: a portion being sent exists, its failed attempts are
/// below the budget, and a pacing target is at most one past the last
/// portion.
pub open spec fn state_wf(s: WorkerState, n: nat, max: nat) -> bool {
    match s {
        WorkerState::Sending { portion, attempts } => portion < n && attempts < max,
        WorkerState::Pacing { next } => next <= n,
        _ => true,
    }
}

/// The worker's transition function over `n` portions with a write budget of
/// `max` attempts: every decision of the send/retry/reconnect cycle.
pub open spec fn step_state(s: WorkerState, e: WorkerEvent, n: nat, max: nat) -> WorkerState {
    if e is Cancelled {
        WorkerState::Stopped
    } else {
        match s {
            WorkerState::Connecting => if e is ConnectSucceeded {
                if n == 0 {
                    // an empty portion set makes a cycle a no-op: reconnect
                    WorkerState::Connecting
                } else {
                    WorkerState::Sending { portion: 0, attempts: 0 }
                }
            } else {
                WorkerState::RetryWait
            },
            WorkerState::RetryWait => WorkerState::Connecting,
            WorkerState::Sending { portion, attempts } => if e is WriteSucceeded {
                WorkerState::Pacing { next: (portion + 1) as usize }
            } else {
                if attempts + 1 < max {
                    WorkerState::Sending { portion, attempts: (attempts + 1) as usize }
                } else {
                    // budget exhausted: abandon the transport, reconnect
                    WorkerState::Connecting
                }
            },
            WorkerState::Pacing { next } => if next < n {
                WorkerState::Sending { portion: next, attempts: 0 }
            } else {
                // the cycle is complete: deliberate reconnect
                WorkerState::Connecting
            },
            WorkerState::Stopped => WorkerState::Stopped,
        }
    }
}

/// The statistics event one step emits, if any: each connection outcome, each
/// transmission that went through (with its byte count), and exactly one
/// failure when the write budget is exhausted. Intermediate failed attempts
/// emit nothing.
pub open spec fn step_update(
    s: WorkerState,
    e: WorkerEvent,
    portions: Seq<Seq<u8>>,
    max: nat,
) -> Option<Update> {
    if e is Cancelled {
        None
    } else {
        match s {
            WorkerState::Connecting => if e is ConnectSucceeded {
                Some(Update::ConnectionSucceed)
            } else {
                Some(Update::ConnectionFailed)
            },
            WorkerState::Sending { portion, attempts } => if e is WriteSucceeded {
                Some(Update::TransmissionSucceed(portions[portion as int].len() as usize))
            } else {
                if attempts + 1 < max {
                    None
                } else {
                    Some(Update::TransmissionFailed)
                }
            },
            _ => None,
        }
    }
}

/// The action a state calls for.
pub open spec fn action_of_state(s: WorkerState) -> WorkerAction {
    match s {
        WorkerState::Connecting => WorkerAction::Connect,
        WorkerState::RetryWait => WorkerAction::SleepRetry,
        WorkerState::Sending { portion, .. } => WorkerAction::Write { portion },
        WorkerState::Pacing { .. } => WorkerAction::SleepPacing,
        WorkerState::Stopped => WorkerAction::Stop,
    }
}

/// One worker: exactly one (possible) transport, one place in the portion
/// cycle, and the configured write attempt budget. The shell owns the actual
/// socket; the worker owns every decision about it.
pub struct Worker {
    state: WorkerState,
    max_write_attempts: usize,
}

impl Worker {
    /// The worker's place in its cycle.
    pub closed spec fn state(self) -> WorkerState {
        self.state
    }

    /// The configured number of write attempts per portion, at least one.
    pub closed spec fn max_attempts(self) -> nat {
        self.max_write_attempts as nat
    }

    #[verifier::type_invariant]
    spec fn wf(self) -> bool {
        self.max_write_attempts >= 1
    }

    /// A fresh worker, about to attempt its first connection.
    /// `max_write_attempts` is the per-portion write budget, at least one.
    pub fn new(max_write_attempts: usize) -> (w: Worker)
        requires
            max_write_attempts >= 1,
        ensures
            w.state() == WorkerState::Connecting,
            w.max_attempts() == max_write_attempts,
    {
        Worker { state: WorkerState::Connecting, max_write_attempts }
    }

    /// What the shell must do next. A `Write` action always names an existing
    /// portion.
    pub fn next_action(&self, portions: &PortionSet) -> (a: WorkerAction)
        requires
            state_wf(self.state(), portions@.len(), self.max_attempts()),
        ensures
            a == action_of_state(self.state()),
            a matches WorkerAction::Write { portion } ==> portion < portions@.len(),
    {
        match self.state {
            WorkerState::Connecting => WorkerAction::Connect,
            WorkerState::RetryWait => WorkerAction::SleepRetry,
            WorkerState::Sending { portion, attempts: _ } => WorkerAction::Write { portion },
            WorkerState::Pacing { .. } => WorkerAction::SleepPacing,
            WorkerState::Stopped => WorkerAction::Stop,
        }
    }

    /// Advances the cycle by one event and returns the statistics event to
    /// record, if any: exactly [`step_state`] and [`step_update`].
    pub fn handle_event(&mut self, portions: &PortionSet, event: WorkerEvent) -> (u: Option<
        Update,
    >)
        requires
            state_wf(old(self).state(), portions@.len(), old(self).max_attempts()),
            event_fits_state(old(self).state(), event),
        ensures
            final (self).state() == step_state(
                old(self).state(),
                event,
                portions@.len(),
                old(self).max_attempts(),
            ),
            final (self).max_attempts() == old(self).max_attempts(),
            u == step_update(old(self).state(), event, portions@, old(self).max_attempts()),
            state_wf(final (self).state(), portions@.len(), final (self).max_attempts()),
    {
        proof {
            use_type_invariant(&*self);
        }
        if matches!(event, WorkerEvent::Cancelled) {
            self.state = WorkerState::Stopped;
            return None;
        }
        match self.state {
            WorkerState::Connecting => {
                if matches!(event, WorkerEvent::ConnectSucceeded) {
                    if portions.len() == 0 {
                        self.state = WorkerState::Connecting;
                    } else {
                        self.state = WorkerState::Sending { portion: 0, attempts: 0 };
                    }
                    Some(Update::ConnectionSucceed)
                } else {
                    self.state = WorkerState::RetryWait;
                    Some(Update::ConnectionFailed)
                }
            },
            WorkerState::RetryWait => {
                self.state = WorkerState::Connecting;
                None
            },
            WorkerState::Sending { portion, attempts } => {
                if matches!(event, WorkerEvent::WriteSucceeded) {
                    let n = portions.len();
                    assert(portion < n);
                    let count = portions.portion(portion).len();
                    self.state = WorkerState::Pacing { next: portion + 1 };
                    Some(Update::TransmissionSucceed(count))
                } else {
                    if attempts + 1 < self.max_write_attempts {
                        self.state = WorkerState::Sending { portion, attempts: attempts + 1 };
                        None
                    } else {
                        self.state = WorkerState::Connecting;
                        Some(Update::TransmissionFailed)
                    }
                }
            },
            WorkerState::Pacing { next } => {
                if next < portions.len() {
                    self.state = WorkerState::Sending { portion: next, attempts: 0 };
                } else {
                    self.state = WorkerState::Connecting;
                }
                None
            },
            WorkerState::Stopped => {
                // unreachable: no event fits the stopped state but Cancelled
                self.state = WorkerState::Stopped;
                None
            },
        }
    }
}

/// The state after a whole sequence of events, applied in order.
pub open spec fn run_state(s: WorkerState, evs: Seq<WorkerEvent>, n: nat, max: nat) -> WorkerState
    decreases evs.len(),
{
    if evs.len() == 0 {
        s
    } else {
        step_state(run_state(s, evs.drop_last(), n, max), evs.last(), n, max)
    }
}

/// The statistics events emitted along a whole sequence of events, in order.
pub open spec fn run_updates(
    s: WorkerState,
    evs: Seq<WorkerEvent>,
    portions: Seq<Seq<u8>>,
    max: nat,
) -> Seq<Update>
    decreases evs.len(),
{
    if evs.len() == 0 {
        Seq::empty()
    } else {
        let prev = run_updates(s, evs.drop_last(), portions, max);
        match step_update(
            run_state(s, evs.drop_last(), portions.len(), max),
            evs.last(),
            portions,
            max,
        ) {
            Some(u) => prev.push(u),
            None => prev,
        }
    }
}

/// `j` failed write attempts in a row, short of the budget, keep the worker
/// on the same portion and the same transport and emit nothing: only the
/// attempt counter grows.
proof fn lemma_failures_below_budget(
    portions: Seq<Seq<u8>>,
    max: usize,
    i: usize,
    a: usize,
    j: usize,
)
    requires
        i < portions.len(),
        a + j < max,
    ensures
        run_state(
            WorkerState::Sending { portion: i, attempts: a },
            Seq::new(j as nat, |k: int| WorkerEvent::WriteFailed),
            portions.len(),
            max as nat,
        ) == (WorkerState::Sending { portion: i, attempts: (a + j) as usize }),
        run_updates(
            WorkerState::Sending { portion: i, attempts: a },
            Seq::new(j as nat, |k: int| WorkerEvent::WriteFailed),
            portions,
            max as nat,
        ) == Seq::<Update>::empty(),
    decreases j,
{
    let evs = Seq::new(j as nat, |k: int| WorkerEvent::WriteFailed);
    if j > 0 {
        lemma_failures_below_budget(portions, max, i, a, (j - 1) as usize);
        assert(evs.drop_last() =~= Seq::new((j - 1) as nat, |k: int| WorkerEvent::WriteFailed));
        assert(evs.last() == WorkerEvent::WriteFailed);
    }
}

/// A worker whose transport fails every write attempt emits exactly one
/// `TransmissionFailed` for the whole budget of `max` attempts, and stands in
/// `Connecting` afterwards: the transport is abandoned and no further write
/// is attempted on it.
pub proof fn lemma_all_write_attempts_fail(portions: Seq<Seq<u8>>, max: usize, i: usize)
    requires
        1 <= max,
        i < portions.len(),
    ensures
        run_state(
            WorkerState::Sending { portion: i, attempts: 0 },
            Seq::new(max as nat, |k: int| WorkerEvent::WriteFailed),
            portions.len(),
            max as nat,
        ) == WorkerState::Connecting,
        run_updates(
            WorkerState::Sending { portion: i, attempts: 0 },
            Seq::new(max as nat, |k: int| WorkerEvent::WriteFailed),
            portions,
            max as nat,
        ) == seq![Update::TransmissionFailed],
{
    let evs = Seq::new(max as nat, |k: int| WorkerEvent::WriteFailed);
    lemma_failures_below_budget(portions, max, i, 0, (max - 1) as usize);
    assert(evs.drop_last() =~= Seq::new((max - 1) as nat, |k: int| WorkerEvent::WriteFailed));
    assert(evs.last() == WorkerEvent::WriteFailed);
    assert(run_updates(
        WorkerState::Sending { portion: i, attempts: 0 },
        evs,
        portions,
        max as nat,
    ) =~= seq![Update::TransmissionFailed]);
}

/// A worker whose first `k` writes fail, short of the budget, and whose next
/// write succeeds emits exactly one `TransmissionSucceed` carrying the
/// portion's byte count — after exactly `k` retries — and paces before the
/// next portion.
pub proof fn lemma_write_retries_then_success(
    portions: Seq<Seq<u8>>,
    max: usize,
    i: usize,
    k: usize,
)
    requires
        k < max,
        i < portions.len(),
        portions[i as int].len() <= usize::MAX,
    ensures
        run_state(
            WorkerState::Sending { portion: i, attempts: 0 },
            Seq::new(k as nat, |j: int| WorkerEvent::WriteFailed).push(
                WorkerEvent::WriteSucceeded,
            ),
            portions.len(),
            max as nat,
        ) == (WorkerState::Pacing { next: (i + 1) as usize }),
        run_updates(
            WorkerState::Sending { portion: i, attempts: 0 },
            Seq::new(k as nat, |j: int| WorkerEvent::WriteFailed).push(
                WorkerEvent::WriteSucceeded,
            ),
            portions,
            max as nat,
        ) == seq![Update::TransmissionSucceed(portions[i as int].len() as usize)],
{
    let fails = Seq::new(k as nat, |j: int| WorkerEvent::WriteFailed);
    let evs = fails.push(WorkerEvent::WriteSucceeded);
    lemma_failures_below_budget(portions, max, i, 0, k);
    assert(evs.drop_last() =~= fails);
    assert(evs.last() == WorkerEvent::WriteSucceeded);
    assert(run_updates(
        WorkerState::Sending { portion: i, attempts: 0 },
        evs,
        portions,
        max as nat,
    ) =~= seq![Update::TransmissionSucceed(portions[i as int].len() as usize)]);
}

/// Whether a worker's share of the test window is over: the test duration,
/// measured from the worker's own spawn instant, has elapsed at `now_ms`. The
/// shell checks this once per portion, at a suspension point, and delivers
/// `Cancelled` when it holds; a deadline past the largest representable
/// instant never passes.
pub fn deadline_passed(spawn_ms: u64, test_duration_ms: u64, now_ms: u64) -> (b: bool)
    ensures
        b == (spawn_ms + test_duration_ms <= now_ms),
{
    test_duration_ms <= u64::MAX - spawn_ms && spawn_ms + test_duration_ms <= now_ms
}

/// Where the whole test run stands, as the scheduler sees it.
#[derive(Debug, Copy, Clone, PartialEq, Eq, Structural)]
pub enum SchedulerState {
    /// The portion set is being loaded; nothing has been launched.
    Loading,
    /// Portions are loaded; the initial waiting period runs, as a guard
    /// against an unwanted launch.
    Waiting,
    /// The workers run; the test-duration clock runs with them.
    Running,
    /// The run is over; the process exits with this code.
    Finished { exit_code: i32 },
}

/// What the unverified shell reports back to the scheduler.
#[derive(Debug, Copy, Clone, PartialEq, Eq, Structural)]
pub enum SchedulerEvent {
    /// The portion set loaded.
    PortionsLoaded,
    /// The portion set failed to load: a fatal error before any launch.
    PortionsFailed,
    /// The initial waiting period has elapsed.
    WaitElapsed,
    /// The whole test duration has elapsed.
    DurationElapsed,
    /// The operator requested an interrupt.
    Interrupted,
}

/// What the shell must do next for the scheduler.
#[derive(Debug, Copy, Clone, PartialEq, Eq, Structural)]
pub enum SchedulerAction {
    /// Load the portion set.
    LoadPortions,
    /// Sleep the initial waiting period.
    SleepInitialWait,
    /// Launch the configured number of workers, then let the test duration
    /// elapse.
    RunWorkers,
    /// Signal cooperative cancellation to every worker, await their
    /// termination, and exit the process with this code.
    Exit { exit_code: i32 },
}

/// The scheduler's transition function: a failed portion load is fatal with
/// exit code one before anything is launched; a completed run and an operator
/// interrupt both end with exit code zero, the interrupt short-circuiting
/// whatever was pending.
pub open spec fn scheduler_step(s: SchedulerState, e: SchedulerEvent) -> SchedulerState {
    if e is Interrupted {
        SchedulerState::Finished { exit_code: 0 }
    } else {
        match s {
            SchedulerState::Loading => if e is PortionsLoaded {
                SchedulerState::Waiting
            } else {
                SchedulerState::Finished { exit_code: 1 }
            },
            SchedulerState::Waiting => SchedulerState::Running,
            SchedulerState::Running => SchedulerState::Finished { exit_code: 0 },
            SchedulerState::Finished { exit_code } => SchedulerState::Finished { exit_code },
        }
    }
}

/// Which events can reach the scheduler in which state.
pub open spec fn scheduler_event_fits(s: SchedulerState, e: SchedulerEvent) -> bool {
    e is Interrupted || (match s {
        SchedulerState::Loading => e is PortionsLoaded || e is PortionsFailed,
        SchedulerState::Waiting => e is WaitElapsed,
        SchedulerState::Running => e is DurationElapsed,
        SchedulerState::Finished { .. } => false,
    })
}

/// The action a scheduler state calls for.
pub open spec fn scheduler_action_of(s: SchedulerState) -> SchedulerAction {
    match s {
        SchedulerState::Loading => SchedulerAction::LoadPortions,
        SchedulerState::Waiting => SchedulerAction::SleepInitialWait,
        SchedulerState::Running => SchedulerAction::RunWorkers,
        SchedulerState::Finished { exit_code } => SchedulerAction::Exit { exit_code },
    }
}

/// Advances the scheduler by one event: exactly [`scheduler_step`].
pub fn scheduler_handle_event(s: SchedulerState, e: SchedulerEvent) -> (t: SchedulerState)
    requires
        scheduler_event_fits(s, e),
    ensures
        t == scheduler_step(s, e),
{
    if matches!(e, SchedulerEvent::Interrupted) {
        SchedulerState::Finished { exit_code: 0 }
    } else {
        match s {
            SchedulerState::Loading => {
                if matches!(e, SchedulerEvent::PortionsLoaded) {
                    SchedulerState::Waiting
                } else {
                    SchedulerState::Finished { exit_code: 1 }
                }
            },
            SchedulerState::Waiting => SchedulerState::Running,
            SchedulerState::Running => SchedulerState::Finished { exit_code: 0 },
            SchedulerState::Finished { exit_code } => SchedulerState::Finished { exit_code },
        }
    }
}

/// The next thing to do for a given scheduler state: exactly
/// [`scheduler_action_of`].
pub fn scheduler_next_action(s: SchedulerState) -> (a: SchedulerAction)
    ensures
        a == scheduler_action_of(s),
{
    match s {
        SchedulerState::Loading => SchedulerAction::LoadPortions,
        SchedulerState::Waiting => SchedulerAction::SleepInitialWait,
        SchedulerState::Running => SchedulerAction::RunWorkers,
        SchedulerState::Finished { exit_code } => SchedulerAction::Exit { exit_code },
    }
}

/// A failed portion load ends the run with exit code one before any worker is
/// launched; every other completed run — the duration elapsing, or an
/// operator interrupt at any point — ends it with exit code zero.
pub proof fn lemma_exit_codes(s: SchedulerState)
    ensures
        scheduler_step(SchedulerState::Loading, SchedulerEvent::PortionsFailed)
            == (SchedulerState::Finished { exit_code: 1 }),
        scheduler_step(SchedulerState::Running, SchedulerEvent::DurationElapsed)
            == (SchedulerState::Finished { exit_code: 0 }),
        scheduler_step(s, SchedulerEvent::Interrupted) == (SchedulerState::Finished {
            exit_code: 0,
        }),
{
}

/// Cancellation, delivered at any suspension point whatever the state, stops
/// the worker at once: no statistics event is emitted, and the stopped state
/// asks for nothing but `Stop`.
pub proof fn lemma_cancellation_is_final(
    s: WorkerState,
    portions: Seq<Seq<u8>>,
    n: nat,
    max: nat,
)
    ensures
        step_state(s, WorkerEvent::Cancelled, n, max) == WorkerState::Stopped,
        step_update(s, WorkerEvent::Cancelled, portions, max) is None,
        action_of_state(WorkerState::Stopped) == WorkerAction::Stop,
{
}

} // verus!
