//! The background worker's scheduling decisions: when to claim a job, when
//! to spawn its handler, when to sleep between polls, when to wait for a
//! handler, and when to stop claiming and drain on shutdown. The caller runs
//! the claims, the tasks, the timers and the signals, and reports back what
//! happened.

use vstd::prelude::*;
use crate::config::WorkerConfig;

verus! {

/// What the worker loop knows: how many handlers it has spawned and not yet
/// seen finish, and whether shutdown was requested.
#[derive(Debug, Clone, Copy, PartialEq, Eq, Structural)]
pub struct WorkerState {
    pub in_flight: usize,
    pub stopping: bool,
}

impl WorkerState {
    /// The state of a worker that has just started.
    pub fn new() -> (s: WorkerState)
        ensures
            s == (WorkerState { in_flight: 0, stopping: false }),
    {
        WorkerState { in_flight: 0, stopping: false }
    }
}

/// What the caller reports after performing an action.
#[derive(Debug, Clone, Copy, PartialEq, Eq, Structural)]
pub enum WorkerEvent {
    /// SIGINT or SIGTERM arrived.
    ShutdownRequested,
    /// The worker may look for work: it has started, spawned a handler, or
    /// slept through a poll interval.
    PermitFree,
    /// A claim returned a job.
    Claimed,
    /// A claim found no job ready.
    NothingToClaim,
    /// A claim failed.
    ClaimFailed,
    /// A spawned handler finished.
    HandlerFinished,
}

/// What the caller does next.
#[derive(Debug, Clone, Copy, PartialEq, Eq, Structural)]
pub enum WorkerAction {
    /// Claim the next ready job, and report what the claim returned.
    Claim,
    /// Spawn the handler of the claimed job, then report `PermitFree`.
    Spawn,
    /// Sleep this long, or until shutdown is requested.
    Sleep { millis: u64 },
    /// Wait until a handler finishes or shutdown is requested.
    Wait,
    /// Stop claiming and wait for the running handlers (see
    /// [`shutdown_wait_millis`]).
    Drain,
}

/// The worker's next state and action after `event`, with `concurrency`
/// handlers allowed at once and `poll_interval_ms` between polls.
pub open spec fn worker_next(
    state: WorkerState,
    event: WorkerEvent,
    concurrency: usize,
    poll_interval_ms: u64,
) -> (WorkerState, WorkerAction) {
    match event {
        WorkerEvent::ShutdownRequested => (
            WorkerState { in_flight: state.in_flight, stopping: true },
            WorkerAction::Drain,
        ),
        WorkerEvent::PermitFree => if state.stopping {
            (state, WorkerAction::Drain)
        } else if state.in_flight < concurrency {
            (state, WorkerAction::Claim)
        } else {
            (state, WorkerAction::Wait)
        },
        WorkerEvent::Claimed => if state.stopping {
            (state, WorkerAction::Drain)
        } else if state.in_flight < concurrency {
            (
                WorkerState { in_flight: (state.in_flight + 1) as usize, stopping: false },
                WorkerAction::Spawn,
            )
        } else {
            (state, WorkerAction::Wait)
        },
        WorkerEvent::NothingToClaim | WorkerEvent::ClaimFailed => if state.stopping {
            (state, WorkerAction::Drain)
        } else {
            (state, WorkerAction::Sleep { millis: poll_interval_ms })
        },
        WorkerEvent::HandlerFinished => {
            let rest = WorkerState {
                in_flight: if state.in_flight > 0 {
                    (state.in_flight - 1) as usize
                } else {
                    0
                },
                stopping: state.stopping,
            };
            if state.stopping {
                (rest, WorkerAction::Drain)
            } else if rest.in_flight < concurrency {
                (rest, WorkerAction::Claim)
            } else {
                (rest, WorkerAction::Wait)
            }
        },
    }
}

/// Decide the worker's next state and action after `event`: claim while no
/// shutdown was requested and fewer than `concurrency` handlers run; spawn a
/// claimed job's handler; sleep for the poll interval when there was nothing
/// to claim or the claim failed; wait for a handler when all slots are taken;
/// and once shutdown is requested, never claim or spawn again but drain.
pub fn worker_step(state: WorkerState, event: WorkerEvent, config: &WorkerConfig) -> (r: (
    WorkerState,
    WorkerAction,
))
    requires
        state.in_flight <= config.concurrency,
    ensures
        r == worker_next(state, event, config.concurrency, config.poll_interval_ms),
        r.0.in_flight <= config.concurrency,
        r.1 is Claim ==> !r.0.stopping && r.0.in_flight < config.concurrency,
        r.1 is Spawn ==> !r.0.stopping && r.0.in_flight == state.in_flight + 1,
        (state.stopping || event is ShutdownRequested) ==> r.0.stopping && r.1 is Drain,
        !state.stopping && (event is NothingToClaim || event is ClaimFailed) ==> r.1 == (
        WorkerAction::Sleep { millis: config.poll_interval_ms }),
        (event is HandlerFinished && state.in_flight > 0) ==> r.0.in_flight == state.in_flight - 1,
        r.1 is Wait ==> r.0.in_flight == config.concurrency,
        !state.stopping && (event is PermitFree || event is HandlerFinished) && r.0.in_flight
            < config.concurrency ==> r.1 is Claim,
        !state.stopping && event is Claimed && state.in_flight < config.concurrency ==> r.1 is Spawn,
        r.1 is Spawn ==> event is Claimed,
        !(event is HandlerFinished) && !(r.1 is Spawn) ==> r.0.in_flight == state.in_flight,
        r.0.stopping == (state.stopping || event is ShutdownRequested),
{
    match event {
        WorkerEvent::ShutdownRequested => (
            WorkerState { in_flight: state.in_flight, stopping: true },
            WorkerAction::Drain,
        ),
        WorkerEvent::PermitFree => if state.stopping {
            (state, WorkerAction::Drain)
        } else if state.in_flight < config.concurrency {
            (state, WorkerAction::Claim)
        } else {
            (state, WorkerAction::Wait)
        },
        WorkerEvent::Claimed => if state.stopping {
            (state, WorkerAction::Drain)
        } else if state.in_flight < config.concurrency {
            (WorkerState { in_flight: state.in_flight + 1, stopping: false }, WorkerAction::Spawn)
        } else {
            (state, WorkerAction::Wait)
        },
        WorkerEvent::NothingToClaim | WorkerEvent::ClaimFailed => if state.stopping {
            (state, WorkerAction::Drain)
        } else {
            (state, WorkerAction::Sleep { millis: config.poll_interval_ms })
        },
        WorkerEvent::HandlerFinished => {
            let rest = WorkerState {
                in_flight: if state.in_flight > 0 {
                    state.in_flight - 1
                } else {
                    0
                },
                stopping: state.stopping,
            };
            if state.stopping {
                (rest, WorkerAction::Drain)
            } else if rest.in_flight < config.concurrency {
                (rest, WorkerAction::Claim)
            } else {
                (rest, WorkerAction::Wait)
            }
        },
    }
}

/// The worker waits only when every slot is taken: without a shutdown
/// request, when a slot is free after the worker looked for work or a handler
/// finished, it claims the next job; a claimed job is spawned whenever a slot
/// is free; and it never waits with a free slot.
pub proof fn lemma_worker_claims_when_a_slot_is_free(
    state: WorkerState,
    event: WorkerEvent,
    concurrency: usize,
    poll_interval_ms: u64,
)
    requires
        state.in_flight <= concurrency,
    ensures
        worker_next(state, event, concurrency, poll_interval_ms).1 is Wait ==> worker_next(
            state,
            event,
            concurrency,
            poll_interval_ms,
        ).0.in_flight == concurrency,
        !state.stopping && (event is PermitFree || event is HandlerFinished) && worker_next(
            state,
            event,
            concurrency,
            poll_interval_ms,
        ).0.in_flight < concurrency ==> worker_next(state, event, concurrency, poll_interval_ms).1 is Claim,
        !state.stopping && event is HandlerFinished && state.in_flight > 0 ==> worker_next(
            state,
            event,
            concurrency,
            poll_interval_ms,
        ).0 == (WorkerState { in_flight: (state.in_flight - 1) as usize, stopping: false }),
        !state.stopping && event is Claimed && state.in_flight < concurrency ==> worker_next(
            state,
            event,
            concurrency,
            poll_interval_ms,
        ) == (WorkerState { in_flight: (state.in_flight + 1) as usize, stopping: false }, WorkerAction::Spawn),
        worker_next(state, event, concurrency, poll_interval_ms).1 is Spawn ==> event is Claimed,
        !(event is HandlerFinished) && !(worker_next(state, event, concurrency, poll_interval_ms).1 is Spawn)
            ==> worker_next(state, event, concurrency, poll_interval_ms).0.in_flight == state.in_flight,
        worker_next(state, event, concurrency, poll_interval_ms).0.stopping == (state.stopping
            || event is ShutdownRequested),
{
}

/// The worker's state after a sequence of events, from a fresh start.
pub open spec fn worker_after(
    events: Seq<WorkerEvent>,
    concurrency: usize,
    poll_interval_ms: u64,
) -> WorkerState
    decreases events.len(),
{
    if events.len() == 0 {
        WorkerState { in_flight: 0, stopping: false }
    } else {
        worker_next(
            worker_after(events.drop_last(), concurrency, poll_interval_ms),
            events.last(),
            concurrency,
            poll_interval_ms,
        ).0
    }
}

/// The action the worker takes on the `i`-th event of a sequence.
pub open spec fn worker_action_at(
    events: Seq<WorkerEvent>,
    i: int,
    concurrency: usize,
    poll_interval_ms: u64,
) -> WorkerAction {
    worker_next(
        worker_after(events.take(i), concurrency, poll_interval_ms),
        events[i],
        concurrency,
        poll_interval_ms,
    ).1
}

proof fn lemma_worker_after_prefix(events: Seq<WorkerEvent>, concurrency: usize, poll: u64)
    ensures
        worker_after(events, concurrency, poll).in_flight <= concurrency,
        (exists|j: int| 0 <= j < events.len() && #[trigger] events[j] == WorkerEvent::ShutdownRequested)
            ==> worker_after(events, concurrency, poll).stopping,
    decreases events.len(),
{
    if events.len() > 0 {
        let d = events.drop_last();
        lemma_worker_after_prefix(d, concurrency, poll);
        if exists|j: int| 0 <= j < events.len() && #[trigger] events[j] == WorkerEvent::ShutdownRequested {
            let j = choose|j: int| 0 <= j < events.len() && #[trigger] events[j] == WorkerEvent::ShutdownRequested;
            if j < d.len() {
                assert(d[j] == events[j]);
            }
        }
    }
}

/// Whatever happens, the worker never has more than `concurrency` handlers
/// in flight, and once shutdown was requested it never claims a job or
/// spawns a handler again.
pub proof fn lemma_worker_bounded(config: WorkerConfig, events: Seq<WorkerEvent>)
    ensures
        worker_after(events, config.concurrency, config.poll_interval_ms).in_flight
            <= config.concurrency,
        forall|i: int, j: int|
            #![trigger worker_action_at(events, i, config.concurrency, config.poll_interval_ms), events[j]]
            0 <= j <= i < events.len() && events[j] == WorkerEvent::ShutdownRequested ==> !(
            worker_action_at(events, i, config.concurrency, config.poll_interval_ms) is Claim)
                && !(worker_action_at(events, i, config.concurrency, config.poll_interval_ms) is Spawn),
{
    lemma_worker_after_prefix(events, config.concurrency, config.poll_interval_ms);
    assert forall|i: int, j: int|
        #![trigger worker_action_at(events, i, config.concurrency, config.poll_interval_ms), events[j]]
        0 <= j <= i < events.len() && events[j] == WorkerEvent::ShutdownRequested implies !(
        worker_action_at(events, i, config.concurrency, config.poll_interval_ms) is Claim)
            && !(worker_action_at(events, i, config.concurrency, config.poll_interval_ms) is Spawn) by {
        let p = events.take(i);
        lemma_worker_after_prefix(p, config.concurrency, config.poll_interval_ms);
        if j < i {
            assert(p[j] == events[j]);
        }
    }
}

/// How long shutdown still waits for a running handler, in milliseconds,
/// `elapsed_millis` after it began with a timeout of `timeout_secs` seconds:
/// what is left of the timeout (at most `u64::MAX`), or `None` once it is
/// over, when the remaining handlers are aborted.
pub open spec fn shutdown_wait(elapsed_millis: u64, timeout_secs: u64) -> Option<int> {
    let total = timeout_secs * 1000;
    if elapsed_millis < total {
        Some(if total - elapsed_millis > u64::MAX { u64::MAX as int } else { total - elapsed_millis })
    } else {
        None
    }
}

/// How long shutdown still waits for a running handler (see
/// [`shutdown_wait`]).
pub fn shutdown_wait_millis(elapsed_millis: u64, timeout_secs: u64) -> (r: Option<u64>)
    ensures
        match shutdown_wait(elapsed_millis, timeout_secs) {
            Some(w) => r == Some(w as u64),
            None => r is None,
        },
{
    let total: u128 = timeout_secs as u128 * 1000;
    if (elapsed_millis as u128) < total {
        let left = total - elapsed_millis as u128;
        if left > u64::MAX as u128 {
            Some(u64::MAX)
        } else {
            Some(left as u64)
        }
    } else {
        None
    }
}

/// What a lease renewal came to.
#[derive(Debug, Clone, Copy, PartialEq, Eq, Structural)]
pub enum RenewalOutcome {
    /// The lease was extended.
    Renewed,
    /// The job no longer held that lease (it may have been reclaimed).
    Refused,
    /// The renewal query failed.
    Failed,
}

/// Whether a running handler keeps renewing its lease after a renewal: only
/// while every renewal succeeded; a refused or failed one switches renewal
/// off for the rest of the run.
pub fn renewal_continues(enabled: bool, outcome: RenewalOutcome) -> (r: bool)
    ensures
        r == (enabled && outcome == RenewalOutcome::Renewed),
{
    enabled && match outcome {
        RenewalOutcome::Renewed => true,
        _ => false,
    }
}

} // verus!
