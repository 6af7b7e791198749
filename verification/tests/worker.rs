use promptogether::config::WorkerConfig;
use promptogether::jobs_worker::{
    renewal_continues, shutdown_wait_millis, worker_step, RenewalOutcome, WorkerAction,
    WorkerEvent, WorkerState,
};

fn config(concurrency: usize) -> WorkerConfig {
    WorkerConfig {
        concurrency,
        poll_interval_ms: 250,
        lease_duration_secs: 30,
        shutdown_timeout_secs: 30,
    }
}

#[test]
fn worker_claims_spawns_and_waits_at_the_concurrency_limit() {
    let config = config(2);
    let s = WorkerState::new();
    let (s, a) = worker_step(s, WorkerEvent::PermitFree, &config);
    assert_eq!(a, WorkerAction::Claim);
    let (s, a) = worker_step(s, WorkerEvent::Claimed, &config);
    assert_eq!(a, WorkerAction::Spawn);
    assert_eq!(s.in_flight, 1);
    let (s, a) = worker_step(s, WorkerEvent::PermitFree, &config);
    assert_eq!(a, WorkerAction::Claim);
    let (s, a) = worker_step(s, WorkerEvent::Claimed, &config);
    assert_eq!(a, WorkerAction::Spawn);
    assert_eq!(s.in_flight, 2);
    let (s, a) = worker_step(s, WorkerEvent::PermitFree, &config);
    assert_eq!(a, WorkerAction::Wait);
    assert_eq!(s.in_flight, 2);
    let (s, a) = worker_step(s, WorkerEvent::HandlerFinished, &config);
    assert_eq!(a, WorkerAction::Claim);
    assert_eq!(s.in_flight, 1);
    assert!(!s.stopping);
}

#[test]
fn worker_sleeps_for_the_poll_interval_when_idle_or_failing() {
    let config = config(2);
    let s = WorkerState::new();
    let (s, a) = worker_step(s, WorkerEvent::NothingToClaim, &config);
    assert_eq!(a, WorkerAction::Sleep { millis: 250 });
    let (s, a) = worker_step(s, WorkerEvent::ClaimFailed, &config);
    assert_eq!(a, WorkerAction::Sleep { millis: 250 });
    assert_eq!(s, WorkerState::new());
}

#[test]
fn worker_stops_claiming_after_shutdown() {
    let config = config(1);
    let s = WorkerState::new();
    let (s, _) = worker_step(s, WorkerEvent::PermitFree, &config);
    let (s, _) = worker_step(s, WorkerEvent::Claimed, &config);
    let (s, a) = worker_step(s, WorkerEvent::ShutdownRequested, &config);
    assert_eq!(a, WorkerAction::Drain);
    assert!(s.stopping);
    assert_eq!(s.in_flight, 1);
    let (s, a) = worker_step(s, WorkerEvent::PermitFree, &config);
    assert_eq!(a, WorkerAction::Drain);
    let (s, a) = worker_step(s, WorkerEvent::Claimed, &config);
    assert_eq!(a, WorkerAction::Drain);
    assert_eq!(s.in_flight, 1);
    let (s, a) = worker_step(s, WorkerEvent::NothingToClaim, &config);
    assert_eq!(a, WorkerAction::Drain);
    let (s, a) = worker_step(s, WorkerEvent::HandlerFinished, &config);
    assert_eq!(a, WorkerAction::Drain);
    assert_eq!(s.in_flight, 0);
    assert!(s.stopping);
}

#[test]
fn shutdown_waits_what_is_left_of_the_timeout() {
    assert_eq!(shutdown_wait_millis(0, 30), Some(30_000));
    assert_eq!(shutdown_wait_millis(29_500, 30), Some(500));
    assert_eq!(shutdown_wait_millis(30_000, 30), None);
    assert_eq!(shutdown_wait_millis(45_000, 30), None);
    assert_eq!(shutdown_wait_millis(0, u64::MAX), Some(u64::MAX));
}

#[test]
fn lease_renewal_stops_after_a_refusal_or_failure() {
    assert!(renewal_continues(true, RenewalOutcome::Renewed));
    assert!(!renewal_continues(true, RenewalOutcome::Refused));
    assert!(!renewal_continues(true, RenewalOutcome::Failed));
    assert!(!renewal_continues(false, RenewalOutcome::Renewed));
}
