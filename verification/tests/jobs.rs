use promptogether::jobs::{
    dispatch_job, FixturePayload, JobEnvelope, JobError, JobFailure, JobKind, JobPayload, JobRow,
    NewJob, MAX_PERSISTED_JOB_ERROR_BYTES,
};
use promptogether::jobs_lifecycle::{
    backoff_delay, decide_job_outcome, renewal_interval_secs, JobLifecycleConfig,
    JobOutcomeAction, JobStatus,
};
use promptogether::jobs_lifecycle::{expired_lease_action, ExpiredLeaseAction};

fn row(kind: &str, payload_version: i64, attempts: i64, max_attempts: i64) -> JobRow {
    JobRow {
        id: 42,
        kind: kind.to_string(),
        payload: "{\"should_fail\":false}".to_string(),
        payload_version,
        status: "running".to_string(),
        attempts,
        max_attempts,
        available_at: "2024-01-01T00:00:00Z".to_string(),
        lease_token: Some("lease".to_string()),
        leased_until: None,
        last_error: None,
        created_at: "2024-01-01T00:00:00Z".to_string(),
        updated_at: "2024-01-01T00:00:00Z".to_string(),
    }
}

#[test]
fn job_kind_names_round_trip() {
    assert_eq!(JobKind::Fixture.as_str(), "fixture");
    assert_eq!(JobKind::parse("fixture").unwrap(), JobKind::Fixture);
    match JobKind::parse("email") {
        Err(JobError::UnknownKind(name)) => assert_eq!(name, "email"),
        other => panic!("expected UnknownKind, got {other:?}"),
    }
}

#[test]
fn job_status_names_round_trip() {
    for status in [JobStatus::Pending, JobStatus::Running, JobStatus::Completed, JobStatus::Failed] {
        assert_eq!(JobStatus::parse(status.as_str()).unwrap(), status);
    }
    assert_eq!(JobStatus::Pending.as_str(), "pending");
    assert_eq!(JobStatus::Failed.as_str(), "failed");
    let err = JobStatus::parse("paused").unwrap_err();
    assert_eq!(err.message(), "unknown job status: paused");
}

#[test]
fn job_error_messages_name_kind_and_version() {
    assert_eq!(
        JobError::UnknownKind("email".to_string()).message(),
        "unknown job kind: email"
    );
    assert_eq!(
        JobError::UnsupportedPayloadVersion { kind: JobKind::Fixture, version: 7 }.message(),
        "unsupported payload version 7 for job kind fixture"
    );
    assert_eq!(
        JobError::PayloadDeserialization {
            kind: JobKind::Fixture,
            version: -1,
            error: "eof".to_string(),
        }
        .message(),
        "malformed payload JSON for fixture v-1: eof"
    );
}

#[test]
fn persisted_messages_are_allowlisted_and_bounded() {
    let all = [
        (JobFailure::UnknownKind, "unknown job kind"),
        (JobFailure::UnsupportedPayloadVersion, "unsupported payload version"),
        (JobFailure::MalformedPayload, "malformed job payload"),
        (JobFailure::FixtureIntentionalFailure, "fixture job intentionally failed"),
        (JobFailure::HandlerFailure, "job handler failed"),
        (JobFailure::LeaseExpiredAfterMaximumAttempts, "lease expired after maximum attempts"),
    ];
    for (failure, text) in all {
        assert_eq!(failure.persisted_message(), text);
        assert!(failure.persisted_message().len() <= MAX_PERSISTED_JOB_ERROR_BYTES);
    }
}

#[test]
fn payload_errors_map_to_their_failures() {
    assert_eq!(
        JobFailure::from_error(&JobError::UnknownKind("x".to_string())),
        JobFailure::UnknownKind
    );
    assert_eq!(
        JobFailure::from_error(&JobError::UnsupportedPayloadVersion { kind: JobKind::Fixture, version: 2 }),
        JobFailure::UnsupportedPayloadVersion
    );
    assert_eq!(
        JobFailure::from_error(&JobError::PayloadDeserialization {
            kind: JobKind::Fixture,
            version: 1,
            error: "bad".to_string(),
        }),
        JobFailure::MalformedPayload
    );
}

#[test]
fn new_job_carries_kind_and_version_of_the_payload_type() {
    let job = NewJob::for_payload::<FixturePayload>("{\"should_fail\":true}".to_string());
    assert_eq!(job.kind, "fixture");
    assert_eq!(job.payload, "{\"should_fail\":true}");
    assert_eq!(job.payload_version, 1);
    assert_eq!(<FixturePayload as JobPayload>::kind(), JobKind::Fixture);
    assert_eq!(<FixturePayload as JobPayload>::version(), 1);
}

#[test]
fn envelope_accepts_registered_kinds_only() {
    let envelope = JobEnvelope::try_from_row(row("fixture", 1, 1, 3)).unwrap();
    assert_eq!(*envelope.kind(), JobKind::Fixture);
    assert_eq!(envelope.id(), 42);
    assert_eq!(envelope.row().kind, "fixture");
    match JobEnvelope::try_from_row(row("unknown", 1, 1, 3)) {
        Err(JobError::UnknownKind(name)) => assert_eq!(name, "unknown"),
        other => panic!("expected UnknownKind, got {other:?}"),
    }
}

#[test]
fn payload_validation_checks_version_before_decoding() {
    let current = JobEnvelope::try_from_row(row("fixture", 1, 1, 3)).unwrap();
    assert!(current
        .validate_payload::<FixturePayload>(Ok(FixturePayload { should_fail: false }))
        .is_ok());
    match current.validate_payload::<FixturePayload>(Err("expected value".to_string())) {
        Err(JobError::PayloadDeserialization { kind, version, error }) => {
            assert_eq!(kind, JobKind::Fixture);
            assert_eq!(version, 1);
            assert_eq!(error, "expected value");
        }
        other => panic!("expected PayloadDeserialization, got {other:?}"),
    }
    let old = JobEnvelope::try_from_row(row("fixture", 2, 1, 3)).unwrap();
    match old.parse_payload::<FixturePayload>(Err("ignored".to_string())) {
        Err(JobError::UnsupportedPayloadVersion { kind, version }) => {
            assert_eq!(kind, JobKind::Fixture);
            assert_eq!(version, 2);
        }
        other => panic!("expected UnsupportedPayloadVersion, got {other:?}"),
    }
    let parsed = current
        .parse_payload::<FixturePayload>(Ok(FixturePayload { should_fail: true }))
        .unwrap();
    assert!(parsed.should_fail);
}

#[test]
fn dispatch_decides_each_job_outcome() {
    assert_eq!(dispatch_job(row("fixture", 1, 1, 3), Ok(FixturePayload { should_fail: false })), Ok(()));
    assert_eq!(
        dispatch_job(row("fixture", 1, 1, 3), Ok(FixturePayload { should_fail: true })),
        Err(JobFailure::FixtureIntentionalFailure)
    );
    assert_eq!(
        dispatch_job(row("fixture", 1, 1, 3), Err("bad json".to_string())),
        Err(JobFailure::MalformedPayload)
    );
    assert_eq!(
        dispatch_job(row("fixture", 9, 1, 3), Ok(FixturePayload { should_fail: false })),
        Err(JobFailure::UnsupportedPayloadVersion)
    );
    assert_eq!(
        dispatch_job(row("mystery", 1, 1, 3), Ok(FixturePayload { should_fail: false })),
        Err(JobFailure::UnknownKind)
    );
}

#[test]
fn default_lifecycle_settings() {
    let config = JobLifecycleConfig::default();
    assert_eq!(config.lease_duration_secs, 30);
    assert_eq!(config.base_backoff_secs, 1);
    assert_eq!(config.max_backoff_secs, 300);
    assert_eq!(config.max_attempts, 3);
    let leased = JobLifecycleConfig::with_lease(5);
    assert_eq!(leased.lease_duration_secs, 5);
    assert_eq!(leased.max_attempts, 3);
}

#[test]
fn backoff_doubles_per_attempt_up_to_the_cap() {
    let config = JobLifecycleConfig::default();
    let delays: Vec<i64> = (0..=10).map(|a| backoff_delay(a, &config)).collect();
    assert_eq!(delays, vec![1, 1, 2, 4, 8, 16, 32, 64, 128, 256, 300]);
    assert_eq!(backoff_delay(-5, &config), 1);
    assert_eq!(backoff_delay(40, &config), 300);
    assert_eq!(backoff_delay(63, &config), 300);
    assert_eq!(backoff_delay(64, &config), 300);
    assert_eq!(backoff_delay(65, &config), 300);
    assert_eq!(backoff_delay(i32::MAX, &config), 300);
    assert_eq!(backoff_delay(i32::MIN, &config), 1);
}

#[test]
fn backoff_with_a_zero_or_negative_base() {
    let zero = JobLifecycleConfig {
        lease_duration_secs: 30,
        base_backoff_secs: 0,
        max_backoff_secs: 300,
        max_attempts: 3,
    };
    assert_eq!(backoff_delay(100, &zero), 0);
    let negative = JobLifecycleConfig {
        lease_duration_secs: 30,
        base_backoff_secs: -1,
        max_backoff_secs: 300,
        max_attempts: 3,
    };
    assert_eq!(backoff_delay(3, &negative), -4);
    assert_eq!(backoff_delay(100, &negative), i64::MIN);
}

#[test]
fn backoff_saturates_instead_of_overflowing() {
    let config = JobLifecycleConfig {
        lease_duration_secs: 30,
        base_backoff_secs: 1 << 40,
        max_backoff_secs: i64::MAX,
        max_attempts: 3,
    };
    assert_eq!(backoff_delay(30, &config), i64::MAX);
    assert_eq!(backoff_delay(2, &config), 1 << 41);
}

#[test]
fn backoff_is_monotonic_in_the_attempt_count() {
    let config = JobLifecycleConfig::default();
    for a in 1..200 {
        assert!(backoff_delay(a, &config) <= backoff_delay(a + 1, &config));
    }
}

#[test]
fn failed_jobs_retry_until_the_last_attempt() {
    let config = JobLifecycleConfig::default();
    match decide_job_outcome(&row("fixture", 1, 1, 3), Err(JobFailure::HandlerFailure), &config) {
        JobOutcomeAction::Retry { delay_secs, error } => {
            assert_eq!(delay_secs, 1);
            assert_eq!(error, "job handler failed");
        }
        other => panic!("expected Retry, got {other:?}"),
    }
    match decide_job_outcome(&row("fixture", 1, 2, 3), Err(JobFailure::MalformedPayload), &config) {
        JobOutcomeAction::Retry { delay_secs, .. } => assert_eq!(delay_secs, 2),
        other => panic!("expected Retry, got {other:?}"),
    }
    match decide_job_outcome(&row("fixture", 1, 3, 3), Err(JobFailure::UnknownKind), &config) {
        JobOutcomeAction::TerminalFailure { error } => assert_eq!(error, "unknown job kind"),
        other => panic!("expected TerminalFailure, got {other:?}"),
    }
    assert!(matches!(
        decide_job_outcome(&row("fixture", 1, 3, 3), Ok(()), &config),
        JobOutcomeAction::Complete
    ));
}

#[test]
fn a_job_that_always_fails_reaches_a_terminal_state() {
    let config = JobLifecycleConfig::default();
    let mut attempts = 1;
    loop {
        match decide_job_outcome(&row("fixture", 1, attempts, 3), Err(JobFailure::HandlerFailure), &config) {
            JobOutcomeAction::Retry { .. } => attempts += 1,
            JobOutcomeAction::TerminalFailure { .. } => break,
            JobOutcomeAction::Complete => panic!("a failure never completes"),
        }
    }
    assert_eq!(attempts, 3);
}

#[test]
fn lease_is_renewed_every_half_lease_and_at_least_every_second() {
    assert_eq!(renewal_interval_secs(30), 15);
    assert_eq!(renewal_interval_secs(3), 1);
    assert_eq!(renewal_interval_secs(1), 1);
    assert_eq!(renewal_interval_secs(0), 1);
}

#[test]
fn expired_leases_requeue_only_while_attempts_remain() {
    assert!(matches!(expired_lease_action(1, 3), ExpiredLeaseAction::Requeue));
    assert!(matches!(expired_lease_action(2, 3), ExpiredLeaseAction::Requeue));
    match expired_lease_action(3, 3) {
        ExpiredLeaseAction::TerminalFailure { error } => {
            assert_eq!(error, "lease expired after maximum attempts")
        }
        other => panic!("expected TerminalFailure, got {other:?}"),
    }
    assert!(matches!(expired_lease_action(4, 3), ExpiredLeaseAction::TerminalFailure { .. }));
}

#[test]
fn late_retries_wait_the_capped_delay() {
    let config = JobLifecycleConfig::default();
    match decide_job_outcome(&row("fixture", 1, 70, 100), Err(JobFailure::HandlerFailure), &config) {
        JobOutcomeAction::Retry { delay_secs, .. } => assert_eq!(delay_secs, 300),
        other => panic!("expected Retry, got {other:?}"),
    }
}

#[test]
fn a_stored_fixture_payload_reads_back() {
    let job = NewJob::for_payload::<FixturePayload>("{\"should_fail\":true}".to_string());
    let mut stored = row("x", 0, 0, 3);
    stored.kind = job.kind.clone();
    stored.payload = job.payload.clone();
    stored.payload_version = job.payload_version;
    let envelope = JobEnvelope::try_from_row(stored).unwrap();
    let payload = envelope
        .parse_payload::<FixturePayload>(Ok(FixturePayload { should_fail: true }))
        .unwrap();
    assert!(payload.should_fail);
}
