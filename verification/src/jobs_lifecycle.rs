//! The job lifecycle: statuses, the retry backoff, and the decision taken
//! when a handler finishes (complete, retry later, or fail for good).

use vstd::prelude::*;
use vstd::string::*;
use vstd::arithmetic::mul::lemma_mul_inequality;
use vstd::arithmetic::power2::{lemma2_to64, lemma2_to64_rest, lemma_pow2_pos, lemma_pow2_strictly_increases, pow2};
use vstd::bits::{lemma_u64_shl_is_mul, lemma_u64_pow2_no_overflow};
use crate::jobs::{failure_text, JobFailure, JobRow, MAX_PERSISTED_JOB_ERROR_BYTES};
use crate::text::same_text;

verus! {

/// The status of a stored job.
#[derive(PartialEq, Eq, Structural, Clone, Copy, Debug)]
pub enum JobStatus {
    Pending,
    Running,
    Completed,
    Failed,
}

impl JobStatus {
    /// The stored name of this status.
    pub open spec fn name(self) -> Seq<char> {
        match self {
            JobStatus::Pending => "pending"@,
            JobStatus::Running => "running"@,
            JobStatus::Completed => "completed"@,
            JobStatus::Failed => "failed"@,
        }
    }

    /// The stored name of this status (what `Display` wrote).
    pub fn as_str(&self) -> (s: &'static str)
        ensures
            s@ == self.name(),
    {
        match self {
            JobStatus::Pending => "pending",
            JobStatus::Running => "running",
            JobStatus::Completed => "completed",
            JobStatus::Failed => "failed",
        }
    }

    /// The status stored as `s`; any other text is an [`UnknownStatusError`].
    pub fn parse(s: &str) -> (r: Result<JobStatus, UnknownStatusError>)
        ensures
            r matches Ok(st) ==> st.name() == s@,
            r is Err <==> (forall|st: JobStatus| st.name() != s@),
            r matches Err(e) ==> e.0@ == s@,
    {
        if same_text(s, "pending") {
            assert(JobStatus::Pending.name() == s@);
            Ok(JobStatus::Pending)
        } else if same_text(s, "running") {
            assert(JobStatus::Running.name() == s@);
            Ok(JobStatus::Running)
        } else if same_text(s, "completed") {
            assert(JobStatus::Completed.name() == s@);
            Ok(JobStatus::Completed)
        } else if same_text(s, "failed") {
            assert(JobStatus::Failed.name() == s@);
            Ok(JobStatus::Failed)
        } else {
            assert forall|st: JobStatus| st.name() != s@ by {
                match st {
                    JobStatus::Pending => {},
                    JobStatus::Running => {},
                    JobStatus::Completed => {},
                    JobStatus::Failed => {},
                }
            }
            Err(UnknownStatusError(s.to_owned()))
        }
    }
}

/// A stored status that is not one of the known names.
#[derive(Debug, Clone, PartialEq, Eq)]
pub struct UnknownStatusError(pub String);

impl UnknownStatusError {
    /// The human-readable message (what `Display` printed).
    pub fn message(&self) -> (m: String)
        ensures
            m@ == "unknown job status: "@ + self.0@,
    {
        let mut m = "unknown job status: ".to_owned();
        m.append(self.0.as_str());
        m
    }
}

/// Distinct statuses have distinct names, so a status survives being stored
/// and read back, and a stored name that reads as a status is that status's name.
pub proof fn lemma_status_names_distinct(a: JobStatus, b: JobStatus)
    ensures
        a.name() == b.name() ==> a == b,
{
    reveal_strlit("pending");
    reveal_strlit("running");
    reveal_strlit("completed");
    reveal_strlit("failed");
    if a != b {
        assert(a.name().len() != b.name().len() || a.name()[0] != b.name()[0] || a.name()[1]
            != b.name()[1]);
    }
}

/// Timing and retry settings of the job lifecycle.
#[derive(Debug)]
pub struct JobLifecycleConfig {
    pub lease_duration_secs: i64,
    pub base_backoff_secs: i64,
    pub max_backoff_secs: i64,
    pub max_attempts: i32,
}

impl Default for JobLifecycleConfig {
    fn default() -> (c: Self)
        ensures
            c.lease_duration_secs == 30,
            c.base_backoff_secs == 1,
            c.max_backoff_secs == 300,
            c.max_attempts == 3,
    {
        JobLifecycleConfig {
            lease_duration_secs: 30,
            base_backoff_secs: 1,
            max_backoff_secs: 300,
            max_attempts: 3,
        }
    }
}

impl JobLifecycleConfig {
    /// The default settings with the given lease duration.
    pub fn with_lease(lease_duration_secs: i64) -> (c: Self)
        ensures
            c.lease_duration_secs == lease_duration_secs,
            c.base_backoff_secs == 1,
            c.max_backoff_secs == 300,
            c.max_attempts == 3,
    {
        JobLifecycleConfig { lease_duration_secs, ..Default::default() }
    }
}


/// `v` clamped to the range of `i64`.
pub open spec fn saturate_i64(v: int) -> int {
    if v > i64::MAX {
        i64::MAX as int
    } else if v < i64::MIN {
        i64::MIN as int
    } else {
        v
    }
}

/// The product of `x` and `y`, saturating at the bounds of `i64` instead of
/// overflowing (what `i64::saturating_mul` computes).
fn saturating_mul_i64(x: i64, y: i64) -> (r: i64)
    ensures
        r == saturate_i64(x * y),
{
    match x.checked_mul(y) {
        Some(p) => p,
        None => {
            if (x < 0) == (y < 0) {
                assert(x * y >= 0) by (nonlinear_arith)
                    requires
                        (x < 0) == (y < 0),
                ;
                i64::MAX
            } else {
                assert(x * y <= 0) by (nonlinear_arith)
                    requires
                        (x < 0) != (y < 0),
                ;
                i64::MIN
            }
        },
    }
}

/// The exponent of the backoff after `attempts` attempts: one less than the
/// attempts, and never below zero.
pub open spec fn backoff_exponent(attempts: int) -> nat {
    if attempts - 1 > 0 {
        (attempts - 1) as nat
    } else {
        0
    }
}

/// The retry delay, in seconds, after `attempts` attempts:
/// `min(base * 2^(attempts - 1), max)` (the exponent never below zero),
/// computed over unbounded integers and then held within the range of `i64`,
/// which matters only for a negative base or cap.
pub open spec fn backoff_delay_secs(attempts: int, base: int, max: int) -> int {
    let product = base * pow2(backoff_exponent(attempts));
    saturate_i64(
        if max < product {
            max
        } else {
            product
        },
    )
}

/// `1 << e` for `e < 63` is `2^e`.
proof fn lemma_one_shifted_left(e: u32)
    requires
        e < 63,
    ensures
        (1i64 << e) as int == pow2(e as nat),
{
    assert((1i64 << e) == ((1u64 << (e as u64)) as i64)) by (bit_vector)
        requires
            e < 64,
    ;
    lemma_u64_pow2_no_overflow(e as nat);
    lemma_u64_shl_is_mul(1u64, e as u64);
    lemma2_to64();
    lemma2_to64_rest();
    let x = 1u64 << (e as u64);
    assert(x == pow2(e as nat));
    lemma_pow2_strictly_increases(e as nat, 63);
    assert(x < 0x8000_0000_0000_0000u64);
    assert(x as i64 == x);
}

/// From the exponent 63 on, `2^e` exceeds every `i64`.
proof fn lemma_pow2_beyond_i64(e: nat)
    requires
        e >= 63,
    ensures
        pow2(e) > i64::MAX,
{
    lemma2_to64();
    lemma2_to64_rest();
    if e > 63 {
        lemma_pow2_strictly_increases(63, e);
    }
}

/// The delay before the next attempt of a job that has failed `attempts`
/// times so far: `min(base * 2^(attempts - 1), max)` for the configured base
/// and cap.
pub fn backoff_delay(attempts: i32, config: &JobLifecycleConfig) -> (d: i64)
    ensures
        d == backoff_delay_secs(
            attempts as int,
            config.base_backoff_secs as int,
            config.max_backoff_secs as int,
        ),
{
    let exp: u32 = if attempts > 1 {
        (attempts - 1) as u32
    } else {
        0
    };
    let base = config.base_backoff_secs;
    let max = config.max_backoff_secs;
    let ghost e = backoff_exponent(attempts as int);
    assert(exp as nat == e);
    if exp >= 63 {
        proof {
            lemma_pow2_beyond_i64(e);
            if base > 0 {
                lemma_mul_inequality(1, base as int, pow2(e) as int);
            } else if base < 0 {
                lemma_mul_inequality(base as int, -1, pow2(e) as int);
            } else {
                assert(base * pow2(e) == 0) by (nonlinear_arith)
                    requires
                        base == 0,
                ;
            }
        }
        if base > 0 {
            assert(base * pow2(e) > max);
            max
        } else if base == 0 {
            if max < 0 {
                max
            } else {
                0
            }
        } else {
            assert(base * pow2(e) <= i64::MIN);
            i64::MIN
        }
    } else {
        proof {
            lemma_one_shifted_left(exp);
        }
        let delay = saturating_mul_i64(base, 1i64 << exp);
        assert(delay == saturate_i64(base * pow2(e)));
        if max < delay {
            max
        } else {
            delay
        }
    }
}

/// With a nonnegative base and cap, the delay is between zero and the cap,
/// after any number of attempts.
pub proof fn lemma_backoff_bounded(attempts: int, base: int, max: int)
    requires
        0 <= base <= i64::MAX,
        0 <= max <= i64::MAX,
    ensures
        0 <= backoff_delay_secs(attempts, base, max) <= max,
{
    let e = backoff_exponent(attempts);
    lemma_pow2_pos(e);
    lemma_mul_inequality(0, base, pow2(e) as int);
}

/// The documented backoff formula: after `attempts >= 1` attempts, with a
/// nonnegative base and cap, the delay is `min(base * 2^(attempts - 1), max)`.
pub proof fn lemma_backoff_formula(attempts: int, base: int, max: int)
    requires
        1 <= attempts,
        0 <= base <= i64::MAX,
        0 <= max <= i64::MAX,
    ensures
        backoff_delay_secs(attempts, base, max) == if max < base * pow2((attempts - 1) as nat) {
            max
        } else {
            base * pow2((attempts - 1) as nat)
        },
{
    let e = backoff_exponent(attempts);
    assert(e == (attempts - 1) as nat);
    lemma_pow2_pos(e);
    lemma_mul_inequality(0, base, pow2(e) as int);
}

/// With a nonnegative base, later attempts never wait less than earlier
/// ones.
pub proof fn lemma_backoff_monotonic(a: int, b: int, base: int, max: int)
    requires
        a <= b,
        0 <= base,
    ensures
        backoff_delay_secs(a, base, max) <= backoff_delay_secs(b, base, max),
{
    let ea = backoff_exponent(a);
    let eb = backoff_exponent(b);
    if ea < eb {
        lemma_pow2_strictly_increases(ea, eb);
    }
    lemma_mul_inequality(pow2(ea) as int, pow2(eb) as int, base);
    assert(base * pow2(ea) <= base * pow2(eb));
}


/// What to do with a job whose handler has finished.
#[derive(Debug)]
pub enum JobOutcomeAction {
    /// Mark the job completed.
    Complete,
    /// Put the job back in the queue after a delay, recording the diagnostic.
    Retry { delay_secs: i64, error: &'static str },
    /// Mark the job failed for good, recording the diagnostic.
    TerminalFailure { error: &'static str },
}

/// Whether a job that failed on attempt `attempts` of `max_attempts` is retried.
pub open spec fn failed_job_retries(attempts: int, max_attempts: int) -> bool {
    attempts < max_attempts
}

/// Decide what happens to a job whose handler finished with `result`: a
/// success completes it; a failure retries it after the backoff while it has
/// attempts left, and otherwise fails it for good. The recorded diagnostic is
/// always the failure's allowlisted message.
pub fn decide_job_outcome(
    job: &JobRow,
    result: Result<(), JobFailure>,
    config: &JobLifecycleConfig,
) -> (action: JobOutcomeAction)
    ensures
        match result {
            Ok(_) => action is Complete,
            Err(f) => if failed_job_retries(job.attempts as int, job.max_attempts as int) {
                action matches JobOutcomeAction::Retry { delay_secs, error } && delay_secs
                    == backoff_delay_secs(
                    (job.attempts as i32) as int,
                    config.base_backoff_secs as int,
                    config.max_backoff_secs as int,
                ) && error@ == failure_text(f)
            } else {
                action matches JobOutcomeAction::TerminalFailure { error } && error@
                    == failure_text(f)
            },
        },
        action matches JobOutcomeAction::Retry { error, .. } ==> error.spec_bytes().len()
            <= MAX_PERSISTED_JOB_ERROR_BYTES,
        action matches JobOutcomeAction::TerminalFailure { error } ==> error.spec_bytes().len()
            <= MAX_PERSISTED_JOB_ERROR_BYTES,
{
    match result {
        Ok(()) => JobOutcomeAction::Complete,
        Err(error) => {
            if job.attempts < job.max_attempts {
                let delay = backoff_delay(job.attempts as i32, config);
                JobOutcomeAction::Retry { delay_secs: delay, error: error.persisted_message() }
            } else {
                JobOutcomeAction::TerminalFailure { error: error.persisted_message() }
            }
        },
    }
}

/// A job that fails on every attempt, its attempt count going 1, 2, 3, ...,
/// is retried on each attempt before `max(max_attempts, 1)` and fails for
/// good on that attempt: retries are capped and a failing job always reaches
/// a terminal state.
pub proof fn lemma_failing_job_terminates(max_attempts: int)
    ensures
        ({
            let last = if max_attempts < 1 { 1 } else { max_attempts };
            &&& forall|k: int| 1 <= k < last ==> failed_job_retries(k, max_attempts)
            &&& !failed_job_retries(last, max_attempts)
        }),
{
}

/// What becomes of a running job whose lease expired.
#[derive(Debug)]
pub enum ExpiredLeaseAction {
    /// Put the job back in the queue: it has attempts left.
    Requeue,
    /// Fail the job for good, recording the diagnostic: its last allowed
    /// attempt expired.
    TerminalFailure { error: &'static str },
}

/// Decide what becomes of a job whose lease expired after `attempts` of
/// `max_attempts` attempts: it is requeued while attempts remain, and
/// otherwise fails for good rather than running beyond `max_attempts`.
pub fn expired_lease_action(attempts: i64, max_attempts: i64) -> (action: ExpiredLeaseAction)
    ensures
        if failed_job_retries(attempts as int, max_attempts as int) {
            action is Requeue
        } else {
            action matches ExpiredLeaseAction::TerminalFailure { error } && error@ == failure_text(
                JobFailure::LeaseExpiredAfterMaximumAttempts,
            ) && error.spec_bytes().len() <= MAX_PERSISTED_JOB_ERROR_BYTES
        },
{
    if attempts < max_attempts {
        ExpiredLeaseAction::Requeue
    } else {
        ExpiredLeaseAction::TerminalFailure {
            error: JobFailure::LeaseExpiredAfterMaximumAttempts.persisted_message(),
        }
    }
}

/// What happens to a stored job in its lifecycle.
#[derive(Debug, Clone, Copy, PartialEq, Eq, Structural)]
pub enum JobEvent {
    /// A worker claims the job: a pending job becomes running, one attempt
    /// more.
    Claim,
    /// Its handler succeeds: a running job is completed.
    Succeed,
    /// Its handler fails: a running job is retried while attempts remain
    /// (see [`decide_job_outcome`]), and fails for good otherwise.
    Fail,
    /// Its lease expires: a running job is requeued while attempts remain
    /// (see [`expired_lease_action`]), and fails for good otherwise.
    LeaseExpired,
}

/// The status and attempt count of a job after `event`; an event that does
/// not apply to the job's status leaves it as it is.
pub open spec fn next_job_state(status: JobStatus, attempts: int, max_attempts: int, event: JobEvent) -> (
    JobStatus,
    int,
) {
    match event {
        JobEvent::Claim => if status == JobStatus::Pending {
            (JobStatus::Running, attempts + 1)
        } else {
            (status, attempts)
        },
        JobEvent::Succeed => if status == JobStatus::Running {
            (JobStatus::Completed, attempts)
        } else {
            (status, attempts)
        },
        JobEvent::Fail | JobEvent::LeaseExpired => if status == JobStatus::Running {
            if failed_job_retries(attempts, max_attempts) {
                (JobStatus::Pending, attempts)
            } else {
                (JobStatus::Failed, attempts)
            }
        } else {
            (status, attempts)
        },
    }
}

/// The status and attempt count of a job after a sequence of events.
pub open spec fn job_state_after(
    status: JobStatus,
    attempts: int,
    max_attempts: int,
    events: Seq<JobEvent>,
) -> (JobStatus, int)
    decreases events.len(),
{
    if events.len() == 0 {
        (status, attempts)
    } else {
        let (s, a) = job_state_after(status, attempts, max_attempts, events.drop_last());
        next_job_state(s, a, max_attempts, events.last())
    }
}

/// What every job keeps: it never has more attempts than allowed, and a
/// pending job still has an attempt left.
pub open spec fn job_attempts_bounded(status: JobStatus, attempts: int, max_attempts: int) -> bool {
    &&& attempts <= max_attempts
    &&& status == JobStatus::Pending ==> attempts < max_attempts
}

/// No job runs beyond `max_attempts`: a newly enqueued job (pending, no
/// attempt yet, at least one allowed) keeps the bound through any sequence
/// of claims, successes, failures and expired leases.
pub proof fn lemma_attempts_never_exceed_max(
    max_attempts: int,
    status: JobStatus,
    attempts: int,
    events: Seq<JobEvent>,
)
    requires
        job_attempts_bounded(status, attempts, max_attempts),
    ensures
        ({
            let (s, a) = job_state_after(status, attempts, max_attempts, events);
            job_attempts_bounded(s, a, max_attempts)
        }),
        1 <= max_attempts ==> job_attempts_bounded(JobStatus::Pending, 0, max_attempts),
    decreases events.len(),
{
    if events.len() > 0 {
        lemma_attempts_never_exceed_max(max_attempts, status, attempts, events.drop_last());
    }
}

/// How often a running job's lease is renewed: every half lease, at least
/// every second.
pub fn renewal_interval_secs(lease_duration_secs: i64) -> (secs: u64)
    ensures
        secs == if (lease_duration_secs as u64) / 2 > 1 { (lease_duration_secs as u64) / 2 } else { 1 },
{
    let half = lease_duration_secs as u64 / 2;
    if half > 1 {
        half
    } else {
        1
    }
}

} // verus!
