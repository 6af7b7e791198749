//! Durable background jobs: the stored job row, the registry of job kinds,
//! the versioned payload envelope, and the allowlisted failure diagnostics
//! that may be persisted.

use vstd::prelude::*;
use vstd::string::*;
use vstd::utf8::*;
use crate::text::{i64_to_string, same_text, signed_decimal};

verus! {

/// A stored job.
#[derive(Debug, Clone)]
pub struct JobRow {
    pub id: i64,
    pub kind: String,
    pub payload: String,
    pub payload_version: i64,
    pub status: String,
    pub attempts: i64,
    pub max_attempts: i64,
    pub available_at: String,
    pub lease_token: Option<String>,
    pub leased_until: Option<String>,
    pub last_error: Option<String>,
    pub created_at: String,
    pub updated_at: String,
}

/// The registry of job kinds.
#[derive(PartialEq, Eq, Structural, Clone, Copy, Debug)]
pub enum JobKind {
    Fixture,
}

impl JobKind {
    /// The stored name of this kind.
    pub open spec fn name(self) -> Seq<char> {
        match self {
            JobKind::Fixture => "fixture"@,
        }
    }

    /// The stored name of this kind (what `Display` wrote).
    pub fn as_str(&self) -> (s: &'static str)
        ensures
            s@ == self.name(),
    {
        match self {
            JobKind::Fixture => "fixture",
        }
    }

    /// The kind stored as `s`; an unknown name is an [`JobError::UnknownKind`].
    pub fn parse(s: &str) -> (r: Result<JobKind, JobError>)
        ensures
            r matches Ok(k) ==> k.name() == s@,
            r is Err <==> (forall|k: JobKind| k.name() != s@),
            r matches Err(e) ==> e matches JobError::UnknownKind(name) && name@ == s@,
    {
        if same_text(s, "fixture") {
            Ok(JobKind::Fixture)
        } else {
            assert forall|k: JobKind| k.name() != s@ by {
                match k {
                    JobKind::Fixture => {},
                }
            }
            Err(JobError::UnknownKind(s.to_owned()))
        }
    }
}

/// A job payload of a registered kind, stored as JSON with a version.
#[derive(Debug, Clone)]
pub struct FixturePayload {
    pub should_fail: bool,
}

/// A payload type of the registry: its kind and the payload version it is
/// stored with.
pub trait JobPayload: Sized {
    /// The kind of job this payload belongs to.
    spec fn spec_kind() -> JobKind;

    /// The payload version this type reads and writes.
    spec fn spec_version() -> u32;

    fn kind() -> (k: JobKind)
        ensures
            k == Self::spec_kind(),
    ;

    fn version() -> (v: u32)
        ensures
            v == Self::spec_version(),
    ;
}

impl JobPayload for FixturePayload {
    open spec fn spec_kind() -> JobKind {
        JobKind::Fixture
    }

    open spec fn spec_version() -> u32 {
        1
    }

    fn kind() -> (k: JobKind) {
        JobKind::Fixture
    }

    fn version() -> (v: u32) {
        1
    }
}

/// Why a stored job could not be turned into a typed payload.
#[derive(Debug, Clone)]
pub enum JobError {
    UnknownKind(String),
    UnsupportedPayloadVersion { kind: JobKind, version: i64 },
    PayloadDeserialization { kind: JobKind, version: i64, error: String },
}

impl JobError {
    /// The human-readable message for this error.
    pub open spec fn describe(&self) -> Seq<char> {
        match self {
            JobError::UnknownKind(kind) => "unknown job kind: "@ + kind@,
            JobError::UnsupportedPayloadVersion { kind, version } => "unsupported payload version "@
                + signed_decimal(*version as int) + " for job kind "@ + kind.name(),
            JobError::PayloadDeserialization { kind, version, error } =>
                "malformed payload JSON for "@ + kind.name() + " v"@ + signed_decimal(
                *version as int,
            ) + ": "@ + error@,
        }
    }

    /// The human-readable message for this error (what `Display` printed).
    pub fn message(&self) -> (m: String)
        ensures
            m@ == self.describe(),
    {
        match self {
            JobError::UnknownKind(kind) => {
                let mut m = "unknown job kind: ".to_owned();
                m.append(kind.as_str());
                m
            },
            JobError::UnsupportedPayloadVersion { kind, version } => {
                let mut m = "unsupported payload version ".to_owned();
                m.append(i64_to_string(*version).as_str());
                m.append(" for job kind ");
                m.append(kind.as_str());
                m
            },
            JobError::PayloadDeserialization { kind, version, error } => {
                let mut m = "malformed payload JSON for ".to_owned();
                m.append(kind.as_str());
                m.append(" v");
                m.append(i64_to_string(*version).as_str());
                m.append(": ");
                m.append(error.as_str());
                m
            },
        }
    }
}

/// Maximum size, in bytes, of a diagnostic stored in `jobs.last_error`.
///
/// Persisted diagnostics are selected from the allowlisted messages of
/// [`JobFailure`]. They intentionally exclude payload data, parser output, and
/// handler-provided text, any of which may contain secrets.
pub const MAX_PERSISTED_JOB_ERROR_BYTES: usize = 128;

/// The outcome of a failed job, as far as it may be persisted.
#[derive(PartialEq, Eq, Structural, Clone, Copy, Debug)]
pub enum JobFailure {
    UnknownKind,
    UnsupportedPayloadVersion,
    MalformedPayload,
    FixtureIntentionalFailure,
    HandlerFailure,
    LeaseExpiredAfterMaximumAttempts,
}

/// The allowlisted diagnostic of each failure.
pub open spec fn failure_text(f: JobFailure) -> Seq<char> {
    match f {
        JobFailure::UnknownKind => "unknown job kind"@,
        JobFailure::UnsupportedPayloadVersion => "unsupported payload version"@,
        JobFailure::MalformedPayload => "malformed job payload"@,
        JobFailure::FixtureIntentionalFailure => "fixture job intentionally failed"@,
        JobFailure::HandlerFailure => "job handler failed"@,
        JobFailure::LeaseExpiredAfterMaximumAttempts => "lease expired after maximum attempts"@,
    }
}

/// A literal of plain ASCII characters is as many bytes long as it has characters.
proof fn lemma_ascii_literal_bytes(s: &str)
    requires
        is_ascii_chars(s@),
    ensures
        s.spec_bytes().len() == s@.len(),
{
    is_ascii_chars_encode_utf8(s@);
}

impl JobFailure {
    /// The allowlisted diagnostic to persist for this failure; it never
    /// exceeds `MAX_PERSISTED_JOB_ERROR_BYTES` bytes.
    pub fn persisted_message(self) -> (m: &'static str)
        ensures
            m@ == failure_text(self),
            m.spec_bytes().len() <= MAX_PERSISTED_JOB_ERROR_BYTES,
    {
        let message = match self {
            JobFailure::UnknownKind => "unknown job kind",
            JobFailure::UnsupportedPayloadVersion => "unsupported payload version",
            JobFailure::MalformedPayload => "malformed job payload",
            JobFailure::FixtureIntentionalFailure => "fixture job intentionally failed",
            JobFailure::HandlerFailure => "job handler failed",
            JobFailure::LeaseExpiredAfterMaximumAttempts => "lease expired after maximum attempts",
        };
        proof {
            reveal_strlit("unknown job kind");
            reveal_strlit("unsupported payload version");
            reveal_strlit("malformed job payload");
            reveal_strlit("fixture job intentionally failed");
            reveal_strlit("job handler failed");
            reveal_strlit("lease expired after maximum attempts");
            lemma_ascii_literal_bytes(message);
        }
        if message.len() <= MAX_PERSISTED_JOB_ERROR_BYTES {
            message
        } else {
            // Preserve the storage bound even if a future allowlisted message is
            // accidentally made too long. Never truncate possibly sensitive text.
            "job failure"
        }
    }

    /// The failure persisted for a payload error.
    pub fn from_error(error: &JobError) -> (f: JobFailure)
        ensures
            f == match error {
                JobError::UnknownKind(_) => JobFailure::UnknownKind,
                JobError::UnsupportedPayloadVersion { .. } => JobFailure::UnsupportedPayloadVersion,
                JobError::PayloadDeserialization { .. } => JobFailure::MalformedPayload,
            },
    {
        match error {
            JobError::UnknownKind(_) => JobFailure::UnknownKind,
            JobError::UnsupportedPayloadVersion { .. } => JobFailure::UnsupportedPayloadVersion,
            JobError::PayloadDeserialization { .. } => JobFailure::MalformedPayload,
        }
    }
}


/// A job ready to be stored: its kind name, JSON payload and payload version.
#[derive(Debug)]
pub struct NewJob {
    pub kind: String,
    pub payload: String,
    pub payload_version: i64,
}

impl NewJob {
    /// The job for a payload of type `P` whose JSON encoding is `payload_json`.
    pub fn for_payload<P: JobPayload>(payload_json: String) -> (job: NewJob)
        ensures
            job.kind@ == P::spec_kind().name(),
            job.payload == payload_json,
            job.payload_version == P::spec_version() as i64,
    {
        NewJob {
            kind: P::kind().as_str().to_owned(),
            payload: payload_json,
            payload_version: P::version() as i64,
        }
    }
}

/// A stored job whose kind is registered.
#[derive(Debug)]
pub struct JobEnvelope {
    row: JobRow,
    kind: JobKind,
}

impl JobEnvelope {
    /// The stored row.
    pub closed spec fn stored_row(&self) -> JobRow {
        self.row
    }

    /// The registered kind of the stored row.
    pub closed spec fn stored_kind(&self) -> JobKind {
        self.kind
    }

    /// The kind is the one the stored row names.
    #[verifier::type_invariant]
    spec fn kind_matches_row(self) -> bool {
        self.kind.name() == self.row.kind@
    }

    /// The envelope of a stored job; a kind that is not registered is refused.
    pub fn try_from_row(row: JobRow) -> (r: Result<JobEnvelope, JobError>)
        ensures
            r is Err <==> (forall|k: JobKind| k.name() != row.kind@),
            r matches Ok(e) ==> e.stored_row() == row && e.stored_kind().name() == row.kind@,
            r matches Err(e) ==> e matches JobError::UnknownKind(name) && name@ == row.kind@,
    {
        let kind = JobKind::parse(row.kind.as_str())?;
        Ok(JobEnvelope { row, kind })
    }

    /// The error, if any, of reading this job's payload as a `P`: a payload of
    /// another kind, then one stored with another version.
    pub open spec fn header_error<P: JobPayload>(&self) -> Option<JobError> {
        if self.stored_kind() != P::spec_kind() {
            Some(JobError::UnknownKind(self.stored_row().kind))
        } else if self.stored_row().payload_version != P::spec_version() as i64 {
            Some(
                JobError::UnsupportedPayloadVersion {
                    kind: self.stored_kind(),
                    version: self.stored_row().payload_version,
                },
            )
        } else {
            None
        }
    }

    /// Reading the payload as a `P`, where `decoded` is the outcome of decoding
    /// the stored JSON as a `P` (its error text on failure): a wrong kind or
    /// version is refused before the decoding outcome counts.
    pub open spec fn payload_result<P: JobPayload>(&self, decoded: Result<P, String>) -> Result<
        P,
        JobError,
    > {
        match self.header_error::<P>() {
            Some(e) => Err(e),
            None => match decoded {
                Ok(p) => Ok(p),
                Err(msg) => Err(
                    JobError::PayloadDeserialization {
                        kind: self.stored_kind(),
                        version: self.stored_row().payload_version,
                        error: msg,
                    },
                ),
            },
        }
    }

    /// The payload as a `P`, given the outcome of decoding the stored JSON as
    /// a `P`.
    pub fn parse_payload<P: JobPayload>(&self, decoded: Result<P, String>) -> (r: Result<
        P,
        JobError,
    >)
        ensures
            r == self.payload_result(decoded),
    {
        if self.kind != P::kind() {
            return Err(JobError::UnknownKind(self.row.kind.clone()));
        }
        if self.row.payload_version != P::version() as i64 {
            return Err(
                JobError::UnsupportedPayloadVersion {
                    kind: self.kind,
                    version: self.row.payload_version,
                },
            );
        }
        match decoded {
            Ok(p) => Ok(p),
            Err(msg) => Err(
                JobError::PayloadDeserialization {
                    kind: self.kind,
                    version: self.row.payload_version,
                    error: msg,
                },
            ),
        }
    }

    /// Whether the payload reads as a `P`, given the outcome of decoding the
    /// stored JSON as a `P`.
    pub fn validate_payload<P: JobPayload>(&self, decoded: Result<P, String>) -> (r: Result<
        (),
        JobError,
    >)
        ensures
            r is Ok <==> self.payload_result(decoded) is Ok,
            r matches Err(e) ==> self.payload_result(decoded) == Err::<P, JobError>(e),
    {
        match self.parse_payload(decoded) {
            Ok(_) => Ok(()),
            Err(e) => Err(e),
        }
    }

    /// The registered kind, the one the stored row names.
    pub fn kind(&self) -> (k: &JobKind)
        ensures
            *k == self.stored_kind(),
            k.name() == self.stored_row().kind@,
    {
        proof {
            use_type_invariant(self);
        }
        &self.kind
    }

    /// The stored row.
    pub fn row(&self) -> (r: &JobRow)
        ensures
            *r == self.stored_row(),
    {
        &self.row
    }

    /// The job's id.
    pub fn id(&self) -> (id: i64)
        ensures
            id == self.stored_row().id,
    {
        self.row.id
    }
}

/// A payload stored through [`NewJob::for_payload`] reads back: a stored
/// row with that job's kind name and payload version, in an envelope of its
/// kind, passes the kind and version checks, so the decoded payload is
/// returned as it is.
pub proof fn lemma_stored_payload_reads_back<P: JobPayload>(envelope: JobEnvelope, job: NewJob, payload: P)
    requires
        job.kind@ == P::spec_kind().name(),
        job.payload_version == P::spec_version() as i64,
        envelope.stored_row().kind@ == job.kind@,
        envelope.stored_row().payload_version == job.payload_version,
        envelope.stored_kind().name() == envelope.stored_row().kind@,
    ensures
        envelope.payload_result::<P>(Ok(payload)) == Ok::<P, JobError>(payload),
{
    assert(envelope.stored_kind() == P::spec_kind());
}

/// The outcome of running a stored job, given the outcome of decoding its
/// JSON payload as a fixture payload: an unregistered kind or unreadable
/// payload fails with its allowlisted failure, a fixture asked to fail fails
/// intentionally, and any other fixture succeeds.
pub open spec fn job_dispatch_result(row: JobRow, decoded: Result<FixturePayload, String>) -> Result<
    (),
    JobFailure,
> {
    if forall|k: JobKind| k.name() != row.kind@ {
        Err(JobFailure::UnknownKind)
    } else if row.payload_version != 1 {
        Err(JobFailure::UnsupportedPayloadVersion)
    } else {
        match decoded {
            Err(_) => Err(JobFailure::MalformedPayload),
            Ok(p) => if p.should_fail {
                Err(JobFailure::FixtureIntentionalFailure)
            } else {
                Ok(())
            },
        }
    }
}

/// How a job turns out depends only on its stored kind and payload version
/// and on how its payload decoded: never on its id, attempts, lease or
/// timestamps.
pub proof fn lemma_dispatch_ignores_attempts(
    row1: JobRow,
    row2: JobRow,
    decoded: Result<FixturePayload, String>,
)
    requires
        row1.kind@ == row2.kind@,
        row1.payload_version == row2.payload_version,
    ensures
        job_dispatch_result(row1, decoded) == job_dispatch_result(row2, decoded),
{
}

/// A stored job of another kind than `fixture` fails as an unknown kind; a
/// `fixture` job of another payload version than 1 fails as unsupported; one
/// whose payload does not decode fails as malformed, whatever the decoding
/// error.
pub proof fn lemma_dispatch_failures(row: JobRow, decoded: Result<FixturePayload, String>)
    ensures
        row.kind@ != "fixture"@ ==> job_dispatch_result(row, decoded) == Err::<(), JobFailure>(
            JobFailure::UnknownKind,
        ),
        row.kind@ == "fixture"@ && row.payload_version != 1 ==> job_dispatch_result(row, decoded)
            == Err::<(), JobFailure>(JobFailure::UnsupportedPayloadVersion),
        row.kind@ == "fixture"@ && row.payload_version == 1 && decoded is Err ==> job_dispatch_result(
            row,
            decoded,
        ) == Err::<(), JobFailure>(JobFailure::MalformedPayload),
{
    if row.kind@ == "fixture"@ {
        assert(JobKind::Fixture.name() == row.kind@);
    } else {
        assert forall|k: JobKind| k.name() != row.kind@ by {
            match k {
                JobKind::Fixture => {},
            }
        }
    }
}

/// A stored `fixture` job of payload version 1 whose payload decodes fails
/// intentionally exactly when the payload asks it to, on every attempt, and
/// succeeds otherwise.
pub proof fn lemma_fixture_outcome(row: JobRow, payload: FixturePayload)
    requires
        row.kind@ == "fixture"@,
        row.payload_version == 1,
    ensures
        payload.should_fail ==> job_dispatch_result(row, Ok(payload)) == Err::<(), JobFailure>(
            JobFailure::FixtureIntentionalFailure,
        ),
        !payload.should_fail ==> job_dispatch_result(row, Ok(payload)) == Ok::<(), JobFailure>(()),
{
    assert(JobKind::Fixture.name() == row.kind@);
}

/// Decide how a stored job turns out, given the outcome of decoding its JSON
/// payload as a fixture payload. (A succeeding fixture then takes a moment of
/// simulated work before it is reported done.)
pub fn dispatch_job(row: JobRow, decoded: Result<FixturePayload, String>) -> (r: Result<
    (),
    JobFailure,
>)
    ensures
        r == job_dispatch_result(row, decoded),
{
    let ghost the_row = row;
    let envelope = match JobEnvelope::try_from_row(row) {
        Ok(e) => e,
        Err(error) => {
            return Err(JobFailure::from_error(&error));
        },
    };
    assert(envelope.stored_kind() == JobKind::Fixture);
    match envelope.kind() {
        JobKind::Fixture => {
            let payload: FixturePayload = match envelope.parse_payload(decoded) {
                Ok(p) => p,
                Err(error) => {
                    return Err(JobFailure::from_error(&error));
                },
            };
            if payload.should_fail {
                Err(JobFailure::FixtureIntentionalFailure)
            } else {
                Ok(())
            }
        },
    }
}

} // verus!
