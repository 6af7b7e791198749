//! The end-to-end workflow's error: the failing stage's own error, tagged by
//! the stage.

use vstd::prelude::*;
use vstd::string::*;
use vstd::std_specs::convert::{FromSpec, FromSpecImpl};
use crate::audio::AudioError;
use crate::audio::texts;
use crate::cleanup::CleanupError;
use crate::elevenlabs_asr::ElevenLabsAsrError;
use crate::local_asr::LocalAsrError;
use crate::output::OutputError;
use crate::text::{chars_of, join, join_from, string_from_chars};
use crate::transcription::TranscriptionError;

verus! {

/// Errors that can occur while running the end-to-end workflow, tagged by
/// the stage that failed.
#[derive(Debug)]
pub enum WorkflowError {
    /// Audio extraction failed.
    Audio(AudioError),
    /// Speech transcription failed.
    Transcription(TranscriptionError),
    /// Transcript cleanup failed.
    Cleanup(CleanupError),
    /// Markdown output failed.
    Output(OutputError),
    /// The local speech recognition of a filtered chunk failed.
    LocalAsr(LocalAsrError),
    /// The ElevenLabs speech recognition of a filtered chunk failed.
    ElevenLabsAsr(ElevenLabsAsrError),
}

impl WorkflowError {
    /// The human-readable message: the stage, then the stage error's message.
    pub open spec fn describe(&self) -> Seq<char> {
        match self {
            WorkflowError::Audio(err) => "audio stage failed: "@ + err.describe(),
            WorkflowError::Transcription(err) => "transcription stage failed: "@ + err.describe(),
            WorkflowError::Cleanup(err) => "cleanup stage failed: "@ + err.describe(),
            WorkflowError::Output(err) => "output stage failed: "@ + err.describe(),
            WorkflowError::LocalAsr(err) => "local ASR fallback failed: "@ + err.describe(),
            WorkflowError::ElevenLabsAsr(err) => "ElevenLabs ASR fallback failed: "@
                + err.describe(),
        }
    }

    /// The human-readable message for this error (what `Display` printed).
    pub fn message(&self) -> (m: String)
        ensures
            m@ == self.describe(),
    {
        match self {
            WorkflowError::Audio(err) => {
                let mut m = "audio stage failed: ".to_owned();
                m.append(err.message().as_str());
                m
            },
            WorkflowError::Transcription(err) => {
                let mut m = "transcription stage failed: ".to_owned();
                m.append(err.message().as_str());
                m
            },
            WorkflowError::Cleanup(err) => {
                let mut m = "cleanup stage failed: ".to_owned();
                m.append(err.message().as_str());
                m
            },
            WorkflowError::Output(err) => {
                let mut m = "output stage failed: ".to_owned();
                m.append(err.message().as_str());
                m
            },
            WorkflowError::LocalAsr(err) => {
                let mut m = "local ASR fallback failed: ".to_owned();
                m.append(err.message().as_str());
                m
            },
            WorkflowError::ElevenLabsAsr(err) => {
                let mut m = "ElevenLabs ASR fallback failed: ".to_owned();
                m.append(err.message().as_str());
                m
            },
        }
    }
}

impl From<AudioError> for WorkflowError {
    fn from(err: AudioError) -> (w: Self) {
        WorkflowError::Audio(err)
    }
}

impl FromSpecImpl<AudioError> for WorkflowError {
    open spec fn obeys_from_spec() -> bool {
        true
    }

    open spec fn from_spec(v: AudioError) -> Self {
        WorkflowError::Audio(v)
    }
}

impl From<TranscriptionError> for WorkflowError {
    fn from(err: TranscriptionError) -> (w: Self) {
        WorkflowError::Transcription(err)
    }
}

impl FromSpecImpl<TranscriptionError> for WorkflowError {
    open spec fn obeys_from_spec() -> bool {
        true
    }

    open spec fn from_spec(v: TranscriptionError) -> Self {
        WorkflowError::Transcription(v)
    }
}

impl From<CleanupError> for WorkflowError {
    fn from(err: CleanupError) -> (w: Self) {
        WorkflowError::Cleanup(err)
    }
}

impl FromSpecImpl<CleanupError> for WorkflowError {
    open spec fn obeys_from_spec() -> bool {
        true
    }

    open spec fn from_spec(v: CleanupError) -> Self {
        WorkflowError::Cleanup(v)
    }
}

impl From<OutputError> for WorkflowError {
    fn from(err: OutputError) -> (w: Self) {
        WorkflowError::Output(err)
    }
}

impl FromSpecImpl<OutputError> for WorkflowError {
    open spec fn obeys_from_spec() -> bool {
        true
    }

    open spec fn from_spec(v: OutputError) -> Self {
        WorkflowError::Output(v)
    }
}

impl From<LocalAsrError> for WorkflowError {
    fn from(err: LocalAsrError) -> (w: Self) {
        WorkflowError::LocalAsr(err)
    }
}

impl FromSpecImpl<LocalAsrError> for WorkflowError {
    open spec fn obeys_from_spec() -> bool {
        true
    }

    open spec fn from_spec(v: LocalAsrError) -> Self {
        WorkflowError::LocalAsr(v)
    }
}

impl From<ElevenLabsAsrError> for WorkflowError {
    fn from(err: ElevenLabsAsrError) -> (w: Self) {
        WorkflowError::ElevenLabsAsr(err)
    }
}

impl FromSpecImpl<ElevenLabsAsrError> for WorkflowError {
    open spec fn obeys_from_spec() -> bool {
        true
    }

    open spec fn from_spec(v: ElevenLabsAsrError) -> Self {
        WorkflowError::ElevenLabsAsr(v)
    }
}

/// Turning a stage error into a workflow error keeps the stage error's whole
/// message, after a tag naming the stage.
pub proof fn lemma_stage_message_preserved(
    audio: AudioError,
    transcription: TranscriptionError,
    cleanup: CleanupError,
    output: OutputError,
)
    ensures
        <WorkflowError as FromSpec<AudioError>>::from_spec(audio).describe() == "audio stage failed: "@ + audio.describe(),
        <WorkflowError as FromSpec<TranscriptionError>>::from_spec(transcription).describe() == "transcription stage failed: "@
            + transcription.describe(),
        <WorkflowError as FromSpec<CleanupError>>::from_spec(cleanup).describe() == "cleanup stage failed: "@
            + cleanup.describe(),
        <WorkflowError as FromSpec<OutputError>>::from_spec(output).describe() == "output stage failed: "@
            + output.describe(),
{
}

/// The speech recognition used for a chunk that Xiaomi filtered, if any.
#[derive(Debug, Clone, Copy, PartialEq, Eq)]
pub enum AsrFallback {
    /// No fallback: a filtered chunk stops the run.
    Disabled,
    /// Transcribe the filtered chunk locally with `whisper-cli`.
    Local,
    /// Send the filtered chunk to ElevenLabs Scribe.
    ElevenLabs,
}

/// The fallback chosen on the command line: a local model path selects the
/// local fallback, the ElevenLabs flag the ElevenLabs one. The command line
/// refuses to combine the two.
pub fn asr_fallback(local_asr_model: &Option<String>, elevenlabs_fallback: bool) -> (f: AsrFallback)
    requires
        !(local_asr_model is Some && elevenlabs_fallback),
    ensures
        f == (if local_asr_model is Some {
            AsrFallback::Local
        } else if elevenlabs_fallback {
            AsrFallback::ElevenLabs
        } else {
            AsrFallback::Disabled
        }),
{
    match local_asr_model {
        Some(_) => AsrFallback::Local,
        None => if elevenlabs_fallback {
            AsrFallback::ElevenLabs
        } else {
            AsrFallback::Disabled
        },
    }
}

/// What to do next with a chunk after Xiaomi's speech recognition answered.
#[derive(Debug)]
pub enum ChunkAsrStep {
    /// Use this raw transcript for the chunk.
    Transcript(String),
    /// Transcribe the chunk locally instead.
    UseLocal,
    /// Send the chunk to ElevenLabs instead.
    UseElevenLabs,
    /// Stop the run with this error.
    Fail(TranscriptionError),
}

/// Decide the next step for a chunk from Xiaomi's answer: a transcript is
/// used; a filtered chunk goes to the configured fallback, if any; any other
/// failure stops the run.
pub fn next_asr_step(result: Result<String, TranscriptionError>, fallback: AsrFallback) -> (step:
    ChunkAsrStep)
    ensures
        match result {
            Ok(t) => step == ChunkAsrStep::Transcript(t),
            Err(e) => if e is ContentFiltered {
                match fallback {
                    AsrFallback::Local => step is UseLocal,
                    AsrFallback::ElevenLabs => step is UseElevenLabs,
                    AsrFallback::Disabled => step == ChunkAsrStep::Fail(e),
                }
            } else {
                step == ChunkAsrStep::Fail(e)
            },
        },
{
    match result {
        Ok(t) => ChunkAsrStep::Transcript(t),
        Err(TranscriptionError::ContentFiltered) => match fallback {
            AsrFallback::Local => ChunkAsrStep::UseLocal,
            AsrFallback::ElevenLabs => ChunkAsrStep::UseElevenLabs,
            AsrFallback::Disabled => ChunkAsrStep::Fail(TranscriptionError::ContentFiltered),
        },
        Err(e) => ChunkAsrStep::Fail(e),
    }
}

/// The separator between cleaned chunks: a paragraph break.
pub open spec fn chunk_separator() -> Seq<char> {
    seq!['\n', '\n']
}

/// The cleaned chunks joined in order, a paragraph break between each two.
pub fn join_cleaned_chunks(chunks: &Vec<String>) -> (text: String)
    ensures
        text@ == join(texts(chunks@), chunk_separator()),
{
    let mut parts: Vec<Vec<char>> = Vec::new();
    let mut i: usize = 0;
    while i < chunks.len()
        invariant
            i <= chunks.len(),
            parts@.map_values(|l: Vec<char>| l@) == texts(chunks@).take(i as int),
        decreases chunks.len() - i,
    {
        let chars = chars_of(chunks[i].as_str());
        let ghost before = parts@;
        parts.push(chars);
        assert(texts(chunks@)[i as int] == chunks@[i as int]@);
        assert(parts@.map_values(|l: Vec<char>| l@) =~= before.map_values(|l: Vec<char>| l@).push(
            chunks@[i as int]@,
        ));
        assert(parts@.map_values(|l: Vec<char>| l@) =~= texts(chunks@).take(i + 1));
        i = i + 1;
    }
    let mut sep: Vec<char> = Vec::new();
    sep.push('\n');
    sep.push('\n');
    assert(sep@ =~= chunk_separator());
    assert(parts@.map_values(|l: Vec<char>| l@).skip(0) =~= texts(chunks@));
    string_from_chars(&join_from(&parts, 0, &sep))
}

} // verus!
