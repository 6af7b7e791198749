//! The optional local (whisper.cpp) fallback for audio chunks the primary
//! provider filtered: its errors and their messages, the model-file check,
//! and the reading of the local transcript. Running the processes is done by
//! the caller.

use vstd::prelude::*;
use vstd::string::*;
use crate::text::{chars_of, string_from_chars, trim, trimmed_chars};

verus! {

/// Errors of the local fallback.
#[derive(Debug)]
pub enum LocalAsrError {
    ModelUnavailable(String),
    WhisperUnavailable(String),
    TempWorkspace(String),
    ConversionFailed(String),
    WhisperFailed(String),
    TranscriptUnreadable(String),
    EmptyTranscript,
}

impl LocalAsrError {
    /// The human-readable message for this error.
    pub open spec fn describe(&self) -> Seq<char> {
        match self {
            LocalAsrError::ModelUnavailable(reason) => "local ASR model unavailable: "@ + reason@,
            LocalAsrError::WhisperUnavailable(reason) => "whisper-cli unavailable: "@ + reason@,
            LocalAsrError::TempWorkspace(reason) => "local ASR temporary workspace failed: "@
                + reason@,
            LocalAsrError::ConversionFailed(reason) => "local ASR WAV conversion failed: "@
                + reason@,
            LocalAsrError::WhisperFailed(reason) => "whisper-cli transcription failed: "@ + reason@,
            LocalAsrError::TranscriptUnreadable(reason) => "cannot read whisper-cli transcript: "@
                + reason@,
            LocalAsrError::EmptyTranscript => "whisper-cli returned an empty transcript"@,
        }
    }

    /// The human-readable message for this error (what `Display` printed).
    pub fn message(&self) -> (m: String)
        ensures
            m@ == self.describe(),
    {
        let (prefix, reason) = match self {
            LocalAsrError::ModelUnavailable(reason) => ("local ASR model unavailable: ", reason),
            LocalAsrError::WhisperUnavailable(reason) => ("whisper-cli unavailable: ", reason),
            LocalAsrError::TempWorkspace(reason) => (
                "local ASR temporary workspace failed: ",
                reason,
            ),
            LocalAsrError::ConversionFailed(reason) => ("local ASR WAV conversion failed: ", reason),
            LocalAsrError::WhisperFailed(reason) => ("whisper-cli transcription failed: ", reason),
            LocalAsrError::TranscriptUnreadable(reason) => (
                "cannot read whisper-cli transcript: ",
                reason,
            ),
            LocalAsrError::EmptyTranscript => {
                return "whisper-cli returned an empty transcript".to_owned();
            },
        };
        let mut m = prefix.to_owned();
        m.append(reason.as_str());
        m
    }
}

/// The model file check: the opt-in model must be a nonempty regular file.
pub fn check_model_file(model_path: &str, is_file: bool, len: u64) -> (r: Result<(), LocalAsrError>)
    ensures
        r is Ok <==> (is_file && len > 0),
        r matches Err(e) ==> e matches LocalAsrError::ModelUnavailable(reason) && reason@
            == model_path@ + " is not a nonempty model file"@,
{
    if !is_file || len == 0 {
        let mut reason = model_path.to_owned();
        reason.append(" is not a nonempty model file");
        return Err(LocalAsrError::ModelUnavailable(reason));
    }
    Ok(())
}

/// The model could not be inspected at all: its path and the reason.
pub fn model_metadata_error(model_path: &str, reason: &str) -> (e: LocalAsrError)
    ensures
        e matches LocalAsrError::ModelUnavailable(r) && r@ == model_path@ + ": "@ + reason@,
{
    let mut r = model_path.to_owned();
    r.append(": ");
    r.append(reason);
    LocalAsrError::ModelUnavailable(r)
}

/// The local transcript as read from whisper-cli's output file: blank text
/// is an error; otherwise the text is returned trimmed.
pub fn finish_local_transcript(text: &str) -> (r: Result<String, LocalAsrError>)
    ensures
        if trim(text@).len() == 0 {
            r matches Err(LocalAsrError::EmptyTranscript)
        } else {
            r matches Ok(t) && t@ == trim(text@)
        },
{
    let trimmed = trimmed_chars(&chars_of(text));
    if trimmed.len() == 0 {
        return Err(LocalAsrError::EmptyTranscript);
    }
    Ok(string_from_chars(&trimmed))
}

} // verus!
