//! The optional ElevenLabs fallback for audio chunks the primary provider
//! filtered: its errors and their messages, the key check, and the reading of
//! the transcription result.

use vstd::prelude::*;
use vstd::string::*;
use crate::llm::LlmFailure;
use crate::text::{chars_of, decimal, string_from_chars, trim, trimmed_chars, u64_to_string};

verus! {

/// Name of the environment variable that carries the ElevenLabs API key.
pub const API_KEY_ENV_VAR: &'static str = "ELEVENLABS_API_KEY";

/// Errors of the ElevenLabs fallback.
#[derive(Debug)]
pub enum ElevenLabsAsrError {
    MissingApiKey,
    AudioUnreadable(String),
    Authentication,
    RateLimit,
    InvalidRequest(String),
    Network(String),
    Provider(u16),
    MalformedResponse(String),
    UnexpectedResponse,
    EmptyTranscript,
}

impl ElevenLabsAsrError {
    /// The human-readable message for this error.
    pub open spec fn describe(&self) -> Seq<char> {
        match self {
            ElevenLabsAsrError::MissingApiKey => "ELEVENLABS_API_KEY is not set"@,
            ElevenLabsAsrError::AudioUnreadable(reason) => "cannot read filtered MP3 chunk: "@
                + reason@,
            ElevenLabsAsrError::Authentication => "ElevenLabs rejected ELEVENLABS_API_KEY"@,
            ElevenLabsAsrError::RateLimit => "ElevenLabs rate limit exceeded"@,
            ElevenLabsAsrError::InvalidRequest(reason) => "ElevenLabs rejected request: "@
                + reason@,
            ElevenLabsAsrError::Network(reason) => "network error calling ElevenLabs: "@ + reason@,
            ElevenLabsAsrError::Provider(status) => "ElevenLabs returned HTTP status "@ + decimal(
                *status as nat,
            ),
            ElevenLabsAsrError::MalformedResponse(reason) =>
                "ElevenLabs returned a malformed response: "@ + reason@,
            ElevenLabsAsrError::UnexpectedResponse =>
                "ElevenLabs returned a webhook or multichannel response instead of a transcript"@,
            ElevenLabsAsrError::EmptyTranscript => "ElevenLabs returned an empty transcript"@,
        }
    }

    /// The human-readable message for this error (what `Display` printed).
    pub fn message(&self) -> (m: String)
        ensures
            m@ == self.describe(),
    {
        match self {
            ElevenLabsAsrError::MissingApiKey => "ELEVENLABS_API_KEY is not set".to_owned(),
            ElevenLabsAsrError::AudioUnreadable(reason) => {
                let mut m = "cannot read filtered MP3 chunk: ".to_owned();
                m.append(reason.as_str());
                m
            },
            ElevenLabsAsrError::Authentication => "ElevenLabs rejected ELEVENLABS_API_KEY".to_owned(),
            ElevenLabsAsrError::RateLimit => "ElevenLabs rate limit exceeded".to_owned(),
            ElevenLabsAsrError::InvalidRequest(reason) => {
                let mut m = "ElevenLabs rejected request: ".to_owned();
                m.append(reason.as_str());
                m
            },
            ElevenLabsAsrError::Network(reason) => {
                let mut m = "network error calling ElevenLabs: ".to_owned();
                m.append(reason.as_str());
                m
            },
            ElevenLabsAsrError::Provider(status) => {
                let mut m = "ElevenLabs returned HTTP status ".to_owned();
                m.append(u64_to_string(*status as u64).as_str());
                m
            },
            ElevenLabsAsrError::MalformedResponse(reason) => {
                let mut m = "ElevenLabs returned a malformed response: ".to_owned();
                m.append(reason.as_str());
                m
            },
            ElevenLabsAsrError::UnexpectedResponse =>
                "ElevenLabs returned a webhook or multichannel response instead of a transcript"
                .to_owned(),
            ElevenLabsAsrError::EmptyTranscript => "ElevenLabs returned an empty transcript".to_owned(),
        }
    }
}

/// The API key read from the environment: present and not blank, or
/// [`ElevenLabsAsrError::MissingApiKey`].
pub fn accept_api_key(value: Option<String>) -> (r: Result<String, ElevenLabsAsrError>)
    ensures
        r is Ok <==> (value matches Some(v) && trim(v@).len() > 0),
        r matches Ok(k) ==> value == Some(k),
        r matches Err(e) ==> e is MissingApiKey,
{
    match value {
        Some(v) => {
            if trimmed_chars(&chars_of(v.as_str())).len() > 0 {
                Ok(v)
            } else {
                Err(ElevenLabsAsrError::MissingApiKey)
            }
        },
        None => Err(ElevenLabsAsrError::MissingApiKey),
    }
}

/// Map a provider failure into this fallback's error type.
pub fn map_llm_error(err: LlmFailure) -> (e: ElevenLabsAsrError)
    ensures
        e == match err {
            LlmFailure::Authentication { .. } => ElevenLabsAsrError::Authentication,
            LlmFailure::RateLimit { .. } => ElevenLabsAsrError::RateLimit,
            LlmFailure::InvalidRequest { message } => ElevenLabsAsrError::InvalidRequest(message),
            LlmFailure::Network { description } => ElevenLabsAsrError::Network(description),
            LlmFailure::Api { status, .. } => ElevenLabsAsrError::Provider(status),
            LlmFailure::Parse { description } => ElevenLabsAsrError::MalformedResponse(description),
            LlmFailure::Internal { message } => ElevenLabsAsrError::MalformedResponse(message),
            _ => ElevenLabsAsrError::UnexpectedResponse,
        },
{
    match err {
        LlmFailure::Authentication { .. } => ElevenLabsAsrError::Authentication,
        LlmFailure::RateLimit { .. } => ElevenLabsAsrError::RateLimit,
        LlmFailure::InvalidRequest { message } => ElevenLabsAsrError::InvalidRequest(message),
        LlmFailure::Network { description } => ElevenLabsAsrError::Network(description),
        LlmFailure::Api { status, .. } => ElevenLabsAsrError::Provider(status),
        LlmFailure::Parse { description } => ElevenLabsAsrError::MalformedResponse(description),
        LlmFailure::Internal { message } => ElevenLabsAsrError::MalformedResponse(message),
        _ => ElevenLabsAsrError::UnexpectedResponse,
    }
}

/// What the ElevenLabs transcription endpoint answered.
#[derive(Debug)]
pub enum ElevenLabsResult {
    /// A single-channel transcript.
    Transcript { text: String },
    /// A transcript per audio channel.
    Multichannel,
    /// A webhook acknowledgement with no transcript.
    Accepted,
}

/// The transcript of an ElevenLabs answer: only a single-channel transcript
/// with non-blank text counts, and its text is returned trimmed.
pub fn elevenlabs_transcript(result: ElevenLabsResult) -> (r: Result<String, ElevenLabsAsrError>)
    ensures
        match result {
            ElevenLabsResult::Transcript { text } => if trim(text@).len() == 0 {
                r matches Err(ElevenLabsAsrError::EmptyTranscript)
            } else {
                r matches Ok(t) && t@ == trim(text@)
            },
            _ => r matches Err(ElevenLabsAsrError::UnexpectedResponse),
        },
{
    let text = match result {
        ElevenLabsResult::Transcript { text } => text,
        ElevenLabsResult::Multichannel | ElevenLabsResult::Accepted => {
            return Err(ElevenLabsAsrError::UnexpectedResponse);
        },
    };
    let trimmed = trimmed_chars(&chars_of(text.as_str()));
    if trimmed.len() == 0 {
        return Err(ElevenLabsAsrError::EmptyTranscript);
    }
    Ok(string_from_chars(&trimmed))
}

} // verus!
