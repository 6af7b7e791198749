//! Speech recognition: the stage's errors and their messages, the encoded
//! size check against the provider's limit, the Base64 payload, and the
//! defensive reading of the provider's response.

use vstd::prelude::*;
use vstd::string::*;
use vstd::utf8::*;
use crate::llm::{ChatChoice, ChatCompletion, LlmFailure};
use crate::text::{
    chars_of, decimal, same_text, string_from_chars, trim, trimmed_chars, u64_to_string,
};

verus! {

/// Provider-documented limit on Base64-encoded audio input, in bytes.
pub const XIAOMI_BASE64_SIZE_LIMIT_BYTES: usize = 10 * 1024 * 1024;

/// Name of the environment variable that carries the Xiaomi API key.
pub const XIAOMI_API_KEY_ENV_VAR: &'static str = "XIAOMI_API_KEY";

/// Errors that can occur while transcribing extracted audio.
#[derive(Debug)]
pub enum TranscriptionError {
    /// The extracted audio file could not be read from disk.
    AudioUnreadable { path: String, reason: String },
    /// The `XIAOMI_API_KEY` environment variable was not set.
    MissingApiKey,
    /// The Base64-encoded audio exceeds the provider's request-size limit.
    EncodedAudioTooLarge { encoded_bytes: usize, limit_bytes: usize },
    /// The request was rejected as unauthenticated.
    Authentication(String),
    /// The provider rate-limited this request.
    RateLimit(String),
    /// The provider rejected the request as malformed.
    InvalidRequest(String),
    /// A transport-level failure occurred.
    Network(String),
    /// The provider returned an error status not covered above.
    Provider { status: u16, message: String },
    /// The response could not be parsed, or was missing needed fields.
    MalformedResponse(String),
    /// The provider returned a response but the transcript was missing or blank.
    EmptyTranscript,
    /// The provider stopped before it completed the transcript.
    IncompleteTranscript(String),
    /// The provider omitted transcript content after applying its filter.
    ContentFiltered,
}

/// The message for a missing API key.
pub const MISSING_API_KEY_MESSAGE: &'static str = "XIAOMI_API_KEY is not set — export a Xiaomi API key in this environment variable before running this command";

/// The message for an empty transcript.
pub const EMPTY_TRANSCRIPT_MESSAGE: &'static str = "Xiaomi ASR returned an empty transcript — the audio may be silent, unclear, or in an unsupported language";

/// The message for a filtered chunk.
pub const CONTENT_FILTERED_MESSAGE: &'static str = "Xiaomi ASR filtered this audio chunk (finish_reason: content_filter) — the provider omitted content, so no Markdown was written; review the affected chunk or use another transcription method";

impl TranscriptionError {
    /// The human-readable message for this error.
    pub open spec fn describe(&self) -> Seq<char> {
        match self {
            TranscriptionError::AudioUnreadable { path, reason } =>
                "cannot read extracted audio "@ + path@ + ": "@ + reason@,
            TranscriptionError::MissingApiKey => MISSING_API_KEY_MESSAGE@,
            TranscriptionError::EncodedAudioTooLarge { encoded_bytes, limit_bytes } =>
                "extracted audio Base64-encodes to "@ + decimal(*encoded_bytes as nat)
                    + " bytes, which exceeds the provider's "@ + decimal(*limit_bytes as nat)
                    + "-byte (10 MB) limit — trim the source video and re-run the command"@,
            TranscriptionError::Authentication(message) =>
                "Xiaomi ASR authentication failed — check that XIAOMI_API_KEY holds a valid, current API key ("@
                    + message@ + ")"@,
            TranscriptionError::RateLimit(message) => "Xiaomi ASR rate limit exceeded: "@
                + message@,
            TranscriptionError::InvalidRequest(message) => "Xiaomi ASR rejected the request: "@
                + message@,
            TranscriptionError::Network(message) => "network error while calling Xiaomi ASR: "@
                + message@,
            TranscriptionError::Provider { status, message } =>
                "Xiaomi ASR returned an error (status "@ + decimal(*status as nat) + "): "@
                    + message@,
            TranscriptionError::MalformedResponse(reason) =>
                "Xiaomi ASR returned a response this tool could not understand: "@ + reason@,
            TranscriptionError::EmptyTranscript => EMPTY_TRANSCRIPT_MESSAGE@,
            TranscriptionError::IncompleteTranscript(reason) =>
                "Xiaomi ASR did not finish its transcript (finish_reason: "@ + reason@
                    + ") — try a shorter audio chunk"@,
            TranscriptionError::ContentFiltered => CONTENT_FILTERED_MESSAGE@,
        }
    }

    /// The human-readable message for this error (what `Display` printed).
    pub fn message(&self) -> (m: String)
        ensures
            m@ == self.describe(),
    {
        match self {
            TranscriptionError::AudioUnreadable { path, reason } => {
                let mut m = "cannot read extracted audio ".to_owned();
                m.append(path.as_str());
                m.append(": ");
                m.append(reason.as_str());
                m
            },
            TranscriptionError::MissingApiKey => MISSING_API_KEY_MESSAGE.to_owned(),
            TranscriptionError::EncodedAudioTooLarge { encoded_bytes, limit_bytes } => {
                let mut m = "extracted audio Base64-encodes to ".to_owned();
                m.append(u64_to_string(*encoded_bytes as u64).as_str());
                m.append(" bytes, which exceeds the provider's ");
                m.append(u64_to_string(*limit_bytes as u64).as_str());
                m.append("-byte (10 MB) limit — trim the source video and re-run the command");
                m
            },
            TranscriptionError::Authentication(message) => {
                let mut m =
                    "Xiaomi ASR authentication failed — check that XIAOMI_API_KEY holds a valid, current API key ("
                    .to_owned();
                m.append(message.as_str());
                m.append(")");
                m
            },
            TranscriptionError::RateLimit(message) => {
                let mut m = "Xiaomi ASR rate limit exceeded: ".to_owned();
                m.append(message.as_str());
                m
            },
            TranscriptionError::InvalidRequest(message) => {
                let mut m = "Xiaomi ASR rejected the request: ".to_owned();
                m.append(message.as_str());
                m
            },
            TranscriptionError::Network(message) => {
                let mut m = "network error while calling Xiaomi ASR: ".to_owned();
                m.append(message.as_str());
                m
            },
            TranscriptionError::Provider { status, message } => {
                let mut m = "Xiaomi ASR returned an error (status ".to_owned();
                m.append(u64_to_string(*status as u64).as_str());
                m.append("): ");
                m.append(message.as_str());
                m
            },
            TranscriptionError::MalformedResponse(reason) => {
                let mut m = "Xiaomi ASR returned a response this tool could not understand: "
                    .to_owned();
                m.append(reason.as_str());
                m
            },
            TranscriptionError::EmptyTranscript => EMPTY_TRANSCRIPT_MESSAGE.to_owned(),
            TranscriptionError::IncompleteTranscript(reason) => {
                let mut m = "Xiaomi ASR did not finish its transcript (finish_reason: ".to_owned();
                m.append(reason.as_str());
                m.append(") — try a shorter audio chunk");
                m
            },
            TranscriptionError::ContentFiltered => CONTENT_FILTERED_MESSAGE.to_owned(),
        }
    }
}

/// The API key read from the environment: present and not blank, or
/// [`TranscriptionError::MissingApiKey`].
pub fn accept_api_key(value: Option<String>) -> (r: Result<String, TranscriptionError>)
    ensures
        r is Ok <==> (value matches Some(v) && trim(v@).len() > 0),
        r matches Ok(k) ==> value == Some(k),
        r matches Err(e) ==> e is MissingApiKey,
{
    match value {
        Some(v) => {
            if trimmed_chars(&chars_of(v.as_str())).len() > 0 {
                Ok(v)
            } else {
                Err(TranscriptionError::MissingApiKey)
            }
        },
        None => Err(TranscriptionError::MissingApiKey),
    }
}

/// Validate an already Base64-encoded payload's length against the
/// provider's request-size limit.
pub fn validate_encoded_size(encoded_bytes: usize) -> (r: Result<(), TranscriptionError>)
    ensures
        r is Ok <==> encoded_bytes <= XIAOMI_BASE64_SIZE_LIMIT_BYTES,
        r matches Err(e) ==> e == (TranscriptionError::EncodedAudioTooLarge {
            encoded_bytes,
            limit_bytes: XIAOMI_BASE64_SIZE_LIMIT_BYTES,
        }),
{
    if encoded_bytes > XIAOMI_BASE64_SIZE_LIMIT_BYTES {
        return Err(
            TranscriptionError::EncodedAudioTooLarge {
                encoded_bytes,
                limit_bytes: XIAOMI_BASE64_SIZE_LIMIT_BYTES,
            },
        );
    }
    Ok(())
}

/// Why the first choice of a response stopped, in the terms the transcript
/// reading distinguishes.
#[derive(Debug)]
pub enum FinishKind {
    /// Generation finished normally (`stop`).
    Stop,
    /// The provider's filter omitted content (`content_filter`).
    ContentFilter,
    /// Any other reason, or none: the transcript may be incomplete.
    Incomplete,
}

/// How a finish reason is classified.
pub open spec fn finish_kind(reason: Option<String>) -> FinishKind {
    match reason {
        Some(r) => if r@ == "content_filter"@ {
            FinishKind::ContentFilter
        } else if r@ == "stop"@ {
            FinishKind::Stop
        } else {
            FinishKind::Incomplete
        },
        None => FinishKind::Incomplete,
    }
}

/// Classify a finish reason (see [`finish_kind`]).
pub(crate) fn classify_finish(reason: &Option<String>) -> (k: FinishKind)
    ensures
        k == finish_kind(*reason),
{
    match reason {
        Some(r) => if same_text(r.as_str(), "content_filter") {
            FinishKind::ContentFilter
        } else if same_text(r.as_str(), "stop") {
            FinishKind::Stop
        } else {
            FinishKind::Incomplete
        },
        None => FinishKind::Incomplete,
    }
}

/// Defensively extract the transcript text from a speech-recognition response:
/// the first choice must exist, must have stopped normally (not filtered, not
/// cut short), and must carry non-blank text, which is returned trimmed.
pub fn extract_transcript(response: &ChatCompletion) -> (r: Result<String, TranscriptionError>)
    ensures
        if response.choices@.len() == 0 {
            r matches Err(TranscriptionError::MalformedResponse(m)) && m@
                == "response contained no choices"@
        } else {
            let choice = response.choices@[0];
            match finish_kind(choice.finish_reason) {
                FinishKind::ContentFilter => r matches Err(TranscriptionError::ContentFiltered),
                FinishKind::Incomplete => r matches Err(TranscriptionError::IncompleteTranscript(reason))
                    && reason@ == match choice.finish_reason {
                    Some(fr) => fr@,
                    None => "missing"@,
                },
                FinishKind::Stop => match choice.content {
                    None => r matches Err(TranscriptionError::MalformedResponse(m)) && m@
                        == "response choice had no message content"@,
                    Some(c) => if trim(c@).len() == 0 {
                        r matches Err(TranscriptionError::EmptyTranscript)
                    } else {
                        r matches Ok(t) && t@ == trim(c@)
                    },
                },
            }
        },
{
    if response.choices.len() == 0 {
        return Err(TranscriptionError::MalformedResponse("response contained no choices".to_owned()));
    }
    let choice = &response.choices[0];
    match classify_finish(&choice.finish_reason) {
        FinishKind::ContentFilter => {
            return Err(TranscriptionError::ContentFiltered);
        },
        FinishKind::Incomplete => {
            let reason = match &choice.finish_reason {
                Some(fr) => fr.clone(),
                None => "missing".to_owned(),
            };
            return Err(TranscriptionError::IncompleteTranscript(reason));
        },
        FinishKind::Stop => {},
    }
    let content = match &choice.content {
        Some(c) => c,
        None => {
            return Err(
                TranscriptionError::MalformedResponse(
                    "response choice had no message content".to_owned(),
                ),
            );
        },
    };
    let trimmed = trimmed_chars(&chars_of(content.as_str()));
    if trimmed.len() == 0 {
        return Err(TranscriptionError::EmptyTranscript);
    }
    Ok(string_from_chars(&trimmed))
}

/// Map a provider failure into this stage's error type.
pub fn map_llm_error(err: LlmFailure) -> (e: TranscriptionError)
    ensures
        e == match err {
            LlmFailure::Authentication { message } => TranscriptionError::Authentication(message),
            LlmFailure::RateLimit { message } => TranscriptionError::RateLimit(message),
            LlmFailure::InvalidRequest { message } => TranscriptionError::InvalidRequest(message),
            LlmFailure::Network { description } => TranscriptionError::Network(description),
            LlmFailure::Api { status, message } => TranscriptionError::Provider { status, message },
            LlmFailure::RouterApi { status, error_type } => TranscriptionError::Provider {
                status,
                message: error_type,
            },
            LlmFailure::Parse { description } => TranscriptionError::MalformedResponse(description),
            LlmFailure::Internal { message } => TranscriptionError::MalformedResponse(message),
            LlmFailure::Other { description } => TranscriptionError::MalformedResponse(description),
        },
{
    match err {
        LlmFailure::Authentication { message } => TranscriptionError::Authentication(message),
        LlmFailure::RateLimit { message } => TranscriptionError::RateLimit(message),
        LlmFailure::InvalidRequest { message } => TranscriptionError::InvalidRequest(message),
        LlmFailure::Network { description } => TranscriptionError::Network(description),
        LlmFailure::Api { status, message } => TranscriptionError::Provider { status, message },
        LlmFailure::RouterApi { status, error_type } => TranscriptionError::Provider {
            status,
            message: error_type,
        },
        LlmFailure::Parse { description } => TranscriptionError::MalformedResponse(description),
        LlmFailure::Internal { message } => TranscriptionError::MalformedResponse(message),
        LlmFailure::Other { description } => TranscriptionError::MalformedResponse(description),
    }
}


/// The character of the standard Base64 alphabet (RFC 4648) for the 6-bit
/// value `v`: `A`-`Z`, `a`-`z`, `0`-`9`, `+`, `/`.
pub open spec fn base64_digit(v: int) -> char {
    if v < 26 {
        ('A' as int + v) as char
    } else if v < 52 {
        ('a' as int + (v - 26)) as char
    } else if v < 62 {
        ('0' as int + (v - 52)) as char
    } else if v == 62 {
        '+'
    } else {
        '/'
    }
}

/// The standard Base64 encoding (RFC 4648, with `=` padding) of `bytes`:
/// each group of three bytes becomes four characters of six bits each, and
/// a final group of one or two bytes is padded with `=` to four characters.
pub open spec fn base64_standard_encoding(bytes: Seq<u8>) -> Seq<char>
    decreases bytes.len(),
{
    if bytes.len() == 0 {
        Seq::empty()
    } else if bytes.len() == 1 {
        let b0 = bytes[0] as int;
        seq![base64_digit(b0 / 4), base64_digit((b0 % 4) * 16), '=', '=']
    } else if bytes.len() == 2 {
        let b0 = bytes[0] as int;
        let b1 = bytes[1] as int;
        seq![
            base64_digit(b0 / 4),
            base64_digit((b0 % 4) * 16 + b1 / 16),
            base64_digit((b1 % 16) * 4),
            '=',
        ]
    } else {
        let b0 = bytes[0] as int;
        let b1 = bytes[1] as int;
        let b2 = bytes[2] as int;
        seq![
            base64_digit(b0 / 4),
            base64_digit((b0 % 4) * 16 + b1 / 16),
            base64_digit((b1 % 16) * 4 + b2 / 64),
            base64_digit(b2 % 64),
        ] + base64_standard_encoding(bytes.skip(3))
    }
}

/// The length of the padded Base64 encoding of `n` bytes: four characters for
/// every started group of three bytes.
pub open spec fn base64_padded_len(n: nat) -> nat {
    4 * ((n + 2) / 3)
}

/// The Base64 digits are ASCII.
proof fn lemma_base64_digit_ascii(v: int)
    requires
        0 <= v < 64,
    ensures
        '\0' <= base64_digit(v) <= '\u{7f}',
{
}

/// The Base64 encoding of `n` bytes is `4 * ceil(n / 3)` ASCII characters.
pub proof fn lemma_base64_shape(bytes: Seq<u8>)
    ensures
        base64_standard_encoding(bytes).len() == base64_padded_len(bytes.len()),
        is_ascii_chars(base64_standard_encoding(bytes)),
    decreases bytes.len(),
{
    let e = base64_standard_encoding(bytes);
    if bytes.len() >= 1 {
        let b0 = bytes[0] as int;
        lemma_base64_digit_ascii(b0 / 4);
        lemma_base64_digit_ascii((b0 % 4) * 16);
    }
    if bytes.len() >= 2 {
        let b0 = bytes[0] as int;
        let b1 = bytes[1] as int;
        lemma_base64_digit_ascii((b0 % 4) * 16 + b1 / 16);
        lemma_base64_digit_ascii((b1 % 16) * 4);
    }
    if bytes.len() >= 3 {
        let b1 = bytes[1] as int;
        let b2 = bytes[2] as int;
        lemma_base64_digit_ascii((b1 % 16) * 4 + b2 / 64);
        lemma_base64_digit_ascii(b2 % 64);
        let rest = bytes.skip(3);
        lemma_base64_shape(rest);
        assert forall|i: int| 0 <= i < e.len() implies '\0' <= #[trigger] e[i] <= '\u{7f}' by {
            if i >= 4 {
                assert(e[i] == base64_standard_encoding(rest)[i - 4]);
            }
        }
    }
}

/// `base64::engine::general_purpose::STANDARD.encode(bytes)`: the standard,
/// padded Base64 encoding of `bytes`; the crate panics when its length does
/// not fit in `usize`, so such input is excluded.
#[verifier::external_body]
fn base64_encode(bytes: &[u8]) -> (encoded: String)
    requires
        base64_padded_len(bytes@.len()) <= usize::MAX,
    ensures
        encoded@ == base64_standard_encoding(bytes@),
{
    base64::Engine::encode(&base64::engine::general_purpose::STANDARD, bytes)
}

/// Base64-encode extracted audio for the request, refusing it before any
/// upload when the encoding exceeds the provider's size limit.
pub fn encode_audio_payload(audio: &[u8]) -> (r: Result<String, TranscriptionError>)
    requires
        base64_padded_len(audio@.len()) <= usize::MAX,
    ensures
        r is Ok <==> base64_padded_len(audio@.len()) <= XIAOMI_BASE64_SIZE_LIMIT_BYTES,
        r matches Ok(s) ==> s@ == base64_standard_encoding(audio@),
        r matches Err(e) ==> e == (TranscriptionError::EncodedAudioTooLarge {
            encoded_bytes: base64_padded_len(audio@.len()) as usize,
            limit_bytes: XIAOMI_BASE64_SIZE_LIMIT_BYTES,
        }),
{
    let encoded = base64_encode(audio);
    let text = encoded.as_str();
    proof {
        lemma_base64_shape(audio@);
        is_ascii_chars_encode_utf8(text@);
    }
    validate_encoded_size(text.len())?;
    Ok(encoded)
}

} // verus!
