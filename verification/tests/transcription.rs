use promptogether::llm::{ChatChoice, ChatCompletion, LlmFailure};
use promptogether::transcription::{
    accept_api_key, encode_audio_payload, extract_transcript, map_llm_error,
    validate_encoded_size, TranscriptionError, XIAOMI_API_KEY_ENV_VAR,
    XIAOMI_BASE64_SIZE_LIMIT_BYTES,
};

fn response(choices: Vec<ChatChoice>) -> ChatCompletion {
    ChatCompletion { choices }
}

fn choice(content: Option<&str>, finish_reason: Option<&str>) -> ChatChoice {
    ChatChoice {
        finish_reason: finish_reason.map(|s| s.to_string()),
        content: content.map(|s| s.to_string()),
    }
}

#[test]
fn accepts_encoded_payload_at_or_under_the_limit() {
    assert!(validate_encoded_size(XIAOMI_BASE64_SIZE_LIMIT_BYTES).is_ok());
    assert!(validate_encoded_size(XIAOMI_BASE64_SIZE_LIMIT_BYTES - 1).is_ok());
}

#[test]
fn rejects_encoded_payload_over_the_limit() {
    let err = validate_encoded_size(XIAOMI_BASE64_SIZE_LIMIT_BYTES + 1).unwrap_err();
    match err {
        TranscriptionError::EncodedAudioTooLarge {
            encoded_bytes,
            limit_bytes,
        } => {
            assert_eq!(encoded_bytes, XIAOMI_BASE64_SIZE_LIMIT_BYTES + 1);
            assert_eq!(limit_bytes, XIAOMI_BASE64_SIZE_LIMIT_BYTES);
        }
        other => panic!("expected EncodedAudioTooLarge, got {other:?}"),
    }
}

#[test]
fn too_large_error_message_gives_actionable_guidance() {
    let err = validate_encoded_size(XIAOMI_BASE64_SIZE_LIMIT_BYTES + 1).unwrap_err();
    let message = err.message();
    assert!(message.contains("trim"), "message was: {message}");
    assert!(message.contains("re-run the command"), "message was: {message}");
}

#[test]
fn too_large_error_message_is_exact() {
    let err = validate_encoded_size(10_485_761).unwrap_err();
    assert_eq!(
        err.message(),
        "extracted audio Base64-encodes to 10485761 bytes, which exceeds the provider's 10485760-byte (10 MB) limit — trim the source video and re-run the command"
    );
}

#[test]
fn size_limit_is_ten_mebibytes() {
    assert_eq!(XIAOMI_BASE64_SIZE_LIMIT_BYTES, 10_485_760);
    assert!(validate_encoded_size(0).is_ok());
}

#[test]
fn extracts_transcript_from_a_valid_response() {
    let response = response(vec![choice(Some("  hello world  "), Some("stop"))]);
    assert_eq!(extract_transcript(&response).unwrap(), "hello world");
}

#[test]
fn transcription_rejects_response_with_no_choices() {
    let response = response(vec![]);
    assert!(matches!(
        extract_transcript(&response),
        Err(TranscriptionError::MalformedResponse(_))
    ));
}

#[test]
fn transcription_rejects_response_with_missing_message_content() {
    let response = response(vec![choice(None, Some("stop"))]);
    assert!(matches!(
        extract_transcript(&response),
        Err(TranscriptionError::MalformedResponse(_))
    ));
}

#[test]
fn transcription_rejects_response_with_blank_content() {
    let response = response(vec![choice(Some("   \n\t  "), Some("stop"))]);
    assert!(matches!(
        extract_transcript(&response),
        Err(TranscriptionError::EmptyTranscript)
    ));
}

#[test]
fn filtered_chunk_is_refused_even_with_content() {
    let response = response(vec![choice(Some("partial text"), Some("content_filter"))]);
    assert!(matches!(
        extract_transcript(&response),
        Err(TranscriptionError::ContentFiltered)
    ));
}

#[test]
fn unfinished_transcript_reports_the_finish_reason() {
    let cut = response(vec![choice(Some("half of it"), Some("length"))]);
    match extract_transcript(&cut) {
        Err(TranscriptionError::IncompleteTranscript(reason)) => assert_eq!(reason, "length"),
        other => panic!("expected IncompleteTranscript, got {other:?}"),
    }
    let unknown = response(vec![choice(Some("text"), None)]);
    match extract_transcript(&unknown) {
        Err(err @ TranscriptionError::IncompleteTranscript(_)) => assert_eq!(
            err.message(),
            "Xiaomi ASR did not finish its transcript (finish_reason: missing) — try a shorter audio chunk"
        ),
        other => panic!("expected IncompleteTranscript, got {other:?}"),
    }
}

#[test]
fn transcription_maps_authentication_error() {
    let err = map_llm_error(LlmFailure::Authentication {
        message: "bad key".to_string(),
    });
    assert!(matches!(err, TranscriptionError::Authentication(_)));
    assert!(err.message().contains("authentication failed"));
}

#[test]
fn transcription_maps_rate_limit_error() {
    let err = map_llm_error(LlmFailure::RateLimit {
        message: "slow down".to_string(),
    });
    assert!(matches!(err, TranscriptionError::RateLimit(_)));
}

#[test]
fn transcription_maps_invalid_request_error() {
    let err = map_llm_error(LlmFailure::InvalidRequest {
        message: "bad payload".to_string(),
    });
    assert!(matches!(err, TranscriptionError::InvalidRequest(_)));
}

#[test]
fn transcription_maps_generic_api_error() {
    let err = map_llm_error(LlmFailure::Api {
        status: 503,
        message: "unavailable".to_string(),
    });
    match err {
        TranscriptionError::Provider { status, message } => {
            assert_eq!(status, 503);
            assert_eq!(message, "unavailable");
        }
        other => panic!("expected Provider, got {other:?}"),
    }
}

#[test]
fn provider_error_message_shows_the_status() {
    let err = map_llm_error(LlmFailure::Api {
        status: 503,
        message: "unavailable".to_string(),
    });
    assert_eq!(err.message(), "Xiaomi ASR returned an error (status 503): unavailable");
}

#[test]
fn missing_api_key_message_names_the_env_var() {
    let message = TranscriptionError::MissingApiKey.message();
    assert!(message.contains(XIAOMI_API_KEY_ENV_VAR));
}

#[test]
fn transcription_error_debug_and_display_never_contain_a_literal_api_key_value() {
    let secret = "sk-super-secret-value";
    let err = map_llm_error(LlmFailure::Authentication {
        message: "invalid credentials".to_string(),
    });
    let rendered = format!("{} {:?}", err.message(), err);
    assert!(!rendered.contains(secret));
}

#[test]
fn api_key_must_be_present_and_not_blank() {
    assert!(matches!(accept_api_key(None), Err(TranscriptionError::MissingApiKey)));
    assert!(matches!(
        accept_api_key(Some(" \t ".to_string())),
        Err(TranscriptionError::MissingApiKey)
    ));
    assert_eq!(accept_api_key(Some("sk-1".to_string())).unwrap(), "sk-1");
}

#[test]
fn audio_payload_is_standard_base64() {
    assert_eq!(encode_audio_payload(b"hello").unwrap(), "aGVsbG8=");
    assert_eq!(encode_audio_payload(b"").unwrap(), "");
    assert_eq!(encode_audio_payload(&[0xff, 0xfe]).unwrap(), "//4=");
    assert_eq!(encode_audio_payload(b"a").unwrap(), "YQ==");
    assert_eq!(encode_audio_payload(b"abc").unwrap(), "YWJj");
    assert_eq!(encode_audio_payload(&[0, 16, 131, 16]).unwrap(), "ABCDEA==");
}

#[test]
fn oversized_audio_payload_is_refused_before_upload() {
    let audio = vec![0u8; 7_864_321];
    match encode_audio_payload(&audio) {
        Err(TranscriptionError::EncodedAudioTooLarge {
            encoded_bytes,
            limit_bytes,
        }) => {
            assert_eq!(encoded_bytes, 10_485_764);
            assert_eq!(limit_bytes, XIAOMI_BASE64_SIZE_LIMIT_BYTES);
        }
        other => panic!("expected EncodedAudioTooLarge, got {other:?}"),
    }
    let fits = vec![0u8; 7_864_320];
    assert_eq!(encode_audio_payload(&fits).unwrap().len(), 10_485_760);
}
