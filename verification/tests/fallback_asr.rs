use promptogether::elevenlabs_asr::{
    self, elevenlabs_transcript, ElevenLabsAsrError, ElevenLabsResult, API_KEY_ENV_VAR,
};
use promptogether::llm::LlmFailure;
use promptogether::local_asr::{
    check_model_file, finish_local_transcript, model_metadata_error, LocalAsrError,
};

#[test]
fn elevenlabs_key_must_be_present_and_not_blank() {
    assert_eq!(API_KEY_ENV_VAR, "ELEVENLABS_API_KEY");
    assert!(matches!(
        elevenlabs_asr::accept_api_key(None),
        Err(ElevenLabsAsrError::MissingApiKey)
    ));
    assert!(matches!(
        elevenlabs_asr::accept_api_key(Some("   ".to_string())),
        Err(ElevenLabsAsrError::MissingApiKey)
    ));
    assert_eq!(elevenlabs_asr::accept_api_key(Some("k".to_string())).unwrap(), "k");
}

#[test]
fn elevenlabs_transcript_is_trimmed_and_must_not_be_blank() {
    assert_eq!(
        elevenlabs_transcript(ElevenLabsResult::Transcript {
            text: "  spoken words \n".to_string()
        })
        .unwrap(),
        "spoken words"
    );
    assert!(matches!(
        elevenlabs_transcript(ElevenLabsResult::Transcript { text: " \n ".to_string() }),
        Err(ElevenLabsAsrError::EmptyTranscript)
    ));
    assert!(matches!(
        elevenlabs_transcript(ElevenLabsResult::Multichannel),
        Err(ElevenLabsAsrError::UnexpectedResponse)
    ));
    assert!(matches!(
        elevenlabs_transcript(ElevenLabsResult::Accepted),
        Err(ElevenLabsAsrError::UnexpectedResponse)
    ));
}

#[test]
fn elevenlabs_failures_are_mapped_without_echoing_credentials() {
    let auth = elevenlabs_asr::map_llm_error(LlmFailure::Authentication {
        message: "sk-super-secret-value rejected".to_string(),
    });
    assert!(matches!(auth, ElevenLabsAsrError::Authentication));
    assert!(!auth.message().contains("sk-super-secret-value"));
    assert_eq!(
        elevenlabs_asr::map_llm_error(LlmFailure::Api {
            status: 429,
            message: "busy".to_string()
        })
        .message(),
        "ElevenLabs returned HTTP status 429"
    );
    assert!(matches!(
        elevenlabs_asr::map_llm_error(LlmFailure::RouterApi {
            status: 502,
            error_type: "x".to_string()
        }),
        ElevenLabsAsrError::UnexpectedResponse
    ));
    assert!(matches!(
        elevenlabs_asr::map_llm_error(LlmFailure::RateLimit { message: "m".to_string() }),
        ElevenLabsAsrError::RateLimit
    ));
}

#[test]
fn local_model_must_be_a_nonempty_file() {
    assert!(check_model_file("model.bin", true, 10).is_ok());
    match check_model_file("model.bin", true, 0) {
        Err(LocalAsrError::ModelUnavailable(reason)) => {
            assert_eq!(reason, "model.bin is not a nonempty model file")
        }
        other => panic!("expected ModelUnavailable, got {other:?}"),
    }
    assert!(check_model_file("dir", false, 4096).is_err());
    assert_eq!(
        model_metadata_error("model.bin", "No such file").message(),
        "local ASR model unavailable: model.bin: No such file"
    );
}

#[test]
fn local_transcript_is_trimmed_and_must_not_be_blank() {
    assert_eq!(finish_local_transcript("\n hello \n").unwrap(), "hello");
    assert!(matches!(
        finish_local_transcript("   "),
        Err(LocalAsrError::EmptyTranscript)
    ));
}
