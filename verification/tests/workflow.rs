use promptogether::audio::AudioError;
use promptogether::cleanup::CleanupError;
use promptogether::output::OutputError;
use promptogether::transcription::TranscriptionError;
use promptogether::workflow::WorkflowError;
use promptogether::elevenlabs_asr::ElevenLabsAsrError;
use promptogether::local_asr::LocalAsrError;
use promptogether::workflow::{
    asr_fallback, join_cleaned_chunks, next_asr_step, AsrFallback, ChunkAsrStep,
};

#[test]
fn audio_error_display_is_clear_and_tags_the_stage() {
    let err: WorkflowError = AudioError::FfmpegNotFound.into();
    let message = err.message();

    assert!(message.starts_with("audio stage failed:"));
    assert!(message.contains("ffmpeg"));
}

#[test]
fn transcription_error_display_is_clear_and_tags_the_stage() {
    let err: WorkflowError = TranscriptionError::MissingApiKey.into();
    let message = err.message();

    assert!(message.starts_with("transcription stage failed:"));
    assert!(message.contains("XIAOMI_API_KEY"));
}

#[test]
fn cleanup_error_display_is_clear_and_tags_the_stage() {
    let err: WorkflowError = CleanupError::EmptyResult.into();
    let message = err.message();

    assert!(message.starts_with("cleanup stage failed:"));
}

#[test]
fn output_error_display_is_clear_and_tags_the_stage() {
    let err: WorkflowError = OutputError::AlreadyExists {
        path: "video-from-text/example.md".to_string(),
    }
    .into();
    let message = err.message();

    assert!(message.starts_with("output stage failed:"));
    assert!(message.contains("video-from-text/example.md"));
}

#[test]
fn workflow_error_display_never_contains_a_literal_api_key_value() {
    let secret = "sk-super-secret-value";
    let err: WorkflowError = TranscriptionError::MissingApiKey.into();

    assert!(!err.message().contains(secret));
}

#[test]
fn from_audio_error_preserves_the_underlying_message() {
    let stage_err = AudioError::VideoNotFound("missing.mp4".to_string());
    let stage_message = stage_err.message();

    let workflow_err: WorkflowError = stage_err.into();

    assert!(workflow_err.message().contains(&stage_message));
}

#[test]
fn from_transcription_error_preserves_the_underlying_message() {
    let stage_err = TranscriptionError::RateLimit("too many requests".to_string());
    let stage_message = stage_err.message();

    let workflow_err: WorkflowError = stage_err.into();

    assert!(workflow_err.message().contains(&stage_message));
}

#[test]
fn from_cleanup_error_preserves_the_underlying_message() {
    let stage_err = CleanupError::MalformedResponse("missing choices array".to_string());
    let stage_message = stage_err.message();

    let workflow_err: WorkflowError = stage_err.into();

    assert!(workflow_err.message().contains(&stage_message));
}

#[test]
fn from_output_error_preserves_the_underlying_message() {
    let stage_err = OutputError::Persist {
        path: "video-from-text/example.md".to_string(),
        reason: "cross-device link".to_string(),
    };
    let stage_message = stage_err.message();

    let workflow_err: WorkflowError = stage_err.into();

    assert!(workflow_err.message().contains(&stage_message));
}

#[test]
fn workflow_message_is_the_stage_prefix_followed_by_the_stage_message() {
    let stage_err = OutputError::AlreadyExists {
        path: "video-from-text/talk.md".to_string(),
    };
    let stage_message = stage_err.message();
    let workflow_err: WorkflowError = stage_err.into();
    assert_eq!(
        workflow_err.message(),
        format!("output stage failed: {stage_message}")
    );
    assert_eq!(
        stage_message,
        "a transcript already exists at video-from-text/talk.md — pass --overwrite to replace it"
    );
}

#[test]
fn fallback_failures_are_tagged_by_the_fallback() {
    let local: WorkflowError = LocalAsrError::EmptyTranscript.into();
    assert_eq!(
        local.message(),
        "local ASR fallback failed: whisper-cli returned an empty transcript"
    );
    let remote: WorkflowError = ElevenLabsAsrError::RateLimit.into();
    assert_eq!(
        remote.message(),
        "ElevenLabs ASR fallback failed: ElevenLabs rate limit exceeded"
    );
}

#[test]
fn command_line_selects_the_fallback() {
    assert_eq!(asr_fallback(&None, false), AsrFallback::Disabled);
    assert_eq!(asr_fallback(&Some("model.bin".to_string()), false), AsrFallback::Local);
    assert_eq!(asr_fallback(&None, true), AsrFallback::ElevenLabs);
}

#[test]
fn filtered_chunks_go_to_the_configured_fallback() {
    assert!(matches!(
        next_asr_step(Ok("words".to_string()), AsrFallback::Local),
        ChunkAsrStep::Transcript(t) if t == "words"
    ));
    assert!(matches!(
        next_asr_step(Err(TranscriptionError::ContentFiltered), AsrFallback::Local),
        ChunkAsrStep::UseLocal
    ));
    assert!(matches!(
        next_asr_step(Err(TranscriptionError::ContentFiltered), AsrFallback::ElevenLabs),
        ChunkAsrStep::UseElevenLabs
    ));
    assert!(matches!(
        next_asr_step(Err(TranscriptionError::ContentFiltered), AsrFallback::Disabled),
        ChunkAsrStep::Fail(TranscriptionError::ContentFiltered)
    ));
    assert!(matches!(
        next_asr_step(Err(TranscriptionError::EmptyTranscript), AsrFallback::ElevenLabs),
        ChunkAsrStep::Fail(TranscriptionError::EmptyTranscript)
    ));
}

#[test]
fn cleaned_chunks_are_joined_in_order_with_paragraph_breaks() {
    let chunks = vec!["First part.".to_string(), "Second part.".to_string(), "Third.".to_string()];
    assert_eq!(join_cleaned_chunks(&chunks), "First part.\n\nSecond part.\n\nThird.");
    assert_eq!(join_cleaned_chunks(&vec!["Only.".to_string()]), "Only.");
    assert_eq!(join_cleaned_chunks(&vec![]), "");
}
