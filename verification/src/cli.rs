//! The command line of the `video-to-markdown` tool, as plain values.

use vstd::prelude::*;

verus! {

/// Transcribe a local video into a reviewed Markdown transcript under
/// `video-from-text/`.
#[derive(Debug)]
pub struct Cli {
    /// Path to the local video file to transcribe.
    pub video_path: String,
    /// Overwrite an existing Markdown transcript at the destination path.
    ///
    /// Without this flag, a run that would collide with an existing
    /// transcript under `video-from-text/` is refused rather than silently
    /// replacing reviewed content.
    pub overwrite: bool,
    /// Use this whisper.cpp model locally if Xiaomi filters an ASR chunk.
    /// Requires `whisper-cli` on `PATH`; other chunks still use Xiaomi.
    pub local_asr_model: Option<String>,
    /// Send ASR chunks that Xiaomi filters to ElevenLabs Scribe instead.
    /// Requires `ELEVENLABS_API_KEY`; cannot be combined with
    /// `local_asr_model`.
    pub elevenlabs_fallback: bool,
    /// Print chunk plans, request sizes and response metadata (never audio,
    /// transcript text or keys) to stderr.
    pub diagnostics: bool,
}

} // verus!
