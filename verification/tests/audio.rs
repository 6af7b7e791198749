use promptogether::audio::{
    audio_chunk_names, check_chunk_files, check_ffmpeg_probe, check_video_file,
    scan_duration_micros, tail_lines, AudioError, FfmpegProbe,
};
use promptogether::text::{chars_of, parse_u64_from};

#[test]
fn tail_lines_keeps_only_the_last_lines() {
    let text = (1..=30)
        .map(|n| format!("line {n}"))
        .collect::<Vec<_>>()
        .join("\n");
    let tail = tail_lines(&text, 5);
    let lines: Vec<&str> = tail.lines().collect();
    assert_eq!(lines.len(), 5);
    assert_eq!(lines[0], "line 26");
    assert_eq!(lines[4], "line 30");
}

#[test]
fn tail_lines_returns_full_text_when_short() {
    let text = "line 1\nline 2";
    assert_eq!(tail_lines(text, 5), "line 1\nline 2");
}

#[test]
fn tail_lines_trims_surrounding_whitespace_and_carriage_returns() {
    assert_eq!(tail_lines("  \n first\r\nsecond\r\nthird \n\n", 2), "second\nthird");
    assert_eq!(tail_lines("   ", 3), "");
    assert_eq!(tail_lines("a\nb", 0), "");
}

#[test]
fn tail_lines_keeps_exactly_max_lines() {
    assert_eq!(tail_lines("a\nb\nc", 3), "a\nb\nc");
    assert_eq!(tail_lines("a\nb\nc", 2), "b\nc");
}

#[test]
fn audio_error_messages_name_the_problem() {
    assert_eq!(
        AudioError::VideoNotFound("missing.mp4".to_string()).message(),
        "video file not found: missing.mp4"
    );
    assert_eq!(
        AudioError::VideoUnreadable {
            path: "clip.mp4".to_string(),
            reason: "permission denied".to_string(),
        }
        .message(),
        "cannot read video file clip.mp4: permission denied"
    );
    assert!(AudioError::FfmpegNotFound.message().contains("ffmpeg was not found on PATH"));
    assert_eq!(
        AudioError::FfmpegSpawnFailed("boom".to_string()).message(),
        "failed to start ffmpeg: boom"
    );
    assert_eq!(
        AudioError::TempWorkspace("disk full".to_string()).message(),
        "could not create a temporary workspace: disk full"
    );
    assert!(AudioError::OutputMissing.message().contains("did not produce any audio chunks"));
    assert!(AudioError::DurationUnavailable
        .message()
        .contains("could not determine the audio duration"));
}

#[test]
fn ffmpeg_failure_message_shows_status_and_stderr_tail() {
    let with_output = AudioError::FfmpegFailed {
        status: Some(1),
        stderr: "warning\nInvalid data found when processing input\n".to_string(),
    };
    assert_eq!(
        with_output.message(),
        "ffmpeg failed (exit code 1):\nwarning\nInvalid data found when processing input"
    );

    let silent = AudioError::FfmpegFailed {
        status: None,
        stderr: "  \n ".to_string(),
    };
    assert_eq!(
        silent.message(),
        "ffmpeg failed (terminated by a signal) with no output on stderr — the input may be unsupported or corrupt"
    );

    let negative = AudioError::FfmpegFailed {
        status: Some(-9),
        stderr: "x".to_string(),
    };
    assert_eq!(negative.message(), "ffmpeg failed (exit code -9):\nx");
}

#[test]
fn ffmpeg_failure_message_keeps_only_the_last_twenty_stderr_lines() {
    let stderr = (1..=25)
        .map(|n| format!("e{n}"))
        .collect::<Vec<_>>()
        .join("\n");
    let message = AudioError::FfmpegFailed {
        status: Some(2),
        stderr,
    }
    .message();
    let expected_tail = (6..=25)
        .map(|n| format!("e{n}"))
        .collect::<Vec<_>>()
        .join("\n");
    assert_eq!(message, format!("ffmpeg failed (exit code 2):\n{expected_tail}"));
}

fn names(list: &[&str]) -> Vec<String> {
    list.iter().map(|s| s.to_string()).collect()
}

#[test]
fn chunk_names_are_filtered_and_sorted() {
    let found = names(&[
        "audio-002.mp3",
        "scan.log",
        "audio-000.mp3",
        "audio-010.mp3",
        "audio-001.mp3",
        "Audio-003.mp3",
        "audio-004.wav",
        "audio-.mp3",
    ]);
    assert_eq!(
        audio_chunk_names(&found),
        names(&["audio-.mp3", "audio-000.mp3", "audio-001.mp3", "audio-002.mp3", "audio-010.mp3"])
    );
}

#[test]
fn chunk_names_order_by_characters_not_numbers() {
    let found = names(&["audio-10.mp3", "audio-9.mp3", "audio-100.mp3"]);
    assert_eq!(
        audio_chunk_names(&found),
        names(&["audio-10.mp3", "audio-100.mp3", "audio-9.mp3"])
    );
    assert!(audio_chunk_names(&names(&["notes.txt", "audio.mp3"])).is_empty());
}

#[test]
fn chunk_files_must_exist_and_be_nonempty() {
    assert!(check_chunk_files(&vec![Some(10), Some(1)]).is_ok());
    assert!(matches!(check_chunk_files(&vec![]), Err(AudioError::OutputMissing)));
    assert!(matches!(
        check_chunk_files(&vec![Some(10), Some(0)]),
        Err(AudioError::OutputMissing)
    ));
    assert!(matches!(
        check_chunk_files(&vec![None, Some(5)]),
        Err(AudioError::OutputMissing)
    ));
}

#[test]
fn duration_is_the_last_reported_progress_time() {
    let progress = "frame=0\nout_time_us=1000000\nprogress=continue\nout_time_us=61500000\r\nprogress=end\n";
    assert_eq!(scan_duration_micros(progress).unwrap(), 61_500_000);
    let garbled = "out_time_us=2000\nout_time_us=N/A\n";
    assert_eq!(scan_duration_micros(garbled).unwrap(), 2000);
}

#[test]
fn missing_or_zero_duration_is_unavailable() {
    assert!(matches!(
        scan_duration_micros("progress=end\n"),
        Err(AudioError::DurationUnavailable)
    ));
    assert!(matches!(
        scan_duration_micros("out_time_us=0\n"),
        Err(AudioError::DurationUnavailable)
    ));
    assert!(matches!(
        scan_duration_micros(" out_time_us=5\n"),
        Err(AudioError::DurationUnavailable)
    ));
}

#[test]
fn decimal_parsing_matches_the_standard_library() {
    for text in ["0", "42", "+7", "18446744073709551615", "18446744073709551616", "", "+", "-1", "1 ", "4a", "007"] {
        let chars = chars_of(text);
        assert_eq!(parse_u64_from(&chars, 0), text.parse::<u64>().ok(), "text: {text:?}");
    }
    assert_eq!(parse_u64_from(&chars_of("key=99"), 4), Some(99));
}

#[test]
fn video_file_must_be_a_readable_regular_file() {
    assert!(check_video_file("clip.mp4", Some(true), None).is_ok());
    match check_video_file("clip.mp4", Some(false), None) {
        Err(AudioError::VideoNotFound(path)) => assert_eq!(path, "clip.mp4"),
        other => panic!("expected VideoNotFound, got {other:?}"),
    }
    assert!(matches!(
        check_video_file("/nonexistent/path/does-not-exist.mp4", None, None),
        Err(AudioError::VideoNotFound(_))
    ));
    match check_video_file("clip.mp4", Some(true), Some("permission denied".to_string())) {
        Err(AudioError::VideoUnreadable { path, reason }) => {
            assert_eq!(path, "clip.mp4");
            assert_eq!(reason, "permission denied");
        }
        other => panic!("expected VideoUnreadable, got {other:?}"),
    }
}

#[test]
fn ffmpeg_is_available_only_after_a_successful_probe() {
    assert!(check_ffmpeg_probe(FfmpegProbe::Exited { success: true }).is_ok());
    assert!(matches!(
        check_ffmpeg_probe(FfmpegProbe::Exited { success: false }),
        Err(AudioError::FfmpegNotFound)
    ));
    assert!(matches!(
        check_ffmpeg_probe(FfmpegProbe::NotFound),
        Err(AudioError::FfmpegNotFound)
    ));
    match check_ffmpeg_probe(FfmpegProbe::SpawnFailed("denied".to_string())) {
        Err(AudioError::FfmpegSpawnFailed(reason)) => assert_eq!(reason, "denied"),
        other => panic!("expected FfmpegSpawnFailed, got {other:?}"),
    }
}

#[test]
fn tail_lines_trims_unicode_whitespace() {
    assert_eq!(tail_lines("\u{3000}\u{a0}error: bad input\u{2009}\n", 20), "error: bad input");
}
