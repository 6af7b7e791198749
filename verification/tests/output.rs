use promptogether::calendar::{civil_from_days, format_utc_timestamp};
use promptogether::output::{
    check_destination, derive_markdown_filename, render_markdown, sanitize_stem,
    truncate_at_char_boundary, write_markdown, OutputError, DEFAULT_OUTPUT_DIR, FALLBACK_STEM,
    MAX_STEM_LEN,
};

const REVIEW_NOTE: &str = "> This transcript was produced with model-assisted transcription and cleanup. It is not a verbatim or accessibility-certified transcript and requires human review before publishing.\n";

#[test]
fn derives_simple_filename_from_stem() {
    assert_eq!(derive_markdown_filename("my-talk.mp4"), "my-talk.md");
}

#[test]
fn derives_filename_from_stem_with_spaces_and_symbols() {
    assert_eq!(derive_markdown_filename("My Talk (Take 2)!.mov"), "My-Talk-Take-2.md");
}

#[test]
fn sanitizes_path_traversal_attempts_in_stem() {
    let name = derive_markdown_filename("../../etc/passwd.mp4");
    assert!(!name.contains(".."));
    assert!(!name.contains('/'));
}

#[test]
fn rejects_dot_and_dotdot_stems_with_fallback() {
    assert_eq!(sanitize_stem("."), FALLBACK_STEM);
    assert_eq!(sanitize_stem(".."), FALLBACK_STEM);
}

#[test]
fn strips_leading_dot_from_dotfile_style_stem() {
    assert_eq!(derive_markdown_filename(".mp4"), "mp4.md");
}

#[test]
fn strips_null_bytes_and_control_characters() {
    let name = derive_markdown_filename("weird\u{0000}name.mp4");
    assert!(!name.contains('\u{0000}'));
}

#[test]
fn falls_back_to_transcript_when_stem_sanitizes_to_empty() {
    assert_eq!(derive_markdown_filename("!!!.mp4"), "transcript.md");
}

#[test]
fn truncates_very_long_stems() {
    let long_stem = "a".repeat(500);
    let name = derive_markdown_filename(&format!("{long_stem}.mp4"));
    assert!(name.len() <= MAX_STEM_LEN + 3);
}

#[test]
fn long_stems_keep_exactly_the_first_hundred_bytes() {
    let long_stem = "b".repeat(250);
    assert_eq!(sanitize_stem(&long_stem), "b".repeat(100));
}

#[test]
fn sanitizing_collapses_dashes_and_trims_edges() {
    assert_eq!(sanitize_stem("__a--b__"), "a-b");
    assert_eq!(sanitize_stem("--x"), "x");
    assert_eq!(sanitize_stem("h\u{e9}llo w\u{f6}rld"), "h-llo-w-rld");
    assert_eq!(sanitize_stem("dir/sub\\name"), "name");
    assert_eq!(sanitize_stem(""), "transcript");
    assert_eq!(sanitize_stem("a_b-c"), "a_b-c");
}

#[test]
fn derived_names_use_only_the_file_stem() {
    assert_eq!(derive_markdown_filename("videos/2024/keynote.final.mp4"), "keynote-final.md");
    assert_eq!(derive_markdown_filename("noext"), "noext.md");
    assert_eq!(derive_markdown_filename(""), "transcript.md");
}

#[test]
fn truncation_cuts_at_a_character_boundary() {
    assert_eq!(truncate_at_char_boundary("abc", 5), "abc");
    assert_eq!(truncate_at_char_boundary("abcdef", 3), "abc");
    assert_eq!(truncate_at_char_boundary("a\u{e9}b", 2), "a");
    assert_eq!(truncate_at_char_boundary("\u{e9}", 0), "");
}

#[test]
fn civil_from_days_matches_known_epoch_dates() {
    assert_eq!(civil_from_days(0), (1970, 1, 1));
    let days_to_2000_03_01 = 11_017;
    assert_eq!(civil_from_days(days_to_2000_03_01), (2000, 3, 1));
}

#[test]
fn civil_from_days_handles_leap_days_and_negative_days() {
    assert_eq!(civil_from_days(-1), (1969, 12, 31));
    assert_eq!(civil_from_days(11_016), (2000, 2, 29));
    assert_eq!(civil_from_days(-719_468), (0, 3, 1));
    assert_eq!(civil_from_days(2_932_896), (9999, 12, 31));
}

#[test]
fn format_utc_timestamp_produces_expected_shape() {
    assert_eq!(format_utc_timestamp(0), "1970-01-01T00:00:00Z");
}

#[test]
fn format_utc_timestamp_formats_later_times() {
    assert_eq!(format_utc_timestamp(951_868_800), "2000-03-01T00:00:00Z");
    assert_eq!(format_utc_timestamp(86_399), "1970-01-01T23:59:59Z");
    assert_eq!(format_utc_timestamp(1_700_000_000), "2023-11-14T22:13:20Z");
    assert_eq!(format_utc_timestamp(253_402_300_799), "9999-12-31T23:59:59Z");
}

#[test]
fn rendered_markdown_has_front_matter_body_and_review_note() {
    let doc = render_markdown("session-one.mp4", "  Paragraph one.\n\nParagraph two.\n", 0);
    assert_eq!(
        doc,
        format!(
            "---\nsource: \"session-one.mp4\"\ngenerated_at: \"1970-01-01T00:00:00Z\"\n---\n\nParagraph one.\n\nParagraph two.\n\n{REVIEW_NOTE}"
        )
    );
    assert!(doc.to_lowercase().contains("not a verbatim"));
    assert!(doc.to_lowercase().contains("review"));
}

#[test]
fn rendered_markdown_escapes_the_source_name() {
    let doc = render_markdown("a\"b\\c.mp4", "x", 0);
    assert!(doc.starts_with("---\nsource: \"a\\\"b\\\\c.mp4\"\n"));
}

#[test]
fn destination_check_refuses_existing_files_without_overwrite() {
    assert!(check_destination("out/a.md", false, false).is_ok());
    assert!(check_destination("out/a.md", true, true).is_ok());
    assert!(check_destination("out/a.md", false, true).is_ok());
    match check_destination("out/a.md", true, false) {
        Err(OutputError::AlreadyExists { path }) => assert_eq!(path, "out/a.md"),
        other => panic!("expected AlreadyExists, got {other:?}"),
    }
}

#[test]
fn publication_plan_refuses_to_overwrite_without_flag() {
    let result = write_markdown("intro.mp4", "video-from-text/intro.md", "Second version.", false, true, 0);
    match result {
        Err(OutputError::AlreadyExists { path }) => assert_eq!(path, "video-from-text/intro.md"),
        other => panic!("expected AlreadyExists, got {other:?}"),
    }
}

#[test]
fn publication_plan_replaces_existing_content_with_overwrite() {
    let plan = write_markdown("intro.mp4", "video-from-text/intro.md", "Second version.", true, true, 0)
        .expect("overwrite should succeed");
    assert_eq!(plan.destination, "video-from-text/intro.md");
    assert!(plan.content.contains("Second version."));
}

#[test]
fn publication_plan_names_the_video_file_as_source() {
    let plan = write_markdown(
        "clips/session-one.mp4",
        "video-from-text/session-one.md",
        "Paragraph one.\n\nParagraph two.",
        false,
        false,
        86_400,
    )
    .expect("write markdown");
    assert_eq!(
        plan.content,
        render_markdown("session-one.mp4", "Paragraph one.\n\nParagraph two.", 86_400)
    );
    assert!(plan.content.contains("generated_at: \"1970-01-02T00:00:00Z\""));
}

#[test]
fn default_output_directory_is_video_from_text() {
    assert_eq!(DEFAULT_OUTPUT_DIR, "video-from-text");
}

#[test]
fn output_error_messages_name_the_path() {
    assert_eq!(
        OutputError::CreateOutputDir {
            path: "video-from-text".to_string(),
            reason: "denied".to_string(),
        }
        .message(),
        "could not create output directory video-from-text: denied"
    );
    assert_eq!(
        OutputError::TempFile {
            dir: "out".to_string(),
            reason: "full".to_string(),
        }
        .message(),
        "could not create a temporary file in out: full"
    );
    assert_eq!(
        OutputError::Write {
            path: "out/a.md".to_string(),
            reason: "io".to_string(),
        }
        .message(),
        "could not write Markdown to out/a.md: io"
    );
    assert_eq!(
        OutputError::Persist {
            path: "out/a.md".to_string(),
            reason: "cross-device link".to_string(),
        }
        .message(),
        "could not publish the Markdown transcript to out/a.md: cross-device link"
    );
}
