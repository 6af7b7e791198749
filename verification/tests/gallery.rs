use promptogether::error::{
    AppError, STATUS_BAD_REQUEST, STATUS_INTERNAL_SERVER_ERROR, STATUS_NOT_FOUND,
};
use promptogether::gallery::{
    checked_project_detail, project_detail, project_summaries, validate_slug, visible_project,
    GalleryFileRow, GalleryProjectFile, GalleryProjectFilePhase, GalleryProjectRow,
    GalleryProjectSummary, INVALID_SLUG_CODE, PROJECT_NOT_FOUND_CODE, SLUG_CHARACTERS_MESSAGE,
    SLUG_DASHES_MESSAGE, SLUG_EDGE_MESSAGE, SLUG_LENGTH_MESSAGE,
};

fn project(slug: &str, state: &str) -> GalleryProjectRow {
    GalleryProjectRow {
        id: 7,
        slug: slug.to_string(),
        title: "Title".to_string(),
        summary: "Summary".to_string(),
        prompt: "Prompt".to_string(),
        publication_state: state.to_string(),
        display_order: 1,
        created_at: "2024-01-01 00:00:00".to_string(),
        updated_at: "2024-01-02 00:00:00".to_string(),
    }
}

fn file(phase: &str, path: &str, order: i64) -> GalleryFileRow {
    GalleryFileRow {
        id: order,
        project_id: 7,
        phase: phase.to_string(),
        path: path.to_string(),
        language: Some("rust".to_string()),
        content: format!("// {path}"),
        display_order: order,
    }
}

fn slug_message(slug: &str) -> Option<String> {
    match validate_slug(slug) {
        Ok(()) => None,
        Err(err) => {
            assert_eq!(err.status, STATUS_BAD_REQUEST);
            assert_eq!(err.code, INVALID_SLUG_CODE);
            assert!(err.details.is_none());
            Some(err.message)
        }
    }
}

#[test]
fn kebab_case_slugs_are_accepted() {
    assert_eq!(slug_message("hello-rust-cli"), None);
    assert_eq!(slug_message("a"), None);
    assert_eq!(slug_message("v2-0"), None);
    assert_eq!(slug_message(&"x".repeat(100)), None);
}

#[test]
fn malformed_slugs_are_refused_with_the_first_problem() {
    assert_eq!(slug_message("").as_deref(), Some(SLUG_LENGTH_MESSAGE));
    assert_eq!(slug_message(&"x".repeat(101)).as_deref(), Some(SLUG_LENGTH_MESSAGE));
    assert_eq!(slug_message("a--b").as_deref(), Some(SLUG_DASHES_MESSAGE));
    assert_eq!(slug_message("Hello").as_deref(), Some(SLUG_CHARACTERS_MESSAGE));
    assert_eq!(slug_message("a_b").as_deref(), Some(SLUG_CHARACTERS_MESSAGE));
    assert_eq!(slug_message("-ab").as_deref(), Some(SLUG_EDGE_MESSAGE));
    assert_eq!(slug_message("ab-").as_deref(), Some(SLUG_EDGE_MESSAGE));
    assert_eq!(slug_message("\u{e9}t\u{e9}").as_deref(), Some(SLUG_CHARACTERS_MESSAGE));
    assert_eq!(slug_message("--").as_deref(), Some(SLUG_DASHES_MESSAGE));
    assert_eq!(slug_message("-").as_deref(), Some(SLUG_EDGE_MESSAGE));
}

#[test]
fn slug_length_counts_bytes() {
    let fifty_accented = "\u{e9}".repeat(51);
    assert_eq!(slug_message(&fifty_accented).as_deref(), Some(SLUG_LENGTH_MESSAGE));
}

#[test]
fn only_published_projects_are_visible() {
    let shown = visible_project(Some(project("p", "published"))).unwrap();
    assert_eq!(shown.slug, "p");
    for hidden in [Some(project("p", "draft")), None] {
        let err = visible_project(hidden).unwrap_err();
        assert_eq!(err.status, STATUS_NOT_FOUND);
        assert_eq!(err.code, PROJECT_NOT_FOUND_CODE);
        assert_eq!(err.message, "Gallery project not found.");
    }
}

#[test]
fn detail_splits_files_by_phase_in_order() {
    let files = vec![
        file("initial", "Cargo.toml", 1),
        file("result", "src/main.rs", 1),
        file("initial", "README.md", 2),
        file("result", "src/lib.rs", 2),
    ];
    let detail = project_detail(project("demo", "published"), files).unwrap();
    assert_eq!(detail.slug, "demo");
    assert_eq!(detail.prompt, "Prompt");
    assert_eq!(detail.created_at, "2024-01-01 00:00:00");
    let initial: Vec<&str> = detail.initial_files.iter().map(|f| f.path.as_str()).collect();
    let result: Vec<&str> = detail.result_files.iter().map(|f| f.path.as_str()).collect();
    assert_eq!(initial, vec!["Cargo.toml", "README.md"]);
    assert_eq!(result, vec!["src/main.rs", "src/lib.rs"]);
    assert_eq!(
        detail.initial_files[0],
        GalleryProjectFile {
            phase: GalleryProjectFilePhase::Initial,
            path: "Cargo.toml".to_string(),
            language: Some("rust".to_string()),
            content: "// Cargo.toml".to_string(),
        }
    );
    assert_eq!(detail.result_files[1].phase, GalleryProjectFilePhase::Result);
}

#[test]
fn detail_with_an_unknown_phase_is_an_internal_error() {
    let files = vec![file("initial", "a", 1), file("draft", "b", 2)];
    let err = checked_project_detail(project("demo", "published"), files).unwrap_err();
    assert_eq!(err.status, STATUS_INTERNAL_SERVER_ERROR);
    assert_eq!(err.code, "internal_error");

    let ok = checked_project_detail(project("demo", "published"), vec![file("result", "b", 1)])
        .unwrap();
    assert!(ok.initial_files.is_empty());
    assert_eq!(ok.result_files.len(), 1);
}

#[test]
fn summaries_keep_row_order() {
    let summaries = project_summaries(vec![project("one", "published"), project("two", "published")]);
    assert_eq!(
        summaries,
        vec![
            GalleryProjectSummary {
                slug: "one".to_string(),
                title: "Title".to_string(),
                summary: "Summary".to_string(),
            },
            GalleryProjectSummary {
                slug: "two".to_string(),
                title: "Title".to_string(),
                summary: "Summary".to_string(),
            },
        ]
    );
}

#[test]
fn app_errors_split_into_status_and_envelope() {
    let err = AppError::new(418, "teapot", "short and stout")
        .with_details(serde_json::Value::String("extra".to_string()));
    let (status, body) = err.into_parts();
    assert_eq!(status, 418);
    assert_eq!(body.code, "teapot");
    assert_eq!(body.message, "short and stout");
    assert_eq!(body.details, Some(serde_json::Value::String("extra".to_string())));

    let internal = AppError::internal("boom");
    assert_eq!(internal.status, 500);
    assert_eq!(internal.code, "internal_error");
    assert!(internal.details.is_none());
}

#[test]
fn unknown_stored_phases_have_no_public_phase() {
    assert_eq!(GalleryProjectFile::from_row(&file("draft", "a", 1)), None);
    assert_eq!(
        GalleryProjectFile::from_row(&file("result", "b", 2)),
        Some(GalleryProjectFile {
            phase: GalleryProjectFilePhase::Result,
            path: "b".to_string(),
            language: Some("rust".to_string()),
            content: "// b".to_string(),
        })
    );
    assert_eq!(
        GalleryProjectFile::from_row(&file("initial", "c", 3)).unwrap().phase,
        GalleryProjectFilePhase::Initial
    );
    let files = vec![file("initial", "a", 1), file("Result", "b", 2)];
    assert!(project_detail(project("demo", "published"), files).is_none());
}
