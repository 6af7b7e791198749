use promptogether::config::{
    bind_address_text, checked_log_level, resolve_database_url, resolve_log_level, ConfigError,
    LogSetting,
    DEFAULT_BIND_ADDRESS, DEFAULT_DATABASE_URL, DEFAULT_LOG_LEVEL,
};
use promptogether::gallery_seed::{
    curated_projects, file_needs_update, project_needs_update, stale_file_keys, StoredFile,
    StoredProject,
};
use promptogether::health::{app_name, app_version, HealthResponse, HealthStatus};
use promptogether::config::{worker_config, WorkerSetting};
use promptogether::migrations::check_migration_counts;

#[test]
fn health_response_reports_ok_with_name_and_version() {
    let response = HealthResponse::new(app_name(), app_version());
    assert_eq!(response.status, HealthStatus::Healthy);
    assert_eq!(response.app, "promptogether");
    assert_eq!(response.version, "0.1.0");
}

#[test]
fn configuration_falls_back_to_defaults() {
    assert_eq!(bind_address_text(None), DEFAULT_BIND_ADDRESS);
    assert_eq!(bind_address_text(Some("0.0.0.0:8080".to_string())), "0.0.0.0:8080");
    assert_eq!(resolve_database_url(None), DEFAULT_DATABASE_URL);
    assert_eq!(resolve_database_url(Some("sqlite::memory:".to_string())), "sqlite::memory:");
    assert_eq!(resolve_log_level(None, None), DEFAULT_LOG_LEVEL);
    assert_eq!(resolve_log_level(None, Some("debug".to_string())), "debug");
    assert_eq!(
        resolve_log_level(Some("warn".to_string()), Some("debug".to_string())),
        "warn"
    );
}

#[test]
fn invalid_bind_address_message_quotes_the_value() {
    assert_eq!(
        ConfigError::InvalidBindAddress("nope".to_string()).message(),
        "invalid BIND_ADDRESS: \"nope\" — expected a socket address like 127.0.0.1:3000"
    );
}

#[test]
fn curated_dataset_has_five_ordered_projects() {
    let projects = curated_projects();
    let slugs: Vec<&str> = projects.iter().map(|p| p.slug).collect();
    assert_eq!(
        slugs,
        vec![
            "random-password-gen",
            "hello-rust-cli",
            "html-landing-page",
            "python-word-counter",
            "readme-template",
        ]
    );
    for (i, p) in projects.iter().enumerate() {
        assert_eq!(p.display_order, i as i64 + 1);
        assert!(!p.files.is_empty());
        for f in &p.files {
            assert!(f.phase == "initial" || f.phase == "result");
        }
    }
    assert!(projects[0].files.iter().all(|f| f.phase == "result"));
    assert!(projects[1..]
        .iter()
        .all(|p| p.files.iter().any(|f| f.phase == "initial")));
}

#[test]
fn reseeding_current_rows_changes_nothing() {
    let projects = curated_projects();
    let project = &projects[1];
    let stored = StoredProject {
        title: project.title.to_string(),
        summary: project.summary.to_string(),
        prompt: project.prompt.to_string(),
        display_order: project.display_order,
        publication_state: "published".to_string(),
    };
    assert!(!project_needs_update(&stored, project));
    let drafted = StoredProject {
        publication_state: "draft".to_string(),
        ..stored
    };
    assert!(project_needs_update(&drafted, project));

    let file = &project.files[0];
    let stored_file = StoredFile {
        content: file.content.to_string(),
        language: file.language.map(|l| l.to_string()),
        display_order: file.display_order,
    };
    assert!(!file_needs_update(&stored_file, file));
    let edited = StoredFile {
        content: "changed".to_string(),
        ..stored_file
    };
    assert!(file_needs_update(&edited, file));

    let existing: Vec<(String, String)> = project
        .files
        .iter()
        .map(|f| (f.phase.to_string(), f.path.to_string()))
        .collect();
    assert!(stale_file_keys(project, &existing).is_empty());
}

#[test]
fn reseeding_removes_files_the_dataset_no_longer_holds() {
    let projects = curated_projects();
    let project = &projects[0];
    let existing = vec![
        ("result".to_string(), "Cargo.toml".to_string()),
        ("result".to_string(), "old.rs".to_string()),
        ("initial".to_string(), "Cargo.toml".to_string()),
    ];
    assert_eq!(
        stale_file_keys(project, &existing),
        vec![
            ("result".to_string(), "old.rs".to_string()),
            ("initial".to_string(), "Cargo.toml".to_string()),
        ]
    );
}

#[test]
fn worker_settings_default_when_unset() {
    let config = worker_config(None, None, None, None).unwrap();
    assert_eq!(config.concurrency, 2);
    assert_eq!(config.poll_interval_ms, 1000);
    assert_eq!(config.lease_duration_secs, 30);
    assert_eq!(config.shutdown_timeout_secs, 30);
}

#[test]
fn worker_settings_accept_values_in_range() {
    let config = worker_config(
        Some("4".to_string()),
        Some("100".to_string()),
        Some("+5".to_string()),
        Some("1".to_string()),
    )
    .unwrap();
    assert_eq!(config.concurrency, 4);
    assert_eq!(config.poll_interval_ms, 100);
    assert_eq!(config.lease_duration_secs, 5);
    assert_eq!(config.shutdown_timeout_secs, 1);
}

#[test]
fn worker_settings_out_of_range_are_refused_in_order() {
    let err = worker_config(Some("5".to_string()), Some("10".to_string()), None, None).unwrap_err();
    match &err {
        ConfigError::InvalidWorkerSetting { setting, value } => {
            assert_eq!(*setting, WorkerSetting::Concurrency);
            assert_eq!(value, "5");
        }
        other => panic!("expected InvalidWorkerSetting, got {other:?}"),
    }
    assert_eq!(
        err.message(),
        "invalid WORKER_CONCURRENCY: \"5\" — expected a whole number from 1 to 4"
    );
    let err = worker_config(None, Some("99".to_string()), None, None).unwrap_err();
    assert_eq!(
        err.message(),
        "invalid WORKER_POLL_INTERVAL_MS: \"99\" — expected a whole number of at least 100"
    );
    let err = worker_config(None, None, Some("soon".to_string()), None).unwrap_err();
    assert!(matches!(
        err,
        ConfigError::InvalidWorkerSetting { setting: WorkerSetting::LeaseDuration, .. }
    ));
    let err = worker_config(None, None, Some("9223372036854775808".to_string()), None).unwrap_err();
    assert!(matches!(
        err,
        ConfigError::InvalidWorkerSetting { setting: WorkerSetting::LeaseDuration, .. }
    ));
    let err = worker_config(None, None, None, Some("0".to_string())).unwrap_err();
    assert!(matches!(
        err,
        ConfigError::InvalidWorkerSetting { setting: WorkerSetting::ShutdownTimeout, .. }
    ));
}

#[test]
fn schema_must_have_every_known_migration() {
    assert!(check_migration_counts(3, 3).is_ok());
    assert!(check_migration_counts(4, 3).is_ok());
    assert_eq!(
        check_migration_counts(1, 3).unwrap_err(),
        "3 migrations known but only 1 applied"
    );
}

#[test]
fn curated_projects_hold_their_titles_and_files() {
    let projects = curated_projects();
    let counts: Vec<usize> = projects.iter().map(|p| p.files.len()).collect();
    assert_eq!(counts, vec![2, 4, 4, 2, 2]);
    assert_eq!(projects[0].title, "Random Password Generator");
    assert_eq!(projects[4].title, "README Template");
    assert_eq!(projects[4].files[0].content, "# hello-cli\n");
    for p in &projects {
        for f in &p.files {
            assert!(!f.path.starts_with('/') && !f.path.contains("..") && !f.path.contains('\\'));
        }
    }
}

#[test]
fn valid_log_filters_are_accepted() {
    assert_eq!(
        checked_log_level(Some("backend=info,tower_http=info".to_string()), None).unwrap(),
        "backend=info,tower_http=info"
    );
    assert_eq!(checked_log_level(None, Some("debug".to_string())).unwrap(), "debug");
    assert_eq!(checked_log_level(None, None).unwrap(), DEFAULT_LOG_LEVEL);
    assert!(checked_log_level(Some(DEFAULT_LOG_LEVEL.to_string()), None).is_ok());
    assert_eq!(checked_log_level(Some(String::new()), None).unwrap(), "");
}

#[test]
fn invalid_log_level_fails_configuration() {
    let err = checked_log_level(Some("backend=loud".to_string()), None).unwrap_err();
    match &err {
        ConfigError::InvalidLogLevel { variable, value } => {
            assert_eq!(*variable, LogSetting::LogLevel);
            assert_eq!(value, "backend=loud");
        }
        other => panic!("unexpected error: {other:?}"),
    }
    assert_eq!(
        err.message(),
        "invalid LOG_LEVEL: \"backend=loud\" — expected a tracing filter like backend=info"
    );
    let err = checked_log_level(None, Some("backend=loud".to_string())).unwrap_err();
    assert!(matches!(
        err,
        ConfigError::InvalidLogLevel { variable: LogSetting::RustLog, .. }
    ));
    assert!(err.message().starts_with("invalid RUST_LOG"));
}
