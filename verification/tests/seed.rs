use promptogether::gallery_seed::{curated_projects, SeedProject, StoredFile, StoredProject};
use promptogether::seed_plan::{
    empty_summary, plan_project_seed, tally_plan, StoredFileRow, WriteAction,
};

fn stored_as_curated(project: &SeedProject) -> StoredProject {
    StoredProject {
        title: project.title.to_string(),
        summary: project.summary.to_string(),
        prompt: project.prompt.to_string(),
        display_order: project.display_order,
        publication_state: "published".to_string(),
    }
}

fn rows_as_curated(project: &SeedProject) -> Vec<StoredFileRow> {
    project
        .files
        .iter()
        .map(|f| StoredFileRow {
            phase: f.phase.to_string(),
            path: f.path.to_string(),
            file: StoredFile {
                content: f.content.to_string(),
                language: f.language.map(|l| l.to_string()),
                display_order: f.display_order,
            },
        })
        .collect()
}

#[test]
fn first_seed_inserts_every_project_and_file() {
    let projects = curated_projects();
    let mut summary = empty_summary();
    let mut files = 0u64;
    for project in &projects {
        let plan = plan_project_seed(project, &None, &Vec::new());
        assert_eq!(plan.project, WriteAction::Insert);
        assert!(plan.remove.is_empty());
        assert_eq!(plan.files.len(), project.files.len());
        assert!(plan.files.iter().all(|a| *a == WriteAction::Insert));
        files += project.files.len() as u64;
        summary = tally_plan(&summary, &plan);
    }
    assert_eq!(summary.projects_upserted, projects.len() as u64);
    assert_eq!(summary.files_upserted, files);
    assert_eq!(summary.files_removed, 0);
}

#[test]
fn second_seed_writes_nothing_and_reports_zero_counts() {
    let projects = curated_projects();
    let mut summary = empty_summary();
    for project in &projects {
        let stored = Some(stored_as_curated(project));
        let rows = rows_as_curated(project);
        let plan = plan_project_seed(project, &stored, &rows);
        assert_eq!(plan.project, WriteAction::Keep);
        assert!(plan.remove.is_empty());
        assert!(plan.files.iter().all(|a| *a == WriteAction::Keep));
        summary = tally_plan(&summary, &plan);
    }
    assert_eq!(summary.projects_upserted, 0);
    assert_eq!(summary.files_upserted, 0);
    assert_eq!(summary.files_removed, 0);
}

#[test]
fn seed_removes_stale_files_and_updates_changed_ones() {
    let projects = curated_projects();
    let project = projects.iter().find(|p| p.files.len() >= 2).unwrap();
    let mut stored = stored_as_curated(project);
    stored.publication_state = "draft".to_string();
    let mut rows = rows_as_curated(project);
    rows[0].file.content = "old content".to_string();
    rows.remove(1);
    rows.push(StoredFileRow {
        phase: "result".to_string(),
        path: "obsolete.txt".to_string(),
        file: StoredFile { content: String::new(), language: None, display_order: 9 },
    });
    let plan = plan_project_seed(project, &Some(stored), &rows);
    assert_eq!(plan.project, WriteAction::Update);
    assert_eq!(plan.remove, vec![("result".to_string(), "obsolete.txt".to_string())]);
    assert_eq!(plan.files[0], WriteAction::Update);
    assert_eq!(plan.files[1], WriteAction::Insert);
    assert!(plan.files[2..].iter().all(|a| *a == WriteAction::Keep));
    let summary = tally_plan(&empty_summary(), &plan);
    assert_eq!(summary.projects_upserted, 1);
    assert_eq!(summary.files_upserted, 2);
    assert_eq!(summary.files_removed, 1);
}
