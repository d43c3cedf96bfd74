use unica_coder::domain::WorkspaceContext;
use unica_coder::project::{
    project_map, project_status, source_set_summary, ProjectSourceMap, SourceSetEntry,
};

fn context() -> WorkspaceContext {
    WorkspaceContext {
        cwd: "/work".to_string(),
        workspace_root: "/work".to_string(),
        cache_root: "/work/.build/unica".to_string(),
        workspace_epoch: 7,
    }
}

fn entry(name: &str, path: &str) -> SourceSetEntry {
    SourceSetEntry {
        name: name.to_string(),
        kind: "Configuration".to_string(),
        source_format: "PlatformXml".to_string(),
        path: path.to_string(),
    }
}

fn map(entries: Vec<SourceSetEntry>, error: Option<&str>) -> ProjectSourceMap {
    ProjectSourceMap {
        source_sets: entries,
        source_selection_error: error.map(|e| e.to_string()),
    }
}

#[test]
fn source_set_summary_lists_one_line_per_source_set() {
    let summary = source_set_summary(&map(vec![entry("main", "src"), entry("tests", "tests")], None));
    assert_eq!(
        summary,
        "main: Configuration PlatformXml src\ntests: Configuration PlatformXml tests"
    );
    assert_eq!(source_set_summary(&map(Vec::new(), None)), "");
}

#[test]
fn status_reports_the_workspace_roots_and_source_sets() {
    let outcome = project_status(&context(), Ok(map(vec![entry("main", "src")], None)), None);
    assert!(outcome.ok);
    assert!(outcome.summary.contains("workspace root"));
    assert_eq!(
        outcome.summary,
        "workspace root: /work; cache root: /work/.build/unica; source sets: 1"
    );
    assert_eq!(outcome.artifacts, vec!["/work", "/work/.build/unica"]);
    assert_eq!(
        outcome.stdout,
        Some("main: Configuration PlatformXml src".to_string())
    );
    assert!(outcome.changes.is_empty());
    assert!(outcome.warnings.is_empty());
}

#[test]
fn project_status_reports_discovery_failure_as_a_warning() {
    let outcome = project_status(
        &context(),
        Err("v8project.yaml is invalid".to_string()),
        Some("ConfigDumpInfo.xml is tracked; run git rm --cached".to_string()),
    );
    assert!(outcome.ok);
    assert_eq!(
        outcome.summary,
        "workspace root: /work; cache root: /work/.build/unica"
    );
    assert_eq!(
        outcome.warnings,
        vec![
            "source-set discovery failed: v8project.yaml is invalid",
            "ConfigDumpInfo.xml is tracked; run git rm --cached"
        ]
    );
    assert!(outcome.stdout.is_none());
}

#[test]
fn project_status_without_source_sets_prints_nothing() {
    let outcome = project_status(&context(), Ok(map(Vec::new(), None)), None);
    assert!(outcome.summary.ends_with("; source sets: 0"));
    assert!(outcome.stdout.is_none());
}

#[test]
fn map_reports_the_rendered_source_map() {
    let json = "{\n  \"sourceSets\": []\n}".to_string();
    let outcome = project_map(Ok((map(vec![entry("main", "src")], None), json.clone())), None);
    assert!(outcome.ok);
    assert_eq!(outcome.summary, "project map discovered 1 source set(s)");
    assert_eq!(outcome.stdout, Some(json));
    assert!(outcome.warnings.is_empty());
}

#[test]
fn map_keeps_the_source_selection_error_as_a_warning() {
    let outcome = project_map(
        Ok((
            map(
                vec![entry("app", "app"), entry("tests", "tests")],
                Some("several CONFIGURATION source sets match; pass sourceDir"),
            ),
            "{}".to_string(),
        )),
        None,
    );
    assert!(outcome.ok);
    assert!(outcome.warnings.join("\n").contains("sourceDir"));
    assert_eq!(outcome.summary, "project map discovered 2 source set(s)");
}

#[test]
fn map_failure_keeps_the_dump_info_warning() {
    let outcome = project_map(
        Err("invalid v8project.yaml".to_string()),
        Some("ConfigDumpInfo.xml is tracked by git; run git rm --cached".to_string()),
    );
    assert!(!outcome.ok);
    assert_eq!(outcome.summary, "project map discovery failed");
    assert_eq!(outcome.errors, vec!["invalid v8project.yaml"]);
    assert!(outcome
        .warnings
        .iter()
        .any(|warning| warning.contains("ConfigDumpInfo.xml") && warning.contains("git rm --cached")));
    assert!(outcome.stdout.is_none());
}
