use unica_coder::catalog::{cache_access_for, tools, ToolHandler, ToolSpec};
use unica_coder::diagnostics::{
    merge_diagnostics, process_exit_code, result_tail, runtime_failure_kind,
    runtime_failure_status, runtime_result_diagnostics,
};
use unica_coder::domain::{AdapterOutcome, DomainEventKind, WorkspaceContext};
use unica_coder::events::{domain_events, runtime_event, runtime_event_kind};
use unica_coder::guards::{
    contains_reserved_designer_file_key, is_source_dump, runtime_xml_route_guard,
    should_emit_events, source_sync_dump_guard,
};
use unica_coder::json::{Json, JsonMap};

fn tool(name: &str) -> ToolSpec {
    tools()
        .into_iter()
        .find(|tool| tool.name == name)
        .expect("tool exists")
}

fn text(value: &str) -> Json {
    Json::Str(value.to_string())
}

fn args(entries: Vec<(&str, Json)>) -> JsonMap {
    let mut map = JsonMap::new();
    for (key, value) in entries {
        map.insert(key.to_string(), value);
    }
    map
}

fn field<'a>(object: &'a Json, key: &str) -> &'a Json {
    object
        .as_object()
        .expect("diagnostics object")
        .get(key)
        .unwrap_or_else(|| panic!("missing {key}"))
}

fn field_text<'a>(object: &'a Json, key: &str) -> &'a str {
    field(object, key).as_str().map(|s| s.as_str()).unwrap_or_else(|| panic!("{key} is not text"))
}

fn context() -> WorkspaceContext {
    WorkspaceContext {
        cwd: "/work/project".to_string(),
        workspace_root: "/work/project".to_string(),
        cache_root: "/work/project/.build/unica".to_string(),
        workspace_epoch: 3,
    }
}

#[test]
fn mutating_native_noop_does_not_emit_cache_events() {
    let mut outcome = AdapterOutcome::ok("no changes");
    outcome.changes = Vec::new();
    let spec = ToolSpec {
        name: "unica.cf.edit",
        description: "test",
        mutating: true,
        cache_access: cache_access_for("cf-edit", Some(DomainEventKind::ConfigXmlChanged)),
        handler: ToolHandler::NativeOperation {
            operation: "cf-edit",
            event: Some(DomainEventKind::ConfigXmlChanged),
        },
    };

    let empty = JsonMap::new();
    assert!(!should_emit_events(spec, &empty, false, &outcome));

    outcome.changes.push("updated Configuration.xml".to_string());
    assert!(should_emit_events(spec, &empty, false, &outcome));
    assert!(should_emit_events(
        spec,
        &empty,
        true,
        &AdapterOutcome::ok("generic dry run")
    ));

    let code_patch_spec = ToolSpec {
        name: "unica.code.patch",
        description: "test",
        mutating: true,
        cache_access: cache_access_for("code-patch", Some(DomainEventKind::ModuleChanged)),
        handler: ToolHandler::NativeOperation {
            operation: "code-patch",
            event: Some(DomainEventKind::ModuleChanged),
        },
    };
    assert!(!should_emit_events(
        code_patch_spec,
        &empty,
        true,
        &AdapterOutcome::ok("code patch preview")
    ));

    let form_edit_spec = ToolSpec {
        name: "unica.form.edit",
        description: "test",
        mutating: true,
        cache_access: cache_access_for("form-edit", Some(DomainEventKind::FormChanged)),
        handler: ToolHandler::NativeOperation {
            operation: "form-edit",
            event: Some(DomainEventKind::FormChanged),
        },
    };
    let mut definition = JsonMap::new();
    definition.insert("formEvents".to_string(), Json::Array(Vec::new()));
    let semantic_args = args(vec![
        ("FormPath", text("Form.xml")),
        ("definition", Json::Object(definition)),
    ]);
    assert!(!should_emit_events(
        form_edit_spec,
        &semantic_args,
        true,
        &AdapterOutcome::ok("semantic dry run no-op")
    ));

    let mut planned = AdapterOutcome::ok("dry run planned change");
    planned.changes.push("would update Form.xml".to_string());
    assert!(!should_emit_events(
        form_edit_spec,
        &semantic_args,
        true,
        &planned
    ));

    let mut rejected = AdapterOutcome::ok("dry run rejected");
    rejected.ok = false;
    rejected.changes.push("would update Form.xml".to_string());
    assert!(!should_emit_events(
        form_edit_spec,
        &semantic_args,
        true,
        &rejected
    ));
}

#[test]
fn read_only_tools_never_emit_events() {
    let mut outcome = AdapterOutcome::ok("read");
    outcome.changes.push("something".to_string());
    assert!(!should_emit_events(tool("unica.cf.info"), &JsonMap::new(), false, &outcome));
}

#[test]
fn runtime_events_follow_the_operation() {
    assert_eq!(runtime_event_kind("dump"), Some(DomainEventKind::SourceSetChanged));
    assert_eq!(runtime_event_kind("build"), Some(DomainEventKind::BuildCompleted));
    assert_eq!(runtime_event_kind("launch"), None);
    assert_eq!(
        runtime_event(&args(vec![("operation", text("dump"))])),
        Some(DomainEventKind::SourceSetChanged)
    );
    assert_eq!(runtime_event(&args(vec![("operation", Json::Bool(true))])), None);
    assert_eq!(runtime_event(&JsonMap::new()), None);
}

#[test]
fn a_launch_raises_no_runtime_event() {
    let launch = args(vec![("operation", text("launch")), ("clientMode", text("thin"))]);
    assert!(domain_events(tool("unica.runtime.execute"), &launch).is_empty());
    let dump = args(vec![("operation", text("dump"))]);
    let events = domain_events(tool("unica.runtime.execute"), &dump);
    assert_eq!(events.len(), 1);
    assert_eq!(events[0].kind, DomainEventKind::SourceSetChanged);
    assert_eq!(events[0].source, "unica.runtime.execute");
}

#[test]
fn native_tools_raise_their_declared_event() {
    let events = domain_events(tool("unica.form.edit"), &JsonMap::new());
    assert_eq!(events.len(), 1);
    assert_eq!(events[0].kind, DomainEventKind::FormChanged);
    assert!(domain_events(tool("unica.form.info"), &JsonMap::new()).is_empty());
    assert!(domain_events(tool("unica.runtime.job.start"), &args(vec![("operation", text("dump"))]))
        .is_empty());
}

#[test]
fn runtime_xml_route_guard_blocks_conversions_and_reserved_launch_keys() {
    let execute = tool("unica.runtime.execute");
    let convert = args(vec![("operation", text("convert"))]);
    let blocked = runtime_xml_route_guard(execute, &convert, false, false).expect("blocked");
    assert!(!blocked.ok);
    assert_eq!(blocked.summary, "unica.runtime.execute blocked by runtime XML route guard");
    assert!(blocked.errors[0].contains("EDT-to-Designer"));
    assert_eq!(blocked.stderr, Some(format!("{}\n", blocked.errors[0])));
    assert!(runtime_xml_route_guard(execute, &convert, true, false).is_none());

    let launch = args(vec![
        ("operation", text("launch")),
        ("rawKeys", Json::Array(vec![text("/dumpconfigtofiles")])),
    ]);
    assert!(contains_reserved_designer_file_key(&launch));
    let blocked = runtime_xml_route_guard(execute, &launch, false, false).expect("blocked");
    assert!(blocked.errors[0].contains("reserved"));

    let harmless = args(vec![
        ("operation", text("launch")),
        ("rawKeys", Json::Array(vec![text("/DisableStartupMessages"), Json::Int(3)])),
    ]);
    assert!(!contains_reserved_designer_file_key(&harmless));
    assert!(runtime_xml_route_guard(execute, &harmless, false, false).is_none());

    let cancelled = runtime_xml_route_guard(execute, &harmless, false, true).expect("cancelled");
    assert_eq!(
        cancelled.errors,
        vec!["cancelled: unica.runtime.execute stopped before runtime XML route execution"]
    );
    assert!(runtime_xml_route_guard(tool("unica.build.dump"), &convert, false, false).is_none());
}

#[test]
fn source_sync_guard_allows_only_synchronous_full_dumps() {
    let build_dump = tool("unica.build.dump");
    let full = args(vec![("mode", text("full"))]);
    assert!(is_source_dump(build_dump, &full));
    assert!(source_sync_dump_guard(build_dump, &full, false, false).is_none());

    let incremental = args(vec![("mode", text("incremental"))]);
    let blocked = source_sync_dump_guard(build_dump, &incremental, false, false).expect("blocked");
    assert_eq!(blocked.summary, "unica.build.dump blocked by source sync guard");
    assert!(blocked.errors[0].starts_with("applied dump with mode=incremental is disabled"));
    let unspecified = source_sync_dump_guard(build_dump, &JsonMap::new(), false, false)
        .expect("blocked");
    assert!(unspecified.errors[0].starts_with("applied dump with no explicit mode is disabled"));

    let job = tool("unica.runtime.job.start");
    let job_full = args(vec![("operation", text("dump")), ("mode", text("full"))]);
    let blocked = source_sync_dump_guard(job, &job_full, false, false).expect("blocked");
    assert!(blocked.errors[0].contains("asynchronous"));

    assert!(source_sync_dump_guard(build_dump, &incremental, true, false).is_none());
    let cancelled = source_sync_dump_guard(build_dump, &incremental, false, true).expect("cancelled");
    assert_eq!(
        cancelled.errors,
        vec!["cancelled: unica.build.dump dump stopped before execution"]
    );

    let build = args(vec![("operation", text("build"))]);
    assert!(!is_source_dump(tool("unica.runtime.execute"), &build));
    assert!(!is_source_dump(tool("unica.build.load"), &JsonMap::new()));
}

#[test]
fn process_exit_code_reads_the_status_text() {
    assert_eq!(process_exit_code("exit status: 1"), Some(1));
    assert_eq!(process_exit_code("  42 "), Some(42));
    assert_eq!(process_exit_code("exit status: -9"), Some(-9));
    assert_eq!(process_exit_code("timeout"), None);
    assert_eq!(process_exit_code("signal: killed"), None);
    assert_eq!(process_exit_code(""), None);
    assert_eq!(process_exit_code("exit status: 99999999999"), None);
}

#[test]
fn result_tail_keeps_the_last_four_kilobytes_of_characters() {
    assert_eq!(result_tail("short"), "short");
    let long = format!("{}{}", "a".repeat(10), "b".repeat(4096));
    assert_eq!(result_tail(&long), "b".repeat(4096));
    let exact = "c".repeat(4096);
    assert_eq!(result_tail(&exact), exact);
}

fn failed(warnings: Vec<&str>) -> AdapterOutcome {
    let mut outcome = AdapterOutcome::ok("failed");
    outcome.ok = false;
    outcome.warnings = warnings.into_iter().map(|w| w.to_string()).collect();
    outcome
}

#[test]
fn runtime_failure_kind_and_status_classify_the_warnings() {
    let exit = failed(vec!["internal v8-runner runtime adapter exited with status exit status: 1"]);
    assert_eq!(runtime_failure_kind(&exit), "exit");
    assert_eq!(
        runtime_failure_status(&exit, "exit"),
        Some("exit status: 1".to_string())
    );
    let timeout = failed(vec!["internal v8-runner runtime adapter timed out"]);
    assert_eq!(runtime_failure_kind(&timeout), "timeout");
    assert_eq!(runtime_failure_status(&timeout, "timeout"), Some("timeout".to_string()));
    let spawn = failed(vec!["internal v8-runner runtime adapter failed to spawn process"]);
    assert_eq!(runtime_failure_kind(&spawn), "spawn");
    assert_eq!(runtime_failure_status(&spawn, "spawn"), None);
}

fn runtime_outcome(warnings: Vec<&str>, errors: Vec<&str>, stdout: Option<&str>, argv: Vec<&str>) -> AdapterOutcome {
    let mut outcome = AdapterOutcome::ok(
        "unica.runtime.execute failed through internal v8-runner runtime adapter",
    );
    outcome.ok = false;
    outcome.warnings = warnings.into_iter().map(|w| w.to_string()).collect();
    outcome.errors = errors.into_iter().map(|e| e.to_string()).collect();
    outcome.stdout = stdout.map(|s| s.to_string());
    outcome.command = Some(argv.into_iter().map(|a| a.to_string()).collect());
    outcome
}

#[test]
fn runtime_failure_result_includes_structured_exit_diagnostics() {
    let outcome = runtime_outcome(
        vec!["internal v8-runner runtime adapter exited with status exit status: 1"],
        vec!["failed to load configuration: Pwd=<redacted>"],
        Some("started build\nPwd=<redacted>\n"),
        vec!["/tmp/unica/plugins/unica/bin/darwin-arm64/v8-runner", "build", "--source-set", "main"],
    );
    let call_args = args(vec![("operation", text("build"))]);
    let diagnostics = runtime_result_diagnostics(
        tool("unica.runtime.execute"),
        &call_args,
        &context(),
        &outcome,
        None,
    )
    .expect("diagnostics");
    assert_eq!(field_text(&diagnostics, "tool"), "v8-runner");
    assert_eq!(field_text(&diagnostics, "operation"), "build");
    assert_eq!(field_text(&diagnostics, "failure_kind"), "exit");
    assert_eq!(field(&diagnostics, "exit_code").as_i64(), Some(1));
    assert_eq!(field(&diagnostics, "timed_out").as_bool(), Some(false));
    let argv = field(&diagnostics, "argv").as_array().expect("argv");
    assert_eq!(argv[1].as_str().map(|s| s.as_str()), Some("build"));
    assert_eq!(argv[2].as_str().map(|s| s.as_str()), Some("--source-set"));
    assert_eq!(argv[3].as_str().map(|s| s.as_str()), Some("main"));
    assert_eq!(field_text(&diagnostics, "cwd"), "/work/project");
    assert!(field_text(&diagnostics, "stdout_tail").contains("started build"));
}

#[test]
fn runtime_failure_result_distinguishes_timeout_diagnostics() {
    let outcome = runtime_outcome(
        vec!["internal v8-runner runtime adapter timed out"],
        vec!["internal v8-runner runtime adapter timed out"],
        Some("started loading configuration...\n"),
        vec!["/tmp/unica/plugins/unica/bin/darwin-arm64/v8-runner", "load", "--path", "build/config.cf"],
    );
    let call_args = args(vec![("operation", text("load"))]);
    let diagnostics = runtime_result_diagnostics(
        tool("unica.runtime.execute"),
        &call_args,
        &context(),
        &outcome,
        None,
    )
    .expect("diagnostics");
    assert_eq!(field_text(&diagnostics, "failure_kind"), "timeout");
    assert_eq!(field(&diagnostics, "timed_out").as_bool(), Some(true));
    assert!(matches!(field(&diagnostics, "timeout_seconds"), Json::Null));
    assert_eq!(field_text(&diagnostics, "timeout_source"), "delegated-to-v8-runner");
    assert!(field_text(&diagnostics, "stdout_tail").contains("started loading configuration"));
}

#[test]
fn runtime_failure_result_distinguishes_spawn_diagnostics() {
    let outcome = runtime_outcome(
        vec!["internal v8-runner runtime adapter failed to spawn process"],
        vec!["failed to execute process: apiToken=<redacted>"],
        None,
        vec!["/tmp/unica/plugins/unica/bin/darwin-arm64/v8-runner", "build"],
    );
    let call_args = args(vec![("operation", text("build"))]);
    let diagnostics = runtime_result_diagnostics(
        tool("unica.runtime.execute"),
        &call_args,
        &context(),
        &outcome,
        None,
    )
    .expect("diagnostics");
    assert_eq!(field_text(&diagnostics, "failure_kind"), "spawn");
    assert_eq!(field_text(&diagnostics, "operation"), "build");
    assert!(matches!(field(&diagnostics, "exit_code"), Json::Null));
    assert_eq!(field(&diagnostics, "timed_out").as_bool(), Some(false));
    assert!(matches!(field(&diagnostics, "status"), Json::Null));
    assert!(field_text(&diagnostics, "error").contains("failed to execute process"));
}

fn epf_wait(exit_code: Json, timed_out: bool) -> Json {
    let mut wait = JsonMap::new();
    wait.insert("pid".to_string(), Json::Int(42));
    wait.insert("execute_path".to_string(), text("tests/Smoke.epf"));
    wait.insert("exit_code".to_string(), exit_code);
    wait.insert("timed_out".to_string(), Json::Bool(timed_out));
    wait.insert("output_path".to_string(), text("build/smoke.out.log"));
    wait.insert("stderr_path".to_string(), text("build/smoke.stderr.log"));
    let mut data = JsonMap::new();
    data.insert("external_epf_wait".to_string(), Json::Object(wait));
    Json::Object(data)
}

fn launch_outcome(ok: bool, errors: Vec<&str>) -> AdapterOutcome {
    let mut outcome = runtime_outcome(
        Vec::new(),
        errors,
        Some("{\"ok\":true}"),
        vec!["/tmp/unica/plugins/unica/bin/darwin-arm64/v8-runner", "--json-message", "launch", "thin"],
    );
    outcome.ok = ok;
    outcome
}

#[test]
fn bounded_runtime_success_exposes_typed_exit_and_execute_receipt() {
    let outcome = launch_outcome(true, Vec::new());
    let data = epf_wait(Json::Int(0), false);
    let call_args = args(vec![("operation", text("launch"))]);
    let diagnostics = runtime_result_diagnostics(
        tool("unica.runtime.execute"),
        &call_args,
        &context(),
        &outcome,
        Some(&data),
    )
    .expect("diagnostics");
    assert_eq!(field_text(&diagnostics, "outcome_kind"), "success");
    assert!(matches!(field(&diagnostics, "failure_kind"), Json::Null));
    assert_eq!(field(&diagnostics, "exit_code").as_i64(), Some(0));
    assert_eq!(field(&diagnostics, "timed_out").as_bool(), Some(false));
    let receipt = field(&diagnostics, "external_epf_wait");
    assert_eq!(field_text(receipt, "execute_path"), "tests/Smoke.epf");
    assert_eq!(field_text(&diagnostics, "status"), "exit status: 0");
}

#[test]
fn bounded_runtime_nonzero_exit_preserves_external_exit_code() {
    let outcome = launch_outcome(false, vec!["bounded external EPF exited with code 7"]);
    let data = epf_wait(Json::Int(7), false);
    let call_args = args(vec![("operation", text("launch"))]);
    let diagnostics = runtime_result_diagnostics(
        tool("unica.runtime.execute"),
        &call_args,
        &context(),
        &outcome,
        Some(&data),
    )
    .expect("diagnostics");
    assert_eq!(field_text(&diagnostics, "outcome_kind"), "exit");
    assert_eq!(field_text(&diagnostics, "failure_kind"), "exit");
    assert_eq!(field(&diagnostics, "exit_code").as_i64(), Some(7));
    assert_eq!(field(&diagnostics, "timed_out").as_bool(), Some(false));
}

#[test]
fn bounded_runtime_timeout_uses_external_process_diagnostics() {
    let outcome = launch_outcome(false, vec!["bounded external EPF launch timed out"]);
    let data = epf_wait(Json::Null, true);
    let call_args = args(vec![("operation", text("launch"))]);
    let diagnostics = runtime_result_diagnostics(
        tool("unica.runtime.execute"),
        &call_args,
        &context(),
        &outcome,
        Some(&data),
    )
    .expect("diagnostics");
    assert_eq!(field_text(&diagnostics, "outcome_kind"), "timeout");
    assert_eq!(field_text(&diagnostics, "failure_kind"), "timeout");
    assert!(matches!(field(&diagnostics, "exit_code"), Json::Null));
    assert_eq!(field(&diagnostics, "timed_out").as_bool(), Some(true));
    assert_eq!(field_text(&diagnostics, "status"), "timeout");
}

#[test]
fn successful_and_non_runtime_calls_have_no_runtime_diagnostics() {
    let ok = launch_outcome(true, Vec::new());
    assert!(runtime_result_diagnostics(
        tool("unica.runtime.execute"),
        &JsonMap::new(),
        &context(),
        &ok,
        None
    )
    .is_none());
    let failed = launch_outcome(false, vec!["boom"]);
    assert!(runtime_result_diagnostics(
        tool("unica.build.load"),
        &JsonMap::new(),
        &context(),
        &failed,
        None
    )
    .is_none());
}

#[test]
fn merged_diagnostics_keep_both_sources() {
    assert!(merge_diagnostics(None, None).is_none());
    let format_only = merge_diagnostics(None, Some(text("edt"))).expect("format");
    assert_eq!(field_text(&format_only, "formatCompatibility"), "edt");
    let mut runtime = JsonMap::new();
    runtime.insert("tool".to_string(), text("v8-runner"));
    let merged = merge_diagnostics(Some(Json::Object(runtime)), Some(text("edt"))).expect("both");
    assert_eq!(field_text(&merged, "tool"), "v8-runner");
    assert_eq!(field_text(&merged, "formatCompatibility"), "edt");
}
