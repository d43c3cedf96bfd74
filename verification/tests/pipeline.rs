use unica_coder::application::UnicaApplication;
use unica_coder::catalog::{tools, ToolSpec};
use unica_coder::domain::{AdapterOutcome, CacheReport, OperationResult, WorkspaceContext};
use unica_coder::json::{Json, JsonMap};
use unica_coder::pipeline::{
    CallAction, CallEvent, CallPhase, FormatGuardCheck, HandlerOutcome, SupportGuardCheck, ToolCall,
};

/// Fixed answers for every adapter of a tool call.
struct Answers {
    format: fn() -> FormatGuardCheck,
    support: fn() -> SupportGuardCheck,
    outcome: fn() -> AdapterOutcome,
    cancelled: bool,
}

/// What a driven call did besides its result.
struct Trace {
    actions: Vec<&'static str>,
    notified_events: usize,
}

fn plain_answers(outcome: fn() -> AdapterOutcome) -> Answers {
    Answers {
        format: || FormatGuardCheck::Allow,
        support: || SupportGuardCheck::Allow,
        outcome,
        cancelled: false,
    }
}

fn context() -> WorkspaceContext {
    WorkspaceContext {
        cwd: "/work".to_string(),
        workspace_root: "/work".to_string(),
        cache_root: "/work/.build/unica".to_string(),
        workspace_epoch: 1,
    }
}

fn cache(events: usize) -> CacheReport {
    CacheReport {
        mode: if events == 0 { "read".to_string() } else { "write".to_string() },
        root: "/work/.build/unica".to_string(),
        workspace_epoch: 1,
        events: Vec::new(),
        invalidated: Vec::new(),
        refreshed: Vec::new(),
        lazy_rebuilt: Vec::new(),
        stale: Vec::new(),
        fresh: Vec::new(),
    }
}

fn tool(name: &str) -> ToolSpec {
    tools()
        .into_iter()
        .find(|tool| tool.name == name)
        .expect("tool exists")
}

fn drive(spec: ToolSpec, args: JsonMap, answers: &Answers) -> (Result<OperationResult, String>, Trace) {
    let (mut call, mut action) = ToolCall::start(spec, args);
    let mut trace = Trace {
        actions: Vec::new(),
        notified_events: 0,
    };
    loop {
        let event = match action {
            CallAction::Finish(result) => return (result, trace),
            CallAction::NormalizeArguments => {
                trace.actions.push("normalize");
                let mut copy = JsonMap::new();
                for (key, value) in &call.args().entries {
                    copy.insert(key.clone(), unica_coder::json::clone_json(value));
                }
                CallEvent::Normalized(Ok(copy))
            }
            CallAction::ValidateArguments => {
                trace.actions.push("validate");
                CallEvent::Validated(Ok(()))
            }
            CallAction::DiscoverWorkspace => {
                trace.actions.push("discover");
                CallEvent::Discovered(Ok(context()))
            }
            CallAction::ValidateContext => {
                trace.actions.push("context");
                CallEvent::ContextChecked(Ok(()))
            }
            CallAction::EvaluateFormatGuard => {
                trace.actions.push("format");
                CallEvent::FormatChecked(Ok((answers.format)()))
            }
            CallAction::QueryCancellation => {
                trace.actions.push("cancellation");
                CallEvent::Cancellation(answers.cancelled)
            }
            CallAction::EvaluateSupportGuard => {
                trace.actions.push("support");
                CallEvent::SupportChecked(Ok((answers.support)()))
            }
            CallAction::InvokeHandler => {
                trace.actions.push("handler");
                CallEvent::Handled(Ok(HandlerOutcome::plain((answers.outcome)())))
            }
            CallAction::ReportCache => {
                trace.actions.push("cache");
                CallEvent::CacheReported(Ok(cache(call.events().len())))
            }
            CallAction::NotifyInvalidation => {
                trace.actions.push("notify");
                trace.notified_events = call.events().len();
                CallEvent::Notified
            }
        };
        assert!(call.accepts(&event));
        let (next, next_action) = call.step(event);
        call = next;
        action = next_action;
    }
}

fn args(entries: &[(&str, Json)]) -> JsonMap {
    let mut map = JsonMap::new();
    for (key, value) in entries {
        map.insert(key.to_string(), unica_coder::json::clone_json(value));
    }
    map
}

fn text(value: &str) -> Json {
    Json::Str(value.to_string())
}

fn changed(summary: &str) -> AdapterOutcome {
    let mut outcome = AdapterOutcome::ok(summary);
    outcome.changes.push("updated Configuration.xml".to_string());
    outcome
}

#[test]
fn applied_partial_dump_is_blocked_until_runner_can_publish_through_staging() {
    let answers = plain_answers(|| AdapterOutcome::ok("runtime adapter must not be invoked"));
    let call_args = args(&[
        ("dryRun", Json::Bool(false)),
        ("operation", text("dump")),
        ("mode", text("partial")),
        ("object", text("Catalog:Items")),
    ]);
    let (result, trace) = drive(tool("unica.runtime.execute"), call_args, &answers);
    let result = result.unwrap();

    assert!(!result.ok);
    assert!(result.summary.contains("source sync guard"));
    let errors = result.errors.join("\n");
    assert!(errors.contains("v8-runner-rust#30"));
    assert!(errors.contains("DESIGNER"));
    assert!(errors.contains("EDT"));
    assert!(errors.contains("divergence-safe merge"));
    assert!(result.changes.is_empty());
    assert!(!trace.actions.contains(&"handler"));
}

#[test]
fn applied_incremental_dump_is_blocked_at_every_unica_runtime_entry_point() {
    let answers = plain_answers(|| AdapterOutcome::ok("runtime adapter must not be invoked"));
    for (name, include_operation) in [
        ("unica.build.dump", false),
        ("unica.runtime.execute", true),
        ("unica.runtime.job.start", true),
    ] {
        let mut call_args = args(&[("dryRun", Json::Bool(false)), ("mode", text("incremental"))]);
        if include_operation {
            call_args.insert("operation".to_string(), text("dump"));
        }
        let (result, _) = drive(tool(name), call_args, &answers);
        let result = result.unwrap();
        assert!(!result.ok, "{name} must be fail-closed");
        assert!(result.summary.contains("source sync guard"));
    }
}

#[test]
fn applied_dump_requires_explicit_full_mode_at_every_runtime_entry_point() {
    let answers = plain_answers(|| AdapterOutcome::ok("runtime adapter must not be invoked"));
    for (name, include_operation) in [
        ("unica.build.dump", false),
        ("unica.runtime.execute", true),
        ("unica.runtime.job.start", true),
    ] {
        let mut call_args = args(&[("dryRun", Json::Bool(false))]);
        if include_operation {
            call_args.insert("operation".to_string(), text("dump"));
        }
        let (result, _) = drive(tool(name), call_args, &answers);
        let result = result.unwrap();
        assert!(!result.ok, "{name} must require explicit mode=full");
        assert!(result.summary.contains("source sync guard"));
    }

    let unknown_mode = args(&[("dryRun", Json::Bool(false)), ("mode", text("future-mode"))]);
    let (result, _) = drive(tool("unica.build.dump"), unknown_mode, &answers);
    let result = result.unwrap();
    assert!(!result.ok);
    assert!(result.summary.contains("source sync guard"));
}

#[test]
fn cancelled_applied_dump_wins_over_source_sync_guard() {
    let mut answers = plain_answers(|| AdapterOutcome::ok("runtime adapter must not be invoked"));
    answers.cancelled = true;
    let call_args = args(&[
        ("dryRun", Json::Bool(false)),
        ("operation", text("dump")),
        ("mode", text("incremental")),
    ]);
    let (result, trace) = drive(tool("unica.runtime.execute"), call_args, &answers);
    let result = result.unwrap();

    assert!(!result.ok);
    assert!(result.errors[0].starts_with("cancelled:"));
    assert!(!result.summary.contains("source sync guard"));
    assert!(!trace.actions.contains(&"handler"));
}

#[test]
fn applied_full_dump_is_synchronous_only_until_jobs_can_validate_before_publication() {
    let answers = plain_answers(|| AdapterOutcome::ok("verified synchronous dump adapter invoked"));
    for (name, include_operation) in [("unica.build.dump", false), ("unica.runtime.execute", true)] {
        let mut call_args = args(&[("dryRun", Json::Bool(false)), ("mode", text("full"))]);
        if include_operation {
            call_args.insert("operation".to_string(), text("dump"));
        }
        let (result, _) = drive(tool(name), call_args, &answers);
        let result = result.unwrap();
        assert!(result.ok, "{name}");
        assert_eq!(result.summary, "verified synchronous dump adapter invoked", "{name}");
    }

    let job_args = args(&[
        ("dryRun", Json::Bool(false)),
        ("mode", text("full")),
        ("operation", text("dump")),
    ]);
    let (job, _) = drive(tool("unica.runtime.job.start"), job_args, &answers);
    let job = job.unwrap();
    assert!(!job.ok);
    assert!(job.summary.contains("source sync guard"));
    let errors = job.errors.join("\n");
    assert!(errors.contains("asynchronous"));
    assert!(errors.contains("8.3.27"));
    assert!(errors.contains("2.20"));
    assert!(errors.contains("unica.runtime.execute"));
    assert!(job.changes.is_empty());
    assert!(job.job.is_none());
}

#[test]
fn non_dump_platform_xml_routes_are_fail_closed_before_runtime_handlers() {
    let answers = plain_answers(|| AdapterOutcome::ok("runtime adapter must not be invoked"));
    for name in ["unica.runtime.execute", "unica.runtime.job.start"] {
        let convert = args(&[
            ("dryRun", Json::Bool(false)),
            ("operation", text("convert")),
            ("output", text("designer-out")),
        ]);
        let (result, _) = drive(tool(name), convert, &answers);
        let result = result.unwrap();
        assert!(!result.ok, "{name}");
        assert!(result.summary.contains("runtime XML route guard"), "{name}");
        assert!(result.errors.join("\n").contains("EDT-to-Designer"));
        assert!(result.changes.is_empty());

        for reserved in ["/DumpConfigToFiles", "/LoadConfigFromFiles"] {
            let launch = args(&[
                ("dryRun", Json::Bool(false)),
                ("operation", text("launch")),
                ("clientMode", text("designer")),
                ("rawKeys", Json::Array(vec![text(reserved), text("git-visible-src")])),
            ]);
            let (result, _) = drive(tool(name), launch, &answers);
            let result = result.unwrap();
            assert!(!result.ok, "{name} {reserved}");
            assert!(result.summary.contains("runtime XML route guard"), "{name} {reserved}");
            assert!(result.errors.join("\n").contains("reserved"), "{name} {reserved}");
            assert!(result.changes.is_empty());
        }
    }
}

#[test]
fn non_dump_platform_xml_route_previews_remain_non_executing() {
    let answers = plain_answers(|| AdapterOutcome::ok("runtime preview invoked"));
    for operation in ["convert", "launch"] {
        let mut call_args = args(&[("dryRun", Json::Bool(true)), ("operation", text(operation))]);
        if operation == "launch" {
            call_args.insert("clientMode".to_string(), text("designer"));
            call_args.insert(
                "rawKeys".to_string(),
                Json::Array(vec![text("/DumpConfigToFiles"), text("ignored-preview")]),
            );
        }
        let (result, _) = drive(tool("unica.runtime.execute"), call_args, &answers);
        let result = result.unwrap();
        assert!(result.ok, "{operation}");
        assert_eq!(result.summary, "runtime preview invoked");
    }
}

#[test]
fn dump_previews_and_non_dump_runtime_operations_remain_available() {
    let answers = plain_answers(|| AdapterOutcome::ok("runtime adapter invoked"));
    for (name, include_operation) in [
        ("unica.build.dump", false),
        ("unica.runtime.execute", true),
        ("unica.runtime.job.start", true),
    ] {
        let mut call_args = args(&[("dryRun", Json::Bool(true)), ("mode", text("full"))]);
        if include_operation {
            call_args.insert("operation".to_string(), text("dump"));
        }
        let (preview, _) = drive(tool(name), call_args, &answers);
        let preview = preview.unwrap();
        assert!(preview.ok, "{name}");
        assert_eq!(preview.summary, "runtime adapter invoked");
    }

    for (name, operation) in [
        ("unica.build.load", None),
        ("unica.runtime.execute", Some("build")),
        ("unica.runtime.job.start", Some("build")),
    ] {
        let mut call_args = args(&[("dryRun", Json::Bool(false))]);
        if let Some(operation) = operation {
            call_args.insert("operation".to_string(), text(operation));
        }
        let (applied, _) = drive(tool(name), call_args, &answers);
        let applied = applied.unwrap();
        assert!(applied.ok, "{name}");
        assert_eq!(applied.summary, "runtime adapter invoked");
    }
}

#[test]
fn a_mutating_tool_previews_unless_asked_to_apply() {
    let answers = plain_answers(|| changed("planned"));
    let (call, _) = ToolCall::start(tool("unica.cf.edit"), JsonMap::new());
    assert!(call.dry_run());
    let (result, trace) = drive(tool("unica.cf.edit"), JsonMap::new(), &answers);
    assert!(result.unwrap().ok);
    assert_eq!(trace.notified_events, 0);
    assert!(!trace.actions.contains(&"notify"));

    let (call, _) = ToolCall::start(tool("unica.cf.info"), JsonMap::new());
    assert!(!call.dry_run());
}

#[test]
fn an_applied_change_notifies_the_caches_of_its_events() {
    let answers = plain_answers(|| changed("applied"));
    let call_args = args(&[("dryRun", Json::Bool(false))]);
    let (result, trace) = drive(tool("unica.cf.edit"), call_args, &answers);
    let result = result.unwrap();
    assert!(result.ok);
    assert_eq!(trace.notified_events, 1);
    assert_eq!(
        trace.actions,
        vec![
            "normalize",
            "validate",
            "discover",
            "context",
            "format",
            "support",
            "handler",
            "cache",
            "notify"
        ]
    );
    assert_eq!(result.cache.mode, "write");
}

#[test]
fn an_applied_no_op_does_not_notify() {
    let answers = plain_answers(|| AdapterOutcome::ok("no changes"));
    let call_args = args(&[("dryRun", Json::Bool(false))]);
    let (result, trace) = drive(tool("unica.cf.edit"), call_args, &answers);
    assert!(result.unwrap().ok);
    assert!(!trace.actions.contains(&"notify"));
}

#[test]
fn read_only_tools_skip_the_support_guard() {
    let answers = plain_answers(|| AdapterOutcome::ok("read"));
    let (result, trace) = drive(tool("unica.cf.info"), JsonMap::new(), &answers);
    assert!(result.unwrap().ok);
    assert!(!trace.actions.contains(&"support"));
    assert!(trace.actions.contains(&"handler"));
}

#[test]
fn a_format_block_reports_its_diagnostic_without_running_the_handler() {
    let mut answers = plain_answers(|| AdapterOutcome::ok("handler must not run"));
    answers.format = || FormatGuardCheck::Block {
        outcome: AdapterOutcome::blocked(
            "incompatible source format".to_string(),
            "format warning",
            "EDT sources cannot be edited as platform XML".to_string(),
        ),
        diagnostic: Json::Str("edt".to_string()),
    };
    let (result, trace) = drive(tool("unica.cf.edit"), JsonMap::new(), &answers);
    let result = result.unwrap();
    assert!(!result.ok);
    assert_eq!(result.summary, "incompatible source format");
    assert!(!trace.actions.contains(&"handler"));
    let diagnostics = result.diagnostics.expect("format diagnostics");
    let object = diagnostics.as_object().expect("object");
    assert_eq!(
        object.get("formatCompatibility").and_then(|d| d.as_str()).map(|s| s.as_str()),
        Some("edt")
    );
}

#[test]
fn a_support_block_in_a_preview_says_dry_run() {
    let mut answers = plain_answers(|| AdapterOutcome::ok("handler must not run"));
    answers.support = || {
        SupportGuardCheck::Block(AdapterOutcome::blocked(
            "object is locked by vendor support".to_string(),
            "support warning",
            "locked".to_string(),
        ))
    };
    let (preview, trace) = drive(tool("unica.cf.edit"), JsonMap::new(), &answers);
    let preview = preview.unwrap();
    assert_eq!(preview.summary, "dry run: object is locked by vendor support");
    assert!(!trace.actions.contains(&"handler"));

    let (applied, _) = drive(
        tool("unica.cf.edit"),
        args(&[("dryRun", Json::Bool(false))]),
        &answers,
    );
    assert_eq!(applied.unwrap().summary, "object is locked by vendor support");
}

#[test]
fn guard_warnings_come_before_the_handler_warnings() {
    let mut answers = plain_answers(|| {
        let mut outcome = AdapterOutcome::ok("done");
        outcome.warnings.push("handler warning".to_string());
        outcome
    });
    answers.format = || FormatGuardCheck::Warn {
        warning: "format warning".to_string(),
        diagnostic: Json::Null,
    };
    answers.support = || SupportGuardCheck::Warn("support warning".to_string());
    let (result, _) = drive(tool("unica.cf.edit"), JsonMap::new(), &answers);
    let result = result.unwrap();
    assert_eq!(
        result.warnings,
        vec!["format warning", "support warning", "handler warning"]
    );
}

#[test]
fn an_adapter_error_ends_the_call_with_that_error() {
    let (call, action) = ToolCall::start(tool("unica.cf.info"), JsonMap::new());
    assert!(matches!(action, CallAction::NormalizeArguments));
    let (call, action) = call.step(CallEvent::Normalized(Ok(JsonMap::new())));
    assert!(matches!(action, CallAction::ValidateArguments));
    let (call, action) = call.step(CallEvent::Validated(Err("ConfigPath is required".to_string())));
    assert_eq!(call.phase(), CallPhase::Done);
    match action {
        CallAction::Finish(Err(message)) => assert_eq!(message, "ConfigPath is required"),
        _ => panic!("expected the validation error"),
    }
    assert!(!call.accepts(&CallEvent::Notified));
}

#[test]
fn unknown_tools_are_refused_by_name() {
    let app = UnicaApplication::with_ports(());
    match app.start_call("unica.no.such.tool", JsonMap::new()) {
        Err(message) => assert_eq!(message, "unknown unica tool: unica.no.such.tool"),
        Ok(_) => panic!("an unknown tool must be refused"),
    }
    let (call, action) = app
        .start_call("unica.project.status", JsonMap::new())
        .unwrap_or_else(|_| panic!("project status is a tool"));
    assert_eq!(call.spec().name, "unica.project.status");
    assert!(matches!(action, CallAction::NormalizeArguments));
    assert_eq!(app.tools().len(), tools().len());
}
