use unica_coder::domain::AdapterOutcome;
use unica_coder::json::{Json, JsonMap};
use unica_coder::native::{
    string_arg, NativeAction, NativeEvent, NativeInvocation, NativeOperationAdapter, NativePhase,
};

fn args(entries: &[(&str, &str)]) -> JsonMap {
    let mut map = JsonMap::new();
    for (key, value) in entries {
        map.insert(key.to_string(), Json::Str(value.to_string()));
    }
    map
}

fn finished(action: NativeAction) -> Result<AdapterOutcome, String> {
    match action {
        NativeAction::Finish(result) => result,
        other => panic!("expected the end of the call, got {other:?}"),
    }
}

#[test]
fn typed_operations_require_the_typed_result_path() {
    let (_, action) =
        NativeOperationAdapter::invoke("code-patch", "unica.code.patch", JsonMap::new(), false, true, false, false);
    assert_eq!(
        finished(action).unwrap_err(),
        "code-patch requires the typed native-operation result path"
    );
    let (_, action) =
        NativeOperationAdapter::invoke("form-edit", "unica.form.edit", JsonMap::new(), true, true, true, false);
    assert!(finished(action).is_err());
    let (call, action) =
        NativeOperationAdapter::invoke("form-edit", "unica.form.edit", JsonMap::new(), true, true, false, false);
    assert!(matches!(action, NativeAction::PreviewExternal));
    assert_eq!(call.phase(), NativePhase::PreviewingExternal);
}

#[test]
fn a_preview_without_a_planner_is_a_safe_placeholder() {
    let (call, action) =
        NativeOperationAdapter::invoke("cf-edit", "unica.cf.edit", JsonMap::new(), true, true, false, false);
    assert!(matches!(action, NativeAction::PreviewExternal));
    let (_, action) = call.step(NativeEvent::ExternalPreview(None));
    let outcome = finished(action).unwrap();
    assert!(outcome.ok);
    assert_eq!(outcome.summary, "dry run: unica.cf.edit would execute native XML/DSL operation");
    assert_eq!(outcome.changes, vec!["no files changed because dryRun is true"]);

    let (call, _) =
        NativeOperationAdapter::invoke("cf-info", "unica.cf.info", JsonMap::new(), true, false, false, false);
    let (_, action) = call.step(NativeEvent::ExternalPreview(None));
    assert!(finished(action).unwrap().changes.is_empty());
}

#[test]
fn an_external_preview_wins() {
    let (call, _) =
        NativeOperationAdapter::invoke("epf-init", "unica.epf.init", JsonMap::new(), true, true, false, false);
    let (_, action) = call.step(NativeEvent::ExternalPreview(Some(AdapterOutcome::ok("epf preview"))));
    assert_eq!(finished(action).unwrap().summary, "epf preview");
}

#[test]
fn edit_previews_go_to_their_family() {
    let (call, _) =
        NativeOperationAdapter::invoke("meta-edit", "unica.meta.edit", JsonMap::new(), true, true, false, false);
    let (call, action) = call.step(NativeEvent::ExternalPreview(None));
    assert!(matches!(action, NativeAction::PreviewMetaEdit));
    let (_, action) = call.step(NativeEvent::EditPreview(AdapterOutcome::ok("meta preview")));
    assert_eq!(finished(action).unwrap().summary, "meta preview");

    let (call, _) =
        NativeOperationAdapter::invoke("form-edit", "unica.form.edit", JsonMap::new(), true, true, true, false);
    assert_eq!(call.phase(), NativePhase::Done);
    let _ = call;
}

#[test]
fn compile_previews_probe_their_inputs_first() {
    let call_args = args(&[("OutputDir", "out"), ("JsonPath", "meta.json")]);
    let (call, _) =
        NativeOperationAdapter::invoke("meta-compile", "unica.meta.compile", call_args, true, true, false, false);
    let (call, action) = call.step(NativeEvent::ExternalPreview(None));
    match &action {
        NativeAction::ProbeFile(path) => assert_eq!(path, "meta.json"),
        other => panic!("expected a probe, got {other:?}"),
    }
    let (_, action) = call.step(NativeEvent::Probed {
        path: "/work/meta.json".to_string(),
        present: false,
    });
    let outcome = finished(action).unwrap();
    assert!(outcome.ok);
    assert_eq!(
        outcome.warnings,
        vec!["detailed compile preview is unavailable; using safe placeholder: definition file is unavailable: /work/meta.json"]
    );
}

#[test]
fn a_compile_preview_without_an_output_directory_is_unavailable() {
    let (call, _) = NativeOperationAdapter::invoke(
        "role-compile",
        "unica.role.compile",
        args(&[("jsonPath", "role.json")]),
        true,
        true,
        false,
        false,
    );
    let (_, action) = call.step(NativeEvent::ExternalPreview(None));
    let outcome = finished(action).unwrap();
    assert_eq!(
        outcome.warnings,
        vec!["detailed compile preview is unavailable; using safe placeholder: missing required OutputDir argument"]
    );
}

#[test]
fn a_subsystem_compile_preview_checks_its_parent_then_its_definition() {
    let call_args = args(&[("outputDir", "out"), ("parent", "Subsystems/Sales.xml"), ("definitionFile", "s.json")]);
    let (call, _) = NativeOperationAdapter::invoke(
        "subsystem-compile",
        "unica.subsystem.compile",
        call_args,
        true,
        true,
        false,
        false,
    );
    let (call, action) = call.step(NativeEvent::ExternalPreview(None));
    assert!(matches!(&action, NativeAction::ProbeExists(p) if p == "Subsystems/Sales.xml"));
    let (call, action) = call.step(NativeEvent::Probed {
        path: "/work/Subsystems/Sales.xml".to_string(),
        present: true,
    });
    assert!(matches!(&action, NativeAction::ProbeFile(p) if p == "s.json"));
    let (call, action) = call.step(NativeEvent::Probed {
        path: "/work/s.json".to_string(),
        present: true,
    });
    assert!(matches!(action, NativeAction::PlanCompilePreview));
    let (_, action) = call.step(NativeEvent::Planned(Err("bad definition".to_string())));
    let outcome = finished(action).unwrap();
    assert!(!outcome.ok);
    assert_eq!(outcome.summary, "dry run: unica.subsystem.compile compile planning failed");
    assert_eq!(outcome.errors, vec!["bad definition"]);
    assert_eq!(outcome.stderr, Some("bad definition\n".to_string()));

    let missing = args(&[("OutputDir", "out")]);
    let (call, _) = NativeOperationAdapter::invoke(
        "subsystem-compile",
        "unica.subsystem.compile",
        missing,
        true,
        true,
        false,
        false,
    );
    let (_, action) = call.step(NativeEvent::ExternalPreview(None));
    assert_eq!(
        finished(action).unwrap().warnings,
        vec!["detailed compile preview is unavailable; using safe placeholder: missing Value or DefinitionFile argument"]
    );

    let missing_parent = args(&[("OutputDir", "out"), ("Parent", "Nope.xml"), ("Value", "x")]);
    let (call, _) = NativeOperationAdapter::invoke(
        "subsystem-compile",
        "unica.subsystem.compile",
        missing_parent,
        true,
        true,
        false,
        false,
    );
    let (call, _) = call.step(NativeEvent::ExternalPreview(None));
    let (_, action) = call.step(NativeEvent::Probed {
        path: "/work/Nope.xml".to_string(),
        present: false,
    });
    assert_eq!(
        finished(action).unwrap().warnings,
        vec!["detailed compile preview is unavailable; using safe placeholder: parent subsystem is unavailable: /work/Nope.xml"]
    );
}

#[test]
fn form_compile_preview_plans_only_with_a_payload() {
    let (call, _) =
        NativeOperationAdapter::invoke("form-compile", "unica.form.compile", JsonMap::new(), true, true, false, true);
    let (call, action) = call.step(NativeEvent::ExternalPreview(None));
    assert!(matches!(action, NativeAction::PlanCompilePreview));
    let (_, action) = call.step(NativeEvent::Planned(Ok(AdapterOutcome::ok("planned form"))));
    assert_eq!(finished(action).unwrap().summary, "planned form");

    let (call, _) =
        NativeOperationAdapter::invoke("form-compile", "unica.form.compile", JsonMap::new(), true, true, false, false);
    let (_, action) = call.step(NativeEvent::ExternalPreview(None));
    assert!(finished(action).unwrap().ok);
}

#[test]
fn applied_mutations_need_a_registered_handler() {
    let (call, action) =
        NativeOperationAdapter::invoke("cf-edit", "unica.cf.edit", JsonMap::new(), false, true, false, false);
    assert!(matches!(action, NativeAction::InvokeMutation));
    let (_, action) = call.step(NativeEvent::Mutated(None));
    assert_eq!(
        finished(action).unwrap_err(),
        "native mutation handler is not registered for unica.cf.edit operation `cf-edit`"
    );
    let (call, _) =
        NativeOperationAdapter::invoke("cf-edit", "unica.cf.edit", JsonMap::new(), false, true, false, false);
    let (_, action) = call.step(NativeEvent::Mutated(Some(AdapterOutcome::ok("edited"))));
    assert_eq!(finished(action).unwrap().summary, "edited");
}

#[test]
fn reads_fall_back_to_analyzing_the_target() {
    let (call, action) =
        NativeOperationAdapter::invoke("cf-info", "unica.cf.info", JsonMap::new(), false, false, false, false);
    assert!(matches!(action, NativeAction::InvokeRead));
    let (call, action) = call.step(NativeEvent::Read(None));
    assert!(matches!(action, NativeAction::AnalyzeTarget));
    assert!(!call.accepts(&NativeEvent::Mutated(None)));
    let (_, action) = call.step(NativeEvent::Analyzed(Err("failed to read Configuration.xml".to_string())));
    assert_eq!(finished(action).unwrap_err(), "failed to read Configuration.xml");

    let (call, _) =
        NativeOperationAdapter::invoke("cf-info", "unica.cf.info", JsonMap::new(), false, false, false, false);
    let (_, action) = call.step(NativeEvent::Read(Some(Ok(AdapterOutcome::ok("info")))));
    assert_eq!(finished(action).unwrap().summary, "info");
}

#[test]
fn string_arg_takes_the_first_string_key() {
    let mut map = JsonMap::new();
    map.insert("OutputDir".to_string(), Json::Bool(true));
    map.insert("outputDir".to_string(), Json::Str("out".to_string()));
    assert_eq!(string_arg(&map, &["OutputDir", "outputDir"]).map(|s| s.as_str()), Some("out"));
    assert_eq!(string_arg(&map, &["Missing"]), None);
    let _ = NativeInvocation::start("cf-info", "unica.cf.info", JsonMap::new(), false, false, false, false);
}
