use unica_coder::catalog::{cache_access_for, configuration_tools, tools, ToolHandler};
use unica_coder::descriptors::{
    native_operation_descriptor, native_path_alias_groups, FormatGuardPolicy, FormatPathPolicy,
    SupportGuardPolicy, SupportGuardRequirement,
};
use unica_coder::domain::DomainEventKind;
use unica_coder::native::{
    native_mutation_file_input_contract, typed_mutation_handler, NativeMutationFileInputContract,
    TopLevelJsonInput, TypedMutationHandler,
};

#[test]
fn lists_unica_orchestrator_scope() {
    let names = tools().iter().map(|tool| tool.name).collect::<Vec<_>>();
    assert!(names.contains(&"unica.project.status"));
    assert!(names.contains(&"unica.project.map"));
    assert!(names.contains(&"unica.form.validate"));
    assert!(names.contains(&"unica.dcs.edit"));
    assert!(names.contains(&"unica.mxl.compile"));
    assert!(names.contains(&"unica.role.validate"));
    assert!(names.contains(&"unica.db.list"));
    assert!(names.contains(&"unica.support.edit"));
    assert!(names.contains(&"unica.epf.init"));
    assert!(names.contains(&"unica.erf.init"));
    assert!(names.contains(&"unica.build.load"));
    assert!(names.contains(&"unica.runtime.execute"));
    for name in [
        "unica.runtime.job.start",
        "unica.runtime.job.status",
        "unica.runtime.job.wait",
        "unica.runtime.job.logs",
        "unica.runtime.job.cancel",
        "unica.runtime.job.list",
    ] {
        assert!(names.contains(&name), "missing {name}");
    }
    assert!(names.contains(&"unica.code.definition"));
    assert!(names.contains(&"unica.code.outline"));
    assert!(names.contains(&"unica.code.grep"));
    assert!(names.contains(&"unica.code.graph"));
    assert!(names.contains(&"unica.meta.profile"));
    assert!(names.contains(&"unica.standards.explain"));
    assert!(!names.contains(&"unica-coder"));
}

#[test]
fn cfe_patch_method_public_description_states_the_v1_procedure_boundary() {
    let tool = tools()
        .into_iter()
        .find(|tool| tool.name == "unica.cfe.patch_method")
        .expect("cfe.patch_method is public");

    assert!(tool.description.contains("Before/After"));
    assert!(tool.description.contains("caller-verified"));
    assert!(tool.description.contains("parameterless procedure"));
    assert!(!tool.description.contains("method interceptor"));
}

#[test]
fn xml_dsl_tools_route_to_parity_covered_native_handlers() {
    const PARITY_COVERED_TOOLS: &[&str] = &[
        "unica.cf.edit",
        "unica.cf.info",
        "unica.cf.init",
        "unica.cf.validate",
        "unica.cfe.borrow",
        "unica.cfe.diff",
        "unica.cfe.init",
        "unica.cfe.patch_method",
        "unica.cfe.validate",
        "unica.meta.compile",
        "unica.meta.edit",
        "unica.meta.info",
        "unica.meta.remove",
        "unica.meta.validate",
        "unica.help.add",
        "unica.form.add",
        "unica.form.compile",
        "unica.form.edit",
        "unica.form.info",
        "unica.form.remove",
        "unica.form.validate",
        "unica.interface.edit",
        "unica.interface.validate",
        "unica.subsystem.compile",
        "unica.subsystem.edit",
        "unica.subsystem.info",
        "unica.subsystem.validate",
        "unica.template.add",
        "unica.template.remove",
        "unica.dcs.compile",
        "unica.dcs.edit",
        "unica.dcs.info",
        "unica.dcs.validate",
        "unica.mxl.compile",
        "unica.mxl.decompile",
        "unica.mxl.info",
        "unica.mxl.validate",
        "unica.role.compile",
        "unica.role.info",
        "unica.role.validate",
    ];
    const REPO_OWNED_NATIVE_TOOLS: &[&str] = &["unica.support.edit"];

    for tool in tools() {
        if !tool.name.starts_with("unica.cf.")
            && !tool.name.starts_with("unica.cfe.")
            && !tool.name.starts_with("unica.meta.")
            && !tool.name.starts_with("unica.help.")
            && !tool.name.starts_with("unica.form.")
            && !tool.name.starts_with("unica.interface.")
            && !tool.name.starts_with("unica.subsystem.")
            && !tool.name.starts_with("unica.template.")
            && !tool.name.starts_with("unica.dcs.")
            && !tool.name.starts_with("unica.mxl.")
            && !tool.name.starts_with("unica.role.")
            && !tool.name.starts_with("unica.support.")
        {
            continue;
        }
        if tool.name == "unica.meta.profile" {
            continue;
        }

        match tool.handler {
            ToolHandler::NativeOperation { operation, .. } => {
                assert!(
                    PARITY_COVERED_TOOLS.contains(&tool.name)
                        || REPO_OWNED_NATIVE_TOOLS.contains(&tool.name),
                    "{} routes to native operation {} without a parity fixture or repo-owned native contract exception",
                    tool.name,
                    operation
                );
            }
            _ => panic!("{} routes through unexpected handler", tool.name),
        }
    }
}

#[test]
fn form_and_dcs_tools_route_through_native_handlers() {
    let expected = [
        (
            "unica.form.add",
            "form-add",
            Some(DomainEventKind::FormChanged),
        ),
        (
            "unica.form.compile",
            "form-compile",
            Some(DomainEventKind::FormChanged),
        ),
        (
            "unica.form.edit",
            "form-edit",
            Some(DomainEventKind::FormChanged),
        ),
        ("unica.form.info", "form-info", None),
        (
            "unica.form.remove",
            "form-remove",
            Some(DomainEventKind::FormChanged),
        ),
        ("unica.form.validate", "form-validate", None),
        (
            "unica.dcs.compile",
            "dcs-compile",
            Some(DomainEventKind::DcsChanged),
        ),
        (
            "unica.dcs.edit",
            "dcs-edit",
            Some(DomainEventKind::DcsChanged),
        ),
        ("unica.dcs.info", "dcs-info", None),
        ("unica.dcs.validate", "dcs-validate", None),
    ];
    for (tool_name, expected_operation, expected_event) in expected {
        let tool = tools()
            .into_iter()
            .find(|tool| tool.name == tool_name)
            .expect("form/DCS tool exists");

        match tool.handler {
            ToolHandler::NativeOperation { operation, event } => {
                assert_eq!(operation, expected_operation);
                assert_eq!(event, expected_event);
            }
            other => panic!("{tool_name} should route through native operation, got {other:?}"),
        }
    }
}

#[test]
fn support_edit_tool_is_mutating_native_operation() {
    let tool = tools()
        .into_iter()
        .find(|tool| tool.name == "unica.support.edit")
        .expect("support-edit tool exists");

    assert!(tool.mutating);
    assert_eq!(tool.cache_access.writes, &["metadata_graph"]);
    match tool.handler {
        ToolHandler::NativeOperation { operation, event } => {
            assert_eq!(operation, "support-edit");
            assert_eq!(event, Some(DomainEventKind::ConfigXmlChanged));
        }
        other => {
            panic!("unica.support.edit should route through native operation, got {other:?}")
        }
    }
}

#[test]
fn native_operation_descriptors_cover_all_native_tool_handlers() {
    for tool in tools() {
        let ToolHandler::NativeOperation { operation, .. } = tool.handler else {
            continue;
        };
        let descriptor = native_operation_descriptor(operation)
            .unwrap_or_else(|| panic!("{operation} has no OperationDescriptor"));
        assert_eq!(descriptor.operation, operation);
    }
}

#[test]
fn mutating_native_descriptors_declare_write_path_policy() {
    for tool in tools() {
        if !tool.mutating {
            continue;
        }
        let ToolHandler::NativeOperation { operation, .. } = tool.handler else {
            continue;
        };
        let descriptor = native_operation_descriptor(operation).unwrap();
        assert!(
            !descriptor.write_path_args.is_empty(),
            "{operation} mutates workspace but has no descriptor write_path_args"
        );
    }
}

#[test]
fn mutating_native_support_guard_coverage_is_explicit() {
    let mut guarded = Vec::new();
    let mut exempt = Vec::new();
    for tool in tools().into_iter().filter(|tool| tool.mutating) {
        let ToolHandler::NativeOperation { operation, .. } = tool.handler else {
            continue;
        };
        let descriptor = native_operation_descriptor(operation).unwrap();
        match descriptor.support_guard {
            Some(policy) => {
                match policy {
                    SupportGuardPolicy::PathArgs { names, requirement } => {
                        assert!(!names.is_empty(), "{operation} guard target is empty");
                        assert_eq!(
                            requirement,
                            SupportGuardRequirement::Editable,
                            "{operation} path mutation must require an editable owner"
                        );
                        if operation == "subsystem-compile" {
                            assert_eq!(
                                names,
                                &["Parent", "parent", "OutputDir", "outputDir"],
                                "subsystem compilation must guard Parent first and retain OutputDir as the root fallback"
                            );
                        }
                    }
                    SupportGuardPolicy::MetaRemove { requirement } => {
                        assert_eq!(operation, "meta-remove");
                        assert_eq!(requirement, SupportGuardRequirement::Removed);
                    }
                    SupportGuardPolicy::ObjectName { requirement } => {
                        assert!(
                            matches!(
                                operation,
                                "help-add" | "form-remove" | "template-add" | "template-remove"
                            ),
                            "{operation} unexpectedly uses object-name guard resolution"
                        );
                        assert_eq!(requirement, SupportGuardRequirement::Editable);
                    }
                }
                guarded.push(operation);
            }
            None => exempt.push(operation),
        }
    }
    guarded.sort_unstable();
    exempt.sort_unstable();

    assert_eq!(
        guarded,
        [
            "cf-edit",
            "code-patch",
            "dcs-compile",
            "dcs-edit",
            "form-add",
            "form-compile",
            "form-edit",
            "form-remove",
            "help-add",
            "interface-edit",
            "meta-compile",
            "meta-edit",
            "meta-remove",
            "mxl-compile",
            "role-compile",
            "subsystem-compile",
            "subsystem-edit",
            "template-add",
            "template-remove",
        ],
        "guarded platform-XML mutations changed without updating the support contract"
    );
    let expected_exemptions = [
        ("cf-init", "creates a new configuration tree"),
        ("cfe-borrow", "writes only into an extension"),
        ("cfe-init", "creates a new extension tree"),
        ("cfe-patch-method", "writes only into an extension"),
        ("epf-init", "creates a new external processor tree"),
        ("erf-init", "creates a new external report tree"),
        (
            "support-edit",
            "must remain available to change the support lock itself",
        ),
    ];
    assert!(expected_exemptions
        .iter()
        .all(|(_, reason)| !reason.is_empty()));
    assert_eq!(
        exempt,
        expected_exemptions
            .iter()
            .map(|(operation, _)| *operation)
            .collect::<Vec<_>>(),
        "every unguarded native mutation must remain an explicitly justified support-guard exception"
    );
}

#[test]
fn mutating_platform_xml_operations_declare_effective_format_paths() {
    let expected = [
        ("code-patch", &["path"][..], "DeclaredArgs"),
        (
            "cf-edit",
            &["ConfigPath", "configPath", "Path", "path"][..],
            "HandlerResolved",
        ),
        ("cf-init", &["OutputDir", "outputDir"][..], "DeclaredArgs"),
        (
            "support-edit",
            &["Path", "path", "TargetPath", "targetPath"][..],
            "DeclaredArgs",
        ),
        (
            "cfe-borrow",
            &["ExtensionPath", "ConfigPath", "extensionPath", "configPath"][..],
            "DeclaredArgs",
        ),
        (
            "cfe-init",
            &["ConfigPath", "configPath"][..],
            "DeclaredArgs",
        ),
        ("epf-init", &["OutputDir", "outputDir"][..], "DeclaredArgs"),
        ("erf-init", &["OutputDir", "outputDir"][..], "DeclaredArgs"),
        (
            "cfe-patch-method",
            &["ExtensionPath", "extensionPath"][..],
            "DeclaredArgs",
        ),
        (
            "meta-compile",
            &["OutputDir", "outputDir"][..],
            "DeclaredArgs",
        ),
        (
            "meta-edit",
            &["ObjectPath", "objectPath", "Path", "path"][..],
            "HandlerResolved",
        ),
        (
            "meta-remove",
            &["ConfigDir", "configDir"][..],
            "DeclaredArgs",
        ),
        ("help-add", &["SrcDir", "srcDir"][..], "DefaultSrcObject"),
        (
            "form-add",
            &["ObjectPath", "objectPath", "Path", "path"][..],
            "HandlerResolved",
        ),
        (
            "form-compile",
            &["OutputPath", "outputPath"][..],
            "FormCompile",
        ),
        (
            "form-edit",
            &["FormPath", "formPath", "Path", "path"][..],
            "DeclaredArgs",
        ),
        ("form-remove", &["SrcDir", "srcDir"][..], "DefaultSrcObject"),
        (
            "interface-edit",
            &["CIPath", "ciPath", "path", "Path"][..],
            "DeclaredArgs",
        ),
        (
            "subsystem-compile",
            &["OutputDir", "outputDir", "Parent", "parent"][..],
            "DeclaredArgs",
        ),
        (
            "subsystem-edit",
            &["SubsystemPath", "subsystemPath", "Path", "path"][..],
            "HandlerResolved",
        ),
        (
            "template-add",
            &["SrcDir", "srcDir"][..],
            "DefaultSrcObject",
        ),
        (
            "template-remove",
            &["SrcDir", "srcDir"][..],
            "DefaultSrcObject",
        ),
        (
            "dcs-compile",
            &["OutputPath", "outputPath"][..],
            "DeclaredArgs",
        ),
        (
            "dcs-edit",
            &["TemplatePath", "templatePath", "Path", "path"][..],
            "HandlerResolved",
        ),
        (
            "mxl-compile",
            &["OutputPath", "outputPath"][..],
            "DeclaredArgs",
        ),
        (
            "role-compile",
            &["OutputDir", "outputDir"][..],
            "DeclaredArgs",
        ),
    ];

    let mut actual_operations = tools()
        .into_iter()
        .filter(|tool| tool.mutating)
        .filter_map(|tool| {
            let ToolHandler::NativeOperation { operation, .. } = tool.handler else {
                return None;
            };
            native_operation_descriptor(operation)?;
            Some(operation)
        })
        .collect::<Vec<_>>();
    actual_operations.sort_unstable();
    let mut expected_operations = expected
        .iter()
        .map(|(operation, _, _)| *operation)
        .collect::<Vec<_>>();
    expected_operations.sort_unstable();
    assert_eq!(
        actual_operations,
        expected_operations,
        "the handler-path contract table must cover every mutating platform-XML operation exactly once"
    );

    for (operation, aliases, policy) in expected {
        let descriptor = native_operation_descriptor(operation).unwrap();
        assert_eq!(descriptor.source_path_args, aliases, "{operation} aliases");
        assert_eq!(
            format!("{:?}", descriptor.format_path_policy),
            policy,
            "{operation} effective path policy"
        );
    }

    for tool in tools().into_iter().filter(|tool| tool.mutating) {
        let ToolHandler::NativeOperation { operation, .. } = tool.handler else {
            continue;
        };
        let descriptor = native_operation_descriptor(operation).unwrap();
        assert!(
            !descriptor.source_path_args.is_empty(),
            "{operation} must declare its platform-XML read/target path arguments"
        );
    }
    assert_eq!(
        native_operation_descriptor("mxl-compile")
            .unwrap()
            .format_guard,
        FormatGuardPolicy::ExistingDump,
        "mxl.compile must guard an existing owner while allowing standalone output"
    );
}

#[test]
fn source_format_sensitive_descriptors_name_source_paths() {
    for operation in ["cf-info", "form-edit", "dcs-edit", "role-info"] {
        let descriptor = native_operation_descriptor(operation).unwrap();
        assert!(
            !descriptor.source_path_args.is_empty(),
            "{operation} should declare source path args for source-set format validation"
        );
    }
}

#[test]
fn native_descriptors_expose_required_adapter_arguments() {
    let required_by_operation = [
        ("meta-compile", &["JsonPath", "OutputDir"][..]),
        ("role-compile", &["JsonPath", "OutputDir"][..]),
        ("mxl-compile", &["JsonPath", "OutputPath"][..]),
    ];

    for (operation, expected_required) in required_by_operation {
        let descriptor = native_operation_descriptor(operation).unwrap();
        for expected in expected_required {
            assert!(
                descriptor.required_args.contains(expected),
                "{operation} descriptor should require {expected}"
            );
        }
    }
}

#[test]
fn every_native_mutator_has_an_explicit_file_input_contract() {
    let expected_file_backed = std::collections::BTreeMap::from([
        (
            "cf-edit",
            ("OptionalDefinitionFile", false, false),
        ),
        (
            "dcs-compile",
            ("OptionalDefinitionFile", true, false),
        ),
        ("dcs-edit", ("NoInput", true, false)),
        (
            "form-compile",
            ("OptionalJsonPath", false, true),
        ),
        (
            "form-edit",
            ("OptionalJsonPath", false, false),
        ),
        (
            "interface-edit",
            ("OptionalDefinitionFile", false, false),
        ),
        (
            "meta-compile",
            ("RequiredJsonPath", false, false),
        ),
        (
            "meta-edit",
            ("OptionalDefinitionFile", false, false),
        ),
        (
            "mxl-compile",
            ("RequiredJsonPath", false, false),
        ),
        (
            "role-compile",
            ("RequiredJsonPath", false, false),
        ),
        (
            "subsystem-compile",
            ("OptionalDefinitionFile", false, false),
        ),
        (
            "subsystem-edit",
            ("OptionalDefinitionFile", false, false),
        ),
    ]);
    let mut actual_file_backed = std::collections::BTreeMap::new();

    for tool in tools().into_iter().filter(|tool| tool.mutating) {
        let ToolHandler::NativeOperation { operation, .. } = tool.handler else {
            continue;
        };
        let contract = native_mutation_file_input_contract(operation).unwrap_or_else(|| {
            panic!(
                "{} native mutator `{operation}` lacks a file-input audit classification",
                tool.name
            )
        });
        if contract.top_level != TopLevelJsonInput::NoInput
            || contract.secondary_at_query_files
            || contract.secondary_from_object_platform_xml
        {
            let top_level = match contract.top_level {
                TopLevelJsonInput::NoInput => "NoInput",
                TopLevelJsonInput::RequiredJsonPath => "RequiredJsonPath",
                TopLevelJsonInput::OptionalJsonPath => "OptionalJsonPath",
                TopLevelJsonInput::OptionalDefinitionFile => "OptionalDefinitionFile",
            };
            actual_file_backed.insert(
                operation,
                (
                    top_level,
                    contract.secondary_at_query_files,
                    contract.secondary_from_object_platform_xml,
                ),
            );
        }
    }

    assert_eq!(actual_file_backed, expected_file_backed);
    assert_eq!(actual_file_backed.len(), 12);
    assert_eq!(
        actual_file_backed
            .values()
            .map(|(top_level, at_query_files, from_object_platform_xml)| {
                usize::from(*top_level != "NoInput")
                    + usize::from(*at_query_files)
                    + usize::from(*from_object_platform_xml)
            })
            .sum::<usize>(),
        14
    );
    assert_eq!(native_mutation_file_input_contract("unknown-mutator"), None);
    assert_eq!(
        native_mutation_file_input_contract("template-add"),
        Some(NativeMutationFileInputContract {
            top_level: TopLevelJsonInput::NoInput,
            secondary_at_query_files: false,
            secondary_from_object_platform_xml: false,
        })
    );
}

#[test]
fn typed_mutation_handlers_are_code_patch_and_form_edit() {
    assert_eq!(
        typed_mutation_handler("code-patch"),
        Some(TypedMutationHandler::CodePatch)
    );
    assert_eq!(
        typed_mutation_handler("form-edit"),
        Some(TypedMutationHandler::FormEdit)
    );
    assert_eq!(typed_mutation_handler("form-add"), None);
    assert_eq!(typed_mutation_handler(""), None);
}

#[test]
fn configuration_tools_come_first_in_the_catalog() {
    let configuration = configuration_tools();
    let all = tools();
    assert_eq!(configuration.len(), 45);
    assert_eq!(all.len(), 68);
    for (i, tool) in configuration.iter().enumerate() {
        assert_eq!(all[i].name, tool.name);
    }
    assert_eq!(all[45].name, "unica.project.status");
    assert_eq!(all[67].name, "unica.standards.explain");
}

#[test]
fn cache_access_follows_the_operation_family() {
    let writes = cache_access_for("cf-edit", Some(DomainEventKind::ConfigXmlChanged));
    assert!(writes.reads.is_empty());
    assert_eq!(writes.writes, &["metadata_graph"]);
    let form = cache_access_for("form-info", None);
    assert_eq!(form.reads, &["metadata_graph", "form_graph"]);
    assert!(form.writes.is_empty());
    let role = cache_access_for("role-validate", None);
    assert_eq!(role.reads, &["metadata_graph", "rights_graph"]);
    let dcs = cache_access_for("dcs-info", None);
    assert_eq!(dcs.reads, &["metadata_graph", "dcs_graph"]);
    let mxl = cache_access_for("mxl-decompile", None);
    assert_eq!(mxl.reads, &["metadata_graph", "mxl_graph"]);
    let interface = cache_access_for("interface-validate", None);
    assert_eq!(
        interface.reads,
        &["metadata_graph", "subsystem_graph", "command_interface_graph"]
    );
    let other = cache_access_for("cf-info", None);
    assert_eq!(other.reads, &["workspace_graph", "metadata_graph"]);
}

#[test]
fn lookup_of_an_unknown_operation_finds_nothing() {
    assert!(native_operation_descriptor("no-such-operation").is_none());
    assert!(native_operation_descriptor("").is_none());
    assert!(native_path_alias_groups("no-such-operation").is_empty());
}

#[test]
fn path_alias_groups_name_canonical_arguments() {
    let groups = native_path_alias_groups("cf-edit");
    assert!(!groups.is_empty());
    let config = groups
        .iter()
        .find(|group| group.canonical == "ConfigPath")
        .expect("cf-edit has a ConfigPath group");
    assert!(config.aliases.contains(&"configPath"));
    for group in &groups {
        assert!(group.aliases.contains(&group.canonical));
    }
}

#[test]
fn every_descriptor_states_its_format_path_policy() {
    let form_compile = native_operation_descriptor("form-compile").unwrap();
    assert_eq!(form_compile.format_path_policy, FormatPathPolicy::FormCompile);
    let help = native_operation_descriptor("help-add").unwrap();
    assert_eq!(help.format_path_policy, FormatPathPolicy::DefaultSrcObject);
    let cf_init = native_operation_descriptor("cf-init").unwrap();
    assert_eq!(cf_init.format_guard, FormatGuardPolicy::NewDump);
}
