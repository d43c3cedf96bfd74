//! Operation descriptors: for every native XML/DSL operation, the arguments it
//! requires, the paths it writes and reads, how its source format is checked and
//! which support guard protects it; and the path alias groups of each operation.
use vstd::prelude::*;
use crate::text::str_eq;

verus! {

/// What the support guard demands of the object an operation touches.
#[derive(Debug, Clone, Copy, PartialEq, Eq, Structural)]
pub enum SupportGuardRequirement {
    Editable,
    Removed,
}

/// How a native operation is described to the application layer.
#[derive(Debug, Clone, Copy)]
pub struct OperationDescriptor {
    pub operation: &'static str,
    pub required_args: &'static [&'static str],
    pub write_path_args: &'static [&'static str],
    pub source_path_args: &'static [&'static str],
    pub format_path_policy: FormatPathPolicy,
    pub format_guard: FormatGuardPolicy,
    pub support_guard: Option<SupportGuardPolicy>,
}

/// Where the source-format check finds the paths an operation touches.
#[derive(Debug, Clone, Copy, PartialEq, Eq, Structural)]
pub enum FormatPathPolicy {
    DeclaredArgs,
    HandlerResolved,
    DefaultSrcObject,
    FormCompile,
}

/// What the source-format check demands of the paths an operation touches.
#[derive(Debug, Clone, Copy, PartialEq, Eq, Structural)]
pub enum FormatGuardPolicy {
    ExistingDump,
    OptionalExistingBase,
    NewDump,
}

/// How the support guard finds the object an operation touches.
#[derive(Debug, Clone, Copy)]
pub enum SupportGuardPolicy {
    PathArgs {
        names: &'static [&'static str],
        requirement: SupportGuardRequirement,
    },
    MetaRemove {
        requirement: SupportGuardRequirement,
    },
    ObjectName {
        requirement: SupportGuardRequirement,
    },
}

/// One canonical path argument and every spelling that callers may use for it.
#[derive(Debug, Clone, Copy)]
pub struct PathAliasGroup {
    pub canonical: &'static str,
    pub aliases: &'static [&'static str],
}

// ---------------------------------------------------------------------------
// Argument name lists
// ---------------------------------------------------------------------------

/// The empty list of argument names.
pub open spec fn no_names() -> &'static [&'static str] {
    &[]
}

#[verifier::allow_in_spec]
pub fn empty() -> &'static [&'static str]
    returns
        no_names(),
{
    &[]
}

/// The `cf_path` argument names.
pub open spec fn cf_path_names() -> &'static [&'static str] {
    &["ConfigPath", "configPath", "Path", "path"]
}

#[verifier::allow_in_spec]
pub fn cf_path() -> &'static [&'static str]
    returns
        cf_path_names(),
{
    &["ConfigPath", "configPath", "Path", "path"]
}

/// The `config_dir` argument names.
pub open spec fn config_dir_names() -> &'static [&'static str] {
    &["ConfigDir", "configDir"]
}

#[verifier::allow_in_spec]
pub fn config_dir() -> &'static [&'static str]
    returns
        config_dir_names(),
{
    &["ConfigDir", "configDir"]
}

/// The `output_dir` argument names.
pub open spec fn output_dir_names() -> &'static [&'static str] {
    &["OutputDir", "outputDir"]
}

#[verifier::allow_in_spec]
pub fn output_dir() -> &'static [&'static str]
    returns
        output_dir_names(),
{
    &["OutputDir", "outputDir"]
}

/// The `extension_path` argument names.
pub open spec fn extension_path_names() -> &'static [&'static str] {
    &["ExtensionPath", "extensionPath"]
}

#[verifier::allow_in_spec]
pub fn extension_path() -> &'static [&'static str]
    returns
        extension_path_names(),
{
    &["ExtensionPath", "extensionPath"]
}

/// The `cfe_validate_path` argument names.
pub open spec fn cfe_validate_path_names() -> &'static [&'static str] {
    &["ExtensionPath", "extensionPath", "Path", "path"]
}

#[verifier::allow_in_spec]
pub fn cfe_validate_path() -> &'static [&'static str]
    returns
        cfe_validate_path_names(),
{
    &["ExtensionPath", "extensionPath", "Path", "path"]
}

/// The `cfe_borrow_source` argument names.
pub open spec fn cfe_borrow_source_names() -> &'static [&'static str] {
    &["ExtensionPath", "ConfigPath", "extensionPath", "configPath"]
}

#[verifier::allow_in_spec]
pub fn cfe_borrow_source() -> &'static [&'static str]
    returns
        cfe_borrow_source_names(),
{
    &["ExtensionPath", "ConfigPath", "extensionPath", "configPath"]
}

/// The `cfe_init_base` argument names.
pub open spec fn cfe_init_base_names() -> &'static [&'static str] {
    &["ConfigPath", "configPath"]
}

#[verifier::allow_in_spec]
pub fn cfe_init_base() -> &'static [&'static str]
    returns
        cfe_init_base_names(),
{
    &["ConfigPath", "configPath"]
}

/// The `cfe_init_output` argument names.
pub open spec fn cfe_init_output_names() -> &'static [&'static str] {
    &["OutputDir", "outputDir", "ExtensionPath", "extensionPath"]
}

#[verifier::allow_in_spec]
pub fn cfe_init_output() -> &'static [&'static str]
    returns
        cfe_init_output_names(),
{
    &["OutputDir", "outputDir", "ExtensionPath", "extensionPath"]
}

/// The `object_path` argument names.
pub open spec fn object_path_names() -> &'static [&'static str] {
    &["ObjectPath", "objectPath", "Path", "path"]
}

#[verifier::allow_in_spec]
pub fn object_path() -> &'static [&'static str]
    returns
        object_path_names(),
{
    &["ObjectPath", "objectPath", "Path", "path"]
}

/// The `object_path_required` argument names.
pub open spec fn object_path_required_names() -> &'static [&'static str] {
    &["ObjectPath"]
}

#[verifier::allow_in_spec]
pub fn object_path_required() -> &'static [&'static str]
    returns
        object_path_required_names(),
{
    &["ObjectPath"]
}

/// The `src_dir` argument names.
pub open spec fn src_dir_names() -> &'static [&'static str] {
    &["SrcDir", "srcDir"]
}

#[verifier::allow_in_spec]
pub fn src_dir() -> &'static [&'static str]
    returns
        src_dir_names(),
{
    &["SrcDir", "srcDir"]
}

/// The `form_path` argument names.
pub open spec fn form_path_names() -> &'static [&'static str] {
    &["FormPath", "formPath", "Path", "path"]
}

#[verifier::allow_in_spec]
pub fn form_path() -> &'static [&'static str]
    returns
        form_path_names(),
{
    &["FormPath", "formPath", "Path", "path"]
}

/// The `form_path_required` argument names.
pub open spec fn form_path_required_names() -> &'static [&'static str] {
    &["FormPath"]
}

#[verifier::allow_in_spec]
pub fn form_path_required() -> &'static [&'static str]
    returns
        form_path_required_names(),
{
    &["FormPath"]
}

/// The `ci_path` argument names.
pub open spec fn ci_path_names() -> &'static [&'static str] {
    &["CIPath", "ciPath", "path", "Path"]
}

#[verifier::allow_in_spec]
pub fn ci_path() -> &'static [&'static str]
    returns
        ci_path_names(),
{
    &["CIPath", "ciPath", "path", "Path"]
}

/// The `ci_path_required` argument names.
pub open spec fn ci_path_required_names() -> &'static [&'static str] {
    &["CIPath"]
}

#[verifier::allow_in_spec]
pub fn ci_path_required() -> &'static [&'static str]
    returns
        ci_path_required_names(),
{
    &["CIPath"]
}

/// The `subsystem_path` argument names.
pub open spec fn subsystem_path_names() -> &'static [&'static str] {
    &["SubsystemPath", "subsystemPath", "Path", "path"]
}

#[verifier::allow_in_spec]
pub fn subsystem_path() -> &'static [&'static str]
    returns
        subsystem_path_names(),
{
    &["SubsystemPath", "subsystemPath", "Path", "path"]
}

/// The `subsystem_path_required` argument names.
pub open spec fn subsystem_path_required_names() -> &'static [&'static str] {
    &["SubsystemPath"]
}

#[verifier::allow_in_spec]
pub fn subsystem_path_required() -> &'static [&'static str]
    returns
        subsystem_path_required_names(),
{
    &["SubsystemPath"]
}

/// The `subsystem_compile_write` argument names.
pub open spec fn subsystem_compile_write_names() -> &'static [&'static str] {
    &["OutputDir", "outputDir", "Parent", "parent"]
}

#[verifier::allow_in_spec]
pub fn subsystem_compile_write() -> &'static [&'static str]
    returns
        subsystem_compile_write_names(),
{
    &["OutputDir", "outputDir", "Parent", "parent"]
}

/// The `subsystem_compile_guard` argument names.
pub open spec fn subsystem_compile_guard_names() -> &'static [&'static str] {
    &["Parent", "parent", "OutputDir", "outputDir"]
}

#[verifier::allow_in_spec]
pub fn subsystem_compile_guard() -> &'static [&'static str]
    returns
        subsystem_compile_guard_names(),
{
    &["Parent", "parent", "OutputDir", "outputDir"]
}

/// The `output_path` argument names.
pub open spec fn output_path_names() -> &'static [&'static str] {
    &["OutputPath", "outputPath"]
}

#[verifier::allow_in_spec]
pub fn output_path() -> &'static [&'static str]
    returns
        output_path_names(),
{
    &["OutputPath", "outputPath"]
}

/// The `template_path` argument names.
pub open spec fn template_path_names() -> &'static [&'static str] {
    &["TemplatePath", "templatePath", "Path", "path"]
}

#[verifier::allow_in_spec]
pub fn template_path() -> &'static [&'static str]
    returns
        template_path_names(),
{
    &["TemplatePath", "templatePath", "Path", "path"]
}

/// The `template_path_required` argument names.
pub open spec fn template_path_required_names() -> &'static [&'static str] {
    &["TemplatePath"]
}

#[verifier::allow_in_spec]
pub fn template_path_required() -> &'static [&'static str]
    returns
        template_path_required_names(),
{
    &["TemplatePath"]
}

/// The `rights_path` argument names.
pub open spec fn rights_path_names() -> &'static [&'static str] {
    &["RightsPath", "rightsPath", "Path", "path"]
}

#[verifier::allow_in_spec]
pub fn rights_path() -> &'static [&'static str]
    returns
        rights_path_names(),
{
    &["RightsPath", "rightsPath", "Path", "path"]
}

/// The `rights_path_required` argument names.
pub open spec fn rights_path_required_names() -> &'static [&'static str] {
    &["RightsPath"]
}

#[verifier::allow_in_spec]
pub fn rights_path_required() -> &'static [&'static str]
    returns
        rights_path_required_names(),
{
    &["RightsPath"]
}

/// The `support_path` argument names.
pub open spec fn support_path_names() -> &'static [&'static str] {
    &["Path", "path", "TargetPath", "targetPath"]
}

#[verifier::allow_in_spec]
pub fn support_path() -> &'static [&'static str]
    returns
        support_path_names(),
{
    &["Path", "path", "TargetPath", "targetPath"]
}

#[verifier::allow_in_spec]
pub fn meta_remove_required() -> &'static [&'static str]
    returns
        no_names(),
{
    &[]
}

/// The `cfe_diff_required` argument names.
pub open spec fn cfe_diff_required_names() -> &'static [&'static str] {
    &["ExtensionPath", "ConfigPath"]
}

#[verifier::allow_in_spec]
pub fn cfe_diff_required() -> &'static [&'static str]
    returns
        cfe_diff_required_names(),
{
    &["ExtensionPath", "ConfigPath"]
}

/// The `cfe_borrow_required` argument names.
pub open spec fn cfe_borrow_required_names() -> &'static [&'static str] {
    &["ExtensionPath", "ConfigPath", "Object"]
}

#[verifier::allow_in_spec]
pub fn cfe_borrow_required() -> &'static [&'static str]
    returns
        cfe_borrow_required_names(),
{
    &["ExtensionPath", "ConfigPath", "Object"]
}

/// The `cfe_patch_method_required` argument names.
pub open spec fn cfe_patch_method_required_names() -> &'static [&'static str] {
    &["ExtensionPath", "ModulePath", "MethodName", "InterceptorType"]
}

#[verifier::allow_in_spec]
pub fn cfe_patch_method_required() -> &'static [&'static str]
    returns
        cfe_patch_method_required_names(),
{
    &["ExtensionPath", "ModulePath", "MethodName", "InterceptorType"]
}

/// The `cfe_validate_required` argument names.
pub open spec fn cfe_validate_required_names() -> &'static [&'static str] {
    &["ExtensionPath"]
}

#[verifier::allow_in_spec]
pub fn cfe_validate_required() -> &'static [&'static str]
    returns
        cfe_validate_required_names(),
{
    &["ExtensionPath"]
}

/// The `object_name_required` argument names.
pub open spec fn object_name_required_names() -> &'static [&'static str] {
    &["ObjectName"]
}

#[verifier::allow_in_spec]
pub fn object_name_required() -> &'static [&'static str]
    returns
        object_name_required_names(),
{
    &["ObjectName"]
}

/// The `meta_compile_required` argument names.
pub open spec fn meta_compile_required_names() -> &'static [&'static str] {
    &["JsonPath", "OutputDir"]
}

#[verifier::allow_in_spec]
pub fn meta_compile_required() -> &'static [&'static str]
    returns
        meta_compile_required_names(),
{
    &["JsonPath", "OutputDir"]
}

/// The `form_compile_required` argument names.
pub open spec fn form_compile_required_names() -> &'static [&'static str] {
    &["OutputPath"]
}

#[verifier::allow_in_spec]
pub fn form_compile_required() -> &'static [&'static str]
    returns
        form_compile_required_names(),
{
    &["OutputPath"]
}

/// The `form_edit_required` argument names.
pub open spec fn form_edit_required_names() -> &'static [&'static str] {
    &["FormPath"]
}

#[verifier::allow_in_spec]
pub fn form_edit_required() -> &'static [&'static str]
    returns
        form_edit_required_names(),
{
    &["FormPath"]
}

/// The `subsystem_compile_required` argument names.
pub open spec fn subsystem_compile_required_names() -> &'static [&'static str] {
    &["OutputDir"]
}

#[verifier::allow_in_spec]
pub fn subsystem_compile_required() -> &'static [&'static str]
    returns
        subsystem_compile_required_names(),
{
    &["OutputDir"]
}

/// The `mxl_compile_required` argument names.
pub open spec fn mxl_compile_required_names() -> &'static [&'static str] {
    &["JsonPath", "OutputPath"]
}

#[verifier::allow_in_spec]
pub fn mxl_compile_required() -> &'static [&'static str]
    returns
        mxl_compile_required_names(),
{
    &["JsonPath", "OutputPath"]
}

/// The `role_compile_required` argument names.
pub open spec fn role_compile_required_names() -> &'static [&'static str] {
    &["JsonPath", "OutputDir"]
}

#[verifier::allow_in_spec]
pub fn role_compile_required() -> &'static [&'static str]
    returns
        role_compile_required_names(),
{
    &["JsonPath", "OutputDir"]
}

/// The `external_init_required` argument names.
pub open spec fn external_init_required_names() -> &'static [&'static str] {
    &["Name", "OutputDir"]
}

#[verifier::allow_in_spec]
pub fn external_init_required() -> &'static [&'static str]
    returns
        external_init_required_names(),
{
    &["Name", "OutputDir"]
}

/// The `code_patch_path` argument names.
pub open spec fn code_patch_path_names() -> &'static [&'static str] {
    &["path"]
}

#[verifier::allow_in_spec]
pub fn code_patch_path() -> &'static [&'static str]
    returns
        code_patch_path_names(),
{
    &["path"]
}

/// The `code_patch_required` argument names.
pub open spec fn code_patch_required_names() -> &'static [&'static str] {
    &["path", "operation", "selector", "content", "position"]
}

#[verifier::allow_in_spec]
pub fn code_patch_required() -> &'static [&'static str]
    returns
        code_patch_required_names(),
{
    &["path", "operation", "selector", "content", "position"]
}

/// The `json_path` argument names.
pub open spec fn json_path_names() -> &'static [&'static str] {
    &["JsonPath", "jsonPath"]
}

#[verifier::allow_in_spec]
pub fn json_path() -> &'static [&'static str]
    returns
        json_path_names(),
{
    &["JsonPath", "jsonPath"]
}

/// The `definition_file` argument names.
pub open spec fn definition_file_names() -> &'static [&'static str] {
    &["DefinitionFile", "definitionFile"]
}

#[verifier::allow_in_spec]
pub fn definition_file() -> &'static [&'static str]
    returns
        definition_file_names(),
{
    &["DefinitionFile", "definitionFile"]
}

/// The `module_path_args` argument names.
pub open spec fn module_path_args_names() -> &'static [&'static str] {
    &["ModulePath", "modulePath"]
}

#[verifier::allow_in_spec]
pub fn module_path_args() -> &'static [&'static str]
    returns
        module_path_args_names(),
{
    &["ModulePath", "modulePath"]
}

/// The `parent_path` argument names.
pub open spec fn parent_path_names() -> &'static [&'static str] {
    &["Parent", "parent"]
}

#[verifier::allow_in_spec]
pub fn parent_path() -> &'static [&'static str]
    returns
        parent_path_names(),
{
    &["Parent", "parent"]
}

// ---------------------------------------------------------------------------
// Builders
// ---------------------------------------------------------------------------

/// A descriptor with declared-argument paths and an existing-dump format guard.
#[verifier::allow_in_spec]
pub fn descriptor(
    operation: &'static str,
    required_args: &'static [&'static str],
    write_path_args: &'static [&'static str],
    source_path_args: &'static [&'static str],
    support_guard: Option<SupportGuardPolicy>,
) -> OperationDescriptor
    returns
        (OperationDescriptor {
            operation,
            required_args,
            write_path_args,
            source_path_args,
            format_path_policy: FormatPathPolicy::DeclaredArgs,
            format_guard: FormatGuardPolicy::ExistingDump,
            support_guard,
        }),
{
    OperationDescriptor {
        operation,
        required_args,
        write_path_args,
        source_path_args,
        format_path_policy: FormatPathPolicy::DeclaredArgs,
        format_guard: FormatGuardPolicy::ExistingDump,
        support_guard,
    }
}

/// A descriptor with declared-argument paths and the given format guard.
#[verifier::allow_in_spec]
pub fn descriptor_with_format(
    operation: &'static str,
    required_args: &'static [&'static str],
    write_path_args: &'static [&'static str],
    source_path_args: &'static [&'static str],
    format_guard: FormatGuardPolicy,
    support_guard: Option<SupportGuardPolicy>,
) -> OperationDescriptor
    returns
        (OperationDescriptor {
            operation,
            required_args,
            write_path_args,
            source_path_args,
            format_path_policy: FormatPathPolicy::DeclaredArgs,
            format_guard,
            support_guard,
        }),
{
    OperationDescriptor {
        operation,
        required_args,
        write_path_args,
        source_path_args,
        format_path_policy: FormatPathPolicy::DeclaredArgs,
        format_guard,
        support_guard,
    }
}

/// A descriptor with the given path policy and format guard.
#[verifier::allow_in_spec]
pub fn descriptor_with_paths(
    operation: &'static str,
    required_args: &'static [&'static str],
    write_path_args: &'static [&'static str],
    source_path_args: &'static [&'static str],
    format_guard: FormatGuardPolicy,
    format_path_policy: FormatPathPolicy,
    support_guard: Option<SupportGuardPolicy>,
) -> OperationDescriptor
    returns
        (OperationDescriptor {
            operation,
            required_args,
            write_path_args,
            source_path_args,
            format_path_policy,
            format_guard,
            support_guard,
        }),
{
    OperationDescriptor {
        operation,
        required_args,
        write_path_args,
        source_path_args,
        format_path_policy,
        format_guard,
        support_guard,
    }
}

/// A support guard on the objects named by path arguments.
#[verifier::allow_in_spec]
pub fn path_guard(
    names: &'static [&'static str],
    requirement: SupportGuardRequirement,
) -> SupportGuardPolicy
    returns
        (SupportGuardPolicy::PathArgs { names, requirement }),
{
    SupportGuardPolicy::PathArgs { names, requirement }
}

/// The support guard of metadata removal.
#[verifier::allow_in_spec]
pub fn meta_remove_guard() -> SupportGuardPolicy
    returns
        (SupportGuardPolicy::MetaRemove { requirement: SupportGuardRequirement::Removed }),
{
    SupportGuardPolicy::MetaRemove { requirement: SupportGuardRequirement::Removed }
}

/// A support guard on the object named by the `ObjectName` argument.
#[verifier::allow_in_spec]
pub fn object_name_guard(requirement: SupportGuardRequirement) -> SupportGuardPolicy
    returns
        (SupportGuardPolicy::ObjectName { requirement }),
{
    SupportGuardPolicy::ObjectName { requirement }
}

/// A path alias group.
#[verifier::allow_in_spec]
pub fn path_alias_group(
    canonical: &'static str,
    aliases: &'static [&'static str],
) -> PathAliasGroup
    returns
        (PathAliasGroup { canonical, aliases }),
{
    PathAliasGroup { canonical, aliases }
}

// ---------------------------------------------------------------------------
// Path alias groups
// ---------------------------------------------------------------------------

#[verifier::allow_in_spec]
pub fn cf_path_group() -> PathAliasGroup
    returns
        path_alias_group("ConfigPath", cf_path()),
{
    path_alias_group("ConfigPath", cf_path())
}

#[verifier::allow_in_spec]
pub fn config_dir_group() -> PathAliasGroup
    returns
        path_alias_group("ConfigDir", config_dir()),
{
    path_alias_group("ConfigDir", config_dir())
}

#[verifier::allow_in_spec]
pub fn output_dir_group() -> PathAliasGroup
    returns
        path_alias_group("OutputDir", output_dir()),
{
    path_alias_group("OutputDir", output_dir())
}

#[verifier::allow_in_spec]
pub fn extension_path_group() -> PathAliasGroup
    returns
        path_alias_group("ExtensionPath", extension_path()),
{
    path_alias_group("ExtensionPath", extension_path())
}

#[verifier::allow_in_spec]
pub fn cfe_validate_path_group() -> PathAliasGroup
    returns
        path_alias_group("ExtensionPath", cfe_validate_path()),
{
    path_alias_group("ExtensionPath", cfe_validate_path())
}

#[verifier::allow_in_spec]
pub fn cfe_init_output_group() -> PathAliasGroup
    returns
        path_alias_group("OutputDir", cfe_init_output()),
{
    path_alias_group("OutputDir", cfe_init_output())
}

#[verifier::allow_in_spec]
pub fn object_path_group() -> PathAliasGroup
    returns
        path_alias_group("ObjectPath", object_path()),
{
    path_alias_group("ObjectPath", object_path())
}

#[verifier::allow_in_spec]
pub fn src_dir_group() -> PathAliasGroup
    returns
        path_alias_group("SrcDir", src_dir()),
{
    path_alias_group("SrcDir", src_dir())
}

#[verifier::allow_in_spec]
pub fn form_path_group() -> PathAliasGroup
    returns
        path_alias_group("FormPath", form_path()),
{
    path_alias_group("FormPath", form_path())
}

#[verifier::allow_in_spec]
pub fn ci_path_group() -> PathAliasGroup
    returns
        path_alias_group("CIPath", ci_path()),
{
    path_alias_group("CIPath", ci_path())
}

#[verifier::allow_in_spec]
pub fn subsystem_path_group() -> PathAliasGroup
    returns
        path_alias_group("SubsystemPath", subsystem_path()),
{
    path_alias_group("SubsystemPath", subsystem_path())
}

#[verifier::allow_in_spec]
pub fn output_path_group() -> PathAliasGroup
    returns
        path_alias_group("OutputPath", output_path()),
{
    path_alias_group("OutputPath", output_path())
}

#[verifier::allow_in_spec]
pub fn template_path_group() -> PathAliasGroup
    returns
        path_alias_group("TemplatePath", template_path()),
{
    path_alias_group("TemplatePath", template_path())
}

#[verifier::allow_in_spec]
pub fn rights_path_group() -> PathAliasGroup
    returns
        path_alias_group("RightsPath", rights_path()),
{
    path_alias_group("RightsPath", rights_path())
}

#[verifier::allow_in_spec]
pub fn support_path_group() -> PathAliasGroup
    returns
        path_alias_group("Path", support_path()),
{
    path_alias_group("Path", support_path())
}

#[verifier::allow_in_spec]
pub fn json_path_group() -> PathAliasGroup
    returns
        path_alias_group("JsonPath", json_path()),
{
    path_alias_group("JsonPath", json_path())
}

#[verifier::allow_in_spec]
pub fn definition_file_group() -> PathAliasGroup
    returns
        path_alias_group("DefinitionFile", definition_file()),
{
    path_alias_group("DefinitionFile", definition_file())
}

#[verifier::allow_in_spec]
pub fn module_path_group() -> PathAliasGroup
    returns
        path_alias_group("ModulePath", module_path_args()),
{
    path_alias_group("ModulePath", module_path_args())
}

#[verifier::allow_in_spec]
pub fn parent_path_group() -> PathAliasGroup
    returns
        path_alias_group("Parent", parent_path()),
{
    path_alias_group("Parent", parent_path())
}

/// The path alias groups of an operation, by its name.
pub open spec fn alias_groups_for(operation: Seq<char>) -> Seq<PathAliasGroup> {
    if operation == "cf-edit"@ {
        seq![cf_path_group(), definition_file_group()]
    } else if operation == "cf-info"@ || operation == "cf-validate"@ {
        seq![cf_path_group()]
    } else if operation == "cf-init"@ {
        seq![output_dir_group()]
    } else if operation == "support-edit"@ {
        seq![support_path_group()]
    } else if operation == "cfe-borrow"@ || operation == "cfe-diff"@ {
        seq![extension_path_group(), cf_path_group()]
    } else if operation == "cfe-init"@ {
        seq![cf_path_group(), cfe_init_output_group()]
    } else if operation == "cfe-patch-method"@ {
        seq![extension_path_group(), module_path_group()]
    } else if operation == "cfe-validate"@ {
        seq![cfe_validate_path_group()]
    } else if operation == "meta-compile"@ || operation == "role-compile"@ {
        seq![json_path_group(), output_dir_group()]
    } else if operation == "meta-edit"@ {
        seq![object_path_group(), definition_file_group()]
    } else if operation == "meta-info"@ || operation == "meta-validate"@ {
        seq![object_path_group()]
    } else if operation == "meta-remove"@ {
        seq![config_dir_group()]
    } else if operation == "help-add"@ || operation == "form-remove"@ || operation
        == "template-add"@ || operation == "template-remove"@ {
        seq![src_dir_group()]
    } else if operation == "form-add"@ {
        seq![object_path_group()]
    } else if operation == "form-compile"@ {
        seq![json_path_group(), object_path_group(), output_path_group()]
    } else if operation == "form-edit"@ {
        seq![form_path_group(), json_path_group()]
    } else if operation == "form-info"@ || operation == "form-validate"@ {
        seq![form_path_group()]
    } else if operation == "interface-edit"@ {
        seq![ci_path_group(), definition_file_group()]
    } else if operation == "interface-validate"@ {
        seq![ci_path_group()]
    } else if operation == "subsystem-compile"@ {
        seq![output_dir_group(), parent_path_group(), definition_file_group()]
    } else if operation == "subsystem-edit"@ {
        seq![subsystem_path_group(), definition_file_group()]
    } else if operation == "subsystem-info"@ || operation == "subsystem-validate"@ {
        seq![subsystem_path_group()]
    } else if operation == "dcs-compile"@ {
        seq![output_path_group(), definition_file_group()]
    } else if operation == "dcs-edit"@ {
        seq![template_path_group(), definition_file_group()]
    } else if operation == "dcs-info"@ || operation == "dcs-validate"@ {
        seq![template_path_group()]
    } else if operation == "mxl-decompile"@ || operation == "mxl-info"@ || operation
        == "mxl-validate"@ {
        seq![template_path_group(), src_dir_group()]
    } else if operation == "mxl-compile"@ {
        seq![json_path_group(), output_path_group()]
    } else if operation == "role-info"@ || operation == "role-validate"@ {
        seq![rights_path_group()]
    } else {
        Seq::empty()
    }
}

/// Every path alias group accepts its canonical name as its first spelling.
pub proof fn law_alias_groups_lead_with_their_canonical_name(operation: Seq<char>, i: int)
    requires
        0 <= i < alias_groups_for(operation).len(),
    ensures
        alias_groups_for(operation)[i].aliases@.len() > 0,
        alias_groups_for(operation)[i].aliases@[0] == alias_groups_for(operation)[i].canonical,
{
}

/// The path alias groups of a native operation.
pub fn native_path_alias_groups(operation: &str) -> (r: Vec<PathAliasGroup>)
    ensures
        r@ == alias_groups_for(operation@),
{
    if str_eq(operation, "cf-edit") {
        vec![cf_path_group(), definition_file_group()]
    } else if str_eq(operation, "cf-info") || str_eq(operation, "cf-validate") {
        vec![cf_path_group()]
    } else if str_eq(operation, "cf-init") {
        vec![output_dir_group()]
    } else if str_eq(operation, "support-edit") {
        vec![support_path_group()]
    } else if str_eq(operation, "cfe-borrow") || str_eq(operation, "cfe-diff") {
        vec![extension_path_group(), cf_path_group()]
    } else if str_eq(operation, "cfe-init") {
        vec![cf_path_group(), cfe_init_output_group()]
    } else if str_eq(operation, "cfe-patch-method") {
        vec![extension_path_group(), module_path_group()]
    } else if str_eq(operation, "cfe-validate") {
        vec![cfe_validate_path_group()]
    } else if str_eq(operation, "meta-compile") || str_eq(operation, "role-compile") {
        vec![json_path_group(), output_dir_group()]
    } else if str_eq(operation, "meta-edit") {
        vec![object_path_group(), definition_file_group()]
    } else if str_eq(operation, "meta-info") || str_eq(operation, "meta-validate") {
        vec![object_path_group()]
    } else if str_eq(operation, "meta-remove") {
        vec![config_dir_group()]
    } else if str_eq(operation, "help-add") || str_eq(operation, "form-remove") || str_eq(
        operation,
        "template-add",
    ) || str_eq(operation, "template-remove") {
        vec![src_dir_group()]
    } else if str_eq(operation, "form-add") {
        vec![object_path_group()]
    } else if str_eq(operation, "form-compile") {
        vec![json_path_group(), object_path_group(), output_path_group()]
    } else if str_eq(operation, "form-edit") {
        vec![form_path_group(), json_path_group()]
    } else if str_eq(operation, "form-info") || str_eq(operation, "form-validate") {
        vec![form_path_group()]
    } else if str_eq(operation, "interface-edit") {
        vec![ci_path_group(), definition_file_group()]
    } else if str_eq(operation, "interface-validate") {
        vec![ci_path_group()]
    } else if str_eq(operation, "subsystem-compile") {
        vec![output_dir_group(), parent_path_group(), definition_file_group()]
    } else if str_eq(operation, "subsystem-edit") {
        vec![subsystem_path_group(), definition_file_group()]
    } else if str_eq(operation, "subsystem-info") || str_eq(operation, "subsystem-validate") {
        vec![subsystem_path_group()]
    } else if str_eq(operation, "dcs-compile") {
        vec![output_path_group(), definition_file_group()]
    } else if str_eq(operation, "dcs-edit") {
        vec![template_path_group(), definition_file_group()]
    } else if str_eq(operation, "dcs-info") || str_eq(operation, "dcs-validate") {
        vec![template_path_group()]
    } else if str_eq(operation, "mxl-decompile") || str_eq(operation, "mxl-info") || str_eq(
        operation,
        "mxl-validate",
    ) {
        vec![template_path_group(), src_dir_group()]
    } else if str_eq(operation, "mxl-compile") {
        vec![json_path_group(), output_path_group()]
    } else if str_eq(operation, "role-info") || str_eq(operation, "role-validate") {
        vec![rights_path_group()]
    } else {
        Vec::new()
    }
}

// ---------------------------------------------------------------------------
// Descriptor table
// ---------------------------------------------------------------------------

/// Every native operation's descriptor, in lookup order.
pub open spec fn descriptor_table() -> Seq<OperationDescriptor> {
    seq![
        descriptor_with_format(
            "code-patch",
            code_patch_required(),
            code_patch_path(),
            code_patch_path(),
            FormatGuardPolicy::ExistingDump,
            Some(path_guard(
                code_patch_path(),
                SupportGuardRequirement::Editable,
            )),
        ),
        descriptor("ibases-list", empty(), empty(), empty(), None),
        descriptor_with_paths(
            "cf-edit",
            empty(),
            cf_path(),
            cf_path(),
            FormatGuardPolicy::ExistingDump,
            FormatPathPolicy::HandlerResolved,
            Some(path_guard(cf_path(), SupportGuardRequirement::Editable)),
        ),
        descriptor_with_paths(
            "cf-info",
            &["ConfigPath"],
            empty(),
            cf_path(),
            FormatGuardPolicy::ExistingDump,
            FormatPathPolicy::HandlerResolved,
            None,
        ),
        descriptor_with_format(
            "cf-init",
            empty(),
            output_dir(),
            output_dir(),
            FormatGuardPolicy::NewDump,
            None,
        ),
        descriptor_with_paths(
            "cf-validate",
            &["ConfigPath"],
            empty(),
            cf_path(),
            FormatGuardPolicy::ExistingDump,
            FormatPathPolicy::HandlerResolved,
            None,
        ),
        descriptor("support-edit", empty(), support_path(), support_path(), None),
        descriptor(
            "cfe-borrow",
            cfe_borrow_required(),
            extension_path(),
            cfe_borrow_source(),
            None,
        ),
        descriptor(
            "cfe-diff",
            cfe_diff_required(),
            empty(),
            &["ExtensionPath", "ConfigPath", "extensionPath", "configPath"],
            None,
        ),
        descriptor_with_format(
            "cfe-init",
            empty(),
            cfe_init_output(),
            cfe_init_base(),
            FormatGuardPolicy::OptionalExistingBase,
            None,
        ),
        descriptor_with_format(
            "epf-init",
            external_init_required(),
            output_dir(),
            output_dir(),
            FormatGuardPolicy::NewDump,
            None,
        ),
        descriptor_with_format(
            "erf-init",
            external_init_required(),
            output_dir(),
            output_dir(),
            FormatGuardPolicy::NewDump,
            None,
        ),
        descriptor(
            "cfe-patch-method",
            cfe_patch_method_required(),
            extension_path(),
            extension_path(),
            None,
        ),
        descriptor_with_paths(
            "cfe-validate",
            cfe_validate_required(),
            empty(),
            cfe_validate_path(),
            FormatGuardPolicy::ExistingDump,
            FormatPathPolicy::HandlerResolved,
            None,
        ),
        descriptor(
            "meta-compile",
            meta_compile_required(),
            output_dir(),
            output_dir(),
            Some(path_guard(output_dir(), SupportGuardRequirement::Editable)),
        ),
        descriptor_with_paths(
            "meta-edit",
            object_path_required(),
            object_path(),
            object_path(),
            FormatGuardPolicy::ExistingDump,
            FormatPathPolicy::HandlerResolved,
            Some(path_guard(object_path(), SupportGuardRequirement::Editable)),
        ),
        descriptor_with_paths(
            "meta-info",
            object_path_required(),
            empty(),
            object_path(),
            FormatGuardPolicy::ExistingDump,
            FormatPathPolicy::HandlerResolved,
            None,
        ),
        descriptor(
            "meta-remove",
            meta_remove_required(),
            config_dir(),
            config_dir(),
            Some(meta_remove_guard()),
        ),
        descriptor_with_paths(
            "meta-validate",
            object_path_required(),
            empty(),
            object_path(),
            FormatGuardPolicy::ExistingDump,
            FormatPathPolicy::HandlerResolved,
            None,
        ),
        descriptor_with_paths(
            "help-add",
            object_name_required(),
            src_dir(),
            src_dir(),
            FormatGuardPolicy::ExistingDump,
            FormatPathPolicy::DefaultSrcObject,
            Some(object_name_guard(SupportGuardRequirement::Editable)),
        ),
        descriptor_with_paths(
            "form-add",
            empty(),
            object_path(),
            object_path(),
            FormatGuardPolicy::ExistingDump,
            FormatPathPolicy::HandlerResolved,
            Some(path_guard(object_path(), SupportGuardRequirement::Editable)),
        ),
        descriptor_with_paths(
            "form-compile",
            form_compile_required(),
            output_path(),
            output_path(),
            FormatGuardPolicy::ExistingDump,
            FormatPathPolicy::FormCompile,
            Some(path_guard(output_path(), SupportGuardRequirement::Editable)),
        ),
        descriptor(
            "form-edit",
            form_edit_required(),
            form_path(),
            form_path(),
            Some(path_guard(form_path(), SupportGuardRequirement::Editable)),
        ),
        descriptor_with_paths(
            "form-info",
            form_path_required(),
            empty(),
            form_path(),
            FormatGuardPolicy::ExistingDump,
            FormatPathPolicy::HandlerResolved,
            None,
        ),
        descriptor_with_paths(
            "form-remove",
            empty(),
            src_dir(),
            src_dir(),
            FormatGuardPolicy::ExistingDump,
            FormatPathPolicy::DefaultSrcObject,
            Some(object_name_guard(SupportGuardRequirement::Editable)),
        ),
        descriptor_with_paths(
            "form-validate",
            form_path_required(),
            empty(),
            form_path(),
            FormatGuardPolicy::ExistingDump,
            FormatPathPolicy::HandlerResolved,
            None,
        ),
        descriptor(
            "interface-edit",
            ci_path_required(),
            ci_path(),
            ci_path(),
            Some(path_guard(ci_path(), SupportGuardRequirement::Editable)),
        ),
        descriptor_with_paths(
            "interface-validate",
            ci_path_required(),
            empty(),
            ci_path(),
            FormatGuardPolicy::ExistingDump,
            FormatPathPolicy::HandlerResolved,
            None,
        ),
        descriptor(
            "subsystem-compile",
            subsystem_compile_required(),
            subsystem_compile_write(),
            subsystem_compile_write(),
            Some(path_guard(
                subsystem_compile_guard(),
                SupportGuardRequirement::Editable,
            )),
        ),
        descriptor_with_paths(
            "subsystem-edit",
            subsystem_path_required(),
            subsystem_path(),
            subsystem_path(),
            FormatGuardPolicy::ExistingDump,
            FormatPathPolicy::HandlerResolved,
            Some(path_guard(
                subsystem_path(),
                SupportGuardRequirement::Editable,
            )),
        ),
        descriptor(
            "subsystem-info",
            subsystem_path_required(),
            empty(),
            subsystem_path(),
            None,
        ),
        descriptor(
            "subsystem-validate",
            subsystem_path_required(),
            empty(),
            subsystem_path(),
            None,
        ),
        descriptor_with_paths(
            "template-add",
            empty(),
            src_dir(),
            src_dir(),
            FormatGuardPolicy::ExistingDump,
            FormatPathPolicy::DefaultSrcObject,
            Some(object_name_guard(SupportGuardRequirement::Editable)),
        ),
        descriptor_with_paths(
            "template-remove",
            empty(),
            src_dir(),
            src_dir(),
            FormatGuardPolicy::ExistingDump,
            FormatPathPolicy::DefaultSrcObject,
            Some(object_name_guard(SupportGuardRequirement::Editable)),
        ),
        descriptor(
            "dcs-compile",
            empty(),
            output_path(),
            output_path(),
            Some(path_guard(output_path(), SupportGuardRequirement::Editable)),
        ),
        descriptor_with_paths(
            "dcs-edit",
            template_path_required(),
            template_path(),
            template_path(),
            FormatGuardPolicy::ExistingDump,
            FormatPathPolicy::HandlerResolved,
            Some(path_guard(template_path(), SupportGuardRequirement::Editable)),
        ),
        descriptor(
            "dcs-info",
            template_path_required(),
            empty(),
            template_path(),
            None,
        ),
        descriptor_with_paths(
            "dcs-validate",
            template_path_required(),
            empty(),
            template_path(),
            FormatGuardPolicy::ExistingDump,
            FormatPathPolicy::HandlerResolved,
            None,
        ),
        descriptor_with_format(
            "mxl-compile",
            mxl_compile_required(),
            output_path(),
            output_path(),
            FormatGuardPolicy::ExistingDump,
            Some(path_guard(output_path(), SupportGuardRequirement::Editable)),
        ),
        descriptor(
            "mxl-decompile",
            template_path_required(),
            empty(),
            template_path(),
            None,
        ),
        descriptor(
            "mxl-info",
            template_path_required(),
            empty(),
            template_path(),
            None,
        ),
        descriptor_with_paths(
            "mxl-validate",
            template_path_required(),
            empty(),
            template_path(),
            FormatGuardPolicy::ExistingDump,
            FormatPathPolicy::HandlerResolved,
            None,
        ),
        descriptor(
            "role-compile",
            role_compile_required(),
            output_dir(),
            output_dir(),
            Some(path_guard(output_dir(), SupportGuardRequirement::Editable)),
        ),
        descriptor_with_paths(
            "role-info",
            rights_path_required(),
            empty(),
            rights_path(),
            FormatGuardPolicy::ExistingDump,
            FormatPathPolicy::HandlerResolved,
            None,
        ),
        descriptor_with_paths(
            "role-validate",
            rights_path_required(),
            empty(),
            rights_path(),
            FormatGuardPolicy::ExistingDump,
            FormatPathPolicy::HandlerResolved,
            None,
        ),
    ]
}

/// The first descriptor in `table` for `operation`.
pub open spec fn first_descriptor(table: Seq<OperationDescriptor>, operation: Seq<char>) -> Option<
    OperationDescriptor,
>
    decreases table.len(),
{
    if table.len() == 0 {
        None
    } else if table[0].operation@ == operation {
        Some(table[0])
    } else {
        first_descriptor(table.drop_first(), operation)
    }
}

/// The descriptor of a native operation, by its name.
pub open spec fn find_descriptor(operation: Seq<char>) -> Option<OperationDescriptor> {
    first_descriptor(descriptor_table(), operation)
}

pub fn build_descriptor_table() -> (v: Vec<OperationDescriptor>)
    ensures
        v@ == descriptor_table(),
{
    vec![
        descriptor_with_format(
            "code-patch",
            code_patch_required(),
            code_patch_path(),
            code_patch_path(),
            FormatGuardPolicy::ExistingDump,
            Some(path_guard(
                code_patch_path(),
                SupportGuardRequirement::Editable,
            )),
        ),
        descriptor("ibases-list", empty(), empty(), empty(), None),
        descriptor_with_paths(
            "cf-edit",
            empty(),
            cf_path(),
            cf_path(),
            FormatGuardPolicy::ExistingDump,
            FormatPathPolicy::HandlerResolved,
            Some(path_guard(cf_path(), SupportGuardRequirement::Editable)),
        ),
        descriptor_with_paths(
            "cf-info",
            &["ConfigPath"],
            empty(),
            cf_path(),
            FormatGuardPolicy::ExistingDump,
            FormatPathPolicy::HandlerResolved,
            None,
        ),
        descriptor_with_format(
            "cf-init",
            empty(),
            output_dir(),
            output_dir(),
            FormatGuardPolicy::NewDump,
            None,
        ),
        descriptor_with_paths(
            "cf-validate",
            &["ConfigPath"],
            empty(),
            cf_path(),
            FormatGuardPolicy::ExistingDump,
            FormatPathPolicy::HandlerResolved,
            None,
        ),
        descriptor("support-edit", empty(), support_path(), support_path(), None),
        descriptor(
            "cfe-borrow",
            cfe_borrow_required(),
            extension_path(),
            cfe_borrow_source(),
            None,
        ),
        descriptor(
            "cfe-diff",
            cfe_diff_required(),
            empty(),
            &["ExtensionPath", "ConfigPath", "extensionPath", "configPath"],
            None,
        ),
        descriptor_with_format(
            "cfe-init",
            empty(),
            cfe_init_output(),
            cfe_init_base(),
            FormatGuardPolicy::OptionalExistingBase,
            None,
        ),
        descriptor_with_format(
            "epf-init",
            external_init_required(),
            output_dir(),
            output_dir(),
            FormatGuardPolicy::NewDump,
            None,
        ),
        descriptor_with_format(
            "erf-init",
            external_init_required(),
            output_dir(),
            output_dir(),
            FormatGuardPolicy::NewDump,
            None,
        ),
        descriptor(
            "cfe-patch-method",
            cfe_patch_method_required(),
            extension_path(),
            extension_path(),
            None,
        ),
        descriptor_with_paths(
            "cfe-validate",
            cfe_validate_required(),
            empty(),
            cfe_validate_path(),
            FormatGuardPolicy::ExistingDump,
            FormatPathPolicy::HandlerResolved,
            None,
        ),
        descriptor(
            "meta-compile",
            meta_compile_required(),
            output_dir(),
            output_dir(),
            Some(path_guard(output_dir(), SupportGuardRequirement::Editable)),
        ),
        descriptor_with_paths(
            "meta-edit",
            object_path_required(),
            object_path(),
            object_path(),
            FormatGuardPolicy::ExistingDump,
            FormatPathPolicy::HandlerResolved,
            Some(path_guard(object_path(), SupportGuardRequirement::Editable)),
        ),
        descriptor_with_paths(
            "meta-info",
            object_path_required(),
            empty(),
            object_path(),
            FormatGuardPolicy::ExistingDump,
            FormatPathPolicy::HandlerResolved,
            None,
        ),
        descriptor(
            "meta-remove",
            meta_remove_required(),
            config_dir(),
            config_dir(),
            Some(meta_remove_guard()),
        ),
        descriptor_with_paths(
            "meta-validate",
            object_path_required(),
            empty(),
            object_path(),
            FormatGuardPolicy::ExistingDump,
            FormatPathPolicy::HandlerResolved,
            None,
        ),
        descriptor_with_paths(
            "help-add",
            object_name_required(),
            src_dir(),
            src_dir(),
            FormatGuardPolicy::ExistingDump,
            FormatPathPolicy::DefaultSrcObject,
            Some(object_name_guard(SupportGuardRequirement::Editable)),
        ),
        descriptor_with_paths(
            "form-add",
            empty(),
            object_path(),
            object_path(),
            FormatGuardPolicy::ExistingDump,
            FormatPathPolicy::HandlerResolved,
            Some(path_guard(object_path(), SupportGuardRequirement::Editable)),
        ),
        descriptor_with_paths(
            "form-compile",
            form_compile_required(),
            output_path(),
            output_path(),
            FormatGuardPolicy::ExistingDump,
            FormatPathPolicy::FormCompile,
            Some(path_guard(output_path(), SupportGuardRequirement::Editable)),
        ),
        descriptor(
            "form-edit",
            form_edit_required(),
            form_path(),
            form_path(),
            Some(path_guard(form_path(), SupportGuardRequirement::Editable)),
        ),
        descriptor_with_paths(
            "form-info",
            form_path_required(),
            empty(),
            form_path(),
            FormatGuardPolicy::ExistingDump,
            FormatPathPolicy::HandlerResolved,
            None,
        ),
        descriptor_with_paths(
            "form-remove",
            empty(),
            src_dir(),
            src_dir(),
            FormatGuardPolicy::ExistingDump,
            FormatPathPolicy::DefaultSrcObject,
            Some(object_name_guard(SupportGuardRequirement::Editable)),
        ),
        descriptor_with_paths(
            "form-validate",
            form_path_required(),
            empty(),
            form_path(),
            FormatGuardPolicy::ExistingDump,
            FormatPathPolicy::HandlerResolved,
            None,
        ),
        descriptor(
            "interface-edit",
            ci_path_required(),
            ci_path(),
            ci_path(),
            Some(path_guard(ci_path(), SupportGuardRequirement::Editable)),
        ),
        descriptor_with_paths(
            "interface-validate",
            ci_path_required(),
            empty(),
            ci_path(),
            FormatGuardPolicy::ExistingDump,
            FormatPathPolicy::HandlerResolved,
            None,
        ),
        descriptor(
            "subsystem-compile",
            subsystem_compile_required(),
            subsystem_compile_write(),
            subsystem_compile_write(),
            Some(path_guard(
                subsystem_compile_guard(),
                SupportGuardRequirement::Editable,
            )),
        ),
        descriptor_with_paths(
            "subsystem-edit",
            subsystem_path_required(),
            subsystem_path(),
            subsystem_path(),
            FormatGuardPolicy::ExistingDump,
            FormatPathPolicy::HandlerResolved,
            Some(path_guard(
                subsystem_path(),
                SupportGuardRequirement::Editable,
            )),
        ),
        descriptor(
            "subsystem-info",
            subsystem_path_required(),
            empty(),
            subsystem_path(),
            None,
        ),
        descriptor(
            "subsystem-validate",
            subsystem_path_required(),
            empty(),
            subsystem_path(),
            None,
        ),
        descriptor_with_paths(
            "template-add",
            empty(),
            src_dir(),
            src_dir(),
            FormatGuardPolicy::ExistingDump,
            FormatPathPolicy::DefaultSrcObject,
            Some(object_name_guard(SupportGuardRequirement::Editable)),
        ),
        descriptor_with_paths(
            "template-remove",
            empty(),
            src_dir(),
            src_dir(),
            FormatGuardPolicy::ExistingDump,
            FormatPathPolicy::DefaultSrcObject,
            Some(object_name_guard(SupportGuardRequirement::Editable)),
        ),
        descriptor(
            "dcs-compile",
            empty(),
            output_path(),
            output_path(),
            Some(path_guard(output_path(), SupportGuardRequirement::Editable)),
        ),
        descriptor_with_paths(
            "dcs-edit",
            template_path_required(),
            template_path(),
            template_path(),
            FormatGuardPolicy::ExistingDump,
            FormatPathPolicy::HandlerResolved,
            Some(path_guard(template_path(), SupportGuardRequirement::Editable)),
        ),
        descriptor(
            "dcs-info",
            template_path_required(),
            empty(),
            template_path(),
            None,
        ),
        descriptor_with_paths(
            "dcs-validate",
            template_path_required(),
            empty(),
            template_path(),
            FormatGuardPolicy::ExistingDump,
            FormatPathPolicy::HandlerResolved,
            None,
        ),
        descriptor_with_format(
            "mxl-compile",
            mxl_compile_required(),
            output_path(),
            output_path(),
            FormatGuardPolicy::ExistingDump,
            Some(path_guard(output_path(), SupportGuardRequirement::Editable)),
        ),
        descriptor(
            "mxl-decompile",
            template_path_required(),
            empty(),
            template_path(),
            None,
        ),
        descriptor(
            "mxl-info",
            template_path_required(),
            empty(),
            template_path(),
            None,
        ),
        descriptor_with_paths(
            "mxl-validate",
            template_path_required(),
            empty(),
            template_path(),
            FormatGuardPolicy::ExistingDump,
            FormatPathPolicy::HandlerResolved,
            None,
        ),
        descriptor(
            "role-compile",
            role_compile_required(),
            output_dir(),
            output_dir(),
            Some(path_guard(output_dir(), SupportGuardRequirement::Editable)),
        ),
        descriptor_with_paths(
            "role-info",
            rights_path_required(),
            empty(),
            rights_path(),
            FormatGuardPolicy::ExistingDump,
            FormatPathPolicy::HandlerResolved,
            None,
        ),
        descriptor_with_paths(
            "role-validate",
            rights_path_required(),
            empty(),
            rights_path(),
            FormatGuardPolicy::ExistingDump,
            FormatPathPolicy::HandlerResolved,
            None,
        ),
    ]
}

proof fn lemma_first_descriptor_skip(table: Seq<OperationDescriptor>, operation: Seq<char>, i: int)
    requires
        0 <= i <= table.len(),
        forall|j: int| 0 <= j < i ==> (#[trigger] table[j]).operation@ != operation,
    ensures
        first_descriptor(table, operation) == first_descriptor(
            table.subrange(i, table.len() as int),
            operation,
        ),
    decreases i,
{
    if i > 0 {
        assert(table.drop_first().subrange(i - 1, table.drop_first().len() as int) =~= table.subrange(
            i,
            table.len() as int,
        ));
        assert forall|j: int| 0 <= j < i - 1 implies (#[trigger] table.drop_first()[j]).operation@
            != operation by {
            assert(table.drop_first()[j] == table[j + 1]);
        }
        lemma_first_descriptor_skip(table.drop_first(), operation, i - 1);
    } else {
        assert(table.subrange(0, table.len() as int) =~= table);
    }
}

/// The descriptor of a native operation, by its name.
pub fn native_operation_descriptor(operation: &str) -> (r: Option<OperationDescriptor>)
    ensures
        r == find_descriptor(operation@),
{
    let table = build_descriptor_table();
    let mut i: usize = 0;
    while i < table.len()
        invariant
            table@ == descriptor_table(),
            i <= table.len(),
            forall|j: int| 0 <= j < i ==> (#[trigger] table@[j]).operation@ != operation@,
        decreases table.len() - i,
    {
        if str_eq(table[i].operation, operation) {
            proof {
                lemma_first_descriptor_skip(table@, operation@, i as int);
            }
            return Some(table[i]);
        }
        i = i + 1;
    }
    proof {
        lemma_first_descriptor_skip(table@, operation@, table.len() as int);
    }
    None
}

/// The operations whose support guard resolves the object by its name.
pub open spec fn resolves_object_name(operation: Seq<char>) -> bool {
    operation == "help-add"@ || operation == "form-remove"@ || operation == "template-add"@
        || operation == "template-remove"@
}

/// What a descriptor's support guard must say: a path guard names at least one
/// argument and demands an editable owner; only metadata removal demands a
/// removed object; only help, form removal and template changes resolve the
/// object by name.
pub open spec fn support_guard_explicit(d: OperationDescriptor) -> bool {
    match d.support_guard {
        Some(SupportGuardPolicy::PathArgs { names, requirement }) => names@.len() > 0
            && requirement == SupportGuardRequirement::Editable,
        Some(SupportGuardPolicy::MetaRemove { requirement }) => d.operation@ == "meta-remove"@
            && requirement == SupportGuardRequirement::Removed,
        Some(SupportGuardPolicy::ObjectName { requirement }) => resolves_object_name(d.operation@)
            && requirement == SupportGuardRequirement::Editable,
        None => true,
    }
}

/// Every descriptor states its support guard explicitly: path guards name
/// their targets and demand an editable owner, metadata removal alone demands
/// a removed object, and only the operations on named objects resolve it by
/// name.
pub proof fn law_support_guards_are_explicit(i: int)
    requires
        0 <= i < descriptor_table().len(),
    ensures
        support_guard_explicit(descriptor_table()[i]),
{
}

/// Four letters that tell every operation name apart: its length and its
/// second, fourth and last characters.
pub open spec fn name_key(s: Seq<char>) -> (nat, char, char, char) {
    (s.len(), s[1], s[3], s[s.len() - 1])
}

/// No two descriptors describe the same operation.
pub proof fn law_descriptor_names_are_distinct()
    ensures
        forall|i: int, j: int|
            0 <= i < j < descriptor_table().len() ==> (#[trigger] descriptor_table()[i]).operation@
                != (#[trigger] descriptor_table()[j]).operation@,
{
    reveal_strlit("code-patch");
    reveal_strlit("ibases-list");
    reveal_strlit("cf-edit");
    reveal_strlit("cf-info");
    reveal_strlit("cf-init");
    reveal_strlit("cf-validate");
    reveal_strlit("support-edit");
    reveal_strlit("cfe-borrow");
    reveal_strlit("cfe-diff");
    reveal_strlit("cfe-init");
    reveal_strlit("epf-init");
    reveal_strlit("erf-init");
    reveal_strlit("cfe-patch-method");
    reveal_strlit("cfe-validate");
    reveal_strlit("meta-compile");
    reveal_strlit("meta-edit");
    reveal_strlit("meta-info");
    reveal_strlit("meta-remove");
    reveal_strlit("meta-validate");
    reveal_strlit("help-add");
    reveal_strlit("form-add");
    reveal_strlit("form-compile");
    reveal_strlit("form-edit");
    reveal_strlit("form-info");
    reveal_strlit("form-remove");
    reveal_strlit("form-validate");
    reveal_strlit("interface-edit");
    reveal_strlit("interface-validate");
    reveal_strlit("subsystem-compile");
    reveal_strlit("subsystem-edit");
    reveal_strlit("subsystem-info");
    reveal_strlit("subsystem-validate");
    reveal_strlit("template-add");
    reveal_strlit("template-remove");
    reveal_strlit("dcs-compile");
    reveal_strlit("dcs-edit");
    reveal_strlit("dcs-info");
    reveal_strlit("dcs-validate");
    reveal_strlit("mxl-compile");
    reveal_strlit("mxl-decompile");
    reveal_strlit("mxl-info");
    reveal_strlit("mxl-validate");
    reveal_strlit("role-compile");
    reveal_strlit("role-info");
    reveal_strlit("role-validate");
    assert(name_key("code-patch"@) == (10nat, 'o', 'e', 'h'));
    assert(name_key("ibases-list"@) == (11nat, 'b', 's', 't'));
    assert(name_key("cf-edit"@) == (7nat, 'f', 'e', 't'));
    assert(name_key("cf-info"@) == (7nat, 'f', 'i', 'o'));
    assert(name_key("cf-init"@) == (7nat, 'f', 'i', 't'));
    assert(name_key("cf-validate"@) == (11nat, 'f', 'v', 'e'));
    assert(name_key("support-edit"@) == (12nat, 'u', 'p', 't'));
    assert(name_key("cfe-borrow"@) == (10nat, 'f', '-', 'w'));
    assert(name_key("cfe-diff"@) == (8nat, 'f', '-', 'f'));
    assert(name_key("cfe-init"@) == (8nat, 'f', '-', 't'));
    assert(name_key("epf-init"@) == (8nat, 'p', '-', 't'));
    assert(name_key("erf-init"@) == (8nat, 'r', '-', 't'));
    assert(name_key("cfe-patch-method"@) == (16nat, 'f', '-', 'd'));
    assert(name_key("cfe-validate"@) == (12nat, 'f', '-', 'e'));
    assert(name_key("meta-compile"@) == (12nat, 'e', 'a', 'e'));
    assert(name_key("meta-edit"@) == (9nat, 'e', 'a', 't'));
    assert(name_key("meta-info"@) == (9nat, 'e', 'a', 'o'));
    assert(name_key("meta-remove"@) == (11nat, 'e', 'a', 'e'));
    assert(name_key("meta-validate"@) == (13nat, 'e', 'a', 'e'));
    assert(name_key("help-add"@) == (8nat, 'e', 'p', 'd'));
    assert(name_key("form-add"@) == (8nat, 'o', 'm', 'd'));
    assert(name_key("form-compile"@) == (12nat, 'o', 'm', 'e'));
    assert(name_key("form-edit"@) == (9nat, 'o', 'm', 't'));
    assert(name_key("form-info"@) == (9nat, 'o', 'm', 'o'));
    assert(name_key("form-remove"@) == (11nat, 'o', 'm', 'e'));
    assert(name_key("form-validate"@) == (13nat, 'o', 'm', 'e'));
    assert(name_key("interface-edit"@) == (14nat, 'n', 'e', 't'));
    assert(name_key("interface-validate"@) == (18nat, 'n', 'e', 'e'));
    assert(name_key("subsystem-compile"@) == (17nat, 'u', 's', 'e'));
    assert(name_key("subsystem-edit"@) == (14nat, 'u', 's', 't'));
    assert(name_key("subsystem-info"@) == (14nat, 'u', 's', 'o'));
    assert(name_key("subsystem-validate"@) == (18nat, 'u', 's', 'e'));
    assert(name_key("template-add"@) == (12nat, 'e', 'p', 'd'));
    assert(name_key("template-remove"@) == (15nat, 'e', 'p', 'e'));
    assert(name_key("dcs-compile"@) == (11nat, 'c', '-', 'e'));
    assert(name_key("dcs-edit"@) == (8nat, 'c', '-', 't'));
    assert(name_key("dcs-info"@) == (8nat, 'c', '-', 'o'));
    assert(name_key("dcs-validate"@) == (12nat, 'c', '-', 'e'));
    assert(name_key("mxl-compile"@) == (11nat, 'x', '-', 'e'));
    assert(name_key("mxl-decompile"@) == (13nat, 'x', '-', 'e'));
    assert(name_key("mxl-info"@) == (8nat, 'x', '-', 'o'));
    assert(name_key("mxl-validate"@) == (12nat, 'x', '-', 'e'));
    assert(name_key("role-compile"@) == (12nat, 'o', 'e', 'e'));
    assert(name_key("role-info"@) == (9nat, 'o', 'e', 'o'));
    assert(name_key("role-validate"@) == (13nat, 'o', 'e', 'e'));
    let t = descriptor_table();
    assert forall|i: int, j: int|
        0 <= i < j < t.len() implies (#[trigger] t[i]).operation@ != (#[trigger] t[j]).operation@ by {
        assert(name_key(t[i].operation@) != name_key(t[j].operation@));
    }
}

/// Looking up the operation of any descriptor finds that very descriptor.
pub proof fn law_lookup_finds_each_descriptor(k: int)
    requires
        0 <= k < descriptor_table().len(),
    ensures
        find_descriptor(descriptor_table()[k].operation@) == Some(descriptor_table()[k]),
{
    let t = descriptor_table();
    let op = t[k].operation@;
    law_descriptor_names_are_distinct();
    assert forall|j: int| 0 <= j < k implies (#[trigger] t[j]).operation@ != op by {
        assert(t[j].operation@ != t[k].operation@);
    }
    lemma_first_descriptor_skip(t, op, k);
    assert(t.subrange(k, t.len() as int)[0] == t[k]);
}

} // verus!
