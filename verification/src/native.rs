//! The native XML/DSL operation adapter: which operations need the typed
//! result path, which file inputs each mutator reads, and the route of one
//! native operation call from its preview to its mutation or its read.
use vstd::prelude::*;
use crate::domain::{texts, AdapterOutcome, OutcomeV};
use crate::guards::{arg_str, arg_text};
use crate::json::{JsonMap, JsonV};
use crate::text::{owned, push_char, push_str, str_eq};

verus! {

/// The native mutators whose results come back typed.
#[derive(Debug, Clone, Copy, PartialEq, Eq, Structural)]
pub enum TypedMutationHandler {
    CodePatch,
    FormEdit,
}

/// The typed handler of an operation.
pub open spec fn typed_handler_of(operation: Seq<char>) -> Option<TypedMutationHandler> {
    if operation == "code-patch"@ {
        Some(TypedMutationHandler::CodePatch)
    } else if operation == "form-edit"@ {
        Some(TypedMutationHandler::FormEdit)
    } else {
        None
    }
}

/// The typed handler of an operation, if its result comes back typed.
pub fn typed_mutation_handler(operation: &str) -> (r: Option<TypedMutationHandler>)
    ensures
        r == typed_handler_of(operation@),
{
    if str_eq(operation, "code-patch") {
        Some(TypedMutationHandler::CodePatch)
    } else if str_eq(operation, "form-edit") {
        Some(TypedMutationHandler::FormEdit)
    } else {
        None
    }
}

/// The caller-selected file a mutator parses as its top-level input.
#[derive(Debug, Clone, Copy, PartialEq, Eq, Structural)]
pub enum TopLevelJsonInput {
    NoInput,
    RequiredJsonPath,
    OptionalJsonPath,
    OptionalDefinitionFile,
}

/// The file-backed inputs of one native mutator: its top-level input, whether
/// it reads `@query-file` inputs, and whether it reads the platform XML of the
/// object it compiles from.
#[derive(Debug, Clone, Copy, PartialEq, Eq, Structural)]
pub struct NativeMutationFileInputContract {
    pub top_level: TopLevelJsonInput,
    pub secondary_at_query_files: bool,
    pub secondary_from_object_platform_xml: bool,
}

/// A contract without file inputs, or with the given ones.
pub open spec fn file_inputs(
    top_level: TopLevelJsonInput,
    at_query_files: bool,
    from_object_platform_xml: bool,
) -> NativeMutationFileInputContract {
    NativeMutationFileInputContract {
        top_level,
        secondary_at_query_files: at_query_files,
        secondary_from_object_platform_xml: from_object_platform_xml,
    }
}

/// The mutators that read an optional definition file and nothing else.
pub open spec fn reads_optional_definition(op: Seq<char>) -> bool {
    op == "cf-edit"@ || op == "interface-edit"@ || op == "meta-edit"@ || op == "subsystem-edit"@
        || op == "subsystem-compile"@
}

/// The mutators that require a JSON definition path and read nothing else.
pub open spec fn reads_required_json(op: Seq<char>) -> bool {
    op == "meta-compile"@ || op == "mxl-compile"@ || op == "role-compile"@
}

/// The mutators that read no caller-selected file.
pub open spec fn reads_no_file(op: Seq<char>) -> bool {
    op == "code-patch"@ || op == "cf-init"@ || op == "support-edit"@ || op == "cfe-borrow"@ || op
        == "cfe-init"@ || op == "epf-init"@ || op == "erf-init"@ || op == "cfe-patch-method"@ || op
        == "meta-remove"@ || op == "help-add"@ || op == "form-add"@ || op == "form-remove"@ || op
        == "template-add"@ || op == "template-remove"@
}

/// The file-input contract of every public native mutator; none for any other
/// operation.
pub open spec fn file_input_contract_of(op: Seq<char>) -> Option<NativeMutationFileInputContract> {
    if reads_optional_definition(op) {
        Some(file_inputs(TopLevelJsonInput::OptionalDefinitionFile, false, false))
    } else if op == "dcs-compile"@ {
        Some(file_inputs(TopLevelJsonInput::OptionalDefinitionFile, true, false))
    } else if op == "form-compile"@ {
        Some(file_inputs(TopLevelJsonInput::OptionalJsonPath, false, true))
    } else if op == "form-edit"@ {
        Some(file_inputs(TopLevelJsonInput::OptionalJsonPath, false, false))
    } else if reads_required_json(op) {
        Some(file_inputs(TopLevelJsonInput::RequiredJsonPath, false, false))
    } else if op == "dcs-edit"@ {
        Some(file_inputs(TopLevelJsonInput::NoInput, true, false))
    } else if reads_no_file(op) {
        Some(file_inputs(TopLevelJsonInput::NoInput, false, false))
    } else {
        None
    }
}

fn is_any(operation: &str, names: &[&str]) -> (r: bool)
    ensures
        r == exists|i: int| 0 <= i < names@.len() && operation@ == (#[trigger] names@[i])@,
{
    let mut i: usize = 0;
    while i < names.len()
        invariant
            i <= names@.len(),
            forall|k: int| 0 <= k < i ==> operation@ != (#[trigger] names@[k])@,
        decreases names.len() - i,
    {
        if str_eq(operation, names[i]) {
            return true;
        }
        i = i + 1;
    }
    false
}

/// The caller-selected file inputs of a native mutator: what it parses at the
/// top level, and which secondary files it reads.
pub fn native_mutation_file_input_contract(operation: &str) -> (r: Option<
    NativeMutationFileInputContract,
>)
    ensures
        r == file_input_contract_of(operation@),
{
    let optional_definition: &[&str] = &[
        "cf-edit",
        "interface-edit",
        "meta-edit",
        "subsystem-edit",
        "subsystem-compile",
    ];
    let required_json: &[&str] = &["meta-compile", "mxl-compile", "role-compile"];
    let no_file: &[&str] = &[
        "code-patch",
        "cf-init",
        "support-edit",
        "cfe-borrow",
        "cfe-init",
        "epf-init",
        "erf-init",
        "cfe-patch-method",
        "meta-remove",
        "help-add",
        "form-add",
        "form-remove",
        "template-add",
        "template-remove",
    ];
    proof {
        assert(reads_optional_definition(operation@) <==> exists|i: int|
            0 <= i < optional_definition@.len() && operation@ == (#[trigger] optional_definition@[i])@) by {
            if reads_optional_definition(operation@) {
                if operation@ == "cf-edit"@ { assert(operation@ == optional_definition@[0]@); }
                if operation@ == "interface-edit"@ { assert(operation@ == optional_definition@[1]@); }
                if operation@ == "meta-edit"@ { assert(operation@ == optional_definition@[2]@); }
                if operation@ == "subsystem-edit"@ { assert(operation@ == optional_definition@[3]@); }
                if operation@ == "subsystem-compile"@ { assert(operation@ == optional_definition@[4]@); }
            }
        }
        assert(reads_required_json(operation@) <==> exists|i: int|
            0 <= i < required_json@.len() && operation@ == (#[trigger] required_json@[i])@) by {
            if reads_required_json(operation@) {
                if operation@ == "meta-compile"@ { assert(operation@ == required_json@[0]@); }
                if operation@ == "mxl-compile"@ { assert(operation@ == required_json@[1]@); }
                if operation@ == "role-compile"@ { assert(operation@ == required_json@[2]@); }
            }
        }
        assert(reads_no_file(operation@) <==> exists|i: int|
            0 <= i < no_file@.len() && operation@ == (#[trigger] no_file@[i])@) by {
            if reads_no_file(operation@) {
                if operation@ == "code-patch"@ { assert(operation@ == no_file@[0]@); }
                if operation@ == "cf-init"@ { assert(operation@ == no_file@[1]@); }
                if operation@ == "support-edit"@ { assert(operation@ == no_file@[2]@); }
                if operation@ == "cfe-borrow"@ { assert(operation@ == no_file@[3]@); }
                if operation@ == "cfe-init"@ { assert(operation@ == no_file@[4]@); }
                if operation@ == "epf-init"@ { assert(operation@ == no_file@[5]@); }
                if operation@ == "erf-init"@ { assert(operation@ == no_file@[6]@); }
                if operation@ == "cfe-patch-method"@ { assert(operation@ == no_file@[7]@); }
                if operation@ == "meta-remove"@ { assert(operation@ == no_file@[8]@); }
                if operation@ == "help-add"@ { assert(operation@ == no_file@[9]@); }
                if operation@ == "form-add"@ { assert(operation@ == no_file@[10]@); }
                if operation@ == "form-remove"@ { assert(operation@ == no_file@[11]@); }
                if operation@ == "template-add"@ { assert(operation@ == no_file@[12]@); }
                if operation@ == "template-remove"@ { assert(operation@ == no_file@[13]@); }
            }
        }
    }
    if is_any(operation, optional_definition) {
        Some(NativeMutationFileInputContract {
            top_level: TopLevelJsonInput::OptionalDefinitionFile,
            secondary_at_query_files: false,
            secondary_from_object_platform_xml: false,
        })
    } else if str_eq(operation, "dcs-compile") {
        Some(NativeMutationFileInputContract {
            top_level: TopLevelJsonInput::OptionalDefinitionFile,
            secondary_at_query_files: true,
            secondary_from_object_platform_xml: false,
        })
    } else if str_eq(operation, "form-compile") {
        Some(NativeMutationFileInputContract {
            top_level: TopLevelJsonInput::OptionalJsonPath,
            secondary_at_query_files: false,
            secondary_from_object_platform_xml: true,
        })
    } else if str_eq(operation, "form-edit") {
        Some(NativeMutationFileInputContract {
            top_level: TopLevelJsonInput::OptionalJsonPath,
            secondary_at_query_files: false,
            secondary_from_object_platform_xml: false,
        })
    } else if is_any(operation, required_json) {
        Some(NativeMutationFileInputContract {
            top_level: TopLevelJsonInput::RequiredJsonPath,
            secondary_at_query_files: false,
            secondary_from_object_platform_xml: false,
        })
    } else if str_eq(operation, "dcs-edit") {
        Some(NativeMutationFileInputContract {
            top_level: TopLevelJsonInput::NoInput,
            secondary_at_query_files: true,
            secondary_from_object_platform_xml: false,
        })
    } else if is_any(operation, no_file) {
        Some(NativeMutationFileInputContract {
            top_level: TopLevelJsonInput::NoInput,
            secondary_at_query_files: false,
            secondary_from_object_platform_xml: false,
        })
    } else {
        None
    }
}

// ---------------------------------------------------------------------------
// One native operation call
// ---------------------------------------------------------------------------

/// The text of the first of `keys` whose argument is a string.
pub open spec fn first_text(args: Seq<(Seq<char>, JsonV)>, keys: Seq<Seq<char>>) -> Option<Seq<char>>
    decreases keys.len(),
{
    if keys.len() == 0 {
        None
    } else {
        match arg_text(args, keys[0]) {
            Some(t) => Some(t),
            None => first_text(args, keys.drop_first()),
        }
    }
}

/// The names of a list of argument keys.
pub open spec fn key_names(keys: Seq<&str>) -> Seq<Seq<char>> {
    keys.map_values(|k: &str| k@)
}

/// The first of `keys` whose argument is a string.
pub fn string_arg<'a>(args: &'a JsonMap, keys: &[&str]) -> (r: Option<&'a String>)
    ensures
        r matches Some(t) ==> first_text(args@, key_names(keys@)) == Some(t@),
        r is None <==> first_text(args@, key_names(keys@)) is None,
{
    let mut i: usize = 0;
    proof {
        assert(key_names(keys@).subrange(0, keys@.len() as int) =~= key_names(keys@));
    }
    while i < keys.len()
        invariant
            i <= keys@.len(),
            first_text(args@, key_names(keys@)) == first_text(
                args@,
                key_names(keys@).subrange(i as int, keys@.len() as int),
            ),
        decreases keys.len() - i,
    {
        proof {
            let rest = key_names(keys@).subrange(i as int, keys@.len() as int);
            assert(rest.drop_first() =~= key_names(keys@).subrange(i as int + 1, keys@.len() as int));
        }
        match arg_str(args, keys[i]) {
            Some(t) => {
                return Some(t);
            },
            None => {},
        }
        i = i + 1;
    }
    None
}

/// The keys that name the output directory.
pub open spec fn output_dir_keys() -> Seq<Seq<char>> {
    seq!["OutputDir"@, "outputDir"@]
}

/// The keys that name the JSON definition.
pub open spec fn json_path_keys() -> Seq<Seq<char>> {
    seq!["JsonPath"@, "jsonPath"@]
}

/// The keys that name the parent subsystem.
pub open spec fn parent_keys() -> Seq<Seq<char>> {
    seq!["Parent"@, "parent"@]
}

/// The keys that give a subsystem definition inline.
pub open spec fn value_keys() -> Seq<Seq<char>> {
    seq!["Value"@, "value"@]
}

/// The keys that name a subsystem definition file.
pub open spec fn definition_file_keys() -> Seq<Seq<char>> {
    seq!["DefinitionFile"@, "definitionFile"@]
}

/// Where a native operation call stands: which answer it waits for.
#[derive(Debug, Clone, Copy, PartialEq, Eq, Structural)]
pub enum NativePhase {
    PreviewingExternal,
    PreviewingEdit,
    ProbingJsonPath,
    ProbingParent,
    ProbingDefinition,
    Planning,
    Mutating,
    Reading,
    Analyzing,
    Done,
}

/// What the caller does next for a native operation call.
#[derive(Debug)]
pub enum NativeAction {
    /// Ask the external data processor and report family for its preview.
    PreviewExternal,
    /// Preview a metadata edit.
    PreviewMetaEdit,
    /// Preview a form edit.
    PreviewFormEdit,
    /// Tell whether the path, resolved against the workspace directory, is a file.
    ProbeFile(String),
    /// Tell whether the path, resolved against the workspace directory, exists.
    ProbeExists(String),
    /// Plan the compile preview of the operation's family.
    PlanCompilePreview,
    /// Run the operation's registered mutation handler.
    InvokeMutation,
    /// Run the operation's registered read handler.
    InvokeRead,
    /// Resolve the target file, read it and analyze its XML.
    AnalyzeTarget,
    /// The call is over.
    Finish(Result<AdapterOutcome, String>),
}

/// The mathematical form of a native action.
pub enum NativeActionV {
    PreviewExternal,
    PreviewMetaEdit,
    PreviewFormEdit,
    ProbeFile(Seq<char>),
    ProbeExists(Seq<char>),
    PlanCompilePreview,
    InvokeMutation,
    InvokeRead,
    AnalyzeTarget,
    Finish(Result<OutcomeV, Seq<char>>),
}

/// The mathematical form of an outcome or an error.
pub open spec fn outcome_result(r: Result<AdapterOutcome, String>) -> Result<OutcomeV, Seq<char>> {
    match r {
        Ok(o) => Ok(o@),
        Err(e) => Err(e@),
    }
}

impl View for NativeAction {
    type V = NativeActionV;

    open spec fn view(&self) -> NativeActionV {
        match self {
            NativeAction::PreviewExternal => NativeActionV::PreviewExternal,
            NativeAction::PreviewMetaEdit => NativeActionV::PreviewMetaEdit,
            NativeAction::PreviewFormEdit => NativeActionV::PreviewFormEdit,
            NativeAction::ProbeFile(p) => NativeActionV::ProbeFile(p@),
            NativeAction::ProbeExists(p) => NativeActionV::ProbeExists(p@),
            NativeAction::PlanCompilePreview => NativeActionV::PlanCompilePreview,
            NativeAction::InvokeMutation => NativeActionV::InvokeMutation,
            NativeAction::InvokeRead => NativeActionV::InvokeRead,
            NativeAction::AnalyzeTarget => NativeActionV::AnalyzeTarget,
            NativeAction::Finish(r) => NativeActionV::Finish(outcome_result(*r)),
        }
    }
}

/// What the caller hands back after performing a native action.
#[derive(Debug)]
pub enum NativeEvent {
    /// The external family's preview, if the operation is one of its own.
    ExternalPreview(Option<AdapterOutcome>),
    /// The metadata or form edit preview.
    EditPreview(AdapterOutcome),
    /// The probed path as resolved, and whether it was found.
    Probed { path: String, present: bool },
    /// The family's compile preview plan.
    Planned(Result<AdapterOutcome, String>),
    /// The mutation handler's outcome, if one is registered for the operation.
    Mutated(Option<AdapterOutcome>),
    /// The read handler's result, if one is registered for the operation.
    Read(Option<Result<AdapterOutcome, String>>),
    /// The analysis of the target file.
    Analyzed(Result<AdapterOutcome, String>),
}

/// The mathematical form of a native event.
pub enum NativeEventV {
    ExternalPreview(Option<OutcomeV>),
    EditPreview(OutcomeV),
    Probed { path: Seq<char>, present: bool },
    Planned(Result<OutcomeV, Seq<char>>),
    Mutated(Option<OutcomeV>),
    Read(Option<Result<OutcomeV, Seq<char>>>),
    Analyzed(Result<OutcomeV, Seq<char>>),
}

impl View for NativeEvent {
    type V = NativeEventV;

    open spec fn view(&self) -> NativeEventV {
        match self {
            NativeEvent::ExternalPreview(o) => NativeEventV::ExternalPreview(
                match o {
                    Some(o) => Some(o@),
                    None => None,
                },
            ),
            NativeEvent::EditPreview(o) => NativeEventV::EditPreview(o@),
            NativeEvent::Probed { path, present } => NativeEventV::Probed {
                path: path@,
                present: *present,
            },
            NativeEvent::Planned(r) => NativeEventV::Planned(outcome_result(*r)),
            NativeEvent::Mutated(o) => NativeEventV::Mutated(
                match o {
                    Some(o) => Some(o@),
                    None => None,
                },
            ),
            NativeEvent::Read(r) => NativeEventV::Read(
                match r {
                    Some(r) => Some(outcome_result(*r)),
                    None => None,
                },
            ),
            NativeEvent::Analyzed(r) => NativeEventV::Analyzed(outcome_result(*r)),
        }
    }
}

/// One native operation call in progress.
#[derive(Debug)]
pub struct NativeInvocation {
    operation: String,
    tool_name: String,
    args: JsonMap,
    dry_run: bool,
    mutating: bool,
    has_edit_payload: bool,
    has_compile_payload: bool,
    phase: NativePhase,
}

/// The mathematical form of a native operation call.
pub struct NativeCallV {
    pub operation: Seq<char>,
    pub tool_name: Seq<char>,
    pub args: Seq<(Seq<char>, JsonV)>,
    pub dry_run: bool,
    pub mutating: bool,
    pub has_edit_payload: bool,
    pub has_compile_payload: bool,
    pub phase: NativePhase,
}

impl View for NativeInvocation {
    type V = NativeCallV;

    closed spec fn view(&self) -> NativeCallV {
        NativeCallV {
            operation: self.operation@,
            tool_name: self.tool_name@,
            args: self.args@,
            dry_run: self.dry_run,
            mutating: self.mutating,
            has_edit_payload: self.has_edit_payload,
            has_compile_payload: self.has_compile_payload,
            phase: self.phase,
        }
    }
}

/// The placeholder preview of a native operation: nothing is planned in
/// detail, and a mutating operation says that nothing changed.
pub open spec fn fallback_outcome(tool_name: Seq<char>, mutating: bool) -> OutcomeV {
    OutcomeV {
        ok: true,
        summary: "dry run: "@ + tool_name + " would execute native XML/DSL operation"@,
        changes: if mutating {
            seq!["no files changed because dryRun is true"@]
        } else {
            Seq::empty()
        },
        warnings: Seq::empty(),
        errors: Seq::empty(),
        artifacts: Seq::empty(),
        stdout: None,
        stderr: None,
        command: None,
    }
}

/// The placeholder preview when the detailed compile preview cannot run.
pub open spec fn unavailable_outcome(tool_name: Seq<char>, mutating: bool, reason: Seq<char>) -> OutcomeV {
    OutcomeV {
        warnings: seq![
            "detailed compile preview is unavailable; using safe placeholder: "@ + reason
        ],
        ..fallback_outcome(tool_name, mutating)
    }
}

/// The preview of a compile whose planning failed.
pub open spec fn planning_failed_outcome(tool_name: Seq<char>, error: Seq<char>) -> OutcomeV {
    OutcomeV {
        ok: false,
        summary: "dry run: "@ + tool_name + " compile planning failed"@,
        changes: Seq::empty(),
        warnings: Seq::empty(),
        errors: seq![error],
        artifacts: Seq::empty(),
        stdout: None,
        stderr: Some(error.push('\n')),
        command: None,
    }
}

/// The error for an operation that must go through the typed result path.
pub open spec fn typed_path_message(operation: Seq<char>) -> Seq<char> {
    operation + " requires the typed native-operation result path"@
}

/// The error for a mutating operation without a mutation handler.
pub open spec fn unregistered_message(tool_name: Seq<char>, operation: Seq<char>) -> Seq<char> {
    "native mutation handler is not registered for "@ + tool_name + " operation `"@ + operation
        + "`"@
}

/// Whether an operation must go through the typed result path: every typed
/// operation but a form edit preview without an edit payload.
pub open spec fn needs_typed_path(operation: Seq<char>, dry_run: bool, has_edit_payload: bool) -> bool {
    typed_handler_of(operation) is Some && !(operation == "form-edit"@ && dry_run
        && !has_edit_payload)
}

/// The compile operations whose preview is planned by their family.
pub open spec fn plans_compile_preview(operation: Seq<char>, has_compile_payload: bool) -> bool {
    (operation == "form-compile"@ && has_compile_payload) || operation == "meta-compile"@
        || operation == "role-compile"@ || operation == "subsystem-compile"@
}

/// The call moves to `phase` and asks for `action`.
pub open spec fn go(s: NativeCallV, phase: NativePhase, action: NativeActionV) -> (NativeCallV, NativeActionV) {
    (NativeCallV { phase, ..s }, action)
}

/// The call ends with `r`.
pub open spec fn finish(s: NativeCallV, r: Result<OutcomeV, Seq<char>>) -> (NativeCallV, NativeActionV) {
    go(s, NativePhase::Done, NativeActionV::Finish(r))
}

/// The call ends with the placeholder preview that says why the detailed
/// compile preview cannot run.
pub open spec fn unavailable(s: NativeCallV, reason: Seq<char>) -> (NativeCallV, NativeActionV) {
    finish(s, Ok(unavailable_outcome(s.tool_name, s.mutating, reason)))
}

/// A subsystem compile preview once its parent is known to exist: an inline
/// value plans at once, a definition file is probed first.
pub open spec fn after_parent(s: NativeCallV) -> (NativeCallV, NativeActionV) {
    if first_text(s.args, value_keys()) is Some {
        go(s, NativePhase::Planning, NativeActionV::PlanCompilePreview)
    } else {
        match first_text(s.args, definition_file_keys()) {
            None => unavailable(s, "missing Value or DefinitionFile argument"@),
            Some(d) => go(s, NativePhase::ProbingDefinition, NativeActionV::ProbeFile(d)),
        }
    }
}

/// A compile preview: check that its inputs are there before planning it.
pub open spec fn compile_preview(s: NativeCallV) -> (NativeCallV, NativeActionV) {
    if s.operation == "form-compile"@ {
        go(s, NativePhase::Planning, NativeActionV::PlanCompilePreview)
    } else if first_text(s.args, output_dir_keys()) is None {
        unavailable(s, "missing required OutputDir argument"@)
    } else if s.operation == "meta-compile"@ || s.operation == "role-compile"@ {
        match first_text(s.args, json_path_keys()) {
            None => unavailable(s, "missing required JsonPath argument"@),
            Some(p) => go(s, NativePhase::ProbingJsonPath, NativeActionV::ProbeFile(p)),
        }
    } else {
        match first_text(s.args, parent_keys()) {
            Some(p) => go(s, NativePhase::ProbingParent, NativeActionV::ProbeExists(p)),
            None => after_parent(s),
        }
    }
}

/// A preview that the external family does not own.
pub open spec fn native_preview(s: NativeCallV) -> (NativeCallV, NativeActionV) {
    if s.operation == "meta-edit"@ {
        go(s, NativePhase::PreviewingEdit, NativeActionV::PreviewMetaEdit)
    } else if s.operation == "form-edit"@ && s.has_edit_payload {
        go(s, NativePhase::PreviewingEdit, NativeActionV::PreviewFormEdit)
    } else if plans_compile_preview(s.operation, s.has_compile_payload) {
        compile_preview(s)
    } else {
        finish(s, Ok(fallback_outcome(s.tool_name, s.mutating)))
    }
}

/// The state a native call starts in and its first action: the typed path
/// check, then a preview, a mutation or a read.
pub open spec fn native_start(
    operation: Seq<char>,
    tool_name: Seq<char>,
    args: Seq<(Seq<char>, JsonV)>,
    dry_run: bool,
    mutating: bool,
    has_edit_payload: bool,
    has_compile_payload: bool,
) -> (NativeCallV, NativeActionV) {
    let s = NativeCallV {
        operation,
        tool_name,
        args,
        dry_run,
        mutating,
        has_edit_payload,
        has_compile_payload,
        phase: NativePhase::Done,
    };
    if needs_typed_path(operation, dry_run, has_edit_payload) {
        finish(s, Err(typed_path_message(operation)))
    } else if dry_run {
        go(s, NativePhase::PreviewingExternal, NativeActionV::PreviewExternal)
    } else if mutating {
        go(s, NativePhase::Mutating, NativeActionV::InvokeMutation)
    } else {
        go(s, NativePhase::Reading, NativeActionV::InvokeRead)
    }
}

/// Whether the call waits for this kind of answer.
pub open spec fn native_accepts(phase: NativePhase, e: NativeEventV) -> bool {
    match e {
        NativeEventV::ExternalPreview(_) => phase == NativePhase::PreviewingExternal,
        NativeEventV::EditPreview(_) => phase == NativePhase::PreviewingEdit,
        NativeEventV::Probed { .. } => phase == NativePhase::ProbingJsonPath || phase
            == NativePhase::ProbingParent || phase == NativePhase::ProbingDefinition,
        NativeEventV::Planned(_) => phase == NativePhase::Planning,
        NativeEventV::Mutated(_) => phase == NativePhase::Mutating,
        NativeEventV::Read(_) => phase == NativePhase::Reading,
        NativeEventV::Analyzed(_) => phase == NativePhase::Analyzing,
    }
}

/// The next state and action of a native call, given the answer to its last
/// action.
pub open spec fn native_next(s: NativeCallV, e: NativeEventV) -> (NativeCallV, NativeActionV) {
    match e {
        NativeEventV::ExternalPreview(Some(o)) => finish(s, Ok(o)),
        NativeEventV::ExternalPreview(None) => native_preview(s),
        NativeEventV::EditPreview(o) => finish(s, Ok(o)),
        NativeEventV::Probed { path, present } => if s.phase == NativePhase::ProbingParent {
            if present {
                after_parent(s)
            } else {
                unavailable(s, "parent subsystem is unavailable: "@ + path)
            }
        } else if present {
            go(s, NativePhase::Planning, NativeActionV::PlanCompilePreview)
        } else {
            unavailable(s, "definition file is unavailable: "@ + path)
        },
        NativeEventV::Planned(Ok(o)) => finish(s, Ok(o)),
        NativeEventV::Planned(Err(m)) => finish(s, Ok(planning_failed_outcome(s.tool_name, m))),
        NativeEventV::Mutated(Some(o)) => finish(s, Ok(o)),
        NativeEventV::Mutated(None) => finish(s, Err(unregistered_message(s.tool_name, s.operation))),
        NativeEventV::Read(Some(r)) => finish(s, r),
        NativeEventV::Read(None) => go(s, NativePhase::Analyzing, NativeActionV::AnalyzeTarget),
        NativeEventV::Analyzed(r) => finish(s, r),
    }
}

fn fallback(tool_name: &str, mutating: bool) -> (r: AdapterOutcome)
    ensures
        r@ == fallback_outcome(tool_name@, mutating),
{
    let mut summary = owned("dry run: ");
    push_str(&mut summary, tool_name);
    push_str(&mut summary, " would execute native XML/DSL operation");
    let mut changes: Vec<String> = Vec::new();
    if mutating {
        changes.push(owned("no files changed because dryRun is true"));
    }
    let r = AdapterOutcome {
        ok: true,
        summary,
        changes,
        warnings: Vec::new(),
        errors: Vec::new(),
        artifacts: Vec::new(),
        stdout: None,
        stderr: None,
        command: None,
    };
    proof {
        let e = fallback_outcome(tool_name@, mutating);
        assert(r@.changes =~= e.changes);
        assert(r@.warnings =~= e.warnings);
        assert(r@.errors =~= e.errors);
        assert(r@.artifacts =~= e.artifacts);
    }
    r
}

fn unavailable_preview(tool_name: &str, mutating: bool, reason: &str) -> (r: AdapterOutcome)
    ensures
        r@ == unavailable_outcome(tool_name@, mutating, reason@),
{
    let mut r = fallback(tool_name, mutating);
    let mut w = owned("detailed compile preview is unavailable; using safe placeholder: ");
    push_str(&mut w, reason);
    proof {
        assert(texts(r.warnings@).len() == 0);
    }
    r.warnings.push(w);
    proof {
        assert(r@.warnings =~= unavailable_outcome(tool_name@, mutating, reason@).warnings);
    }
    r
}

fn planning_failed(tool_name: &str, error: String) -> (r: AdapterOutcome)
    ensures
        r@ == planning_failed_outcome(tool_name@, error@),
{
    let mut summary = owned("dry run: ");
    push_str(&mut summary, tool_name);
    push_str(&mut summary, " compile planning failed");
    let mut stderr = error.clone();
    push_char(&mut stderr, '\n');
    let r = AdapterOutcome {
        ok: false,
        summary,
        changes: Vec::new(),
        warnings: Vec::new(),
        errors: vec![error],
        artifacts: Vec::new(),
        stdout: None,
        stderr: Some(stderr),
        command: None,
    };
    proof {
        let e = planning_failed_outcome(tool_name@, error@);
        assert(r@.changes =~= e.changes);
        assert(r@.warnings =~= e.warnings);
        assert(r@.errors =~= e.errors);
        assert(r@.artifacts =~= e.artifacts);
    }
    r
}

impl NativeInvocation {
    /// Starts a native operation call. `has_edit_payload` and
    /// `has_compile_payload` say whether the arguments carry a form edit and a
    /// form compile payload.
    pub fn start(
        operation: &str,
        tool_name: &str,
        args: JsonMap,
        dry_run: bool,
        mutating: bool,
        has_edit_payload: bool,
        has_compile_payload: bool,
    ) -> (r: (NativeInvocation, NativeAction))
        ensures
            (r.0@, r.1@) == native_start(
                operation@,
                tool_name@,
                args@,
                dry_run,
                mutating,
                has_edit_payload,
                has_compile_payload,
            ),
    {
        let mut call = NativeInvocation {
            operation: owned(operation),
            tool_name: owned(tool_name),
            args,
            dry_run,
            mutating,
            has_edit_payload,
            has_compile_payload,
            phase: NativePhase::Done,
        };
        let typed = match typed_mutation_handler(operation) {
            Some(_) => !(str_eq(operation, "form-edit") && dry_run && !has_edit_payload),
            None => false,
        };
        if typed {
            let mut m = owned(operation);
            push_str(&mut m, " requires the typed native-operation result path");
            (call, NativeAction::Finish(Err(m)))
        } else if dry_run {
            call.phase = NativePhase::PreviewingExternal;
            (call, NativeAction::PreviewExternal)
        } else if mutating {
            call.phase = NativePhase::Mutating;
            (call, NativeAction::InvokeMutation)
        } else {
            call.phase = NativePhase::Reading;
            (call, NativeAction::InvokeRead)
        }
    }

    /// Where the call stands.
    pub fn phase(&self) -> (r: NativePhase)
        ensures
            r == self@.phase,
    {
        self.phase
    }

    /// The operation being called.
    pub fn operation(&self) -> (r: &str)
        ensures
            r@ == self@.operation,
    {
        self.operation.as_str()
    }

    /// The public tool that called the operation.
    pub fn tool_name(&self) -> (r: &str)
        ensures
            r@ == self@.tool_name,
    {
        self.tool_name.as_str()
    }

    /// The call's arguments.
    pub fn args(&self) -> (r: &JsonMap)
        ensures
            r@ == self@.args,
    {
        &self.args
    }

    /// Whether the call waits for this answer.
    pub fn accepts(&self, event: &NativeEvent) -> (r: bool)
        ensures
            r == native_accepts(self@.phase, event@),
    {
        match event {
            NativeEvent::ExternalPreview(_) => self.phase == NativePhase::PreviewingExternal,
            NativeEvent::EditPreview(_) => self.phase == NativePhase::PreviewingEdit,
            NativeEvent::Probed { .. } => self.phase == NativePhase::ProbingJsonPath || self.phase
                == NativePhase::ProbingParent || self.phase == NativePhase::ProbingDefinition,
            NativeEvent::Planned(_) => self.phase == NativePhase::Planning,
            NativeEvent::Mutated(_) => self.phase == NativePhase::Mutating,
            NativeEvent::Read(_) => self.phase == NativePhase::Reading,
            NativeEvent::Analyzed(_) => self.phase == NativePhase::Analyzing,
        }
    }

    fn finish(self, r: Result<AdapterOutcome, String>) -> (out: (NativeInvocation, NativeAction))
        ensures
            (out.0@, out.1@) == finish(self@, outcome_result(r)),
    {
        let mut this = self;
        this.phase = NativePhase::Done;
        (this, NativeAction::Finish(r))
    }

    fn go(self, phase: NativePhase, action: NativeAction) -> (out: (NativeInvocation, NativeAction))
        ensures
            (out.0@, out.1@) == go(self@, phase, action@),
    {
        let mut this = self;
        this.phase = phase;
        (this, action)
    }

    fn unavailable(self, reason: &str) -> (out: (NativeInvocation, NativeAction))
        ensures
            (out.0@, out.1@) == unavailable(self@, reason@),
    {
        let o = unavailable_preview(self.tool_name.as_str(), self.mutating, reason);
        self.finish(Ok(o))
    }

    fn after_parent(self) -> (out: (NativeInvocation, NativeAction))
        ensures
            (out.0@, out.1@) == after_parent(self@),
    {
        proof {
            reveal_strlit("Value");
            reveal_strlit("value");
            reveal_strlit("DefinitionFile");
            reveal_strlit("definitionFile");
        }
        let keys: &[&str] = &["Value", "value"];
        assert(key_names(keys@) =~= value_keys());
        if string_arg(&self.args, keys).is_some() {
            return self.go(NativePhase::Planning, NativeAction::PlanCompilePreview);
        }
        let keys: &[&str] = &["DefinitionFile", "definitionFile"];
        assert(key_names(keys@) =~= definition_file_keys());
        match string_arg(&self.args, keys) {
            None => self.unavailable("missing Value or DefinitionFile argument"),
            Some(d) => {
                let d = d.clone();
                self.go(NativePhase::ProbingDefinition, NativeAction::ProbeFile(d))
            },
        }
    }

    fn compile_preview(self) -> (out: (NativeInvocation, NativeAction))
        ensures
            (out.0@, out.1@) == compile_preview(self@),
    {
        if str_eq(self.operation.as_str(), "form-compile") {
            return self.go(NativePhase::Planning, NativeAction::PlanCompilePreview);
        }
        proof {
            reveal_strlit("OutputDir");
            reveal_strlit("outputDir");
            reveal_strlit("JsonPath");
            reveal_strlit("jsonPath");
            reveal_strlit("Parent");
            reveal_strlit("parent");
        }
        let keys: &[&str] = &["OutputDir", "outputDir"];
        assert(key_names(keys@) =~= output_dir_keys());
        if string_arg(&self.args, keys).is_none() {
            return self.unavailable("missing required OutputDir argument");
        }
        if str_eq(self.operation.as_str(), "meta-compile") || str_eq(
            self.operation.as_str(),
            "role-compile",
        ) {
            let keys: &[&str] = &["JsonPath", "jsonPath"];
            assert(key_names(keys@) =~= json_path_keys());
            return match string_arg(&self.args, keys) {
                None => self.unavailable("missing required JsonPath argument"),
                Some(p) => {
                    let p = p.clone();
                    self.go(NativePhase::ProbingJsonPath, NativeAction::ProbeFile(p))
                },
            };
        }
        let keys: &[&str] = &["Parent", "parent"];
        assert(key_names(keys@) =~= parent_keys());
        match string_arg(&self.args, keys) {
            Some(p) => {
                let p = p.clone();
                self.go(NativePhase::ProbingParent, NativeAction::ProbeExists(p))
            },
            None => self.after_parent(),
        }
    }

    fn native_preview(self) -> (out: (NativeInvocation, NativeAction))
        ensures
            (out.0@, out.1@) == native_preview(self@),
    {
        let op = self.operation.as_str();
        if str_eq(op, "meta-edit") {
            return self.go(NativePhase::PreviewingEdit, NativeAction::PreviewMetaEdit);
        }
        if str_eq(op, "form-edit") && self.has_edit_payload {
            return self.go(NativePhase::PreviewingEdit, NativeAction::PreviewFormEdit);
        }
        let compile = (str_eq(op, "form-compile") && self.has_compile_payload) || str_eq(
            op,
            "meta-compile",
        ) || str_eq(op, "role-compile") || str_eq(op, "subsystem-compile");
        if compile {
            self.compile_preview()
        } else {
            let o = fallback(self.tool_name.as_str(), self.mutating);
            self.finish(Ok(o))
        }
    }

    /// Takes the answer to the last action and says what comes next.
    pub fn step(self, event: NativeEvent) -> (r: (NativeInvocation, NativeAction))
        requires
            native_accepts(self@.phase, event@),
        ensures
            (r.0@, r.1@) == native_next(self@, event@),
    {
        match event {
            NativeEvent::ExternalPreview(Some(o)) => self.finish(Ok(o)),
            NativeEvent::ExternalPreview(None) => self.native_preview(),
            NativeEvent::EditPreview(o) => self.finish(Ok(o)),
            NativeEvent::Probed { path, present } => {
                if self.phase == NativePhase::ProbingParent {
                    if present {
                        self.after_parent()
                    } else {
                        let mut m = owned("parent subsystem is unavailable: ");
                        push_str(&mut m, path.as_str());
                        self.unavailable(m.as_str())
                    }
                } else if present {
                    self.go(NativePhase::Planning, NativeAction::PlanCompilePreview)
                } else {
                    let mut m = owned("definition file is unavailable: ");
                    push_str(&mut m, path.as_str());
                    self.unavailable(m.as_str())
                }
            },
            NativeEvent::Planned(Ok(o)) => self.finish(Ok(o)),
            NativeEvent::Planned(Err(m)) => {
                let o = planning_failed(self.tool_name.as_str(), m);
                self.finish(Ok(o))
            },
            NativeEvent::Mutated(Some(o)) => self.finish(Ok(o)),
            NativeEvent::Mutated(None) => {
                let mut m = owned("native mutation handler is not registered for ");
                push_str(&mut m, self.tool_name.as_str());
                push_str(&mut m, " operation `");
                push_str(&mut m, self.operation.as_str());
                push_str(&mut m, "`");
                self.finish(Err(m))
            },
            NativeEvent::Read(Some(r)) => self.finish(r),
            NativeEvent::Read(None) => self.go(NativePhase::Analyzing, NativeAction::AnalyzeTarget),
            NativeEvent::Analyzed(r) => self.finish(r),
        }
    }
}

/// The facade through which the application calls native operations.
pub struct NativeOperationAdapter;

impl NativeOperationAdapter {
    /// Starts one native operation call on behalf of `tool_name`: the call and
    /// its first action. The caller performs each action, hands the answer to
    /// `NativeInvocation::step`, and stops at `NativeAction::Finish`.
    pub fn invoke(
        operation: &str,
        tool_name: &str,
        args: JsonMap,
        dry_run: bool,
        mutating: bool,
        has_edit_payload: bool,
        has_compile_payload: bool,
    ) -> (r: (NativeInvocation, NativeAction))
        ensures
            (r.0@, r.1@) == native_start(
                operation@,
                tool_name@,
                args@,
                dry_run,
                mutating,
                has_edit_payload,
                has_compile_payload,
            ),
    {
        NativeInvocation::start(
            operation,
            tool_name,
            args,
            dry_run,
            mutating,
            has_edit_payload,
            has_compile_payload,
        )
    }
}

// ---------------------------------------------------------------------------
// Laws of a native operation call
// ---------------------------------------------------------------------------

/// The phases of a preview.
pub open spec fn previewing(phase: NativePhase) -> bool {
    phase == NativePhase::PreviewingExternal || phase == NativePhase::PreviewingEdit || phase
        == NativePhase::ProbingJsonPath || phase == NativePhase::ProbingParent || phase
        == NativePhase::ProbingDefinition || phase == NativePhase::Planning
}

/// What every reachable native call satisfies: a preview phase only in a dry
/// run, the mutation phase only in an applied mutating call, the read phases
/// only in an applied read-only call, no phase but the end for a call that
/// must go through the typed result path, and the probing phases only for the
/// compile previews that probe their inputs.
pub open spec fn native_consistent(s: NativeCallV) -> bool {
    &&& previewing(s.phase) ==> s.dry_run
    &&& s.phase == NativePhase::Mutating ==> !s.dry_run && s.mutating
    &&& (s.phase == NativePhase::Reading || s.phase == NativePhase::Analyzing) ==> !s.dry_run
        && !s.mutating
    &&& s.phase != NativePhase::Done ==> !needs_typed_path(s.operation, s.dry_run, s.has_edit_payload)
    &&& (s.phase == NativePhase::ProbingJsonPath || s.phase == NativePhase::ProbingParent || s.phase
        == NativePhase::ProbingDefinition) ==> probes_inputs(s.operation)
}

/// The compile previews that probe their input files.
pub open spec fn probes_inputs(operation: Seq<char>) -> bool {
    operation == "meta-compile"@ || operation == "role-compile"@ || operation == "subsystem-compile"@
}

/// The actions that only a preview may ask for.
pub open spec fn preview_action(a: NativeActionV) -> bool {
    a is PreviewExternal || a is PreviewMetaEdit || a is PreviewFormEdit || a is ProbeFile
        || a is ProbeExists || a is PlanCompilePreview
}

/// The actions that only an applied call may ask for.
pub open spec fn applying_action(a: NativeActionV) -> bool {
    a is InvokeMutation || a is InvokeRead || a is AnalyzeTarget
}

/// A native call starts consistent. A call that must go through the typed
/// result path ends at once with that error; a dry run asks only for
/// previews; an applied call never asks for one, and runs the mutation handler
/// exactly when its tool is mutating.
pub proof fn law_native_start(
    operation: Seq<char>,
    tool_name: Seq<char>,
    args: Seq<(Seq<char>, JsonV)>,
    dry_run: bool,
    mutating: bool,
    has_edit_payload: bool,
    has_compile_payload: bool,
)
    ensures
        ({
            let (s, a) = native_start(
                operation,
                tool_name,
                args,
                dry_run,
                mutating,
                has_edit_payload,
                has_compile_payload,
            );
            &&& native_consistent(s)
            &&& needs_typed_path(operation, dry_run, has_edit_payload) ==> a
                == NativeActionV::Finish(Err(typed_path_message(operation)))
            &&& dry_run ==> !applying_action(a)
            &&& !dry_run ==> !preview_action(a)
            &&& a is InvokeMutation <==> !dry_run && mutating && !needs_typed_path(
                operation,
                dry_run,
                has_edit_payload,
            )
        }),
{
}

/// Every accepted step keeps a native call consistent; a dry run never asks
/// to mutate or read, and an applied call never asks for a preview, a probe or
/// a plan.
pub proof fn law_native_steps(s: NativeCallV, e: NativeEventV)
    requires
        native_consistent(s),
        native_accepts(s.phase, e),
    ensures
        native_consistent(native_next(s, e).0),
        s.dry_run ==> !applying_action(native_next(s, e).1),
        !s.dry_run ==> !preview_action(native_next(s, e).1),
        native_next(s, e).1 is InvokeMutation ==> false,
{
}

/// A probe is asked for only by the preview of a metadata, role or subsystem
/// compile, and it probes the path argument the caller gave.
pub proof fn law_native_probes(s: NativeCallV, e: NativeEventV)
    requires
        native_consistent(s),
        native_accepts(s.phase, e),
        native_next(s, e).1 is ProbeFile || native_next(s, e).1 is ProbeExists,
    ensures
        probes_inputs(s.operation),
        native_next(s, e).1 matches NativeActionV::ProbeFile(p) ==> first_text(s.args, json_path_keys())
            == Some(p) || first_text(s.args, definition_file_keys()) == Some(p),
        native_next(s, e).1 matches NativeActionV::ProbeExists(p) ==> first_text(s.args, parent_keys())
            == Some(p),
{
}

} // verus!
