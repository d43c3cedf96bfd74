//! Decisions taken before and after a tool's handler runs: the runtime XML
//! route guard, the source sync dump guard, and whether an outcome raises
//! cache events.
use vstd::prelude::*;
use crate::catalog::{RuntimeJobAction, ToolHandler, ToolSpec};
use crate::domain::{
    blocked_outcome, cancelled_outcome, AdapterOutcome, OutcomeV,
};
use crate::json::{entries_get, v_as_str, JsonMap, JsonV};
use crate::text::{
    ascii_lower, contains, owned, push_str, seq_contains, str_eq, to_ascii_lowercase,
};

verus! {

/// The text of argument `key`, when it is a string.
pub open spec fn arg_text(args: Seq<(Seq<char>, JsonV)>, key: Seq<char>) -> Option<Seq<char>> {
    v_as_str(entries_get(args, key))
}

/// The text of argument `key`, when it is a string.
pub fn arg_str<'a>(args: &'a JsonMap, key: &str) -> (r: Option<&'a String>)
    ensures
        r matches Some(s) ==> arg_text(args@, key@) == Some(s@),
        r is None <==> arg_text(args@, key@) is None,
{
    match args.get(key) {
        Some(v) => v.as_str(),
        None => None,
    }
}

/// Whether an optional text equals a literal.
pub fn opt_str_is(o: Option<&String>, lit: &str) -> (r: bool)
    ensures
        r == (o matches Some(s) && s@ == lit@),
{
    match o {
        Some(s) => str_eq(s.as_str(), lit),
        None => false,
    }
}

/// `a` followed by `b`.
pub fn joined(a: &str, b: &str) -> (r: String)
    ensures
        r@ == a@ + b@,
{
    let mut r = owned(a);
    push_str(&mut r, b);
    r
}

// ---------------------------------------------------------------------------
// Messages
// ---------------------------------------------------------------------------

#[verifier::allow_in_spec]
pub fn xml_route_warning() -> &'static str
    returns
        "Git-visible platform XML was not created or consumed through an unverified route",
{
    "Git-visible platform XML was not created or consumed through an unverified route"
}

#[verifier::allow_in_spec]
pub fn convert_disabled_message() -> &'static str
    returns
        "applied runtime convert is disabled because EDT-to-Designer conversion can publish platform XML without the verified platform 8.3.27 / exact export format 2.20 private-stage validation used by synchronous full dump; dryRun=true remains available",
{
    "applied runtime convert is disabled because EDT-to-Designer conversion can publish platform XML without the verified platform 8.3.27 / exact export format 2.20 private-stage validation used by synchronous full dump; dryRun=true remains available"
}

#[verifier::allow_in_spec]
pub fn reserved_raw_keys_message() -> &'static str
    returns
        "Designer rawKeys containing DumpConfigToFiles or LoadConfigFromFiles are reserved and cannot bypass Unica's platform 8.3.27 / export format 2.20 source guards; use typed dump/build operations",
{
    "Designer rawKeys containing DumpConfigToFiles or LoadConfigFromFiles are reserved and cannot bypass Unica's platform 8.3.27 / export format 2.20 source guards; use typed dump/build operations"
}

#[verifier::allow_in_spec]
pub fn dry_run_available_warning() -> &'static str
    returns
        "dryRun=true remains available to inspect the planned v8-runner command",
{
    "dryRun=true remains available to inspect the planned v8-runner command"
}

#[verifier::allow_in_spec]
pub fn async_full_dump_message() -> &'static str
    returns
        "asynchronous applied full dump is not supported yet because the background job boundary cannot return the private staged tree to Unica for the required platform 8.3.27 and exact export format 2.20 validation before publication; use synchronous unica.runtime.execute or unica.build.dump",
{
    "asynchronous applied full dump is not supported yet because the background job boundary cannot return the private staged tree to Unica for the required platform 8.3.27 and exact export format 2.20 validation before publication; use synchronous unica.runtime.execute or unica.build.dump"
}

#[verifier::allow_in_spec]
pub fn partial_dump_reason() -> &'static str
    returns
        " is disabled because only explicit mode=full declares whole-tree replacement and uses staging publication; pinned v8-runner cannot report exact processed paths/hashes or perform a divergence-safe merge; DESIGNER incremental/partial dumps also write directly into the source root, while EDT stages final publication but still lacks that merge receipt; use mode=full or wait for the shadow/staging receipt contract in alkoleft/v8-runner-rust#30",
{
    " is disabled because only explicit mode=full declares whole-tree replacement and uses staging publication; pinned v8-runner cannot report exact processed paths/hashes or perform a divergence-safe merge; DESIGNER incremental/partial dumps also write directly into the source root, while EDT stages final publication but still lacks that merge receipt; use mode=full or wait for the shadow/staging receipt contract in alkoleft/v8-runner-rust#30"
}

// ---------------------------------------------------------------------------
// Runtime XML route guard
// ---------------------------------------------------------------------------

/// Handlers that run runtime operations: `runtime.execute` and job start.
pub open spec fn runs_runtime_operation(h: ToolHandler) -> bool {
    h is RuntimeAdapter || h matches ToolHandler::RuntimeJob { action: RuntimeJobAction::Start }
}

/// A Designer key that dumps or loads configuration files.
pub open spec fn is_reserved_designer_key(k: Seq<char>) -> bool {
    seq_contains(ascii_lower(k), "dumpconfigtofiles"@) || seq_contains(
        ascii_lower(k),
        "loadconfigfromfiles"@,
    )
}

/// The `rawKeys` argument is an array with a string item that is a reserved
/// Designer key.
pub open spec fn has_reserved_designer_key(args: Seq<(Seq<char>, JsonV)>) -> bool {
    match entries_get(args, "rawKeys"@) {
        Some(JsonV::Array(items)) => exists|i: int|
            0 <= i < items.len() && (#[trigger] items[i] matches JsonV::Str(k)
                && is_reserved_designer_key(k)),
        _ => false,
    }
}

/// What the runtime XML route guard answers for an applied runtime call.
pub open spec fn xml_route_guard(
    spec: ToolSpec,
    args: Seq<(Seq<char>, JsonV)>,
    dry_run: bool,
    cancelled: bool,
) -> Option<OutcomeV> {
    if dry_run || !runs_runtime_operation(spec.handler) {
        None
    } else if cancelled {
        Some(cancelled_outcome(spec.name@ + " stopped before runtime XML route execution"@))
    } else {
        let operation = arg_text(args, "operation"@);
        let summary = spec.name@ + " blocked by runtime XML route guard"@;
        if operation == Some("convert"@) {
            Some(blocked_outcome(summary, xml_route_warning()@, convert_disabled_message()@))
        } else if operation == Some("launch"@) && has_reserved_designer_key(args) {
            Some(blocked_outcome(summary, xml_route_warning()@, reserved_raw_keys_message()@))
        } else {
            None
        }
    }
}

/// Whether the `rawKeys` argument holds a reserved Designer key.
pub fn contains_reserved_designer_file_key(args: &JsonMap) -> (r: bool)
    ensures
        r == has_reserved_designer_key(args@),
{
    let raw = match args.get("rawKeys") {
        Some(v) => v,
        None => {
            return false;
        },
    };
    let items = match raw.as_array() {
        Some(items) => items,
        None => {
            return false;
        },
    };
    let mut i: usize = 0;
    while i < items.len()
        invariant
            i <= items.len(),
            entries_get(args@, "rawKeys"@) == Some(
                JsonV::Array(Seq::new(items.len() as nat, |k: int| items@[k]@)),
            ),
            forall|k: int|
                0 <= k < i ==> !(#[trigger] items@[k]@ matches JsonV::Str(t)
                    && is_reserved_designer_key(t)),
        decreases items.len() - i,
    {
        match items[i].as_str() {
            Some(key) => {
                let lower = to_ascii_lowercase(key.as_str());
                if contains(lower.as_str(), "dumpconfigtofiles") || contains(
                    lower.as_str(),
                    "loadconfigfromfiles",
                ) {
                    let ghost view = Seq::new(items.len() as nat, |k: int| items@[k]@);
                    assert(view[i as int] matches JsonV::Str(t) && is_reserved_designer_key(t));
                    return true;
                }
            },
            None => {},
        }
        i = i + 1;
    }
    proof {
        let view = Seq::new(items.len() as nat, |k: int| items@[k]@);
        assert forall|k: int|
            0 <= k < view.len() implies !(#[trigger] view[k] matches JsonV::Str(t)
            && is_reserved_designer_key(t)) by {
            assert(view[k] == items@[k]@);
        }
    }
    false
}

/// The runtime XML route guard: applied conversions, and Designer launches
/// with reserved raw keys, are refused before any runtime handler runs.
pub fn runtime_xml_route_guard(
    spec: ToolSpec,
    args: &JsonMap,
    dry_run: bool,
    cancelled: bool,
) -> (r: Option<AdapterOutcome>)
    ensures
        r matches Some(o) ==> xml_route_guard(spec, args@, dry_run, cancelled) == Some(o@),
        r is None <==> xml_route_guard(spec, args@, dry_run, cancelled) is None,
{
    let runs = match spec.handler {
        ToolHandler::RuntimeAdapter => true,
        ToolHandler::RuntimeJob { action: RuntimeJobAction::Start } => true,
        _ => false,
    };
    if dry_run || !runs {
        return None;
    }
    if cancelled {
        return Some(
            AdapterOutcome::cancelled(
                joined(spec.name, " stopped before runtime XML route execution"),
            ),
        );
    }
    let operation = arg_str(args, "operation");
    let message = if opt_str_is(operation, "convert") {
        convert_disabled_message()
    } else if opt_str_is(operation, "launch") && contains_reserved_designer_file_key(args) {
        reserved_raw_keys_message()
    } else {
        return None;
    };
    Some(
        AdapterOutcome::blocked(
            joined(spec.name, " blocked by runtime XML route guard"),
            xml_route_warning(),
            owned(message),
        ),
    )
}

// ---------------------------------------------------------------------------
// Source sync dump guard
// ---------------------------------------------------------------------------

/// A call that dumps the source set from the infobase into the workspace.
pub open spec fn source_dump(spec: ToolSpec, args: Seq<(Seq<char>, JsonV)>) -> bool {
    match spec.handler {
        ToolHandler::BuildRuntime { command, .. } => command@.len() == 1 && command@[0]@
            == "dump"@,
        ToolHandler::RuntimeAdapter => arg_text(args, "operation"@) == Some("dump"@),
        ToolHandler::RuntimeJob { action: RuntimeJobAction::Start } => arg_text(
            args,
            "operation"@,
        ) == Some("dump"@),
        _ => false,
    }
}

/// The text naming the requested dump mode.
pub open spec fn requested_mode(mode: Option<Seq<char>>) -> Seq<char> {
    match mode {
        Some(m) => "mode="@ + m,
        None => "no explicit mode"@,
    }
}

/// What the source sync guard answers for a call.
pub open spec fn dump_guard(
    spec: ToolSpec,
    args: Seq<(Seq<char>, JsonV)>,
    dry_run: bool,
    cancelled: bool,
) -> Option<OutcomeV> {
    if dry_run || !source_dump(spec, args) {
        None
    } else if cancelled {
        Some(cancelled_outcome(spec.name@ + " dump stopped before execution"@))
    } else {
        let mode = arg_text(args, "mode"@);
        let summary = spec.name@ + " blocked by source sync guard"@;
        if mode == Some("full"@) {
            if spec.handler matches ToolHandler::RuntimeJob { action: RuntimeJobAction::Start } {
                Some(
                    blocked_outcome(
                        summary,
                        dry_run_available_warning()@,
                        async_full_dump_message()@,
                    ),
                )
            } else {
                None
            }
        } else {
            Some(
                blocked_outcome(
                    summary,
                    dry_run_available_warning()@,
                    "applied dump with "@ + requested_mode(mode) + partial_dump_reason()@,
                ),
            )
        }
    }
}

/// Whether the call dumps the source set.
pub fn is_source_dump(spec: ToolSpec, args: &JsonMap) -> (r: bool)
    ensures
        r == source_dump(spec, args@),
{
    match spec.handler {
        ToolHandler::BuildRuntime { command, .. } => command.len() == 1 && str_eq(
            command[0],
            "dump",
        ),
        ToolHandler::RuntimeAdapter => opt_str_is(arg_str(args, "operation"), "dump"),
        ToolHandler::RuntimeJob { action: RuntimeJobAction::Start } => opt_str_is(
            arg_str(args, "operation"),
            "dump",
        ),
        _ => false,
    }
}

/// The source sync guard: an applied dump runs only with an explicit
/// `mode=full`, and only synchronously.
pub fn source_sync_dump_guard(
    spec: ToolSpec,
    args: &JsonMap,
    dry_run: bool,
    cancelled: bool,
) -> (r: Option<AdapterOutcome>)
    ensures
        r matches Some(o) ==> dump_guard(spec, args@, dry_run, cancelled) == Some(o@),
        r is None <==> dump_guard(spec, args@, dry_run, cancelled) is None,
{
    if dry_run || !is_source_dump(spec, args) {
        return None;
    }
    if cancelled {
        return Some(AdapterOutcome::cancelled(joined(spec.name, " dump stopped before execution")));
    }
    let mode = arg_str(args, "mode");
    let summary = joined(spec.name, " blocked by source sync guard");
    if opt_str_is(mode, "full") {
        let job_start = match spec.handler {
            ToolHandler::RuntimeJob { action: RuntimeJobAction::Start } => true,
            _ => false,
        };
        if job_start {
            return Some(
                AdapterOutcome::blocked(
                    summary,
                    dry_run_available_warning(),
                    owned(async_full_dump_message()),
                ),
            );
        }
        return None;
    }
    let mut message = owned("applied dump with ");
    match mode {
        Some(m) => {
            push_str(&mut message, "mode=");
            push_str(&mut message, m.as_str());
        },
        None => {
            push_str(&mut message, "no explicit mode");
        },
    }
    push_str(&mut message, partial_dump_reason());
    proof {
        let mode_v = arg_text(args@, "mode"@);
        assert(message@ =~= "applied dump with "@ + requested_mode(mode_v) + partial_dump_reason()@);
    }
    Some(AdapterOutcome::blocked(summary, dry_run_available_warning(), message))
}

// ---------------------------------------------------------------------------
// Cache events
// ---------------------------------------------------------------------------

/// Argument keys that make a form edit preview a semantic preview.
pub open spec fn is_form_edit_payload_key(k: Seq<char>) -> bool {
    k == "FormPath"@ || k == "formPath"@ || k == "Path"@ || k == "path"@ || k == "JsonPath"@ || k
        == "jsonPath"@ || k == "definition"@
}

/// A form edit preview that names a form or a definition.
pub open spec fn semantic_form_edit_preview(spec: ToolSpec, args: Seq<(Seq<char>, JsonV)>) -> bool {
    spec.name@ == "unica.form.edit"@ && exists|i: int|
        0 <= i < args.len() && is_form_edit_payload_key(#[trigger] args[i].0)
}

/// Whether a call's outcome raises the tool's cache events: an applied call
/// does when it changed something; a preview does unless it is a code patch
/// preview or a semantic form edit preview.
pub open spec fn emits_events(
    spec: ToolSpec,
    args: Seq<(Seq<char>, JsonV)>,
    dry_run: bool,
    outcome: OutcomeV,
) -> bool {
    if !spec.mutating || !outcome.ok {
        false
    } else if !dry_run {
        outcome.changes.len() > 0
    } else if spec.name@ == "unica.code.patch"@ {
        false
    } else {
        !semantic_form_edit_preview(spec, args)
    }
}

fn is_payload_key(k: &str) -> (r: bool)
    ensures
        r == is_form_edit_payload_key(k@),
{
    str_eq(k, "FormPath") || str_eq(k, "formPath") || str_eq(k, "Path") || str_eq(k, "path")
        || str_eq(k, "JsonPath") || str_eq(k, "jsonPath") || str_eq(k, "definition")
}

/// Whether the call's outcome raises the tool's cache events.
pub fn should_emit_events(
    spec: ToolSpec,
    args: &JsonMap,
    dry_run: bool,
    outcome: &AdapterOutcome,
) -> (r: bool)
    ensures
        r == emits_events(spec, args@, dry_run, outcome@),
{
    if !spec.mutating || !outcome.ok {
        return false;
    }
    if !dry_run {
        return outcome.changes.len() != 0;
    }
    if str_eq(spec.name, "unica.code.patch") {
        return false;
    }
    if !str_eq(spec.name, "unica.form.edit") {
        return true;
    }
    let mut i: usize = 0;
    while i < args.entries.len()
        invariant
            i <= args.entries.len(),
            spec.mutating && outcome.ok && dry_run,
            spec.name@ == "unica.form.edit"@,
            spec.name@ != "unica.code.patch"@,
            forall|k: int| 0 <= k < i ==> !is_form_edit_payload_key(#[trigger] args@[k].0),
        decreases args.entries.len() - i,
    {
        if is_payload_key(args.entries[i].0.as_str()) {
            assert(args@.len() == args.entries.len());
            assert(args@[i as int].0 == args.entries@[i as int].0@);
            assert(is_form_edit_payload_key(args@[i as int].0));
            return false;
        }
        i = i + 1;
    }
    true
}

} // verus!
