//! What holds of every tool call, whatever its adapters answer, and of the
//! catalog of tools as a whole.
use vstd::prelude::*;
use crate::catalog::{tool_catalog, ToolHandler, ToolSpec};
use crate::descriptors::{
    find_descriptor, law_lookup_finds_each_descriptor, law_support_guards_are_explicit,
    support_guard_explicit,
};
use crate::domain::{cancelled_outcome, CacheReportV, OutcomeV, ResultV};
use crate::guards::{
    arg_text, emits_events, has_reserved_designer_key, runs_runtime_operation, source_dump,
    xml_route_guard,
};
use crate::catalog::RuntimeJobAction;
use crate::json::{entries_get, entries_insert, lemma_entries_get_step, law_get_after_insert, v_as_bool, JsonV};
use crate::domain::{DomainEvent, DomainEventKind};
use crate::events::events_of;
use crate::diagnostics::{merged_diagnostics, runtime_diagnostics};
use crate::text::{ascii_lower, seq_contains};
use crate::pipeline::{
    accepts, call_cwd, guarded_warnings, initial_call, next, runtime_guard_outcome,
    runtime_guards_apply, well_formed, CallActionV, CallEventV, CallPhase, FormatCheckV,
    SupportCheckV, ToolCallV,
};

verus! {

/// The phases before the handler's outcome is known.
pub open spec fn before_outcome(phase: CallPhase) -> bool {
    phase == CallPhase::Normalizing || phase == CallPhase::Validating || phase
        == CallPhase::Discovering || phase == CallPhase::CheckingContext || phase
        == CallPhase::CheckingFormat || phase == CallPhase::CheckingCancellation || phase
        == CallPhase::CheckingSupport || phase == CallPhase::Running
}

/// What every reachable call state satisfies: it is well formed; before an
/// outcome is known it has no events, no pending outcome and no result; and it
/// plans to notify invalidation only for an applied mutating call whose outcome
/// succeeded, changed something and raised events.
pub open spec fn consistent(s: ToolCallV) -> bool {
    &&& well_formed(s)
    &&& before_outcome(s.phase) ==> s.events.len() == 0 && !s.notify && s.pending is None
        && s.result is None
    &&& s.phase == CallPhase::Reporting ==> s.result is None
    &&& s.phase == CallPhase::Reporting && s.notify ==> notifies(s, s.pending->0.outcome)
    &&& s.phase == CallPhase::Notifying ==> s.notify && notifies(s, s.result->0.outcome)
}

/// An applied mutating call whose outcome succeeded, changed something and
/// raised the tool's events.
pub open spec fn notifies(s: ToolCallV, outcome: OutcomeV) -> bool {
    &&& s.spec.mutating
    &&& !s.dry_run
    &&& outcome.ok
    &&& outcome.changes.len() > 0
    &&& s.events.len() > 0
    &&& emits_events(s.spec, s.args, s.dry_run, outcome)
}

/// The phase that waits for the answer to an action; `Done` for the end.
pub open spec fn phase_awaiting(a: CallActionV) -> CallPhase {
    match a {
        CallActionV::NormalizeArguments => CallPhase::Normalizing,
        CallActionV::ValidateArguments => CallPhase::Validating,
        CallActionV::DiscoverWorkspace => CallPhase::Discovering,
        CallActionV::ValidateContext => CallPhase::CheckingContext,
        CallActionV::EvaluateFormatGuard => CallPhase::CheckingFormat,
        CallActionV::QueryCancellation => CallPhase::CheckingCancellation,
        CallActionV::EvaluateSupportGuard => CallPhase::CheckingSupport,
        CallActionV::InvokeHandler => CallPhase::Running,
        CallActionV::ReportCache => CallPhase::Reporting,
        CallActionV::NotifyInvalidation => CallPhase::Notifying,
        CallActionV::Finish(_) => CallPhase::Done,
    }
}

/// The error an adapter answered, if it answered one.
pub open spec fn adapter_error(e: CallEventV) -> Option<Seq<char>> {
    match e {
        CallEventV::Normalized(Err(m)) => Some(m),
        CallEventV::Validated(Err(m)) => Some(m),
        CallEventV::Discovered(Err(m)) => Some(m),
        CallEventV::ContextChecked(Err(m)) => Some(m),
        CallEventV::FormatChecked(Err(m)) => Some(m),
        CallEventV::SupportChecked(Err(m)) => Some(m),
        CallEventV::Handled(Err(m)) => Some(m),
        CallEventV::CacheReported(Err(m)) => Some(m),
        _ => None,
    }
}

/// The outcome and diagnostics with which a guard stops the call, if the
/// answer is a guard's refusal.
pub open spec fn guard_refusal(s: ToolCallV, e: CallEventV) -> Option<(OutcomeV, Option<JsonV>)> {
    match e {
        CallEventV::FormatChecked(Ok(FormatCheckV::Block { outcome, diagnostic })) => Some(
            (outcome, Some(JsonV::Object(seq![("formatCompatibility"@, diagnostic)]))),
        ),
        CallEventV::Cancellation(cancelled) => match runtime_guard_outcome(
            s.spec,
            s.args,
            s.dry_run,
            cancelled,
        ) {
            Some(o) => Some((o, None)),
            None => None,
        },
        CallEventV::SupportChecked(Ok(SupportCheckV::Block(o))) => Some(
            (
                if s.dry_run {
                    OutcomeV { summary: "dry run: "@ + o.summary, ..o }
                } else {
                    o
                },
                None,
            ),
        ),
        _ => None,
    }
}

/// A call starts consistent, waiting for its arguments to be normalized, and
/// previews exactly when its tool is mutating until normalization says more.
pub proof fn law_start(spec: ToolSpec, args: Seq<(Seq<char>, JsonV)>)
    ensures
        consistent(initial_call(spec, args)),
        initial_call(spec, args).phase == phase_awaiting(CallActionV::NormalizeArguments),
        initial_call(spec, args).dry_run == spec.mutating,
{
}

/// Every step from a consistent state that the machine accepts leads to a
/// consistent state.
pub proof fn law_steps_keep_consistency(s: ToolCallV, e: CallEventV)
    requires
        consistent(s),
        accepts(s.phase, e),
    ensures
        consistent(next(s, e).0),
{
}

/// Every step either finishes the call or leaves it waiting for the answer to
/// exactly the action it asks for; a finished call accepts no answer.
pub proof fn law_actions_match_phases(s: ToolCallV, e: CallEventV, e2: CallEventV)
    requires
        consistent(s),
        accepts(s.phase, e),
    ensures
        next(s, e).0.phase == phase_awaiting(next(s, e).1),
        next(s, e).1 is Finish ==> !accepts(next(s, e).0.phase, e2),
{
}

/// Caches are invalidated only after an applied call of a mutating tool whose
/// outcome succeeded and changed something: a preview, a read-only tool, a
/// failure or a no-op never invalidates.
pub proof fn law_only_applied_changes_invalidate(s: ToolCallV, e: CallEventV)
    requires
        consistent(s),
        accepts(s.phase, e),
    ensures
        next(s, e).1 is NotifyInvalidation ==> {
            let s2 = next(s, e).0;
            &&& s.spec.mutating
            &&& !s.dry_run
            &&& s2.result->0.outcome.ok
            &&& s2.result->0.outcome.changes.len() > 0
            &&& s2.events.len() > 0
        },
{
}

/// An error answered by any adapter ends the call with that error, unchanged.
pub proof fn law_adapter_errors_end_the_call(s: ToolCallV, e: CallEventV)
    requires
        accepts(s.phase, e),
        adapter_error(e) is Some,
    ensures
        next(s, e).1 == CallActionV::Finish(Err(adapter_error(e)->0)),
        next(s, e).0.phase == CallPhase::Done,
{
}

/// A guard's refusal never reaches the handler: the call reports the cache
/// without events and then ends with the guard's outcome, never notifying.
pub proof fn law_guard_refusal_skips_the_handler(
    s: ToolCallV,
    e: CallEventV,
    cache: CacheReportV,
)
    requires
        consistent(s),
        accepts(s.phase, e),
        guard_refusal(s, e) is Some,
    ensures
        ({
            let (s1, a1) = next(s, e);
            let (o, d) = guard_refusal(s, e)->0;
            &&& a1 == CallActionV::ReportCache
            &&& s1.events.len() == 0
            &&& next(s1, CallEventV::CacheReported(Ok(cache))).1 == CallActionV::Finish(
                Ok(ResultV { outcome: o, cache, diagnostics: d, data: None, job: None }),
            )
        }),
{
}

/// A cancelled applied runtime call or source dump never runs: the runtime
/// guards stop it with a cancellation outcome.
pub proof fn law_cancellation_stops_runtime_calls(
    spec: ToolSpec,
    args: Seq<(Seq<char>, JsonV)>,
    dry_run: bool,
)
    requires
        runtime_guards_apply(spec, args, dry_run),
    ensures
        ({
            let o = runtime_guard_outcome(spec, args, dry_run, true);
            &&& o is Some
            &&& o->0 == cancelled_outcome(o->0.summary)
            &&& runs_runtime_operation(spec.handler) ==> o->0.summary == spec.name@
                + " stopped before runtime XML route execution"@
            &&& !runs_runtime_operation(spec.handler) ==> source_dump(spec, args) && o->0.summary
                == spec.name@ + " dump stopped before execution"@
        }),
{
}

/// The `dryRun` argument, when it is a boolean, decides whether the call
/// previews; without it a mutating tool previews and a read-only tool applies.
/// Once the arguments are normalized, the tool, the arguments and the preview
/// mode stay as they are.
pub proof fn law_preview_mode(s: ToolCallV, e: CallEventV)
    requires
        accepts(s.phase, e),
    ensures
        e matches CallEventV::Normalized(Ok(args)) ==> next(s, e).0.dry_run == match v_as_bool(
            entries_get(args, "dryRun"@),
        ) {
            Some(b) => b,
            None => s.spec.mutating,
        },
        !(e is Normalized) ==> next(s, e).0.dry_run == s.dry_run && next(s, e).0.args == s.args,
        next(s, e).0.spec == s.spec,
{
}

/// The support guard is consulted only for mutating tools.
pub proof fn law_support_guard_only_for_mutations(s: ToolCallV, e: CallEventV)
    requires
        accepts(s.phase, e),
    ensures
        next(s, e).1 is EvaluateSupportGuard ==> s.spec.mutating,
{
}

/// The warnings of a handled call are the format guard's, then the support
/// guard's, then the handler's own, in that order.
pub proof fn law_guard_warnings_come_first(
    s: ToolCallV,
    h: crate::pipeline::HandlerOutcomeV,
    cache: CacheReportV,
)
    requires
        consistent(s),
        s.phase == CallPhase::Running,
    ensures
        ({
            let s1 = next(s, CallEventV::Handled(Ok(h))).0;
            let (s2, a2) = next(s1, CallEventV::CacheReported(Ok(cache)));
            let r = match a2 {
                CallActionV::Finish(Ok(r)) => r,
                _ => s2.result->0,
            };
            &&& r.outcome.warnings == guarded_warnings(
                s.format_warning,
                s.support_warning,
                h.adapter.warnings,
            )
            &&& r.cache == cache
            &&& r.data == h.data
            &&& r.job == h.job
        }),
{
}

/// Where the descriptor of the catalog's `i`-th tool stands in the descriptor
/// table, for the tools that run a native operation.
spec fn descriptor_position(i: int) -> int {
    if 0 <= i < 16 {
        i + 1
    } else if 17 <= i < 45 {
        i
    } else {
        0
    }
}

/// Every tool that runs a native operation raises a cache event exactly when
/// it mutates, and has a descriptor for exactly that operation; when the tool
/// mutates, the descriptor declares the arguments it writes through and the
/// source paths it reads; and its support guard is stated explicitly.
pub proof fn law_native_tools_are_described(i: int)
    requires
        0 <= i < tool_catalog().len(),
    ensures
        tool_catalog()[i].handler matches ToolHandler::NativeOperation { operation, event } ==> ({
            let d = find_descriptor(operation@);
            &&& event is Some <==> tool_catalog()[i].mutating
            &&& d is Some
            &&& d->0.operation@ == operation@
            &&& tool_catalog()[i].mutating ==> d->0.write_path_args@.len() > 0
                && d->0.source_path_args@.len() > 0
            &&& support_guard_explicit(d->0)
        }),
{
    if tool_catalog()[i].handler is NativeOperation {
        let k = descriptor_position(i);
        law_lookup_finds_each_descriptor(k);
        law_support_guards_are_explicit(k);
    }
}

/// The runtime guards never stop a preview. An applied source dump goes
/// through only in explicit full mode, and even then not as a background job;
/// an applied runtime call that converts, or that launches with a reserved
/// Designer key, is stopped before it runs. Every stop is a failure.
pub proof fn law_runtime_guards_fail_closed(spec: ToolSpec, args: Seq<(Seq<char>, JsonV)>)
    ensures
        runtime_guard_outcome(spec, args, true, false) is None,
        runtime_guard_outcome(spec, args, true, true) is None,
        runtime_guard_outcome(spec, args, false, false) matches Some(o) ==> !o.ok,
        source_dump(spec, args) && arg_text(args, "mode"@) != Some("full"@) ==> runtime_guard_outcome(
            spec,
            args,
            false,
            false,
        ) is Some,
        source_dump(spec, args) && arg_text(args, "mode"@) == Some("full"@) ==> (runtime_guard_outcome(
            spec,
            args,
            false,
            false,
        ) is Some <==> spec.handler matches ToolHandler::RuntimeJob {
            action: RuntimeJobAction::Start,
        }),
        runs_runtime_operation(spec.handler) && (arg_text(args, "operation"@) == Some("convert"@)
            || (arg_text(args, "operation"@) == Some("launch"@) && has_reserved_designer_key(args)))
            ==> runtime_guard_outcome(spec, args, false, false) is Some,
{
    reveal_strlit("dump");
    reveal_strlit("convert");
    reveal_strlit("launch");
    assert("dump"@.len() == 4);
    assert("convert"@.len() == 7);
    assert("launch"@.len() == 6);
}

/// A native operation that declares an event raises exactly that event, in
/// the tool's name, whatever the arguments.
pub proof fn law_native_operations_raise_their_event(
    spec: ToolSpec,
    args: Seq<(Seq<char>, JsonV)>,
    kind: DomainEventKind,
)
    requires
        spec.handler matches ToolHandler::NativeOperation { event: Some(k), .. } && k == kind,
    ensures
        events_of(spec, args) == seq![DomainEvent { kind, source: spec.name }],
{
}

/// A runtime call raises `SourceSetChanged` for a dump and `BuildCompleted`
/// for a build, in the tool's name, and no event for any other operation; a
/// job, a project, code or standards tool raises none.
pub proof fn law_runtime_calls_raise_the_event_of_their_operation(
    spec: ToolSpec,
    args: Seq<(Seq<char>, JsonV)>,
)
    ensures
        spec.handler is RuntimeAdapter && arg_text(args, "operation"@) == Some("dump"@)
            ==> events_of(spec, args) == seq![
            DomainEvent { kind: DomainEventKind::SourceSetChanged, source: spec.name },
        ],
        spec.handler is RuntimeAdapter && arg_text(args, "operation"@) == Some("build"@)
            ==> events_of(spec, args) == seq![
            DomainEvent { kind: DomainEventKind::BuildCompleted, source: spec.name },
        ],
        spec.handler is RuntimeAdapter && arg_text(args, "operation"@) != Some("dump"@)
            && arg_text(args, "operation"@) != Some("build"@) ==> events_of(spec, args).len() == 0,
        (spec.handler is RuntimeJob || spec.handler is ProjectStatus || spec.handler is ProjectMap
            || spec.handler is CodeAdapter || spec.handler is StandardsAdapter) ==> events_of(
            spec,
            args,
        ).len() == 0,
{
    reveal_strlit("dump");
    reveal_strlit("build");
    assert("dump"@.len() == 4);
    assert("build"@.len() == 5);
}

/// A build command that declares an event raises exactly that event, in the
/// tool's name, whatever the arguments.
pub proof fn law_build_commands_raise_their_event(
    spec: ToolSpec,
    args: Seq<(Seq<char>, JsonV)>,
    kind: DomainEventKind,
)
    requires
        spec.handler matches ToolHandler::BuildRuntime { event: Some(k), .. } && k == kind,
    ensures
        events_of(spec, args) == seq![DomainEvent { kind, source: spec.name }],
{
}

/// An applied build command of a mutating tool whose handler succeeded with
/// changes reports its declared event to the caches and then asks to
/// notify their invalidation.
pub proof fn law_applied_builds_invalidate_caches(
    s: ToolCallV,
    h: crate::pipeline::HandlerOutcomeV,
    cache: CacheReportV,
    kind: DomainEventKind,
)
    requires
        consistent(s),
        s.phase == CallPhase::Running,
        s.spec.handler matches ToolHandler::BuildRuntime { event: Some(k), .. } && k == kind,
        s.spec.mutating,
        !s.dry_run,
        h.adapter.ok,
        h.adapter.changes.len() > 0,
    ensures
        ({
            let (s1, a1) = next(s, CallEventV::Handled(Ok(h)));
            &&& a1 == CallActionV::ReportCache
            &&& s1.events == seq![DomainEvent { kind, source: s.spec.name }]
            &&& next(s1, CallEventV::CacheReported(Ok(cache))).1 is NotifyInvalidation
        }),
{
}

/// An applied launch of a runtime tool is stopped, as a failure, when any item
/// of its `rawKeys` array, wherever it stands, is a string that names
/// `DumpConfigToFiles` or `LoadConfigFromFiles` in any ASCII case.
pub proof fn law_reserved_designer_keys_stop_launches(
    spec: ToolSpec,
    args: Seq<(Seq<char>, JsonV)>,
    items: Seq<JsonV>,
    i: int,
    key: Seq<char>,
)
    requires
        entries_get(args, "rawKeys"@) == Some(JsonV::Array(items)),
        0 <= i < items.len(),
        items[i] == JsonV::Str(key),
        seq_contains(ascii_lower(key), "dumpconfigtofiles"@) || seq_contains(
            ascii_lower(key),
            "loadconfigfromfiles"@,
        ),
    ensures
        has_reserved_designer_key(args),
        runs_runtime_operation(spec.handler) && arg_text(args, "operation"@) == Some("launch"@)
            ==> (runtime_guard_outcome(spec, args, false, false) matches Some(o) && !o.ok),
{
    assert(items[i] matches JsonV::Str(k) && crate::guards::is_reserved_designer_key(k));
    reveal_strlit("launch");
    reveal_strlit("convert");
    assert("launch"@.len() == 6);
    assert("convert"@.len() == 7);
}

/// Merging a format diagnostic into any runtime diagnostics gives an object
/// whose `formatCompatibility` entry is that diagnostic.
proof fn lemma_merge_keeps_format_diagnostic(runtime: Option<JsonV>, d: JsonV)
    ensures
        merged_diagnostics(runtime, Some(d)) is Some,
        merged_diagnostics(runtime, Some(d))->0 is Object,
        entries_get(merged_diagnostics(runtime, Some(d))->0->Object_0, "formatCompatibility"@)
            == Some(d),
{
    reveal_strlit("runtime");
    reveal_strlit("formatCompatibility");
    assert("runtime"@.len() == 7);
    assert("formatCompatibility"@.len() == 19);
    match runtime {
        None => {
            let e = seq![("formatCompatibility"@, d)];
            assert(e[0] == ("formatCompatibility"@, d));
            assert(entries_get(e, "formatCompatibility"@) == Some(d));
            assert(merged_diagnostics(runtime, Some(d)) == Some(JsonV::Object(e)));
        },
        Some(JsonV::Object(e)) => {
            law_get_after_insert(e, "formatCompatibility"@, d, "runtime"@);
            assert(entries_get(merged_diagnostics(runtime, Some(d))->0->Object_0, "formatCompatibility"@)
                == Some(d));
        },
        Some(r) => {
            let e = seq![("runtime"@, r), ("formatCompatibility"@, d)];
            assert(e[0].0 == "runtime"@);
            assert(e[0].0 != "formatCompatibility"@);
            let rest = e.drop_first();
            assert(rest =~= seq![("formatCompatibility"@, d)]);
            assert(rest[0] == ("formatCompatibility"@, d));
            assert(entries_get(rest, "formatCompatibility"@) == Some(d));
            assert(entries_get(e, "formatCompatibility"@) == Some(d));
            assert(entries_get(merged_diagnostics(runtime, Some(d))->0->Object_0, "formatCompatibility"@)
                == Some(d));
        },
    }
}

/// When the format guard lets a call through with a warning and a
/// diagnostic, and the call goes on to run its handler, the call's result
/// carries that warning first and holds that diagnostic under
/// `formatCompatibility`, whatever the cancellation check, the support guard,
/// the handler and the cache report answer.
pub proof fn law_format_warnings_keep_their_diagnostic(
    s: ToolCallV,
    warning: Seq<char>,
    diagnostic: JsonV,
    cancelled: bool,
    support: SupportCheckV,
    h: crate::pipeline::HandlerOutcomeV,
    cache: CacheReportV,
)
    requires
        consistent(s),
        s.phase == CallPhase::CheckingFormat,
    ensures
        ({
            let s1 = next(
                s,
                CallEventV::FormatChecked(Ok(FormatCheckV::Warn { warning, diagnostic })),
            ).0;
            let s2 = if s1.phase == CallPhase::CheckingCancellation {
                next(s1, CallEventV::Cancellation(cancelled)).0
            } else {
                s1
            };
            let s3 = if s2.phase == CallPhase::CheckingSupport {
                next(s2, CallEventV::SupportChecked(Ok(support))).0
            } else {
                s2
            };
            let s4 = next(s3, CallEventV::Handled(Ok(h))).0;
            let (s5, a5) = next(s4, CallEventV::CacheReported(Ok(cache)));
            let r = match a5 {
                CallActionV::Finish(Ok(r)) => r,
                _ => s5.result->0,
            };
            s3.phase == CallPhase::Running ==> {
                &&& r.outcome.warnings.len() > 0
                &&& r.outcome.warnings[0] == warning
                &&& r.diagnostics matches Some(JsonV::Object(e)) && entries_get(
                    e,
                    "formatCompatibility"@,
                ) == Some(diagnostic)
            }
        }),
{
    let s1 = next(s, CallEventV::FormatChecked(Ok(FormatCheckV::Warn { warning, diagnostic }))).0;
    let s2 = if s1.phase == CallPhase::CheckingCancellation {
        next(s1, CallEventV::Cancellation(cancelled)).0
    } else {
        s1
    };
    let s3 = if s2.phase == CallPhase::CheckingSupport {
        next(s2, CallEventV::SupportChecked(Ok(support))).0
    } else {
        s2
    };
    if s3.phase == CallPhase::Running {
        assert(s3.format_diagnostic == Some(diagnostic));
        assert(s3.format_warning == Some(warning));
        let outcome = crate::pipeline::with_guard_warnings(s3, h.adapter);
        lemma_merge_keeps_format_diagnostic(
            runtime_diagnostics(s3.spec, s3.args, call_cwd(s3), outcome, h.data),
            diagnostic,
        );
    }
}

/// The value under `k` of entries whose `i`-th key is `k` and whose earlier
/// keys differ from it.
proof fn lemma_entry_at(e: Seq<(Seq<char>, JsonV)>, k: Seq<char>, i: int)
    requires
        0 <= i < e.len(),
        e[i].0 == k,
        forall|j: int| 0 <= j < i ==> e[j].0 != k,
    ensures
        entries_get(e, k) == Some(e[i].1),
{
    lemma_entries_get_step(e, k, i);
    assert(e.subrange(i, e.len() as int)[0] == e[i]);
}

/// The diagnostics of a bounded external EPF wait report, as `timeout_ms`,
/// the caller's `waitTimeoutMs` argument as given, or `null` without one; the
/// wait's own exit code and timeout flag; the workspace directory; and the
/// wait receipt itself.
pub proof fn law_epf_wait_reports_the_wait_bound(
    spec: ToolSpec,
    args: Seq<(Seq<char>, JsonV)>,
    cwd: Seq<char>,
    outcome: OutcomeV,
    data: Seq<(Seq<char>, JsonV)>,
    wait: Seq<(Seq<char>, JsonV)>,
)
    requires
        spec.handler is RuntimeAdapter,
        entries_get(data, "external_epf_wait"@) == Some(JsonV::Object(wait)),
    ensures
        ({
            let r = runtime_diagnostics(spec, args, cwd, outcome, Some(JsonV::Object(data)));
            &&& r is Some
            &&& r->0 is Object
            &&& entries_get(r->0->Object_0, "timeout_ms"@) == Some(
                match entries_get(args, "waitTimeoutMs"@) {
                    Some(v) => v,
                    None => JsonV::Null,
                },
            )
            &&& entries_get(r->0->Object_0, "exit_code"@) == Some(
                match entries_get(wait, "exit_code"@) {
                    Some(v) => v,
                    None => JsonV::Null,
                },
            )
            &&& entries_get(r->0->Object_0, "timed_out"@) == Some(
                JsonV::Bool(entries_get(wait, "timed_out"@) == Some(JsonV::Bool(true))),
            )
            &&& entries_get(r->0->Object_0, "cwd"@) == Some(JsonV::Str(cwd))
            &&& entries_get(r->0->Object_0, "external_epf_wait"@) == Some(JsonV::Object(wait))
        }),
{
    reveal_strlit("type");
    reveal_strlit("tool");
    reveal_strlit("operation");
    reveal_strlit("outcome_kind");
    reveal_strlit("failure_kind");
    reveal_strlit("executable");
    reveal_strlit("argv");
    reveal_strlit("cwd");
    reveal_strlit("status");
    reveal_strlit("exit_code");
    reveal_strlit("timed_out");
    reveal_strlit("timeout_ms");
    reveal_strlit("timeout_source");
    reveal_strlit("stdout_tail");
    reveal_strlit("stderr_tail");
    reveal_strlit("error");
    reveal_strlit("external_epf_wait");
    assert("type"@.len() == 4);
    assert("tool"@.len() == 4);
    assert("operation"@.len() == 9 && "operation"@[0] == 'o');
    assert("outcome_kind"@.len() == 12);
    assert("failure_kind"@.len() == 12);
    assert("executable"@.len() == 10 && "executable"@[0] == 'e');
    assert("argv"@.len() == 4);
    assert("cwd"@.len() == 3);
    assert("status"@.len() == 6);
    assert("exit_code"@.len() == 9 && "exit_code"@[0] == 'e');
    assert("timed_out"@.len() == 9 && "timed_out"@[0] == 't');
    assert("timeout_ms"@.len() == 10 && "timeout_ms"@[0] == 't');
    assert("timeout_source"@.len() == 14);
    assert("stdout_tail"@.len() == 11);
    assert("stderr_tail"@.len() == 11);
    assert("error"@.len() == 5);
    assert("external_epf_wait"@.len() == 17);
    let r = runtime_diagnostics(spec, args, cwd, outcome, Some(JsonV::Object(data)));
    let e = r->0->Object_0;
    assert forall|j: int| 0 <= j < 11 implies e[j].0 != "timeout_ms"@ by {}
    lemma_entry_at(e, "timeout_ms"@, 11);
    assert forall|j: int| 0 <= j < 9 implies e[j].0 != "exit_code"@ by {}
    lemma_entry_at(e, "exit_code"@, 9);
    assert forall|j: int| 0 <= j < 10 implies e[j].0 != "timed_out"@ by {}
    lemma_entry_at(e, "timed_out"@, 10);
    assert forall|j: int| 0 <= j < 7 implies e[j].0 != "cwd"@ by {}
    lemma_entry_at(e, "cwd"@, 7);
    assert forall|j: int| 0 <= j < 16 implies e[j].0 != "external_epf_wait"@ by {}
    lemma_entry_at(e, "external_epf_wait"@, 16);
}

} // verus!
