//! One tool call as a state machine. Each step takes what the last adapter
//! call answered and says which adapter call comes next; the caller performs
//! that call and hands its answer back, until the machine finishes with the
//! call's result.
//!
//! The order is: normalize the arguments, validate them, discover the
//! workspace, validate the call in that workspace, ask the format guard, apply
//! the runtime XML route and source sync guards, ask the support guard (for a
//! mutating tool), run the handler, report the cache, and notify cache
//! invalidation after an applied change.
use vstd::prelude::*;
use crate::catalog::ToolSpec;
use crate::diagnostics::{merge_diagnostics, merged_diagnostics, runtime_diagnostics, runtime_result_diagnostics};
use crate::domain::{
    opt_json, opt_text, texts, AdapterOutcome, CacheReport, CacheReportV, ContextV, DomainEvent,
    OperationResult, OutcomeV, ResultV, WorkspaceContext,
};
use crate::events::{domain_events, events_of};
use crate::guards::{
    dump_guard, emits_events, runs_runtime_operation, runtime_xml_route_guard, should_emit_events,
    source_dump, source_sync_dump_guard, xml_route_guard, is_source_dump,
};
use crate::json::{entries_get, lemma_object_model, v_as_bool, Json, JsonMap, JsonV};
use crate::catalog::{RuntimeJobAction, ToolHandler};
use crate::text::{owned, push_str};

verus! {

// ---------------------------------------------------------------------------
// Adapter answers
// ---------------------------------------------------------------------------

/// What the format guard answers.
#[derive(Debug)]
pub enum FormatGuardCheck {
    Allow,
    Warn { warning: String, diagnostic: Json },
    Block { outcome: AdapterOutcome, diagnostic: Json },
}

pub enum FormatCheckV {
    Allow,
    Warn { warning: Seq<char>, diagnostic: JsonV },
    Block { outcome: OutcomeV, diagnostic: JsonV },
}

impl View for FormatGuardCheck {
    type V = FormatCheckV;

    open spec fn view(&self) -> FormatCheckV {
        match self {
            FormatGuardCheck::Allow => FormatCheckV::Allow,
            FormatGuardCheck::Warn { warning, diagnostic } => FormatCheckV::Warn {
                warning: warning@,
                diagnostic: diagnostic@,
            },
            FormatGuardCheck::Block { outcome, diagnostic } => FormatCheckV::Block {
                outcome: outcome@,
                diagnostic: diagnostic@,
            },
        }
    }
}

/// What the support guard answers.
#[derive(Debug)]
pub enum SupportGuardCheck {
    Allow,
    Warn(String),
    Block(AdapterOutcome),
}

pub enum SupportCheckV {
    Allow,
    Warn(Seq<char>),
    Block(OutcomeV),
}

impl View for SupportGuardCheck {
    type V = SupportCheckV;

    open spec fn view(&self) -> SupportCheckV {
        match self {
            SupportGuardCheck::Allow => SupportCheckV::Allow,
            SupportGuardCheck::Warn(w) => SupportCheckV::Warn(w@),
            SupportGuardCheck::Block(o) => SupportCheckV::Block(o@),
        }
    }
}

/// What a tool handler answers: its outcome and any typed data or job snapshot.
#[derive(Debug)]
pub struct HandlerOutcome {
    pub adapter: AdapterOutcome,
    pub data: Option<Json>,
    pub job: Option<Json>,
}

pub struct HandlerOutcomeV {
    pub adapter: OutcomeV,
    pub data: Option<JsonV>,
    pub job: Option<JsonV>,
}

impl View for HandlerOutcome {
    type V = HandlerOutcomeV;

    open spec fn view(&self) -> HandlerOutcomeV {
        HandlerOutcomeV { adapter: self.adapter@, data: opt_json(self.data), job: opt_json(self.job) }
    }
}

impl HandlerOutcome {
    /// A handler outcome without data or job.
    pub fn plain(adapter: AdapterOutcome) -> (r: HandlerOutcome)
        ensures
            r@ == (HandlerOutcomeV { adapter: adapter@, data: None, job: None }),
    {
        HandlerOutcome { adapter, data: None, job: None }
    }
}

/// What the caller hands back after performing an action.
#[derive(Debug)]
pub enum CallEvent {
    Normalized(Result<JsonMap, String>),
    Validated(Result<(), String>),
    Discovered(Result<WorkspaceContext, String>),
    ContextChecked(Result<(), String>),
    FormatChecked(Result<FormatGuardCheck, String>),
    Cancellation(bool),
    SupportChecked(Result<SupportGuardCheck, String>),
    Handled(Result<HandlerOutcome, String>),
    CacheReported(Result<CacheReport, String>),
    Notified,
}

pub enum CallEventV {
    Normalized(Result<Seq<(Seq<char>, JsonV)>, Seq<char>>),
    Validated(Result<(), Seq<char>>),
    Discovered(Result<ContextV, Seq<char>>),
    ContextChecked(Result<(), Seq<char>>),
    FormatChecked(Result<FormatCheckV, Seq<char>>),
    Cancellation(bool),
    SupportChecked(Result<SupportCheckV, Seq<char>>),
    Handled(Result<HandlerOutcomeV, Seq<char>>),
    CacheReported(Result<CacheReportV, Seq<char>>),
    Notified,
}

impl View for CallEvent {
    type V = CallEventV;

    open spec fn view(&self) -> CallEventV {
        match self {
            CallEvent::Normalized(r) => CallEventV::Normalized(
                match r {
                    Ok(a) => Ok(a@),
                    Err(m) => Err(m@),
                },
            ),
            CallEvent::Validated(r) => CallEventV::Validated(
                match r {
                    Ok(u) => Ok(()),
                    Err(m) => Err(m@),
                },
            ),
            CallEvent::Discovered(r) => CallEventV::Discovered(
                match r {
                    Ok(c) => Ok(c@),
                    Err(m) => Err(m@),
                },
            ),
            CallEvent::ContextChecked(r) => CallEventV::ContextChecked(
                match r {
                    Ok(u) => Ok(()),
                    Err(m) => Err(m@),
                },
            ),
            CallEvent::FormatChecked(r) => CallEventV::FormatChecked(
                match r {
                    Ok(c) => Ok(c@),
                    Err(m) => Err(m@),
                },
            ),
            CallEvent::Cancellation(c) => CallEventV::Cancellation(*c),
            CallEvent::SupportChecked(r) => CallEventV::SupportChecked(
                match r {
                    Ok(c) => Ok(c@),
                    Err(m) => Err(m@),
                },
            ),
            CallEvent::Handled(r) => CallEventV::Handled(
                match r {
                    Ok(h) => Ok(h@),
                    Err(m) => Err(m@),
                },
            ),
            CallEvent::CacheReported(r) => CallEventV::CacheReported(
                match r {
                    Ok(c) => Ok(c@),
                    Err(m) => Err(m@),
                },
            ),
            CallEvent::Notified => CallEventV::Notified,
        }
    }
}

/// What the caller does next.
#[derive(Debug)]
pub enum CallAction {
    /// Replace path argument aliases by their canonical names.
    NormalizeArguments,
    /// Check the arguments against the tool's contract.
    ValidateArguments,
    /// Find the workspace from the `cwd` argument.
    DiscoverWorkspace,
    /// Check the call against the workspace.
    ValidateContext,
    /// Ask the source-format guard.
    EvaluateFormatGuard,
    /// Read whether the call was cancelled.
    QueryCancellation,
    /// Ask the vendor-support guard.
    EvaluateSupportGuard,
    /// Run the tool's handler.
    InvokeHandler,
    /// Report the cache for the call's events.
    ReportCache,
    /// Tell the caches which events invalidate them.
    NotifyInvalidation,
    /// The call is over.
    Finish(Result<OperationResult, String>),
}

pub enum CallActionV {
    NormalizeArguments,
    ValidateArguments,
    DiscoverWorkspace,
    ValidateContext,
    EvaluateFormatGuard,
    QueryCancellation,
    EvaluateSupportGuard,
    InvokeHandler,
    ReportCache,
    NotifyInvalidation,
    Finish(Result<ResultV, Seq<char>>),
}

impl View for CallAction {
    type V = CallActionV;

    open spec fn view(&self) -> CallActionV {
        match self {
            CallAction::NormalizeArguments => CallActionV::NormalizeArguments,
            CallAction::ValidateArguments => CallActionV::ValidateArguments,
            CallAction::DiscoverWorkspace => CallActionV::DiscoverWorkspace,
            CallAction::ValidateContext => CallActionV::ValidateContext,
            CallAction::EvaluateFormatGuard => CallActionV::EvaluateFormatGuard,
            CallAction::QueryCancellation => CallActionV::QueryCancellation,
            CallAction::EvaluateSupportGuard => CallActionV::EvaluateSupportGuard,
            CallAction::InvokeHandler => CallActionV::InvokeHandler,
            CallAction::ReportCache => CallActionV::ReportCache,
            CallAction::NotifyInvalidation => CallActionV::NotifyInvalidation,
            CallAction::Finish(r) => CallActionV::Finish(
                match r {
                    Ok(res) => Ok(res.result_view()),
                    Err(m) => Err(m@),
                },
            ),
        }
    }
}

// ---------------------------------------------------------------------------
// State
// ---------------------------------------------------------------------------

/// Where a call stands: which answer it waits for.
#[derive(Debug, Clone, Copy, PartialEq, Eq, Structural)]
pub enum CallPhase {
    Normalizing,
    Validating,
    Discovering,
    CheckingContext,
    CheckingFormat,
    CheckingCancellation,
    CheckingSupport,
    Running,
    Reporting,
    Notifying,
    Done,
}

/// An outcome waiting for its cache report.
#[derive(Debug)]
struct Pending {
    outcome: AdapterOutcome,
    diagnostics: Option<Json>,
    data: Option<Json>,
    job: Option<Json>,
}

pub struct PendingV {
    pub outcome: OutcomeV,
    pub diagnostics: Option<JsonV>,
    pub data: Option<JsonV>,
    pub job: Option<JsonV>,
}

impl View for Pending {
    type V = PendingV;

    closed spec fn view(&self) -> PendingV {
        PendingV {
            outcome: self.outcome@,
            diagnostics: opt_json(self.diagnostics),
            data: opt_json(self.data),
            job: opt_json(self.job),
        }
    }
}

/// One tool call in progress.
#[derive(Debug)]
pub struct ToolCall {
    spec: ToolSpec,
    phase: CallPhase,
    args: JsonMap,
    dry_run: bool,
    context: Option<WorkspaceContext>,
    format_warning: Option<String>,
    format_diagnostic: Option<Json>,
    support_warning: Option<String>,
    pending: Option<Pending>,
    events: Vec<DomainEvent>,
    notify: bool,
    result: Option<OperationResult>,
}

pub struct ToolCallV {
    pub spec: ToolSpec,
    pub phase: CallPhase,
    pub args: Seq<(Seq<char>, JsonV)>,
    pub dry_run: bool,
    pub context: Option<ContextV>,
    pub format_warning: Option<Seq<char>>,
    pub format_diagnostic: Option<JsonV>,
    pub support_warning: Option<Seq<char>>,
    pub pending: Option<PendingV>,
    pub events: Seq<DomainEvent>,
    pub notify: bool,
    pub result: Option<ResultV>,
}

impl View for ToolCall {
    type V = ToolCallV;

    closed spec fn view(&self) -> ToolCallV {
        ToolCallV {
            spec: self.spec,
            phase: self.phase,
            args: self.args@,
            dry_run: self.dry_run,
            context: match self.context {
                Some(c) => Some(c@),
                None => None,
            },
            format_warning: opt_text(self.format_warning),
            format_diagnostic: opt_json(self.format_diagnostic),
            support_warning: opt_text(self.support_warning),
            pending: match self.pending {
                Some(p) => Some(p@),
                None => None,
            },
            events: self.events@,
            notify: self.notify,
            result: match self.result {
                Some(r) => Some(r.result_view()),
                None => None,
            },
        }
    }
}

// ---------------------------------------------------------------------------
// Transition relation
// ---------------------------------------------------------------------------

/// The state a call starts in.
pub open spec fn initial_call(spec: ToolSpec, args: Seq<(Seq<char>, JsonV)>) -> ToolCallV {
    ToolCallV {
        spec,
        phase: CallPhase::Normalizing,
        args,
        dry_run: spec.mutating,
        context: None,
        format_warning: None,
        format_diagnostic: None,
        support_warning: None,
        pending: None,
        events: Seq::empty(),
        notify: false,
        result: None,
    }
}

/// Whether the machine waits for this kind of answer.
pub open spec fn accepts(phase: CallPhase, e: CallEventV) -> bool {
    match e {
        CallEventV::Normalized(_) => phase == CallPhase::Normalizing,
        CallEventV::Validated(_) => phase == CallPhase::Validating,
        CallEventV::Discovered(_) => phase == CallPhase::Discovering,
        CallEventV::ContextChecked(_) => phase == CallPhase::CheckingContext,
        CallEventV::FormatChecked(_) => phase == CallPhase::CheckingFormat,
        CallEventV::Cancellation(_) => phase == CallPhase::CheckingCancellation,
        CallEventV::SupportChecked(_) => phase == CallPhase::CheckingSupport,
        CallEventV::Handled(_) => phase == CallPhase::Running,
        CallEventV::CacheReported(_) => phase == CallPhase::Reporting,
        CallEventV::Notified => phase == CallPhase::Notifying,
    }
}

/// Whether a call previews (true) or applies (false): the `dryRun` argument when
/// it is a boolean, else previewing exactly the mutating tools.
pub open spec fn resolved_dry_run(spec: ToolSpec, args: Seq<(Seq<char>, JsonV)>) -> bool {
    match v_as_bool(entries_get(args, "dryRun"@)) {
        Some(b) => b,
        None => spec.mutating,
    }
}

/// Whether the runtime XML route guard or the source sync guard applies.
pub open spec fn runtime_guards_apply(spec: ToolSpec, args: Seq<(Seq<char>, JsonV)>, dry_run: bool) -> bool {
    !dry_run && (runs_runtime_operation(spec.handler) || source_dump(spec, args))
}

/// The outcome of the runtime guards, given whether the call was cancelled.
pub open spec fn runtime_guard_outcome(
    spec: ToolSpec,
    args: Seq<(Seq<char>, JsonV)>,
    dry_run: bool,
    cancelled: bool,
) -> Option<OutcomeV> {
    match xml_route_guard(spec, args, dry_run, cancelled) {
        Some(o) => Some(o),
        None => dump_guard(spec, args, dry_run, cancelled),
    }
}

/// The call ends with an error.
pub open spec fn fail(s: ToolCallV, message: Seq<char>) -> (ToolCallV, CallActionV) {
    (ToolCallV { phase: CallPhase::Done, ..s }, CallActionV::Finish(Err(message)))
}

/// The call moves on to the support guard (mutating tools) or the handler.
pub open spec fn to_support(s: ToolCallV) -> (ToolCallV, CallActionV) {
    if s.spec.mutating {
        (ToolCallV { phase: CallPhase::CheckingSupport, ..s }, CallActionV::EvaluateSupportGuard)
    } else {
        (ToolCallV { phase: CallPhase::Running, ..s }, CallActionV::InvokeHandler)
    }
}

/// After the format guard allows the call: the runtime guards, if they apply.
pub open spec fn after_format(s: ToolCallV) -> (ToolCallV, CallActionV) {
    if runtime_guards_apply(s.spec, s.args, s.dry_run) {
        (
            ToolCallV { phase: CallPhase::CheckingCancellation, ..s },
            CallActionV::QueryCancellation,
        )
    } else {
        to_support(s)
    }
}

/// A guard stopped the call: its outcome waits for a cache report without events.
pub open spec fn blocked(s: ToolCallV, outcome: OutcomeV, diagnostics: Option<JsonV>) -> (
    ToolCallV,
    CallActionV,
) {
    (
        ToolCallV {
            phase: CallPhase::Reporting,
            pending: Some(PendingV { outcome, diagnostics, data: None, job: None }),
            events: Seq::empty(),
            notify: false,
            ..s
        },
        CallActionV::ReportCache,
    )
}

/// The warnings of a call: the format guard's, the support guard's, then the
/// handler's.
pub open spec fn guarded_warnings(
    format_warning: Option<Seq<char>>,
    support_warning: Option<Seq<char>>,
    warnings: Seq<Seq<char>>,
) -> Seq<Seq<char>> {
    let f = match format_warning {
        Some(w) => seq![w],
        None => Seq::empty(),
    };
    let g = match support_warning {
        Some(w) => seq![w],
        None => Seq::empty(),
    };
    f + g + warnings
}

/// The handler's outcome with the guards' warnings in front of its own.
pub open spec fn with_guard_warnings(s: ToolCallV, o: OutcomeV) -> OutcomeV {
    OutcomeV { warnings: guarded_warnings(s.format_warning, s.support_warning, o.warnings), ..o }
}

/// The workspace directory of the call.
pub open spec fn call_cwd(s: ToolCallV) -> Seq<char> {
    match s.context {
        Some(c) => c.cwd,
        None => Seq::empty(),
    }
}

/// The handler finished: its outcome waits for a cache report of its events.
pub open spec fn completed(s: ToolCallV, h: HandlerOutcomeV) -> (ToolCallV, CallActionV) {
    let outcome = with_guard_warnings(s, h.adapter);
    let events = if emits_events(s.spec, s.args, s.dry_run, outcome) {
        events_of(s.spec, s.args)
    } else {
        Seq::empty()
    };
    let diagnostics = merged_diagnostics(
        runtime_diagnostics(s.spec, s.args, call_cwd(s), outcome, h.data),
        s.format_diagnostic,
    );
    (
        ToolCallV {
            phase: CallPhase::Reporting,
            pending: Some(PendingV { outcome, diagnostics, data: h.data, job: h.job }),
            events,
            notify: s.spec.mutating && !s.dry_run && outcome.ok && events.len() > 0,
            ..s
        },
        CallActionV::ReportCache,
    )
}

/// The result of a call from its pending outcome and its cache report.
pub open spec fn result_of(p: PendingV, cache: CacheReportV) -> ResultV {
    ResultV { outcome: p.outcome, cache, diagnostics: p.diagnostics, data: p.data, job: p.job }
}

/// The next state and action of a call, given the answer to its last action.
pub open spec fn next(s: ToolCallV, e: CallEventV) -> (ToolCallV, CallActionV) {
    match e {
        CallEventV::Normalized(Err(m)) => fail(s, m),
        CallEventV::Normalized(Ok(args)) => (
            ToolCallV {
                phase: CallPhase::Validating,
                args,
                dry_run: resolved_dry_run(s.spec, args),
                ..s
            },
            CallActionV::ValidateArguments,
        ),
        CallEventV::Validated(Err(m)) => fail(s, m),
        CallEventV::Validated(Ok(_)) => (
            ToolCallV { phase: CallPhase::Discovering, ..s },
            CallActionV::DiscoverWorkspace,
        ),
        CallEventV::Discovered(Err(m)) => fail(s, m),
        CallEventV::Discovered(Ok(c)) => (
            ToolCallV { phase: CallPhase::CheckingContext, context: Some(c), ..s },
            CallActionV::ValidateContext,
        ),
        CallEventV::ContextChecked(Err(m)) => fail(s, m),
        CallEventV::ContextChecked(Ok(_)) => (
            ToolCallV { phase: CallPhase::CheckingFormat, ..s },
            CallActionV::EvaluateFormatGuard,
        ),
        CallEventV::FormatChecked(Err(m)) => fail(s, m),
        CallEventV::FormatChecked(Ok(FormatCheckV::Allow)) => after_format(s),
        CallEventV::FormatChecked(Ok(FormatCheckV::Warn { warning, diagnostic })) => after_format(
            ToolCallV {
                format_warning: Some(warning),
                format_diagnostic: Some(diagnostic),
                ..s
            },
        ),
        CallEventV::FormatChecked(Ok(FormatCheckV::Block { outcome, diagnostic })) => blocked(
            s,
            outcome,
            Some(JsonV::Object(seq![("formatCompatibility"@, diagnostic)])),
        ),
        CallEventV::Cancellation(cancelled) => match runtime_guard_outcome(
            s.spec,
            s.args,
            s.dry_run,
            cancelled,
        ) {
            Some(o) => blocked(s, o, None),
            None => to_support(s),
        },
        CallEventV::SupportChecked(Err(m)) => fail(s, m),
        CallEventV::SupportChecked(Ok(SupportCheckV::Allow)) => (
            ToolCallV { phase: CallPhase::Running, ..s },
            CallActionV::InvokeHandler,
        ),
        CallEventV::SupportChecked(Ok(SupportCheckV::Warn(w))) => (
            ToolCallV { phase: CallPhase::Running, support_warning: Some(w), ..s },
            CallActionV::InvokeHandler,
        ),
        CallEventV::SupportChecked(Ok(SupportCheckV::Block(o))) => blocked(
            s,
            if s.dry_run {
                OutcomeV { summary: "dry run: "@ + o.summary, ..o }
            } else {
                o
            },
            None,
        ),
        CallEventV::Handled(Err(m)) => fail(s, m),
        CallEventV::Handled(Ok(h)) => completed(s, h),
        CallEventV::CacheReported(Err(m)) => fail(s, m),
        CallEventV::CacheReported(Ok(cache)) => match s.pending {
            Some(p) => if s.notify {
                (
                    ToolCallV {
                        phase: CallPhase::Notifying,
                        pending: None,
                        result: Some(result_of(p, cache)),
                        ..s
                    },
                    CallActionV::NotifyInvalidation,
                )
            } else {
                (
                    ToolCallV { phase: CallPhase::Done, pending: None, ..s },
                    CallActionV::Finish(Ok(result_of(p, cache))),
                )
            },
            None => fail(s, "no outcome awaits a cache report"@),
        },
        CallEventV::Notified => match s.result {
            Some(r) => (ToolCallV { phase: CallPhase::Done, result: None, ..s }, CallActionV::Finish(Ok(r))),
            None => fail(s, "no result awaits notification"@),
        },
    }
}

/// The phases that come after workspace discovery and before the end.
pub open spec fn in_workspace(phase: CallPhase) -> bool {
    phase == CallPhase::CheckingContext || phase == CallPhase::CheckingFormat || phase
        == CallPhase::CheckingCancellation || phase == CallPhase::CheckingSupport || phase
        == CallPhase::Running || phase == CallPhase::Reporting || phase == CallPhase::Notifying
}

/// A call state is consistent with its phase: a workspace once discovered, an
/// outcome while reporting, a result while notifying.
pub open spec fn well_formed(s: ToolCallV) -> bool {
    &&& in_workspace(s.phase) ==> s.context is Some
    &&& s.phase == CallPhase::Reporting ==> s.pending is Some
    &&& s.phase == CallPhase::Notifying ==> s.result is Some
}

// ---------------------------------------------------------------------------
// The machine
// ---------------------------------------------------------------------------

/// The warnings of the guards in front of the handler's own.
fn prepend_guard_warnings(
    format_warning: &Option<String>,
    support_warning: &Option<String>,
    warnings: Vec<String>,
) -> (r: Vec<String>)
    ensures
        texts(r@) == guarded_warnings(
            opt_text(*format_warning),
            opt_text(*support_warning),
            texts(warnings@),
        ),
{
    let mut r: Vec<String> = Vec::new();
    match format_warning {
        Some(w) => r.push(w.clone()),
        None => {},
    }
    match support_warning {
        Some(w) => r.push(w.clone()),
        None => {},
    }
    let ghost front = r@;
    let mut rest = warnings;
    r.append(&mut rest);
    assert(texts(r@) =~= guarded_warnings(
        opt_text(*format_warning),
        opt_text(*support_warning),
        texts(warnings@),
    ));
    r
}

impl ToolCall {
    /// A call of `spec` with the caller's arguments; its first action is to
    /// normalize them.
    pub fn start(spec: ToolSpec, args: JsonMap) -> (r: (ToolCall, CallAction))
        ensures
            r.0@ == initial_call(spec, args@),
            r.1@ == CallActionV::NormalizeArguments,
            well_formed(r.0@),
    {
        let call = ToolCall {
            spec,
            phase: CallPhase::Normalizing,
            args,
            dry_run: spec.mutating,
            context: None,
            format_warning: None,
            format_diagnostic: None,
            support_warning: None,
            pending: None,
            events: Vec::new(),
            notify: false,
            result: None,
        };
        assert(call@.events =~= Seq::<DomainEvent>::empty());
        (call, CallAction::NormalizeArguments)
    }

    /// The tool being called.
    pub fn spec(&self) -> (r: ToolSpec)
        ensures
            r == self@.spec,
    {
        self.spec
    }

    /// Where the call stands.
    pub fn phase(&self) -> (r: CallPhase)
        ensures
            r == self@.phase,
    {
        self.phase
    }

    /// The call's arguments.
    pub fn args(&self) -> (r: &JsonMap)
        ensures
            r@ == self@.args,
    {
        &self.args
    }

    /// Whether the call previews rather than applies.
    pub fn dry_run(&self) -> (r: bool)
        ensures
            r == self@.dry_run,
    {
        self.dry_run
    }

    /// The workspace of the call, once discovered.
    pub fn context(&self) -> (r: Option<&WorkspaceContext>)
        ensures
            r matches Some(c) ==> self@.context == Some(c@),
            r is None <==> self@.context is None,
    {
        match &self.context {
            Some(c) => Some(c),
            None => None,
        }
    }

    /// The events whose cache report the call awaits.
    pub fn events(&self) -> (r: &Vec<DomainEvent>)
        ensures
            r@ == self@.events,
    {
        &self.events
    }

    /// The `cwd` argument.
    pub fn cwd(&self) -> (r: Option<&String>)
        ensures
            r matches Some(c) ==> crate::guards::arg_text(self@.args, "cwd"@) == Some(c@),
            r is None <==> crate::guards::arg_text(self@.args, "cwd"@) is None,
    {
        crate::guards::arg_str(&self.args, "cwd")
    }

    /// Whether the call waits for this answer.
    pub fn accepts(&self, event: &CallEvent) -> (r: bool)
        ensures
            r == accepts(self@.phase, event@),
    {
        match event {
            CallEvent::Normalized(_) => self.phase == CallPhase::Normalizing,
            CallEvent::Validated(_) => self.phase == CallPhase::Validating,
            CallEvent::Discovered(_) => self.phase == CallPhase::Discovering,
            CallEvent::ContextChecked(_) => self.phase == CallPhase::CheckingContext,
            CallEvent::FormatChecked(_) => self.phase == CallPhase::CheckingFormat,
            CallEvent::Cancellation(_) => self.phase == CallPhase::CheckingCancellation,
            CallEvent::SupportChecked(_) => self.phase == CallPhase::CheckingSupport,
            CallEvent::Handled(_) => self.phase == CallPhase::Running,
            CallEvent::CacheReported(_) => self.phase == CallPhase::Reporting,
            CallEvent::Notified => self.phase == CallPhase::Notifying,
        }
    }

    fn fail(self, message: String) -> (r: (ToolCall, CallAction))
        ensures
            (r.0@, r.1@) == fail(self@, message@),
            well_formed(self@) ==> well_formed(r.0@),
    {
        let mut this = self;
        this.phase = CallPhase::Done;
        (this, CallAction::Finish(Err(message)))
    }

    fn to_support(self) -> (r: (ToolCall, CallAction))
        requires
            self@.context is Some,
        ensures
            (r.0@, r.1@) == to_support(self@),
            well_formed(r.0@),
    {
        let mut this = self;
        if this.spec.mutating {
            this.phase = CallPhase::CheckingSupport;
            (this, CallAction::EvaluateSupportGuard)
        } else {
            this.phase = CallPhase::Running;
            (this, CallAction::InvokeHandler)
        }
    }

    fn after_format(self) -> (r: (ToolCall, CallAction))
        requires
            self@.context is Some,
        ensures
            (r.0@, r.1@) == after_format(self@),
            well_formed(r.0@),
    {
        let mut this = self;
        let applies = !this.dry_run && (match this.spec.handler {
            ToolHandler::RuntimeAdapter => true,
            ToolHandler::RuntimeJob { action: RuntimeJobAction::Start } => true,
            _ => false,
        } || is_source_dump(this.spec, &this.args));
        if applies {
            this.phase = CallPhase::CheckingCancellation;
            (this, CallAction::QueryCancellation)
        } else {
            this.to_support()
        }
    }

    fn blocked(self, outcome: AdapterOutcome, diagnostics: Option<Json>) -> (r: (
        ToolCall,
        CallAction,
    ))
        requires
            self@.context is Some,
        ensures
            (r.0@, r.1@) == blocked(self@, outcome@, opt_json(diagnostics)),
            well_formed(r.0@),
    {
        let mut this = self;
        this.phase = CallPhase::Reporting;
        this.pending = Some(Pending { outcome, diagnostics, data: None, job: None });
        this.events = Vec::new();
        this.notify = false;
        assert(this@.events =~= Seq::<DomainEvent>::empty());
        (this, CallAction::ReportCache)
    }

    fn completed(self, handled: HandlerOutcome) -> (r: (ToolCall, CallAction))
        requires
            self@.context is Some,
        ensures
            (r.0@, r.1@) == completed(self@, handled@),
            well_formed(r.0@),
    {
        let mut this = self;
        let HandlerOutcome { adapter, data, job } = handler_parts(handled);
        let mut outcome = adapter;
        let mut handler_warnings: Vec<String> = Vec::new();
        std::mem::swap(&mut handler_warnings, &mut outcome.warnings);
        outcome.warnings = prepend_guard_warnings(
            &this.format_warning,
            &this.support_warning,
            handler_warnings,
        );
        let emit = should_emit_events(this.spec, &this.args, this.dry_run, &outcome);
        let events = if emit {
            domain_events(this.spec, &this.args)
        } else {
            Vec::new()
        };
        let runtime = match &this.context {
            Some(c) => runtime_result_diagnostics(
                this.spec,
                &this.args,
                c,
                &outcome,
                match &data {
                    Some(d) => Some(d),
                    None => None,
                },
            ),
            None => None,
        };
        let format_diagnostic = crate::json::clone_opt_json(
            match &this.format_diagnostic {
                Some(d) => Some(d),
                None => None,
            },
        );
        let diagnostics = merge_diagnostics(runtime, format_diagnostic);
        let notify = this.spec.mutating && !this.dry_run && outcome.ok && events.len() > 0;
        this.phase = CallPhase::Reporting;
        this.pending = Some(Pending { outcome, diagnostics, data, job });
        this.events = events;
        this.notify = notify;
        (this, CallAction::ReportCache)
    }

    /// Takes the answer to the last action and says what comes next.
    pub fn step(self, event: CallEvent) -> (r: (ToolCall, CallAction))
        requires
            well_formed(self@),
            accepts(self@.phase, event@),
        ensures
            (r.0@, r.1@) == next(self@, event@),
            well_formed(r.0@),
    {
        let mut this = self;
        match event {
            CallEvent::Normalized(Err(m)) => this.fail(m),
            CallEvent::Normalized(Ok(args)) => {
                let dry_run = match args.get("dryRun") {
                    Some(v) => match v.as_bool() {
                        Some(b) => b,
                        None => this.spec.mutating,
                    },
                    None => this.spec.mutating,
                };
                this.args = args;
                this.dry_run = dry_run;
                this.phase = CallPhase::Validating;
                (this, CallAction::ValidateArguments)
            },
            CallEvent::Validated(Err(m)) => this.fail(m),
            CallEvent::Validated(Ok(())) => {
                this.phase = CallPhase::Discovering;
                (this, CallAction::DiscoverWorkspace)
            },
            CallEvent::Discovered(Err(m)) => this.fail(m),
            CallEvent::Discovered(Ok(context)) => {
                this.context = Some(context);
                this.phase = CallPhase::CheckingContext;
                (this, CallAction::ValidateContext)
            },
            CallEvent::ContextChecked(Err(m)) => this.fail(m),
            CallEvent::ContextChecked(Ok(())) => {
                this.phase = CallPhase::CheckingFormat;
                (this, CallAction::EvaluateFormatGuard)
            },
            CallEvent::FormatChecked(Err(m)) => this.fail(m),
            CallEvent::FormatChecked(Ok(FormatGuardCheck::Allow)) => this.after_format(),
            CallEvent::FormatChecked(Ok(FormatGuardCheck::Warn { warning, diagnostic })) => {
                this.format_warning = Some(warning);
                this.format_diagnostic = Some(diagnostic);
                this.after_format()
            },
            CallEvent::FormatChecked(Ok(FormatGuardCheck::Block { outcome, diagnostic })) => {
                let mut m = JsonMap::new();
                m.push_entry("formatCompatibility", diagnostic);
                proof {
                    lemma_object_model(m);
                }
                this.blocked(outcome, Some(Json::Object(m)))
            },
            CallEvent::Cancellation(cancelled) => {
                match runtime_xml_route_guard(this.spec, &this.args, this.dry_run, cancelled) {
                    Some(o) => this.blocked(o, None),
                    None => match source_sync_dump_guard(
                        this.spec,
                        &this.args,
                        this.dry_run,
                        cancelled,
                    ) {
                        Some(o) => this.blocked(o, None),
                        None => this.to_support(),
                    },
                }
            },
            CallEvent::SupportChecked(Err(m)) => this.fail(m),
            CallEvent::SupportChecked(Ok(SupportGuardCheck::Allow)) => {
                this.phase = CallPhase::Running;
                (this, CallAction::InvokeHandler)
            },
            CallEvent::SupportChecked(Ok(SupportGuardCheck::Warn(w))) => {
                this.support_warning = Some(w);
                this.phase = CallPhase::Running;
                (this, CallAction::InvokeHandler)
            },
            CallEvent::SupportChecked(Ok(SupportGuardCheck::Block(o))) => {
                let mut o = o;
                if this.dry_run {
                    let mut summary = owned("dry run: ");
                    push_str(&mut summary, o.summary.as_str());
                    o.summary = summary;
                }
                this.blocked(o, None)
            },
            CallEvent::Handled(Err(m)) => this.fail(m),
            CallEvent::Handled(Ok(h)) => this.completed(h),
            CallEvent::CacheReported(Err(m)) => this.fail(m),
            CallEvent::CacheReported(Ok(cache)) => match this.pending.take() {
                Some(p) => {
                    let Pending { outcome, diagnostics, data, job } = p;
                    let result = OperationResult::from_outcome(outcome, cache, diagnostics, data, job);
                    if this.notify {
                        this.phase = CallPhase::Notifying;
                        this.result = Some(result);
                        (this, CallAction::NotifyInvalidation)
                    } else {
                        this.phase = CallPhase::Done;
                        (this, CallAction::Finish(Ok(result)))
                    }
                },
                None => this.fail(owned("no outcome awaits a cache report")),
            },
            CallEvent::Notified => match this.result.take() {
                Some(result) => {
                    this.phase = CallPhase::Done;
                    (this, CallAction::Finish(Ok(result)))
                },
                None => this.fail(owned("no result awaits notification")),
            },
        }
    }
}

/// The parts of a handler outcome.
fn handler_parts(h: HandlerOutcome) -> (r: HandlerOutcome)
    ensures
        r@ == h@,
{
    h
}

} // verus!
