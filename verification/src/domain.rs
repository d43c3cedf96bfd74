//! Values that flow between the tool pipeline and its adapters: cache access
//! declarations, domain events, adapter outcomes, cache reports, the workspace
//! context and the public operation result.
use vstd::prelude::*;
use crate::json::{Json, JsonV};
use crate::text::{owned, push_str};

verus! {

/// The texts of a sequence of strings.
pub open spec fn texts(v: Seq<String>) -> Seq<Seq<char>> {
    v.map_values(|s: String| s@)
}

/// The text of an optional string.
pub open spec fn opt_text(o: Option<String>) -> Option<Seq<char>> {
    match o {
        Some(s) => Some(s@),
        None => None,
    }
}

/// The texts of an optional list of strings.
pub open spec fn opt_texts(o: Option<Vec<String>>) -> Option<Seq<Seq<char>>> {
    match o {
        Some(v) => Some(texts(v@)),
        None => None,
    }
}

/// The model of an optional JSON value.
pub open spec fn opt_json(o: Option<Json>) -> Option<JsonV> {
    match o {
        Some(j) => Some(j@),
        None => None,
    }
}

/// The caches a tool reads and the caches it writes.
#[derive(Debug, Clone, Copy)]
pub struct CacheAccess {
    pub reads: &'static [&'static str],
    pub writes: &'static [&'static str],
}

impl Default for CacheAccess {
    fn default() -> (r: CacheAccess)
        ensures
            r.reads@.len() == 0,
            r.writes@.len() == 0,
    {
        CacheAccess { reads: &[], writes: &[] }
    }
}

/// Kinds of workspace change that invalidate caches.
#[derive(Debug, Clone, Copy, PartialEq, Eq, Structural)]
pub enum DomainEventKind {
    SourceSetChanged,
    BuildCompleted,
    ModuleChanged,
    ConfigXmlChanged,
    CfeChanged,
    MetadataChanged,
    FormChanged,
    SubsystemChanged,
    TemplateChanged,
    DcsChanged,
    MxlChanged,
    RoleChanged,
}

/// The event's name as cache reports list it.
pub open spec fn event_name(kind: DomainEventKind) -> Seq<char> {
    match kind {
        DomainEventKind::SourceSetChanged => "SourceSetChanged"@,
        DomainEventKind::BuildCompleted => "BuildCompleted"@,
        DomainEventKind::ModuleChanged => "ModuleChanged"@,
        DomainEventKind::ConfigXmlChanged => "ConfigXmlChanged"@,
        DomainEventKind::CfeChanged => "CfeChanged"@,
        DomainEventKind::MetadataChanged => "MetadataChanged"@,
        DomainEventKind::FormChanged => "FormChanged"@,
        DomainEventKind::SubsystemChanged => "SubsystemChanged"@,
        DomainEventKind::TemplateChanged => "TemplateChanged"@,
        DomainEventKind::DcsChanged => "DcsChanged"@,
        DomainEventKind::MxlChanged => "MxlChanged"@,
        DomainEventKind::RoleChanged => "RoleChanged"@,
    }
}

impl DomainEventKind {
    /// The event's name as cache reports list it.
    pub fn name(self) -> (r: &'static str)
        ensures
            r@ == event_name(self),
    {
        match self {
            DomainEventKind::SourceSetChanged => "SourceSetChanged",
            DomainEventKind::BuildCompleted => "BuildCompleted",
            DomainEventKind::ModuleChanged => "ModuleChanged",
            DomainEventKind::ConfigXmlChanged => "ConfigXmlChanged",
            DomainEventKind::CfeChanged => "CfeChanged",
            DomainEventKind::MetadataChanged => "MetadataChanged",
            DomainEventKind::FormChanged => "FormChanged",
            DomainEventKind::SubsystemChanged => "SubsystemChanged",
            DomainEventKind::TemplateChanged => "TemplateChanged",
            DomainEventKind::DcsChanged => "DcsChanged",
            DomainEventKind::MxlChanged => "MxlChanged",
            DomainEventKind::RoleChanged => "RoleChanged",
        }
    }
}

/// One workspace change, attributed to the tool that caused it.
#[derive(Debug, Clone, Copy)]
pub struct DomainEvent {
    pub kind: DomainEventKind,
    pub source: &'static str,
}

impl DomainEvent {
    pub fn new(kind: DomainEventKind, source: &'static str) -> (r: DomainEvent)
        ensures
            r.kind == kind,
            r.source == source,
    {
        DomainEvent { kind, source }
    }
}

/// What an adapter reports about one operation.
#[derive(Debug)]
pub struct AdapterOutcome {
    pub ok: bool,
    pub summary: String,
    pub changes: Vec<String>,
    pub warnings: Vec<String>,
    pub errors: Vec<String>,
    pub artifacts: Vec<String>,
    pub stdout: Option<String>,
    pub stderr: Option<String>,
    pub command: Option<Vec<String>>,
}

/// The mathematical form of an adapter outcome.
pub struct OutcomeV {
    pub ok: bool,
    pub summary: Seq<char>,
    pub changes: Seq<Seq<char>>,
    pub warnings: Seq<Seq<char>>,
    pub errors: Seq<Seq<char>>,
    pub artifacts: Seq<Seq<char>>,
    pub stdout: Option<Seq<char>>,
    pub stderr: Option<Seq<char>>,
    pub command: Option<Seq<Seq<char>>>,
}

impl View for AdapterOutcome {
    type V = OutcomeV;

    open spec fn view(&self) -> OutcomeV {
        OutcomeV {
            ok: self.ok,
            summary: self.summary@,
            changes: texts(self.changes@),
            warnings: texts(self.warnings@),
            errors: texts(self.errors@),
            artifacts: texts(self.artifacts@),
            stdout: opt_text(self.stdout),
            stderr: opt_text(self.stderr),
            command: opt_texts(self.command),
        }
    }
}

/// A successful outcome with only a summary.
pub open spec fn ok_outcome(summary: Seq<char>) -> OutcomeV {
    OutcomeV {
        ok: true,
        summary,
        changes: Seq::empty(),
        warnings: Seq::empty(),
        errors: Seq::empty(),
        artifacts: Seq::empty(),
        stdout: None,
        stderr: None,
        command: None,
    }
}

/// The outcome of an operation stopped by cancellation before it ran.
pub open spec fn cancelled_outcome(summary: Seq<char>) -> OutcomeV {
    OutcomeV {
        ok: false,
        summary,
        changes: Seq::empty(),
        warnings: Seq::empty(),
        errors: seq!["cancelled: "@ + summary],
        artifacts: Seq::empty(),
        stdout: None,
        stderr: None,
        command: None,
    }
}

/// A failed outcome that reports one message as its error and on stderr.
pub open spec fn blocked_outcome(summary: Seq<char>, warning: Seq<char>, message: Seq<char>) -> OutcomeV {
    OutcomeV {
        ok: false,
        summary,
        changes: Seq::empty(),
        warnings: seq![warning],
        errors: seq![message],
        artifacts: Seq::empty(),
        stdout: None,
        stderr: Some(message.push('\n')),
        command: None,
    }
}

impl AdapterOutcome {
    /// A successful outcome with only a summary.
    pub fn ok(summary: &str) -> (r: AdapterOutcome)
        ensures
            r@ == ok_outcome(summary@),
    {
        let r = AdapterOutcome {
            ok: true,
            summary: owned(summary),
            changes: Vec::new(),
            warnings: Vec::new(),
            errors: Vec::new(),
            artifacts: Vec::new(),
            stdout: None,
            stderr: None,
            command: None,
        };
        assert(r@.changes =~= Seq::<Seq<char>>::empty());
        assert(r@.warnings =~= Seq::<Seq<char>>::empty());
        assert(r@.errors =~= Seq::<Seq<char>>::empty());
        assert(r@.artifacts =~= Seq::<Seq<char>>::empty());
        r
    }

    /// The outcome of an operation stopped by cancellation before it ran.
    pub fn cancelled(summary: String) -> (r: AdapterOutcome)
        ensures
            r@ == cancelled_outcome(summary@),
    {
        let mut error = owned("cancelled: ");
        push_str(&mut error, summary.as_str());
        let r = AdapterOutcome {
            ok: false,
            summary,
            changes: Vec::new(),
            warnings: Vec::new(),
            errors: vec![error],
            artifacts: Vec::new(),
            stdout: None,
            stderr: None,
            command: None,
        };
        assert(r@.changes =~= Seq::<Seq<char>>::empty());
        assert(r@.warnings =~= Seq::<Seq<char>>::empty());
        assert(r@.errors =~= seq!["cancelled: "@ + summary@]);
        assert(r@.artifacts =~= Seq::<Seq<char>>::empty());
        r
    }

    /// A failed outcome that reports `message` as its error and on stderr.
    pub fn blocked(summary: String, warning: &str, message: String) -> (r: AdapterOutcome)
        ensures
            r@ == blocked_outcome(summary@, warning@, message@),
    {
        let mut stderr = message.clone();
        crate::text::push_char(&mut stderr, '\n');
        let r = AdapterOutcome {
            ok: false,
            summary,
            changes: Vec::new(),
            warnings: vec![owned(warning)],
            errors: vec![message],
            artifacts: Vec::new(),
            stdout: None,
            stderr: Some(stderr),
            command: None,
        };
        assert(r@.changes =~= Seq::<Seq<char>>::empty());
        assert(r@.warnings =~= seq![warning@]);
        assert(r@.errors =~= seq![message@]);
        assert(r@.artifacts =~= Seq::<Seq<char>>::empty());
        r
    }
}

/// The workspace a tool call runs in.
#[derive(Debug)]
pub struct WorkspaceContext {
    pub cwd: String,
    pub workspace_root: String,
    pub cache_root: String,
    pub workspace_epoch: u64,
}

/// The mathematical form of a workspace context.
pub struct ContextV {
    pub cwd: Seq<char>,
    pub workspace_root: Seq<char>,
    pub cache_root: Seq<char>,
    pub workspace_epoch: u64,
}

impl View for WorkspaceContext {
    type V = ContextV;

    open spec fn view(&self) -> ContextV {
        ContextV {
            cwd: self.cwd@,
            workspace_root: self.workspace_root@,
            cache_root: self.cache_root@,
            workspace_epoch: self.workspace_epoch,
        }
    }
}

/// What a tool call did to the caches.
#[derive(Debug)]
pub struct CacheReport {
    pub mode: String,
    pub root: String,
    pub workspace_epoch: u64,
    pub events: Vec<String>,
    pub invalidated: Vec<String>,
    pub refreshed: Vec<String>,
    pub lazy_rebuilt: Vec<String>,
    pub stale: Vec<String>,
    pub fresh: Vec<String>,
}

/// The mathematical form of a cache report.
pub struct CacheReportV {
    pub mode: Seq<char>,
    pub root: Seq<char>,
    pub workspace_epoch: u64,
    pub events: Seq<Seq<char>>,
    pub invalidated: Seq<Seq<char>>,
    pub refreshed: Seq<Seq<char>>,
    pub lazy_rebuilt: Seq<Seq<char>>,
    pub stale: Seq<Seq<char>>,
    pub fresh: Seq<Seq<char>>,
}

impl View for CacheReport {
    type V = CacheReportV;

    open spec fn view(&self) -> CacheReportV {
        CacheReportV {
            mode: self.mode@,
            root: self.root@,
            workspace_epoch: self.workspace_epoch,
            events: texts(self.events@),
            invalidated: texts(self.invalidated@),
            refreshed: texts(self.refreshed@),
            lazy_rebuilt: texts(self.lazy_rebuilt@),
            stale: texts(self.stale@),
            fresh: texts(self.fresh@),
        }
    }
}

/// The mathematical form of an operation result.
pub struct ResultV {
    pub outcome: OutcomeV,
    pub cache: CacheReportV,
    pub diagnostics: Option<JsonV>,
    pub data: Option<JsonV>,
    pub job: Option<JsonV>,
}

/// The public result of one tool call.
#[derive(Debug)]
pub struct OperationResult {
    pub ok: bool,
    pub summary: String,
    pub changes: Vec<String>,
    pub warnings: Vec<String>,
    pub errors: Vec<String>,
    pub artifacts: Vec<String>,
    pub cache: CacheReport,
    pub stdout: Option<String>,
    pub stderr: Option<String>,
    pub command: Option<Vec<String>>,
    pub diagnostics: Option<Json>,
    pub data: Option<Json>,
    pub job: Option<Json>,
}

impl OperationResult {
    /// The result of an outcome, with its cache report and extra payloads.
    pub fn from_outcome(
        outcome: AdapterOutcome,
        cache: CacheReport,
        diagnostics: Option<Json>,
        data: Option<Json>,
        job: Option<Json>,
    ) -> (r: OperationResult)
        ensures
            r.result_view() == (ResultV {
                outcome: outcome@,
                cache: cache@,
                diagnostics: opt_json(diagnostics),
                data: opt_json(data),
                job: opt_json(job),
            }),
    {
        OperationResult {
            ok: outcome.ok,
            summary: outcome.summary,
            changes: outcome.changes,
            warnings: outcome.warnings,
            errors: outcome.errors,
            artifacts: outcome.artifacts,
            cache,
            stdout: outcome.stdout,
            stderr: outcome.stderr,
            command: outcome.command,
            diagnostics,
            data,
            job,
        }
    }

    /// The whole result.
    pub open spec fn result_view(&self) -> ResultV {
        ResultV {
            outcome: self.outcome_view(),
            cache: self.cache@,
            diagnostics: opt_json(self.diagnostics),
            data: opt_json(self.data),
            job: opt_json(self.job),
        }
    }

    /// The adapter-outcome part of the result.
    pub open spec fn outcome_view(&self) -> OutcomeV {
        OutcomeV {
            ok: self.ok,
            summary: self.summary@,
            changes: texts(self.changes@),
            warnings: texts(self.warnings@),
            errors: texts(self.errors@),
            artifacts: texts(self.artifacts@),
            stdout: opt_text(self.stdout),
            stderr: opt_text(self.stderr),
            command: opt_texts(self.command),
        }
    }
}

} // verus!
