//! The cache events that a tool call raises.
use vstd::prelude::*;
use crate::catalog::{ToolHandler, ToolSpec};
use crate::domain::{DomainEvent, DomainEventKind};
use crate::guards::{arg_str, arg_text};
use crate::json::{JsonMap, JsonV};
use crate::text::str_eq;

verus! {

/// The event of a runtime operation: a dump changes the source set, a build
/// completes a build; other operations change nothing the caches hold.
pub open spec fn runtime_event_for(operation: Seq<char>) -> Option<DomainEventKind> {
    if operation == "dump"@ {
        Some(DomainEventKind::SourceSetChanged)
    } else if operation == "build"@ {
        Some(DomainEventKind::BuildCompleted)
    } else {
        None
    }
}

/// The event of a runtime operation.
pub fn runtime_event_kind(operation: &str) -> (r: Option<DomainEventKind>)
    ensures
        r == runtime_event_for(operation@),
{
    if str_eq(operation, "dump") {
        Some(DomainEventKind::SourceSetChanged)
    } else if str_eq(operation, "build") {
        Some(DomainEventKind::BuildCompleted)
    } else {
        None
    }
}

/// The event of the runtime operation named by the `operation` argument.
pub open spec fn runtime_event_of(args: Seq<(Seq<char>, JsonV)>) -> Option<DomainEventKind> {
    match arg_text(args, "operation"@) {
        Some(operation) => runtime_event_for(operation),
        None => None,
    }
}

/// The event of the runtime operation named by the `operation` argument.
pub fn runtime_event(args: &JsonMap) -> (r: Option<DomainEventKind>)
    ensures
        r == runtime_event_of(args@),
{
    match arg_str(args, "operation") {
        Some(operation) => runtime_event_kind(operation.as_str()),
        None => None,
    }
}

/// The events a call of the tool raises when it raises any: the event that a
/// native operation or a build command declares, or the event of the runtime
/// operation.
pub open spec fn events_of(spec: ToolSpec, args: Seq<(Seq<char>, JsonV)>) -> Seq<DomainEvent> {
    match spec.handler {
        ToolHandler::NativeOperation { event: Some(kind), .. } => seq![
            DomainEvent { kind, source: spec.name },
        ],
        ToolHandler::BuildRuntime { event: Some(kind), .. } => seq![
            DomainEvent { kind, source: spec.name },
        ],
        ToolHandler::RuntimeAdapter => match runtime_event_of(args) {
            Some(kind) => seq![DomainEvent { kind, source: spec.name }],
            None => Seq::empty(),
        },
        _ => Seq::empty(),
    }
}

/// The events a call of the tool raises.
pub fn domain_events(spec: ToolSpec, args: &JsonMap) -> (r: Vec<DomainEvent>)
    ensures
        r@ == events_of(spec, args@),
{
    match spec.handler {
        ToolHandler::NativeOperation { event: Some(kind), .. } => vec![
            DomainEvent::new(kind, spec.name),
        ],
        ToolHandler::BuildRuntime { event: Some(kind), .. } => vec![
            DomainEvent::new(kind, spec.name),
        ],
        ToolHandler::RuntimeAdapter => match runtime_event(args) {
            Some(kind) => vec![DomainEvent::new(kind, spec.name)],
            None => Vec::new(),
        },
        _ => Vec::new(),
    }
}

} // verus!
