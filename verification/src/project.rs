//! The project tools: the status of the workspace and the map of its source
//! sets, from what source-set discovery found.
use vstd::prelude::*;
use crate::domain::{texts, AdapterOutcome, ContextV, OutcomeV, WorkspaceContext};
use crate::text::{decimal_nat, owned, push_decimal_u64, push_str};

verus! {

/// One source set of the project, with its kind and source format named as
/// discovery names them.
#[derive(Debug)]
pub struct SourceSetEntry {
    pub name: String,
    pub kind: String,
    pub source_format: String,
    pub path: String,
}

/// What source-set discovery found: the source sets and, when the effective
/// source set could not be chosen, why.
#[derive(Debug)]
pub struct ProjectSourceMap {
    pub source_sets: Vec<SourceSetEntry>,
    pub source_selection_error: Option<String>,
}

/// The summary line of one source set: `name: kind format path`.
pub open spec fn source_set_line(e: SourceSetEntry) -> Seq<char> {
    e.name@ + ": "@ + e.kind@ + " "@ + e.source_format@ + " "@ + e.path@
}

/// Lines joined by newlines.
pub open spec fn joined_lines(lines: Seq<Seq<char>>) -> Seq<char>
    decreases lines.len(),
{
    if lines.len() == 0 {
        Seq::empty()
    } else if lines.len() == 1 {
        lines[0]
    } else {
        joined_lines(lines.drop_last()) + "\n"@ + lines.last()
    }
}

/// The summary of every source set, one line each.
pub open spec fn source_sets_text(sets: Seq<SourceSetEntry>) -> Seq<char> {
    joined_lines(sets.map_values(|e: SourceSetEntry| source_set_line(e)))
}

/// One line per source set, in order, joined by newlines.
pub fn source_set_summary(source_map: &ProjectSourceMap) -> (r: String)
    ensures
        r@ == source_sets_text(source_map.source_sets@),
{
    let sets = &source_map.source_sets;
    let ghost lines = sets@.map_values(|e: SourceSetEntry| source_set_line(e));
    let mut out = String::new();
    let mut i: usize = 0;
    while i < sets.len()
        invariant
            i <= sets.len(),
            lines == sets@.map_values(|e: SourceSetEntry| source_set_line(e)),
            out@ == joined_lines(lines.subrange(0, i as int)),
        decreases sets.len() - i,
    {
        if i > 0 {
            push_str(&mut out, "\n");
        }
        let e = &sets[i];
        push_str(&mut out, e.name.as_str());
        push_str(&mut out, ": ");
        push_str(&mut out, e.kind.as_str());
        push_str(&mut out, " ");
        push_str(&mut out, e.source_format.as_str());
        push_str(&mut out, " ");
        push_str(&mut out, e.path.as_str());
        proof {
            let prefix = lines.subrange(0, i as int + 1);
            assert(prefix.drop_last() =~= lines.subrange(0, i as int));
            assert(prefix.last() == source_set_line(sets@[i as int]));
            if i == 0 {
                assert(prefix.len() == 1);
            }
        }
        i = i + 1;
    }
    proof {
        assert(lines.subrange(0, sets@.len() as int) =~= lines);
    }
    out
}

/// What `unica.project.status` reports: the workspace and cache roots, the
/// number of source sets with their summary when there are any, a warning
/// when discovery failed, and the warning about a `ConfigDumpInfo.xml`
/// kept under version control.
pub open spec fn status_outcome(
    context: ContextV,
    source_map: Result<ProjectSourceMap, Seq<char>>,
    tracked_warning: Option<Seq<char>>,
) -> OutcomeV {
    let base = "workspace root: "@ + context.workspace_root + "; cache root: "@ + context.cache_root;
    let versioned = match tracked_warning {
        Some(w) => seq![w],
        None => Seq::empty(),
    };
    OutcomeV {
        ok: true,
        summary: match source_map {
            Ok(m) => base + "; source sets: "@ + decimal_nat(m.source_sets@.len()),
            Err(_) => base,
        },
        changes: Seq::empty(),
        warnings: match source_map {
            Ok(_) => versioned,
            Err(e) => seq!["source-set discovery failed: "@ + e] + versioned,
        },
        errors: Seq::empty(),
        artifacts: seq![context.workspace_root, context.cache_root],
        stdout: match source_map {
            Ok(m) => if m.source_sets@.len() > 0 {
                Some(source_sets_text(m.source_sets@))
            } else {
                None
            },
            Err(_) => None,
        },
        stderr: None,
        command: None,
    }
}

/// The text of a discovery result.
pub open spec fn map_result_view(r: Result<ProjectSourceMap, String>) -> Result<ProjectSourceMap, Seq<char>> {
    match r {
        Ok(m) => Ok(m),
        Err(e) => Err(e@),
    }
}

/// The outcome of `unica.project.status`.
pub fn project_status(
    context: &WorkspaceContext,
    source_map: Result<ProjectSourceMap, String>,
    tracked_config_dump_info_warning: Option<String>,
) -> (r: AdapterOutcome)
    ensures
        r@ == status_outcome(
            context@,
            map_result_view(source_map),
            crate::domain::opt_text(tracked_config_dump_info_warning),
        ),
{
    let mut summary = owned("workspace root: ");
    push_str(&mut summary, context.workspace_root.as_str());
    push_str(&mut summary, "; cache root: ");
    push_str(&mut summary, context.cache_root.as_str());
    let mut outcome = AdapterOutcome::ok(summary.as_str());
    proof {
        assert(texts(outcome.artifacts@).len() == 0);
        assert(texts(outcome.warnings@).len() == 0);
    }
    outcome.artifacts.push(context.workspace_root.clone());
    outcome.artifacts.push(context.cache_root.clone());
    match &source_map {
        Ok(m) => {
            push_str(&mut outcome.summary, "; source sets: ");
            push_decimal_u64(&mut outcome.summary, m.source_sets.len() as u64);
            if m.source_sets.len() > 0 {
                outcome.stdout = Some(source_set_summary(m));
            }
        },
        Err(e) => {
            let mut w = owned("source-set discovery failed: ");
            push_str(&mut w, e.as_str());
            outcome.warnings.push(w);
        },
    }
    match tracked_config_dump_info_warning {
        Some(w) => outcome.warnings.push(w),
        None => {},
    }
    proof {
        let expected = status_outcome(
            context@,
            map_result_view(source_map),
            crate::domain::opt_text(tracked_config_dump_info_warning),
        );
        assert(outcome@.artifacts =~= expected.artifacts);
        assert(outcome@.warnings =~= expected.warnings);
        assert(outcome@.changes =~= expected.changes);
        assert(outcome@.errors =~= expected.errors);
    }
    outcome
}

/// What `unica.project.map` reports: the number of source sets, the source
/// selection error and the warning about a versioned `ConfigDumpInfo.xml` as
/// warnings,
/// and the map's JSON text on stdout; when discovery failed, a failure with
/// the discovery error that keeps that warning.
pub open spec fn map_outcome(
    source_map: Result<(ProjectSourceMap, Seq<char>), Seq<char>>,
    tracked_warning: Option<Seq<char>>,
) -> OutcomeV {
    let versioned = match tracked_warning {
        Some(w) => seq![w],
        None => Seq::empty(),
    };
    match source_map {
        Ok((m, json)) => OutcomeV {
            ok: true,
            summary: "project map discovered "@ + decimal_nat(m.source_sets@.len())
                + " source set(s)"@,
            changes: Seq::empty(),
            warnings: match m.source_selection_error {
                Some(e) => seq![e@] + versioned,
                None => versioned,
            },
            errors: Seq::empty(),
            artifacts: Seq::empty(),
            stdout: Some(json),
            stderr: None,
            command: None,
        },
        Err(e) => OutcomeV {
            ok: false,
            summary: "project map discovery failed"@,
            changes: Seq::empty(),
            warnings: versioned,
            errors: seq![e],
            artifacts: Seq::empty(),
            stdout: None,
            stderr: None,
            command: None,
        },
    }
}

/// The text of a discovery result with the map's JSON rendering.
pub open spec fn rendered_map_view(r: Result<(ProjectSourceMap, String), String>) -> Result<
    (ProjectSourceMap, Seq<char>),
    Seq<char>,
> {
    match r {
        Ok((m, json)) => Ok((m, json@)),
        Err(e) => Err(e@),
    }
}

/// The outcome of `unica.project.map`, given the discovered map together with
/// its pretty JSON text, or the discovery error.
pub fn project_map(
    source_map: Result<(ProjectSourceMap, String), String>,
    tracked_config_dump_info_warning: Option<String>,
) -> (r: AdapterOutcome)
    ensures
        r@ == map_outcome(
            rendered_map_view(source_map),
            crate::domain::opt_text(tracked_config_dump_info_warning),
        ),
{
    let ghost expected = map_outcome(
        rendered_map_view(source_map),
        crate::domain::opt_text(tracked_config_dump_info_warning),
    );
    match source_map {
        Ok((m, json)) => {
            let mut summary = owned("project map discovered ");
            push_decimal_u64(&mut summary, m.source_sets.len() as u64);
            push_str(&mut summary, " source set(s)");
            let mut outcome = AdapterOutcome::ok(summary.as_str());
            proof {
                assert(texts(outcome.warnings@).len() == 0);
            }
            match &m.source_selection_error {
                Some(e) => outcome.warnings.push(e.clone()),
                None => {},
            }
            match tracked_config_dump_info_warning {
                Some(w) => outcome.warnings.push(w),
                None => {},
            }
            outcome.stdout = Some(json);
            proof {
                assert(outcome@.warnings =~= expected.warnings);
            }
            outcome
        },
        Err(e) => {
            let mut warnings: Vec<String> = Vec::new();
            match tracked_config_dump_info_warning {
                Some(w) => warnings.push(w),
                None => {},
            }
            let outcome = AdapterOutcome {
                ok: false,
                summary: owned("project map discovery failed"),
                changes: Vec::new(),
                warnings,
                errors: vec![e],
                artifacts: Vec::new(),
                stdout: None,
                stderr: None,
                command: None,
            };
            proof {
                assert(outcome@.warnings =~= expected.warnings);
                assert(outcome@.changes =~= expected.changes);
                assert(outcome@.errors =~= expected.errors);
                assert(outcome@.artifacts =~= expected.artifacts);
            }
            outcome
        },
    }
}

/// The warning about a `ConfigDumpInfo.xml` kept under version control is
/// never dropped: it is the last warning of the project map, whether
/// discovery succeeded or failed, and the last warning of the project status.
pub proof fn law_versioned_dump_info_warning_is_kept(
    map: Result<(ProjectSourceMap, Seq<char>), Seq<char>>,
    context: ContextV,
    status_map: Result<ProjectSourceMap, Seq<char>>,
    warning: Seq<char>,
)
    ensures
        map_outcome(map, Some(warning)).warnings.len() > 0,
        map_outcome(map, Some(warning)).warnings.last() == warning,
        status_outcome(context, status_map, Some(warning)).warnings.len() > 0,
        status_outcome(context, status_map, Some(warning)).warnings.last() == warning,
{
}

} // verus!
