//! Structured diagnostics of runtime calls, and how they merge with the
//! format-compatibility diagnostic.
use vstd::prelude::*;
use crate::catalog::{ToolHandler, ToolSpec};
use crate::domain::{AdapterOutcome, OutcomeV, WorkspaceContext, texts};
use crate::guards::{arg_str, arg_text};
use crate::json::{
    clone_json, entries_get, lemma_object_model, entries_insert, v_as_bool, v_as_i64, Json, JsonMap, JsonV,
};
use crate::text::{
    contains, decimal_int, owned, parse_i32, parse_i32_text, push_decimal_i64, rsplit_once,
    rsplit_once_char, seq_contains, str_eq, strip_prefix, strip_prefix_of, tail_chars, tail_of,
    trim, trim_chars, all_digits, decimal_nat, is_digit, is_whitespace, last_index_of,
    lemma_decimal_nat_reads_back, lemma_last_index_of_prefix, lemma_parse_decimal_int,
    trim_end, trim_start,
};

verus! {

/// How many trailing characters of stdout and stderr a diagnostic keeps.
pub open spec fn tail_len() -> nat {
    4096
}

/// The prefix of the warning that reports a runtime adapter's exit status.
#[verifier::allow_in_spec]
pub fn exit_status_prefix() -> &'static str
    returns
        "internal v8-runner runtime adapter exited with status ",
{
    "internal v8-runner runtime adapter exited with status "
}

// ---------------------------------------------------------------------------
// Failure classification
// ---------------------------------------------------------------------------

/// Some warning contains `needle`.
pub open spec fn some_warning_contains(warnings: Seq<Seq<char>>, needle: Seq<char>) -> bool {
    exists|i: int| 0 <= i < warnings.len() && seq_contains(#[trigger] warnings[i], needle)
}

/// How a failed runtime call failed: the process did not spawn, it timed out,
/// or it exited.
pub open spec fn failure_kind_of(warnings: Seq<Seq<char>>) -> Seq<char> {
    if some_warning_contains(warnings, "failed to spawn"@) {
        "spawn"@
    } else if some_warning_contains(warnings, "timed out"@) {
        "timeout"@
    } else {
        "exit"@
    }
}

fn any_warning_contains(outcome: &AdapterOutcome, needle: &str) -> (r: bool)
    ensures
        r == some_warning_contains(outcome@.warnings, needle@),
{
    let mut i: usize = 0;
    while i < outcome.warnings.len()
        invariant
            i <= outcome.warnings.len(),
            forall|k: int|
                0 <= k < i ==> !seq_contains(#[trigger] texts(outcome.warnings@)[k], needle@),
        decreases outcome.warnings.len() - i,
    {
        if contains(outcome.warnings[i].as_str(), needle) {
            assert(seq_contains(texts(outcome.warnings@)[i as int], needle@));
            return true;
        }
        i = i + 1;
    }
    false
}

/// How a failed runtime call failed.
pub fn runtime_failure_kind(outcome: &AdapterOutcome) -> (r: &'static str)
    ensures
        r@ == failure_kind_of(outcome@.warnings),
{
    if any_warning_contains(outcome, "failed to spawn") {
        "spawn"
    } else if any_warning_contains(outcome, "timed out") {
        "timeout"
    } else {
        "exit"
    }
}

/// The text after the exit-status prefix of the first warning that has it.
pub open spec fn first_exit_status(warnings: Seq<Seq<char>>) -> Option<Seq<char>>
    decreases warnings.len(),
{
    if warnings.len() == 0 {
        None
    } else {
        match strip_prefix(warnings[0], exit_status_prefix()@) {
            Some(rest) => Some(rest),
            None => first_exit_status(warnings.drop_first()),
        }
    }
}

/// The status of a failed runtime call: none for a spawn failure, `timeout`
/// for a timeout, otherwise the exit status that the adapter reported.
pub open spec fn failure_status_of(warnings: Seq<Seq<char>>, failure_kind: Seq<char>) -> Option<
    Seq<char>,
> {
    if failure_kind == "spawn"@ {
        None
    } else if failure_kind == "timeout"@ {
        Some("timeout"@)
    } else {
        first_exit_status(warnings)
    }
}

proof fn lemma_first_exit_status_skip(warnings: Seq<Seq<char>>, i: int)
    requires
        0 <= i <= warnings.len(),
        forall|k: int|
            0 <= k < i ==> strip_prefix(#[trigger] warnings[k], exit_status_prefix()@) is None,
    ensures
        first_exit_status(warnings) == first_exit_status(
            warnings.subrange(i, warnings.len() as int),
        ),
    decreases i,
{
    if i > 0 {
        assert(warnings.drop_first().subrange(i - 1, warnings.drop_first().len() as int)
            =~= warnings.subrange(i, warnings.len() as int));
        assert forall|k: int| 0 <= k < i - 1 implies strip_prefix(
            #[trigger] warnings.drop_first()[k],
            exit_status_prefix()@,
        ) is None by {
            assert(warnings.drop_first()[k] == warnings[k + 1]);
        }
        lemma_first_exit_status_skip(warnings.drop_first(), i - 1);
    } else {
        assert(warnings.subrange(0, warnings.len() as int) =~= warnings);
    }
}

/// The status of a failed runtime call.
pub fn runtime_failure_status(outcome: &AdapterOutcome, failure_kind: &str) -> (r: Option<String>)
    ensures
        r matches Some(s) ==> failure_status_of(outcome@.warnings, failure_kind@) == Some(s@),
        r is None <==> failure_status_of(outcome@.warnings, failure_kind@) is None,
{
    if str_eq(failure_kind, "spawn") {
        return None;
    }
    if str_eq(failure_kind, "timeout") {
        return Some(owned("timeout"));
    }
    let ghost w = outcome@.warnings;
    let mut i: usize = 0;
    while i < outcome.warnings.len()
        invariant
            i <= outcome.warnings.len(),
            w == texts(outcome.warnings@),
            w == outcome@.warnings,
            failure_kind@ != "spawn"@,
            failure_kind@ != "timeout"@,
            forall|k: int|
                0 <= k < i ==> strip_prefix(#[trigger] w[k], exit_status_prefix()@) is None,
        decreases outcome.warnings.len() - i,
    {
        match strip_prefix_of(outcome.warnings[i].as_str(), exit_status_prefix()) {
            Some(rest) => {
                proof {
                    lemma_first_exit_status_skip(w, i as int);
                    let sub = w.subrange(i as int, w.len() as int);
                    assert(sub[0] == w[i as int]);
                }
                return Some(rest);
            },
            None => {},
        }
        i = i + 1;
    }
    proof {
        lemma_first_exit_status_skip(w, i as int);
    }
    None
}

/// The exit code named by a status text: the whole trimmed text as an `i32`,
/// or else the trimmed text after its last `:`; a timeout has none.
pub open spec fn exit_code_of(status: Seq<char>) -> Option<i32> {
    let t = trim(status);
    if t == "timeout"@ {
        None
    } else if parse_i32(t) is Some {
        parse_i32(t)
    } else {
        match rsplit_once(t, ':') {
            Some(parts) => parse_i32(trim(parts.1)),
            None => None,
        }
    }
}

/// The exit code named by a status text.
pub fn process_exit_code(status: &str) -> (r: Option<i32>)
    ensures
        r == exit_code_of(status@),
{
    let status = trim_chars(status);
    if str_eq(status.as_str(), "timeout") {
        return None;
    }
    let whole = parse_i32_text(status.as_str());
    if whole.is_some() {
        return whole;
    }
    match rsplit_once_char(status.as_str(), ':') {
        Some(parts) => {
            let tail = trim_chars(parts.1.as_str());
            parse_i32_text(tail.as_str())
        },
        None => None,
    }
}

/// Every character of the decimal text of an integer is a digit or a minus
/// sign, the first is not whitespace and the last is a digit.
proof fn lemma_decimal_int_chars(n: i32)
    ensures
        decimal_int(n as int).len() > 0,
        forall|k: int|
            0 <= k < decimal_int(n as int).len() ==> is_digit(#[trigger] decimal_int(n as int)[k])
                || decimal_int(n as int)[k] == '-',
        is_digit(decimal_int(n as int).last()),
        !is_whitespace(decimal_int(n as int)[0]),
{
    let d = decimal_int(n as int);
    if n < 0 {
        let m = (-(n as int)) as nat;
        lemma_decimal_nat_reads_back(m);
        let digits = decimal_nat(m);
        assert forall|k: int| 0 <= k < d.len() implies is_digit(#[trigger] d[k]) || d[k] == '-' by {
            if k > 0 {
                assert(d[k] == digits[k - 1]);
            }
        }
        assert(d.last() == digits.last());
        assert(is_digit(digits[digits.len() - 1]));
    } else {
        lemma_decimal_nat_reads_back(n as nat);
        assert(is_digit(d[d.len() - 1]));
        assert(is_digit(d[0]));
    }
}

/// A status that the diagnostics write as `exit status: N` for an `i32` code
/// `N` reads back as that code.
pub proof fn law_exit_status_reads_back(code: i32)
    ensures
        exit_code_of("exit status: "@ + decimal_int(code as int)) == Some(code),
{
    reveal_strlit("exit status: ");
    reveal_strlit("timeout");
    let p = "exit status: "@;
    let d = decimal_int(code as int);
    let t = p + d;
    assert(p.len() == 13);
    assert(p[0] == 'e' && p[11] == ':' && p[12] == ' ');
    assert("timeout"@[0] == 't');
    lemma_decimal_int_chars(code);
    lemma_parse_decimal_int(code);
    assert(t[0] == 'e');
    assert(t.last() == d.last());
    assert(trim_start(t) == t);
    assert(trim_end(t) == t);
    assert(trim(t) == t);
    assert(t != "timeout"@);
    assert(!is_digit(t[0]));
    assert(!all_digits(t));
    assert(parse_i32(t) is None);
    assert forall|k: int| 13 <= k < t.len() implies t[k] != ':' by {
        assert(t[k] == d[k - 13]);
    }
    lemma_last_index_of_prefix(t, ':', 13);
    assert(t.subrange(0, 13) =~= p);
    assert(p.last() == ' ');
    assert(last_index_of(p, ':') == last_index_of(p.drop_last(), ':'));
    assert(p.drop_last().last() == ':');
    assert(last_index_of(p.drop_last(), ':') == 11);
    let rest = t.subrange(12, t.len() as int);
    assert(rest =~= seq![' '] + d);
    assert(rest.drop_first() =~= d);
    assert(trim_start(rest) == trim_start(d));
    assert(trim_start(d) == d);
    assert(trim_end(d) == d);
    assert(trim(rest) == d);
}

/// The last characters of a process stream that a diagnostic keeps.
pub fn result_tail(text: &str) -> (r: String)
    ensures
        r@ == tail_chars(text@, tail_len()),
{
    tail_of(text, 4096)
}

// ---------------------------------------------------------------------------
// Runtime diagnostics
// ---------------------------------------------------------------------------

/// A string value, or `null`.
pub open spec fn text_or_null(o: Option<Seq<char>>) -> JsonV {
    match o {
        Some(s) => JsonV::Str(s),
        None => JsonV::Null,
    }
}

/// An array of string values.
pub open spec fn text_array(v: Seq<Seq<char>>) -> JsonV {
    JsonV::Array(v.map_values(|s: Seq<char>| JsonV::Str(s)))
}

/// The `external_epf_wait` object of handler data.
pub open spec fn epf_wait(data: Option<JsonV>) -> Option<Seq<(Seq<char>, JsonV)>> {
    match data {
        Some(JsonV::Object(d)) => match entries_get(d, "external_epf_wait"@) {
            Some(JsonV::Object(w)) => Some(w),
            _ => None,
        },
        _ => None,
    }
}

/// The text of an optional stream, empty when absent.
pub open spec fn stream_text(o: Option<Seq<char>>) -> Seq<char> {
    match o {
        Some(s) => s,
        None => Seq::empty(),
    }
}

/// The diagnostics of a bounded external EPF wait.
pub open spec fn epf_wait_diagnostics(
    args: Seq<(Seq<char>, JsonV)>,
    cwd: Seq<char>,
    o: OutcomeV,
    wait: Seq<(Seq<char>, JsonV)>,
) -> JsonV {
    let operation = match arg_text(args, "operation"@) {
        Some(t) => t,
        None => "unknown"@,
    };
    let argv = match o.command {
        Some(c) => c,
        None => Seq::empty(),
    };
    let timed_out = match v_as_bool(entries_get(wait, "timed_out"@)) {
        Some(b) => b,
        None => false,
    };
    let exit_code = match entries_get(wait, "exit_code"@) {
        Some(v) => v,
        None => JsonV::Null,
    };
    let success = !timed_out && v_as_i64(Some(exit_code)) == Some(0int);
    let outcome_kind = if timed_out {
        "timeout"@
    } else if success {
        "success"@
    } else {
        "exit"@
    };
    let status = if timed_out {
        Some("timeout"@)
    } else {
        match v_as_i64(Some(exit_code)) {
            Some(code) => Some("exit status: "@ + decimal_int(code)),
            None => None,
        }
    };
    JsonV::Object(
        seq![
            ("type"@, JsonV::Str("process"@)),
            ("tool"@, JsonV::Str("v8-runner"@)),
            ("operation"@, JsonV::Str(operation)),
            ("outcome_kind"@, JsonV::Str(outcome_kind)),
            ("failure_kind"@, if success {
                JsonV::Null
            } else {
                JsonV::Str(outcome_kind)
            }),
            ("executable"@, if argv.len() > 0 {
                JsonV::Str(argv[0])
            } else {
                JsonV::Null
            }),
            ("argv"@, text_array(argv)),
            ("cwd"@, JsonV::Str(cwd)),
            ("status"@, text_or_null(status)),
            ("exit_code"@, exit_code),
            ("timed_out"@, JsonV::Bool(timed_out)),
            ("timeout_ms"@, match entries_get(args, "waitTimeoutMs"@) {
                Some(v) => v,
                None => JsonV::Null,
            }),
            ("timeout_source"@, JsonV::Str("v8-runner-external-epf"@)),
            ("stdout_tail"@, JsonV::Str(tail_chars(stream_text(o.stdout), tail_len()))),
            ("stderr_tail"@, JsonV::Str(tail_chars(stream_text(o.stderr), tail_len()))),
            ("error"@, if o.errors.len() > 0 {
                JsonV::Str(o.errors[0])
            } else {
                JsonV::Null
            }),
            ("external_epf_wait"@, JsonV::Object(wait)),
        ],
    )
}

/// The diagnostics of a failed runtime call.
pub open spec fn failure_diagnostics(
    args: Seq<(Seq<char>, JsonV)>,
    cwd: Seq<char>,
    o: OutcomeV,
) -> JsonV {
    let operation = match arg_text(args, "operation"@) {
        Some(t) => t,
        None => "unknown"@,
    };
    let argv = match o.command {
        Some(c) => c,
        None => Seq::empty(),
    };
    let failure_kind = failure_kind_of(o.warnings);
    let status = failure_status_of(o.warnings, failure_kind);
    JsonV::Object(
        seq![
            ("type"@, JsonV::Str("process"@)),
            ("tool"@, JsonV::Str("v8-runner"@)),
            ("operation"@, JsonV::Str(operation)),
            ("failure_kind"@, JsonV::Str(failure_kind)),
            ("executable"@, if argv.len() > 0 {
                JsonV::Str(argv[0])
            } else {
                JsonV::Null
            }),
            ("argv"@, text_array(argv)),
            ("cwd"@, JsonV::Str(cwd)),
            ("status"@, text_or_null(status)),
            ("exit_code"@, match status {
                Some(s) => match exit_code_of(s) {
                    Some(code) => JsonV::Int(code as int),
                    None => JsonV::Null,
                },
                None => JsonV::Null,
            }),
            ("timed_out"@, JsonV::Bool(failure_kind == "timeout"@)),
            ("timeout_seconds"@, JsonV::Null),
            ("timeout_source"@, JsonV::Str("delegated-to-v8-runner"@)),
            ("stdout_tail"@, JsonV::Str(tail_chars(stream_text(o.stdout), tail_len()))),
            ("stderr_tail"@, JsonV::Str(tail_chars(stream_text(o.stderr), tail_len()))),
            ("error"@, if o.errors.len() > 0 {
                JsonV::Str(o.errors[0])
            } else {
                JsonV::Null
            }),
        ],
    )
}

/// The diagnostics of a `runtime.execute` call: those of a bounded external EPF
/// wait when the handler reports one, else those of a failure; none for other
/// tools and for a success without a wait.
pub open spec fn runtime_diagnostics(
    spec: ToolSpec,
    args: Seq<(Seq<char>, JsonV)>,
    cwd: Seq<char>,
    o: OutcomeV,
    data: Option<JsonV>,
) -> Option<JsonV> {
    if !(spec.handler is RuntimeAdapter) {
        None
    } else {
        match epf_wait(data) {
            Some(wait) => Some(epf_wait_diagnostics(args, cwd, o, wait)),
            None => if o.ok {
                None
            } else {
                Some(failure_diagnostics(args, cwd, o))
            },
        }
    }
}

/// An array of string values.
fn json_text_array(v: &Vec<String>) -> (r: Json)
    ensures
        r@ == text_array(texts(v@)),
{
    let mut items: Vec<Json> = Vec::new();
    let mut i: usize = 0;
    while i < v.len()
        invariant
            i <= v.len(),
            items.len() == i,
            forall|k: int| 0 <= k < i ==> (#[trigger] items@[k])@ == JsonV::Str(v@[k]@),
        decreases v.len() - i,
    {
        items.push(Json::Str(v[i].clone()));
        i = i + 1;
    }
    let r = Json::Array(items);
    assert(r@->Array_0 =~= text_array(texts(v@))->Array_0);
    r
}

/// The text of an optional stream, empty when absent.
fn stream_str(o: &Option<String>) -> (r: &str)
    ensures
        r@ == stream_text(match o {
            Some(s) => Some(s@),
            None => None,
        }),
{
    proof {
        reveal_strlit("");
    }
    match o {
        Some(s) => s.as_str(),
        None => {
            assert(""@ =~= Seq::<char>::empty());
            ""
        },
    }
}

/// The first error of an outcome, or `null`.
fn first_error(outcome: &AdapterOutcome) -> (r: Json)
    ensures
        r@ == (if outcome@.errors.len() > 0 {
            JsonV::Str(outcome@.errors[0])
        } else {
            JsonV::Null
        }),
{
    if outcome.errors.len() > 0 {
        Json::Str(outcome.errors[0].clone())
    } else {
        Json::Null
    }
}

/// The command line of an outcome, empty when absent.
fn argv_of(outcome: &AdapterOutcome) -> (r: Vec<String>)
    ensures
        texts(r@) == (match outcome@.command {
            Some(c) => c,
            None => Seq::empty(),
        }),
{
    match &outcome.command {
        Some(c) => {
            let mut r: Vec<String> = Vec::new();
            let mut i: usize = 0;
            while i < c.len()
                invariant
                    i <= c.len(),
                    r.len() == i,
                    forall|k: int| 0 <= k < i ==> (#[trigger] r@[k])@ == c@[k]@,
                decreases c.len() - i,
            {
                r.push(c[i].clone());
                i = i + 1;
            }
            assert(texts(r@) =~= texts(c@));
            r
        },
        None => {
            let r: Vec<String> = Vec::new();
            assert(texts(r@) =~= Seq::<Seq<char>>::empty());
            r
        },
    }
}

/// The diagnostics of a bounded external EPF wait.
#[verifier::spinoff_prover]
#[verifier::rlimit(80)]
fn build_epf_wait_diagnostics(
    args: &JsonMap,
    context: &WorkspaceContext,
    outcome: &AdapterOutcome,
    wait: &JsonMap,
) -> (r: Json)
    ensures
        r@ == epf_wait_diagnostics(args@, context.cwd@, outcome@, wait@),
{
    let operation = match arg_str(args, "operation") {
        Some(t) => t.clone(),
        None => owned("unknown"),
    };
    let timed_out = match wait.get("timed_out") {
        Some(v) => match v.as_bool() {
            Some(b) => b,
            None => false,
        },
        None => false,
    };
    let exit_code = match wait.get("exit_code") {
        Some(v) => clone_json(v),
        None => Json::Null,
    };
    let code = exit_code.as_i64();
    let zero = match code {
        Some(c) => c == 0,
        None => false,
    };
    let success = !timed_out && zero;
    let outcome_kind = if timed_out {
        "timeout"
    } else if success {
        "success"
    } else {
        "exit"
    };
    let status = if timed_out {
        Json::Str(owned("timeout"))
    } else {
        match code {
            Some(c) => {
                let mut s = owned("exit status: ");
                push_decimal_i64(&mut s, c);
                Json::Str(s)
            },
            None => Json::Null,
        }
    };
    let argv = argv_of(outcome);
    let executable = if argv.len() > 0 {
        Json::Str(argv[0].clone())
    } else {
        Json::Null
    };
    let failure_kind = if success {
        Json::Null
    } else {
        Json::text(outcome_kind)
    };
    let timeout_ms = match args.get("waitTimeoutMs") {
        Some(v) => clone_json(v),
        None => Json::Null,
    };
    let wait_copy = clone_json_map(wait);
    let mut m = JsonMap::new();
    m.push_entry("type", Json::text("process"));
    m.push_entry("tool", Json::text("v8-runner"));
    m.push_entry("operation", Json::Str(operation));
    m.push_entry("outcome_kind", Json::text(outcome_kind));
    m.push_entry("failure_kind", failure_kind);
    m.push_entry("executable", executable);
    m.push_entry("argv", json_text_array(&argv));
    m.push_entry("cwd", Json::Str(context.cwd.clone()));
    m.push_entry("status", status);
    m.push_entry("exit_code", exit_code);
    m.push_entry("timed_out", Json::Bool(timed_out));
    m.push_entry("timeout_ms", timeout_ms);
    m.push_entry("timeout_source", Json::text("v8-runner-external-epf"));
    m.push_entry("stdout_tail", Json::Str(result_tail(stream_str(&outcome.stdout))));
    m.push_entry("stderr_tail", Json::Str(result_tail(stream_str(&outcome.stderr))));
    m.push_entry("error", first_error(outcome));
    proof {
        lemma_object_model(wait_copy);
    }
    m.push_entry("external_epf_wait", Json::Object(wait_copy));
    proof {
        lemma_object_model(m);
        let ex = epf_wait_diagnostics(args@, context.cwd@, outcome@, wait@)->Object_0;
        assert(m@ =~= ex);
    }
    Json::Object(m)
}

/// A deep copy of a JSON object.
fn clone_json_map(m: &JsonMap) -> (r: JsonMap)
    ensures
        r@ == m@,
{
    let mut out = JsonMap::new();
    let mut i: usize = 0;
    while i < m.entries.len()
        invariant
            i <= m.entries.len(),
            out@ == m@.subrange(0, i as int),
        decreases m.entries.len() - i,
    {
        let value = clone_json(&m.entries[i].1);
        out.push_entry(m.entries[i].0.as_str(), value);
        assert(out@ =~= m@.subrange(0, i + 1));
        i = i + 1;
    }
    assert(m@.subrange(0, m.entries.len() as int) =~= m@);
    out
}

/// The diagnostics of a failed runtime call.
#[verifier::spinoff_prover]
#[verifier::rlimit(80)]
fn build_failure_diagnostics(args: &JsonMap, context: &WorkspaceContext, outcome: &AdapterOutcome) -> (r:
    Json)
    ensures
        r@ == failure_diagnostics(args@, context.cwd@, outcome@),
{
    let operation = match arg_str(args, "operation") {
        Some(t) => t.clone(),
        None => owned("unknown"),
    };
    let failure_kind = runtime_failure_kind(outcome);
    let status = runtime_failure_status(outcome, failure_kind);
    let exit_code = match &status {
        Some(s) => match process_exit_code(s.as_str()) {
            Some(code) => Json::Int(code as i64),
            None => Json::Null,
        },
        None => Json::Null,
    };
    let argv = argv_of(outcome);
    let executable = if argv.len() > 0 {
        Json::Str(argv[0].clone())
    } else {
        Json::Null
    };
    let status_json = match status {
        Some(s) => Json::Str(s),
        None => Json::Null,
    };
    let mut m = JsonMap::new();
    m.push_entry("type", Json::text("process"));
    m.push_entry("tool", Json::text("v8-runner"));
    m.push_entry("operation", Json::Str(operation));
    m.push_entry("failure_kind", Json::text(failure_kind));
    m.push_entry("executable", executable);
    m.push_entry("argv", json_text_array(&argv));
    m.push_entry("cwd", Json::Str(context.cwd.clone()));
    m.push_entry("status", status_json);
    m.push_entry("exit_code", exit_code);
    m.push_entry("timed_out", Json::Bool(str_eq(failure_kind, "timeout")));
    m.push_entry("timeout_seconds", Json::Null);
    m.push_entry("timeout_source", Json::text("delegated-to-v8-runner"));
    m.push_entry("stdout_tail", Json::Str(result_tail(stream_str(&outcome.stdout))));
    m.push_entry("stderr_tail", Json::Str(result_tail(stream_str(&outcome.stderr))));
    m.push_entry("error", first_error(outcome));
    proof {
        lemma_object_model(m);
        let ex = failure_diagnostics(args@, context.cwd@, outcome@)->Object_0;
        assert(m@ =~= ex);
    }
    Json::Object(m)
}

/// The `external_epf_wait` object of handler data.
fn find_epf_wait(data: Option<&Json>) -> (r: Option<&JsonMap>)
    ensures
        r matches Some(w) ==> epf_wait(match data {
            Some(d) => Some(d@),
            None => None,
        }) == Some(w@),
        r is None <==> epf_wait(match data {
            Some(d) => Some(d@),
            None => None,
        }) is None,
{
    match data {
        Some(d) => match d.as_object() {
            Some(obj) => match obj.get("external_epf_wait") {
                Some(w) => w.as_object(),
                None => None,
            },
            None => None,
        },
        None => None,
    }
}

/// The structured diagnostics of a `runtime.execute` call.
pub fn runtime_result_diagnostics(
    spec: ToolSpec,
    args: &JsonMap,
    context: &WorkspaceContext,
    outcome: &AdapterOutcome,
    data: Option<&Json>,
) -> (r: Option<Json>)
    ensures
        r matches Some(j) ==> runtime_diagnostics(
            spec,
            args@,
            context.cwd@,
            outcome@,
            match data {
                Some(d) => Some(d@),
                None => None,
            },
        ) == Some(j@),
        r is None <==> runtime_diagnostics(
            spec,
            args@,
            context.cwd@,
            outcome@,
            match data {
                Some(d) => Some(d@),
                None => None,
            },
        ) is None,
{
    match spec.handler {
        ToolHandler::RuntimeAdapter => {},
        _ => {
            return None;
        },
    }
    match find_epf_wait(data) {
        Some(wait) => Some(build_epf_wait_diagnostics(args, context, outcome, wait)),
        None => if outcome.ok {
            None
        } else {
            Some(build_failure_diagnostics(args, context, outcome))
        },
    }
}

// ---------------------------------------------------------------------------
// Merging with the format diagnostic
// ---------------------------------------------------------------------------

/// The diagnostics of a call: the runtime diagnostics, with the format
/// diagnostic added under `formatCompatibility`; a runtime diagnostic that is
/// not an object is kept under `runtime`.
pub open spec fn merged_diagnostics(runtime: Option<JsonV>, format: Option<JsonV>) -> Option<JsonV> {
    match (runtime, format) {
        (None, None) => None,
        (Some(r), None) => Some(r),
        (None, Some(f)) => Some(JsonV::Object(seq![("formatCompatibility"@, f)])),
        (Some(r), Some(f)) => match r {
            JsonV::Object(e) => Some(JsonV::Object(entries_insert(e, "formatCompatibility"@, f))),
            _ => Some(JsonV::Object(seq![("runtime"@, r), ("formatCompatibility"@, f)])),
        },
    }
}

/// Merges the runtime diagnostics with the format diagnostic.
pub fn merge_diagnostics(runtime: Option<Json>, format: Option<Json>) -> (r: Option<Json>)
    ensures
        r matches Some(j) ==> merged_diagnostics(
            match runtime {
                Some(x) => Some(x@),
                None => None,
            },
            match format {
                Some(x) => Some(x@),
                None => None,
            },
        ) == Some(j@),
        r is None <==> merged_diagnostics(
            match runtime {
                Some(x) => Some(x@),
                None => None,
            },
            match format {
                Some(x) => Some(x@),
                None => None,
            },
        ) is None,
{
    match (runtime, format) {
        (None, None) => None,
        (Some(r), None) => Some(r),
        (None, Some(f)) => {
            let mut m = JsonMap::new();
            m.push_entry("formatCompatibility", f);
            proof {
                lemma_object_model(m);
                assert(m@ =~= seq![("formatCompatibility"@, f@)]);
            }
            Some(Json::Object(m))
        },
        (Some(r), Some(f)) => match r {
            Json::Object(mut e) => {
                proof {
                    lemma_object_model(e);
                }
                let ghost before = e@;
                e.insert(owned("formatCompatibility"), f);
                proof {
                    lemma_object_model(e);
                }
                Some(Json::Object(e))
            },
            other => {
                let ghost rv = other@;
                assert(!(rv is Object));
                let mut m = JsonMap::new();
                m.push_entry("runtime", other);
                m.push_entry("formatCompatibility", f);
                proof {
                    lemma_object_model(m);
                    assert(m@ =~= seq![("runtime"@, rv), ("formatCompatibility"@, f@)]);
                }
                Some(Json::Object(m))
            },
        },
    }
}

} // verus!
