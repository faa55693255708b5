//! Reading the session's NDJSON debug log: framing the log text into event
//! lines, filtering the parsed events by run, hypothesis and time, keeping
//! the most recent ones, and the tool's answer.
use vstd::prelude::*;
use crate::fmt::{debug_opt_str, debug_opt_u64, decimal, opt_str_debug, opt_u64_debug, usize_to_string};
use crate::json::{JsonValue, json_get, json_of, json_str, json_u64, or_else, parse_json};
use crate::text::{has_sub, contains_str, opt_view, str_eq, trim_is_idempotent, trim_seq, trim_str};

verus! {

// ---------------------------------------------------------------------------
// Framing
// ---------------------------------------------------------------------------

/// `k` is the first line break of `s`.
pub open spec fn first_break(s: Seq<char>, k: int) -> bool {
    &&& 0 <= k < s.len()
    &&& s[k] == '\n'
    &&& forall|j: int| 0 <= j < k ==> s[j] != '\n'
}

pub proof fn lemma_first_break_exists(s: Seq<char>, k: int)
    requires
        0 <= k < s.len(),
        s[k] == '\n',
    ensures
        exists|m: int| first_break(s, m),
    decreases k,
{
    if exists|j: int| 0 <= j < k && s[j] == '\n' {
        let j = choose|j: int| 0 <= j < k && s[j] == '\n';
        lemma_first_break_exists(s, j);
    } else {
        assert(first_break(s, k));
    }
}

/// The lines of `s`, split at each `'\n'` (a trailing break ends with an
/// empty line).
pub open spec fn split_lines(s: Seq<char>) -> Seq<Seq<char>>
    decreases s.len(),
{
    if exists|k: int| 0 <= k < s.len() && s[k] == '\n' {
        proof {
            let k0 = choose|k: int| 0 <= k < s.len() && s[k] == '\n';
            lemma_first_break_exists(s, k0);
        }
        let k = choose|k: int| first_break(s, k);
        seq![s.subrange(0, k)] + split_lines(s.subrange(k + 1, s.len() as int))
    } else {
        seq![s]
    }
}

/// The trimmed lines that are not blank.
pub open spec fn non_blank_trimmed(lines: Seq<Seq<char>>) -> Seq<Seq<char>>
    decreases lines.len(),
{
    if lines.len() == 0 {
        seq![]
    } else {
        let t = trim_seq(lines[0]);
        (if t.len() > 0 {
            seq![t]
        } else {
            seq![]
        }) + non_blank_trimmed(lines.drop_first())
    }
}

/// The event lines of a log text: its lines, trimmed, blank ones left out.
pub open spec fn framed_lines(text: Seq<char>) -> Seq<Seq<char>> {
    non_blank_trimmed(split_lines(text))
}

proof fn lemma_split_at_first_break(s: Seq<char>, k: int)
    requires
        first_break(s, k),
    ensures
        split_lines(s) == seq![s.subrange(0, k)] + split_lines(s.subrange(k + 1, s.len() as int)),
{
    lemma_first_break_exists(s, k);
    let c = choose|m: int| first_break(s, m);
    assert(first_break(s, c));
    if c < k {
        assert(s[c] != '\n');
    } else if c > k {
        assert(s[k] != '\n');
    }
}

proof fn lemma_non_blank_one(x: Seq<char>, rest: Seq<Seq<char>>)
    ensures
        non_blank_trimmed(seq![x] + rest) == (if trim_seq(x).len() > 0 {
            seq![trim_seq(x)]
        } else {
            seq![]
        }) + non_blank_trimmed(rest),
{
    assert((seq![x] + rest).drop_first() =~= rest);
}

/// Splits a log text into its event lines: each line trimmed, blank lines
/// left out.
pub fn frame_log_lines(text: &str) -> (out: Vec<String>)
    ensures
        out@.map_values(|s: String| s@) == framed_lines(text@),
{
    let ghost s = text@;
    let n = text.unicode_len();
    let mut out: Vec<String> = Vec::new();
    let mut st: usize = 0;
    let mut j: usize = 0;
    assert(s.subrange(0, n as int) =~= s);
    while j < n
        invariant
            n == s.len(),
            s == text@,
            st <= j <= n,
            forall|t: int| st <= t < j ==> s[t] != '\n',
            framed_lines(s) == out@.map_values(|x: String| x@) + non_blank_trimmed(
                split_lines(s.subrange(st as int, n as int)),
            ),
        decreases n - j,
    {
        if text.get_char(j) == '\n' {
            let ghost rest = s.subrange(st as int, n as int);
            proof {
                assert(first_break(rest, j - st)) by {
                    assert forall|t: int| 0 <= t < j - st implies rest[t] != '\n' by {
                        assert(rest[t] == s[st + t]);
                    }
                }
                lemma_split_at_first_break(rest, j - st);
                assert(rest.subrange(0, j - st) =~= s.subrange(st as int, j as int));
                assert(rest.subrange(j - st + 1, rest.len() as int) =~= s.subrange(
                    j + 1,
                    n as int,
                ));
                lemma_non_blank_one(
                    s.subrange(st as int, j as int),
                    split_lines(s.subrange(j + 1, n as int)),
                );
            }
            let line = trim_str(text.substring_char(st, j));
            let ghost before = out@.map_values(|x: String| x@);
            if line.unicode_len() > 0 {
                out.push(line.to_owned());
                assert(out@.map_values(|x: String| x@) =~= before.push(line@));
            }
            assert(framed_lines(s) == out@.map_values(|x: String| x@) + non_blank_trimmed(
                split_lines(s.subrange(j + 1, n as int)),
            ));
            st = j + 1;
        }
        j = j + 1;
    }
    let ghost rest = s.subrange(st as int, n as int);
    proof {
        assert(!(exists|k: int| 0 <= k < rest.len() && rest[k] == '\n')) by {
            assert forall|k: int| 0 <= k < rest.len() implies rest[k] != '\n' by {
                assert(rest[k] == s[st + k]);
            }
        }
        assert(split_lines(rest) == seq![rest]);
        lemma_non_blank_one(rest, Seq::<Seq<char>>::empty());
        assert(non_blank_trimmed(Seq::<Seq<char>>::empty()) == Seq::<Seq<char>>::empty());
    }
    let line = trim_str(text.substring_char(st, n));
    let ghost before = out@.map_values(|x: String| x@);
    if line.unicode_len() > 0 {
        out.push(line.to_owned());
        assert(out@.map_values(|x: String| x@) =~= before.push(line@));
    }
    assert(framed_lines(s) =~= out@.map_values(|x: String| x@));
    out
}

// ---------------------------------------------------------------------------
// Filtering
// ---------------------------------------------------------------------------

/// Filters for reading the debug log.
#[derive(Clone, Debug, PartialEq, Eq)]
pub struct ReadDebugLogsInput {
    /// Only events with this `runId` field.
    pub run_id: Option<String>,
    /// Only events whose `hypothesisId` contains this id (e.g. `A`).
    pub hypothesis_id: Option<String>,
    /// Max events to return (default 200, max 1000).
    pub max_events: Option<u32>,
    /// Only events with `timestamp` >= this value (ms).
    pub since_ts: Option<u64>,
}

/// One event line of the log and what it parsed to (`None`: not JSON).
pub struct LogLine {
    pub text: String,
    pub parsed: Option<JsonValue>,
}

/// The answer of the log reader.
#[derive(Clone, Debug, PartialEq, Eq)]
pub enum ReadDebugLogsOutput {
    Empty { message: String, debug_log_path: String, event_count: usize },
    Events {
        message: String,
        debug_log_path: String,
        event_count: usize,
        events_ndjson: String,
    },
}

/// The number of events returned: 200 by default, clamped to `1..=1000`.
pub open spec fn max_events_spec(requested: Option<u32>) -> nat {
    let m = match requested {
        Some(m) => m as nat,
        None => 200,
    };
    if m < 1 {
        1
    } else if m > 1000 {
        1000
    } else {
        m
    }
}

pub fn max_events_limit(requested: Option<u32>) -> (m: usize)
    ensures
        m as nat == max_events_spec(requested),
        1 <= m <= 1000,
{
    let m: u32 = match requested {
        Some(m) => m,
        None => 200,
    };
    if m < 1 {
        1
    } else if m > 1000 {
        1000
    } else {
        m as usize
    }
}

/// The string field `primary` of an event, else `fallback` when `primary`
/// is absent; the empty string when the chosen field is not a string.
pub open spec fn field_or(v: JsonValue, primary: Seq<char>, fallback: Seq<char>) -> Seq<char> {
    match json_str(or_else(json_get(v, primary), json_get(v, fallback))) {
        Some(s) => s,
        None => Seq::empty(),
    }
}

/// An event's `timestamp`, 0 when absent or not an unsigned integer.
pub open spec fn event_timestamp(v: JsonValue) -> u64 {
    match json_u64(json_get(v, "timestamp"@)) {
        Some(t) => t,
        None => 0,
    }
}

/// Whether a parsed event passes the filters. A hypothesis filter matches an
/// event whose hypothesis field contains it (so `A` matches `A, B`).
pub open spec fn event_matches(v: JsonValue, input: ReadDebugLogsInput) -> bool {
    &&& input.run_id is Some ==> field_or(v, "runId"@, "run_id"@) == input.run_id->0@
    &&& input.hypothesis_id is Some ==> has_sub(
        field_or(v, "hypothesisId"@, "hypothesis_id"@),
        input.hypothesis_id->0@,
    )
    &&& input.since_ts is Some ==> event_timestamp(v) >= input.since_ts->0
}

/// The text of each log line with what it parsed to.
pub open spec fn log_lines_view(lines: Seq<LogLine>) -> Seq<(Seq<char>, Option<JsonValue>)> {
    lines.map_values(|l: LogLine| (l.text@, l.parsed))
}

/// The framed lines of a log text, each with what it parses to.
pub open spec fn parsed_log_lines(text: Seq<char>) -> Seq<(Seq<char>, Option<JsonValue>)> {
    framed_lines(text).map_values(|l: Seq<char>| (l, json_of(l)))
}

pub open spec fn line_matches(l: (Seq<char>, Option<JsonValue>), input: ReadDebugLogsInput) -> bool {
    l.1 is Some && event_matches(l.1->0, input)
}

/// The texts of the matching lines, in order.
pub open spec fn matching(lines: Seq<(Seq<char>, Option<JsonValue>)>, input: ReadDebugLogsInput) -> Seq<
    Seq<char>,
>
    decreases lines.len(),
{
    if lines.len() == 0 {
        seq![]
    } else {
        matching(lines.drop_last(), input) + if line_matches(lines.last(), input) {
            seq![lines.last().0]
        } else {
            seq![]
        }
    }
}

/// The lines that did not parse.
pub open spec fn unparsed(lines: Seq<(Seq<char>, Option<JsonValue>)>) -> nat
    decreases lines.len(),
{
    if lines.len() == 0 {
        0
    } else {
        unparsed(lines.drop_last()) + if lines.last().1 is None {
            1nat
        } else {
            0nat
        }
    }
}

/// The last `max` entries of `m`.
pub open spec fn keep_last(m: Seq<Seq<char>>, max: nat) -> Seq<Seq<char>> {
    if m.len() > max {
        m.subrange(m.len() - max, m.len() as int)
    } else {
        m
    }
}

/// The lines joined with `'\n'` between them.
pub open spec fn join_lines(m: Seq<Seq<char>>) -> Seq<char>
    decreases m.len(),
{
    if m.len() == 0 {
        seq![]
    } else if m.len() == 1 {
        m[0]
    } else {
        join_lines(m.drop_last()) + seq!['\n'] + m.last()
    }
}

fn event_field<'a>(v: &'a JsonValue, primary: &str, fallback: &str) -> (r: &'a str)
    ensures
        r@ == field_or(*v, primary@, fallback@),
{
    proof {
        reveal_strlit("");
    }
    let chosen = match v.get(primary) {
        Some(x) => Some(x),
        None => v.get(fallback),
    };
    match chosen {
        Some(x) => match x.as_str() {
            Some(s) => s,
            None => "",
        },
        None => "",
    }
}

fn event_passes(v: &JsonValue, input: &ReadDebugLogsInput) -> (r: bool)
    ensures
        r == event_matches(*v, *input),
{
    if let Some(run_id) = &input.run_id {
        let event_run = event_field(v, "runId", "run_id");
        if !str_eq(event_run, run_id.as_str()) {
            return false;
        }
    }
    if let Some(hyp) = &input.hypothesis_id {
        let event_hyp = event_field(v, "hypothesisId", "hypothesis_id");
        if !contains_str(event_hyp, hyp.as_str()) {
            return false;
        }
    }
    if let Some(since) = input.since_ts {
        let ts = match v.get("timestamp") {
            Some(x) => match x.as_u64() {
                Some(t) => t,
                None => 0,
            },
            None => 0,
        };
        if ts < since {
            return false;
        }
    }
    true
}

/// The matching event lines and the number of lines that did not parse.
pub fn filter_events(lines: &Vec<LogLine>, input: &ReadDebugLogsInput) -> (r: (Vec<String>, usize))
    ensures
        r.0@.map_values(|s: String| s@) == matching(log_lines_view(lines@), *input),
        r.1 as nat == unparsed(log_lines_view(lines@)),
{
    let ghost lv = log_lines_view(lines@);
    let n = lines.len();
    let mut matched: Vec<String> = Vec::new();
    let mut errors: usize = 0;
    let mut i: usize = 0;
    while i < n
        invariant
            n == lines@.len(),
            i <= n,
            errors <= i,
            lv == log_lines_view(lines@),
            matched@.map_values(|s: String| s@) == matching(lv.take(i as int), *input),
            errors as nat == unparsed(lv.take(i as int)),
        decreases n - i,
    {
        let ghost prefix = lv.take(i as int);
        assert(lv.take(i + 1).drop_last() =~= prefix);
        assert(lv.take(i + 1).last() == (lines@[i as int].text@, lines@[i as int].parsed));
        let ghost before = matched@.map_values(|s: String| s@);
        match &lines[i].parsed {
            None => {
                errors = errors + 1;
            },
            Some(v) => {
                if event_passes(v, input) {
                    matched.push(lines[i].text.clone());
                    assert(matched@.map_values(|s: String| s@) =~= before.push(
                        lines@[i as int].text@,
                    ));
                }
            },
        }
        assert(matched@.map_values(|s: String| s@) =~= matching(lv.take(i + 1), *input));
        i = i + 1;
    }
    assert(lv.take(n as int) =~= lv);
    (matched, errors)
}

/// Keeps the last `max` of the matched lines.
pub fn keep_most_recent(matched: Vec<String>, max: usize) -> (r: Vec<String>)
    ensures
        r@.map_values(|s: String| s@) == keep_last(matched@.map_values(|s: String| s@), max as nat),
{
    let n = matched.len();
    if n <= max {
        return matched;
    }
    let skip = n - max;
    let mut out: Vec<String> = Vec::new();
    let mut i: usize = skip;
    while i < n
        invariant
            n == matched@.len(),
            skip == n - max,
            skip <= i <= n,
            out@.map_values(|s: String| s@) =~= matched@.map_values(|s: String| s@).subrange(
                skip as int,
                i as int,
            ),
        decreases n - i,
    {
        let ghost before = out@.map_values(|s: String| s@);
        out.push(matched[i].clone());
        assert(out@.map_values(|s: String| s@) =~= before.push(matched@[i as int]@));
        i = i + 1;
    }
    out
}

/// Joins the lines with `'\n'`.
pub fn join_with_newlines(lines: &Vec<String>) -> (r: String)
    ensures
        r@ == join_lines(lines@.map_values(|s: String| s@)),
{
    let ghost all = lines@.map_values(|s: String| s@);
    let n = lines.len();
    let mut out = String::new();
    let mut i: usize = 0;
    while i < n
        invariant
            n == lines@.len(),
            all == lines@.map_values(|s: String| s@),
            i <= n,
            out@ == join_lines(all.take(i as int)),
        decreases n - i,
    {
        assert(all.take(i + 1).drop_last() =~= all.take(i as int));
        if i == 0 {
            assert(all.take(1) =~= seq![all[0]]);
            out.append(lines[i].as_str());
            assert(out@ =~= all[0]);
        } else {
            out.append("\n");
            out.append(lines[i].as_str());
            proof {
                reveal_strlit("\n");
            }
            assert(out@ =~= join_lines(all.take(i as int)) + seq!['\n'] + all[i as int]);
        }
        i = i + 1;
    }
    assert(all.take(n as int) =~= all);
    out
}

// ---------------------------------------------------------------------------
// Answers
// ---------------------------------------------------------------------------

pub open spec fn no_path_message(display: Seq<char>) -> Seq<char> {
    "No absolute debug log path available (looked for "@ + display
        + "). Ensure debug mode is active with a session log path."@
}

pub open spec fn not_found_message(display: Seq<char>) -> Seq<char> {
    "Debug log not found at "@ + display + ". Instrumentation may not have written yet."@
}

pub open spec fn no_match_message(
    display: Seq<char>,
    total: nat,
    errors: nat,
    input: ReadDebugLogsInput,
) -> Seq<char> {
    "No matching events in "@ + display + " (scanned "@ + decimal(total) + " lines, parse_errors="@
        + decimal(errors) + "). Filters: run_id="@ + debug_opt_str(opt_view(input.run_id))
        + ", hypothesis_id="@ + debug_opt_str(opt_view(input.hypothesis_id)) + ", since_ts="@
        + debug_opt_u64(input.since_ts)
}

pub open spec fn events_message(display: Seq<char>, count: nat, total: nat, errors: nat) -> Seq<
    char,
> {
    "Showing "@ + decimal(count) + " event(s) from "@ + display + " (scanned "@ + decimal(total)
        + " lines, parse_errors="@ + decimal(errors) + ")."@
}

/// The answer when the session has no absolute log path.
pub fn no_log_path_output(display: &str) -> (r: ReadDebugLogsOutput)
    ensures
        r matches ReadDebugLogsOutput::Empty { message, debug_log_path, event_count } && message@
            == no_path_message(display@) && debug_log_path@ == display@ && event_count == 0,
{
    ReadDebugLogsOutput::Empty {
        message: "No absolute debug log path available (looked for ".to_owned().concat(
            display,
        ).concat("). Ensure debug mode is active with a session log path."),
        debug_log_path: display.to_owned(),
        event_count: 0,
    }
}

/// The answer when the log file does not exist yet.
pub fn log_not_found_output(display: &str) -> (r: ReadDebugLogsOutput)
    ensures
        r matches ReadDebugLogsOutput::Empty { message, debug_log_path, event_count } && message@
            == not_found_message(display@) && debug_log_path@ == display@ && event_count == 0,
{
    ReadDebugLogsOutput::Empty {
        message: "Debug log not found at ".to_owned().concat(display).concat(
            ". Instrumentation may not have written yet.",
        ),
        debug_log_path: display.to_owned(),
        event_count: 0,
    }
}

/// The answer for the event lines of a log: the most recent matching events
/// (at most the requested number), or an explanation when none matches.
pub open spec fn log_summary(
    r: ReadDebugLogsOutput,
    display: Seq<char>,
    lines: Seq<(Seq<char>, Option<JsonValue>)>,
    input: ReadDebugLogsInput,
) -> bool {
    let kept = keep_last(matching(lines, input), max_events_spec(input.max_events));
    let total = lines.len();
    let errors = unparsed(lines);
    &&& kept.len() == 0 ==> (r matches ReadDebugLogsOutput::Empty {
        message,
        debug_log_path,
        event_count,
    } && message@ == no_match_message(display, total, errors, input) && debug_log_path@ == display
        && event_count == 0)
    &&& kept.len() > 0 ==> (r matches ReadDebugLogsOutput::Events {
        message,
        debug_log_path,
        event_count,
        events_ndjson,
    } && message@ == events_message(display, kept.len(), total, errors) && debug_log_path@
        == display && event_count == kept.len() && events_ndjson@ == join_lines(kept))
}

/// The answer for already parsed event lines.
pub fn summarize_debug_log(display: &str, lines: &Vec<LogLine>, input: &ReadDebugLogsInput) -> (r:
    ReadDebugLogsOutput)
    ensures
        log_summary(r, display@, log_lines_view(lines@), *input),
{
    let max = max_events_limit(input.max_events);
    let (matched, errors) = filter_events(lines, input);
    let kept = keep_most_recent(matched, max);
    let total = lines.len();
    if kept.len() == 0 {
        let message = "No matching events in ".to_owned().concat(display).concat(
            " (scanned ",
        ).concat(usize_to_string(total).as_str()).concat(" lines, parse_errors=").concat(
            usize_to_string(errors).as_str(),
        ).concat("). Filters: run_id=").concat(opt_str_debug(&input.run_id).as_str()).concat(
            ", hypothesis_id=",
        ).concat(opt_str_debug(&input.hypothesis_id).as_str()).concat(", since_ts=").concat(
            opt_u64_debug(input.since_ts).as_str(),
        );
        return ReadDebugLogsOutput::Empty {
            message,
            debug_log_path: display.to_owned(),
            event_count: 0,
        };
    }
    let event_count = kept.len();
    let body = join_with_newlines(&kept);
    let message = "Showing ".to_owned().concat(usize_to_string(event_count).as_str()).concat(
        " event(s) from ",
    ).concat(display).concat(" (scanned ").concat(usize_to_string(total).as_str()).concat(
        " lines, parse_errors=",
    ).concat(usize_to_string(errors).as_str()).concat(").");
    ReadDebugLogsOutput::Events {
        message,
        debug_log_path: display.to_owned(),
        event_count,
        events_ndjson: body,
    }
}

/// The answer for the text of a log file: its event lines are framed, each
/// parsed as JSON, and summarized.
pub fn read_debug_log_text(display: &str, text: &str, input: &ReadDebugLogsInput) -> (r:
    ReadDebugLogsOutput)
    ensures
        log_summary(r, display@, parsed_log_lines(text@), *input),
{
    let framed = frame_log_lines(text);
    let ghost target = parsed_log_lines(text@);
    let n = framed.len();
    let mut lines: Vec<LogLine> = Vec::new();
    let mut i: usize = 0;
    while i < n
        invariant
            n == framed@.len(),
            framed@.map_values(|s: String| s@) == framed_lines(text@),
            target == parsed_log_lines(text@),
            i <= n,
            log_lines_view(lines@) == target.take(i as int),
        decreases n - i,
    {
        let line = framed[i].clone();
        assert(framed@[i as int]@ == framed_lines(text@)[i as int]);
        let parsed = parse_json(line.as_str());
        let ghost before = log_lines_view(lines@);
        lines.push(LogLine { text: line, parsed });
        assert(log_lines_view(lines@) =~= before.push(target[i as int]));
        assert(target.take(i + 1) =~= target.take(i as int).push(target[i as int]));
        i = i + 1;
    }
    assert(target.take(n as int) =~= target);
    summarize_debug_log(display, &lines, input)
}

/// The string an event holds under `primary`, and when the event has no
/// `primary` entry, under `fallback`; empty when the entry is not a string.
pub open spec fn text_under(v: JsonValue, primary: Seq<char>, fallback: Seq<char>) -> Seq<char> {
    let entry = match json_get(v, primary) {
        Some(x) => Some(x),
        None => json_get(v, fallback),
    };
    match entry {
        Some(JsonValue::String(s)) => s@,
        _ => Seq::empty(),
    }
}

/// An event passes the filters exactly when its run id (`runId`, else
/// `run_id`) equals the requested one, its hypothesis field
/// (`hypothesisId`, else `hypothesis_id`) contains the requested id, and its
/// unsigned `timestamp` (0 when there is none) is at least the requested
/// one; a filter that is not given does not restrict.
pub proof fn event_filters_read_either_key(v: JsonValue, input: ReadDebugLogsInput)
    ensures
        event_matches(v, input) <==> {
            &&& (input.run_id matches Some(id) ==> text_under(v, "runId"@, "run_id"@) == id@)
            &&& (input.hypothesis_id matches Some(id) ==> has_sub(
                text_under(v, "hypothesisId"@, "hypothesis_id"@),
                id@,
            ))
            &&& (input.since_ts matches Some(t) ==> match json_get(v, "timestamp"@) {
                Some(JsonValue::Number(n)) => match n.u64_value {
                    Some(ts) => ts >= t,
                    None => 0 >= t,
                },
                _ => 0 >= t,
            })
        },
{
}

/// The number of events returned is 200 when none is asked for, and the
/// asked number clamped to `1..=1000` otherwise.
pub proof fn max_events_default_and_clamp(m: u32)
    ensures
        max_events_spec(None) == 200,
        m == 0 ==> max_events_spec(Some(m)) == 1,
        1 <= m <= 1000 ==> max_events_spec(Some(m)) == m,
        m > 1000 ==> max_events_spec(Some(m)) == 1000,
{
}

/// Framing keeps no blank line and no surrounding whitespace, and never
/// yields more lines than it was given.
pub proof fn framed_lines_are_trimmed_and_non_blank(lines: Seq<Seq<char>>)
    ensures
        non_blank_trimmed(lines).len() <= lines.len(),
        forall|i: int|
            0 <= i < non_blank_trimmed(lines).len() ==> (#[trigger] non_blank_trimmed(lines)[i]).len()
                > 0 && trim_seq(non_blank_trimmed(lines)[i]) == non_blank_trimmed(lines)[i],
    decreases lines.len(),
{
    if lines.len() > 0 {
        framed_lines_are_trimmed_and_non_blank(lines.drop_first());
        trim_is_idempotent(lines[0]);
        let t = trim_seq(lines[0]);
        let rest = non_blank_trimmed(lines.drop_first());
        let all = non_blank_trimmed(lines);
        assert forall|i: int| 0 <= i < all.len() implies (#[trigger] all[i]).len() > 0 && trim_seq(
            all[i],
        ) == all[i] by {
            if t.len() > 0 {
                if i > 0 {
                    assert(all[i] == rest[i - 1]);
                }
            } else {
                assert(all[i] == rest[i]);
            }
        }
    }
}

/// The reader returns the most recent matches: never more than asked for,
/// all of them when they fit, and always a final segment of the matches in
/// the order they were logged in.
pub proof fn kept_events_are_most_recent(m: Seq<Seq<char>>, max: nat)
    ensures
        keep_last(m, max).len() == if m.len() > max {
            max
        } else {
            m.len()
        },
        keep_last(m, max) == m.subrange(m.len() - keep_last(m, max).len(), m.len() as int),
{
    if m.len() <= max {
        assert(m.subrange(0, m.len() as int) =~= m);
    }
}

/// Lines that are not JSON never match a filter, and a line's text is
/// returned unchanged when it matches.
pub proof fn unparsed_lines_never_match(
    lines: Seq<(Seq<char>, Option<JsonValue>)>,
    input: ReadDebugLogsInput,
)
    ensures
        forall|i: int| 0 <= i < lines.len() && lines[i].1 is None ==> !line_matches(
            #[trigger] lines[i],
            input,
        ),
        matching(lines, input).len() <= lines.len(),
    decreases lines.len(),
{
    if lines.len() > 0 {
        unparsed_lines_never_match(lines.drop_last(), input);
    }
}

} // verus!
