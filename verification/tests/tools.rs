use grok_modes::debug_logs::{
    frame_log_lines, log_not_found_output, max_events_limit, no_log_path_output, read_debug_log_text,
    summarize_debug_log,
    LogLine, ReadDebugLogsInput, ReadDebugLogsOutput,
};
use grok_modes::json::{JsonNumber, JsonValue};
use grok_modes::spawn::StdioAcpSpawn;
use grok_modes::tools::{
    seed_after_create, seed_after_probe, seed_unavailable, ArtifactProbe, AwaitDebugReproductionInput,
    AwaitDebugReproductionOutput, AwaitDebugReproductionTool, AwaitDebugVerificationInput,
    AwaitDebugVerificationOutput, AwaitDebugVerificationTool, DebugFileSeedFailure, DebugFileSeedStatus,
    EnterDebugModeOutput, EnterDebugModeTool, EnterDebugModeToolHints, ExitDebugModeInput,
    ExitDebugModeOutput, ExitDebugModeTool, SeedStep,
};

fn obj(entries: Vec<(&str, JsonValue)>) -> JsonValue {
    JsonValue::Object(entries.into_iter().map(|(k, v)| (k.to_string(), v)).collect())
}

fn s(v: &str) -> JsonValue {
    JsonValue::String(v.to_string())
}

fn event(text: &str, run: &str, hyp: &str, ts: u64) -> LogLine {
    LogLine {
        text: text.to_string(),
        parsed: Some(obj(vec![
            ("runId", s(run)),
            ("hypothesisId", s(hyp)),
            ("timestamp", JsonValue::Number(JsonNumber { u64_value: Some(ts), i64_value: i64::try_from(ts).ok() })),
        ])),
    }
}

fn no_filters() -> ReadDebugLogsInput {
    ReadDebugLogsInput { run_id: None, hypothesis_id: None, max_events: None, since_ts: None }
}

#[test]
fn framing_trims_and_skips_blank_lines() {
    let lines = frame_log_lines("  {\"a\":1}  \r\n\n   \n{\"b\":2}\nlast");
    assert_eq!(lines, vec!["{\"a\":1}", "{\"b\":2}", "last"]);
    assert!(frame_log_lines("").is_empty());
    assert!(frame_log_lines("\n\n").is_empty());
}

#[test]
fn max_events_defaults_and_clamps() {
    assert_eq!(max_events_limit(None), 200);
    assert_eq!(max_events_limit(Some(0)), 1);
    assert_eq!(max_events_limit(Some(5000)), 1000);
    assert_eq!(max_events_limit(Some(7)), 7);
}

#[test]
fn filters_by_run_hypothesis_and_time() {
    let lines = vec![
        event("e1", "run1", "A", 10),
        event("e2", "run2", "A,B", 20),
        LogLine { text: "not json".into(), parsed: None },
        event("e3", "run1", "B, C", 30),
        LogLine { text: "e4".into(), parsed: Some(obj(vec![("run_id", s("run1")), ("hypothesis_id", s("C"))])) },
    ];
    let input = ReadDebugLogsInput { run_id: Some("run1".into()), ..no_filters() };
    match summarize_debug_log("/d.log", &lines, &input) {
        ReadDebugLogsOutput::Events { message, debug_log_path, event_count, events_ndjson } => {
            assert_eq!(event_count, 3);
            assert_eq!(events_ndjson, "e1\ne3\ne4");
            assert_eq!(debug_log_path, "/d.log");
            assert_eq!(message, "Showing 3 event(s) from /d.log (scanned 5 lines, parse_errors=1).");
        }
        other => panic!("expected events, got {other:?}"),
    }
    let input = ReadDebugLogsInput { hypothesis_id: Some("B".into()), since_ts: Some(15), ..no_filters() };
    match summarize_debug_log("/d.log", &lines, &input) {
        ReadDebugLogsOutput::Events { events_ndjson, .. } => assert_eq!(events_ndjson, "e2\ne3"),
        other => panic!("expected events, got {other:?}"),
    }
}

#[test]
fn keeps_most_recent_events() {
    let lines: Vec<LogLine> = (0..5).map(|i| event(&format!("e{i}"), "r", "A", i)).collect();
    let input = ReadDebugLogsInput { max_events: Some(2), ..no_filters() };
    match summarize_debug_log("p", &lines, &input) {
        ReadDebugLogsOutput::Events { events_ndjson, event_count, .. } => {
            assert_eq!(event_count, 2);
            assert_eq!(events_ndjson, "e3\ne4");
        }
        other => panic!("expected events, got {other:?}"),
    }
}

#[test]
fn no_match_message_lists_filters() {
    let lines = vec![event("e1", "run1", "A", 1)];
    let input = ReadDebugLogsInput {
        run_id: Some("x\"y".into()),
        hypothesis_id: None,
        max_events: None,
        since_ts: Some(42),
    };
    match summarize_debug_log("/d.log", &lines, &input) {
        ReadDebugLogsOutput::Empty { message, event_count, .. } => {
            assert_eq!(event_count, 0);
            assert_eq!(
                message,
                "No matching events in /d.log (scanned 1 lines, parse_errors=0). Filters: run_id=Some(\"x\\\"y\"), hypothesis_id=None, since_ts=Some(42)"
            );
        }
        other => panic!("expected empty, got {other:?}"),
    }
}

#[test]
fn missing_log_answers() {
    match no_log_path_output("~/debug.log") {
        ReadDebugLogsOutput::Empty { message, .. } => assert_eq!(
            message,
            "No absolute debug log path available (looked for ~/debug.log). Ensure debug mode is active with a session log path."
        ),
        other => panic!("{other:?}"),
    }
    match log_not_found_output("/x") {
        ReadDebugLogsOutput::Empty { message, .. } => {
            assert_eq!(message, "Debug log not found at /x. Instrumentation may not have written yet.")
        }
        other => panic!("{other:?}"),
    }
}

#[test]
fn reproduction_waiting_answer() {
    let out = AwaitDebugReproductionTool.run(
        AwaitDebugReproductionInput { steps: "  1. open cart\n".into(), run_id: Some("   ".into()) },
        "/s/debug.log",
    );
    let AwaitDebugReproductionOutput::Waiting { message, run_id, debug_log_path, steps } = out;
    assert_eq!(run_id, "run1");
    assert_eq!(debug_log_path, "/s/debug.log");
    assert_eq!(steps, "  1. open cart\n");
    assert_eq!(
        message,
        "Waiting for the user to reproduce the bug (runId=run1).\n\nSteps presented to the user:\n1. open cart\n\nWhen they proceed, analyze NDJSON at /s/debug.log for this runId. Do not invent log lines."
    );
    assert_eq!(AwaitDebugReproductionTool.id(), "await_debug_reproduction");
}

#[test]
fn verification_waiting_answer() {
    let out = AwaitDebugVerificationTool.run(
        AwaitDebugVerificationInput { summary: "fixed".into(), run_id: Some(" v2 ".into()) },
        "/l",
    );
    let AwaitDebugVerificationOutput::Waiting { message, run_id, .. } = out;
    assert_eq!(run_id, "v2");
    assert_eq!(
        message,
        "Waiting for the user to verify the fix (runId=v2).\n\nSummary shown to the user:\nfixed\n\nOn Mark Fixed: remove all agent-log regions, then exit debug mode.\nOn Still broken: refine hypotheses/instrumentation and loop.\nLog path: /l"
    );
    let out = AwaitDebugVerificationTool.run(AwaitDebugVerificationInput { summary: "s".into(), run_id: None }, "/l");
    let AwaitDebugVerificationOutput::Waiting { run_id, .. } = out;
    assert_eq!(run_id, "post-fix");
}

#[test]
fn exit_messages() {
    let ExitDebugModeOutput::Exited { message, .. } =
        ExitDebugModeTool.run(&ExitDebugModeInput { note: Some(" left one log ".into()) }, "/l");
    assert_eq!(message, "You have exited debug mode. left one log\nDebug log was at: /l");
    let ExitDebugModeOutput::Exited { message, debug_log_path } =
        ExitDebugModeTool.run(&ExitDebugModeInput { note: Some("  ".into()) }, "/l");
    assert_eq!(message, "You have exited debug mode. You can now work normally. Debug log was at: /l");
    assert_eq!(debug_log_path, "/l");
}

#[test]
fn enter_answer_and_seeding() {
    assert_eq!(seed_after_probe(ArtifactProbe::Empty), SeedStep::Done(DebugFileSeedStatus::Empty));
    assert_eq!(seed_after_probe(ArtifactProbe::NonEmpty), SeedStep::Done(DebugFileSeedStatus::NonEmpty));
    assert_eq!(seed_after_probe(ArtifactProbe::NotFound), SeedStep::Create);
    assert_eq!(
        seed_after_probe(ArtifactProbe::Failed),
        SeedStep::Done(DebugFileSeedStatus::Missing(DebugFileSeedFailure::Unavailable))
    );
    assert_eq!(seed_after_create(true), DebugFileSeedStatus::Empty);
    assert_eq!(seed_after_create(false), DebugFileSeedStatus::Missing(DebugFileSeedFailure::NotCreated));
    let hints = EnterDebugModeToolHints::from_rendered(Some("repro".into()), None, None, None, None, None);
    assert_eq!(hints.await_repro, "repro");
    assert_eq!(hints.await_verify, "await_debug_verification");
    assert_eq!(hints.ask_user, "ask_user_question");
    assert_eq!(hints.task, "");
    assert_eq!(EnterDebugModeToolHints::default().read_logs, "");
    let EnterDebugModeOutput::Entered { message, debug_scratch_path, debug_log_seed, .. } =
        EnterDebugModeTool.run("/s/debug.log", "/s/debug.md", hints, seed_unavailable(), DebugFileSeedStatus::Empty);
    assert!(message.starts_with("You have entered debug mode."));
    assert_eq!(debug_scratch_path, "/s/debug.md");
    assert_eq!(debug_log_seed, DebugFileSeedStatus::Missing(DebugFileSeedFailure::Unavailable));
}

#[test]
fn cursor_agent_spawn_args() {
    let sp = StdioAcpSpawn::cursor_agent("/bin/cursor-agent", true, Some("/work".into()));
    assert_eq!(sp.args, vec!["--trust", "--force", "--workspace", "/work", "acp"]);
    assert_eq!(sp.program, "/bin/cursor-agent");
    let sp = StdioAcpSpawn::cursor_agent("c", false, None);
    assert_eq!(sp.args, vec!["--trust", "acp"]);
    assert_eq!(sp.cwd, None);
}

#[test]
fn log_text_is_parsed_line_by_line() {
    let text = "{\"runId\":\"r1\",\"hypothesisId\":\"A\",\"timestamp\":5}\n\
                not json at all\n\
                \n\
                {\"runId\":\"r2\",\"timestamp\":9}\n\
                {\"runId\":\"r2\",\"runId\":\"r1\",\"timestamp\":-3}\n\
                [1,2]\n";
    let mut input = no_filters();
    input.run_id = Some("r1".into());
    match read_debug_log_text("/d.log", text, &input) {
        ReadDebugLogsOutput::Events { message, event_count, events_ndjson, .. } => {
            assert_eq!(event_count, 2);
            assert_eq!(
                events_ndjson,
                "{\"runId\":\"r1\",\"hypothesisId\":\"A\",\"timestamp\":5}\n{\"runId\":\"r2\",\"runId\":\"r1\",\"timestamp\":-3}"
            );
            assert_eq!(message, "Showing 2 event(s) from /d.log (scanned 5 lines, parse_errors=1).");
        }
        other => panic!("unexpected {other:?}"),
    }
    input.run_id = None;
    input.since_ts = Some(6);
    match read_debug_log_text("/d.log", text, &input) {
        ReadDebugLogsOutput::Events { event_count, events_ndjson, .. } => {
            assert_eq!(event_count, 1);
            assert_eq!(events_ndjson, "{\"runId\":\"r2\",\"timestamp\":9}");
        }
        other => panic!("unexpected {other:?}"),
    }
}

#[test]
fn unparsable_line_is_never_an_event() {
    match read_debug_log_text("/d.log", "not json at all\n", &no_filters()) {
        ReadDebugLogsOutput::Empty { message, event_count, .. } => {
            assert_eq!(event_count, 0);
            assert!(message.contains("scanned 1 lines, parse_errors=1"));
        }
        other => panic!("unexpected {other:?}"),
    }
}
