use grok_modes::backend::{
    config_provider, current, cursor_not_ready_message, ensure_cursor_ready, persist, probe_cursor,
    relaunch_notice, resolve, resolve_config_text,
    set_current, set_relaunch, take_relaunch, AgentBackend, BackendSlots, CursorLogin, CursorProbe,
};
use grok_modes::json::{
    cursor_email_from_output, cursor_status_authenticated, cursor_status_email, cursor_status_from_output,
    JsonValue,
};
use grok_modes::relaunch::{
    build_backend_relaunch_args, looks_like_value_taking_flag, relaunch_kept_positions,
};

fn provider_of(cfg: &toml::Value) -> Option<&str> {
    cfg.get("backend").and_then(|b| b.get("provider")).and_then(|v| v.as_str())
}

#[test]
fn parse_names() {
    assert_eq!(AgentBackend::parse_name("Cursor"), Some(AgentBackend::Cursor));
    assert_eq!(AgentBackend::parse_name("spacexai"), Some(AgentBackend::Grok));
    assert_eq!(AgentBackend::parse_name("nope"), None);
}

#[test]
fn parse_names_trim_and_fold_case() {
    assert_eq!(AgentBackend::parse_name("  XAI\t"), Some(AgentBackend::Grok));
    assert_eq!(AgentBackend::parse_name("\u{3000}CURSOR\n"), Some(AgentBackend::Cursor));
    assert_eq!(AgentBackend::parse_name("cur sor"), None);
    assert_eq!(AgentBackend::parse_name(""), None);
    for b in [AgentBackend::Grok, AgentBackend::Cursor] {
        assert_eq!(AgentBackend::parse_name(b.as_str()), Some(b));
    }
}

#[test]
fn names_and_display() {
    assert_eq!(AgentBackend::Grok.as_str(), "grok");
    assert_eq!(AgentBackend::Cursor.as_str(), "cursor");
    assert_eq!(AgentBackend::Grok.display_name(), "Grok Build");
    assert_eq!(AgentBackend::Cursor.display_name(), "Cursor");
    assert!(AgentBackend::Cursor.is_cursor());
    assert!(!AgentBackend::Grok.is_cursor());
    assert_eq!(AgentBackend::default(), AgentBackend::Grok);
}

#[test]
fn resolve_prefers_cli() {
    let cfg: toml::Value = toml::from_str("[backend]\nprovider = \"cursor\"\n").unwrap();
    assert_eq!(resolve(Some(AgentBackend::Grok), None, provider_of(&cfg)), AgentBackend::Grok);
}

#[test]
fn resolve_reads_config() {
    let cfg: toml::Value = toml::from_str("[backend]\nprovider = \"cursor\"\n").unwrap();
    let got = resolve(None, None, provider_of(&cfg));
    assert_eq!(got, AgentBackend::Cursor);
}

#[test]
fn resolve_precedence_and_fallbacks() {
    assert_eq!(resolve(None, Some("grok"), Some("cursor")), AgentBackend::Grok);
    assert_eq!(resolve(None, Some("bogus"), Some("cursor")), AgentBackend::Cursor);
    assert_eq!(resolve(None, Some("bogus"), Some("bogus")), AgentBackend::Grok);
    assert_eq!(resolve(None, None, None), AgentBackend::Grok);
}

#[test]
fn current_and_relaunch_slots() {
    let mut slots = BackendSlots::new();
    assert_eq!(current(&slots), AgentBackend::Grok);
    set_current(&mut slots, AgentBackend::Cursor);
    assert_eq!(current(&slots), AgentBackend::Cursor);
    assert_eq!(take_relaunch(&mut slots), None);
    set_relaunch(&mut slots, AgentBackend::Grok);
    assert_eq!(take_relaunch(&mut slots), Some(AgentBackend::Grok));
    assert_eq!(take_relaunch(&mut slots), None);
    assert_eq!(current(&slots), AgentBackend::Cursor);
}

#[test]
fn probe_outcomes_and_messages() {
    assert_eq!(probe_cursor(false, true, None), CursorProbe::Missing);
    assert_eq!(probe_cursor(true, false, None), CursorProbe::NotLoggedIn);
    let ready = probe_cursor(true, true, Some("a@b.c".to_string()));
    assert_eq!(ready, CursorProbe::Ready(CursorLogin { email: Some("a@b.c".to_string()) }));
    assert_eq!(cursor_not_ready_message(&ready), "");
    assert_eq!(
        cursor_not_ready_message(&CursorProbe::Missing),
        "cursor-agent not found. Install the Cursor CLI and sign in with `cursor-agent login`."
    );
    assert!(cursor_not_ready_message(&CursorProbe::NotLoggedIn).starts_with("Cursor Agent is installed but not signed in."));
    assert_eq!(ensure_cursor_ready(&ready, Some("/bin/cursor-agent".into())), Ok("/bin/cursor-agent".to_string()));
    assert_eq!(
        ensure_cursor_ready(&ready, None),
        Err("cursor-agent disappeared after a successful probe".to_string())
    );
    assert_eq!(
        ensure_cursor_ready(&CursorProbe::Missing, Some("x".into())),
        Err(cursor_not_ready_message(&CursorProbe::Missing))
    );
}

fn obj(entries: Vec<(&str, JsonValue)>) -> JsonValue {
    JsonValue::Object(entries.into_iter().map(|(k, v)| (k.to_string(), v)).collect())
}

fn s(v: &str) -> JsonValue {
    JsonValue::String(v.to_string())
}

#[test]
fn status_json_authenticated() {
    let v = obj(vec![
        ("status", s("authenticated")),
        ("isAuthenticated", JsonValue::Bool(true)),
        ("userInfo", obj(vec![("email", s("a@b.c"))])),
    ]);
    assert!(cursor_status_authenticated(&v));
    let v = obj(vec![("status", s("logged_out")), ("isAuthenticated", JsonValue::Bool(false))]);
    assert!(!cursor_status_authenticated(&v));
}

#[test]
fn status_json_case_and_shape() {
    assert!(cursor_status_authenticated(&obj(vec![("status", s("AUTHENTICATED"))])));
    assert!(!cursor_status_authenticated(&obj(vec![("isAuthenticated", s("true"))])));
    assert!(!cursor_status_authenticated(&s("authenticated")));
}

#[test]
fn relaunch_args_force_backend_and_drop_resume() {
    let argv: Vec<String> = ["spacex", "--resume", "sess-1", "--model", "grok-4.6", "do the thing"]
        .iter()
        .map(|s| s.to_string())
        .collect();
    let rendered = build_backend_relaunch_args(&argv, AgentBackend::Cursor);
    assert!(!rendered.iter().any(|s| s == "sess-1" || s == "--resume"));
    assert!(rendered.contains(&"--cursor".into()));
    assert!(!rendered.iter().any(|s| s == "--backend"));
    assert!(rendered.contains(&"--model".into()));
    assert!(rendered.contains(&"grok-4.6".into()));
    assert!(!rendered.iter().any(|s| s == "do the thing"));
}

#[test]
fn relaunch_args_exact() {
    let argv: Vec<String> = [
        "spacex", "-v", "--backend=cursor", "--worktree", "wt", "--effort", "high", "--model",
        "--cwd", "/x", "--", "--after",
    ]
    .iter()
    .map(|s| s.to_string())
    .collect();
    let out = build_backend_relaunch_args(&argv, AgentBackend::Grok);
    assert_eq!(out, vec!["-v", "--effort", "high", "--model", "--cwd", "/x", "--grok", "--no-leader"]);
    assert_eq!(build_backend_relaunch_args(&vec![], AgentBackend::Cursor), vec!["--cursor", "--no-leader"]);
    assert!(looks_like_value_taking_flag("--debug-file"));
    assert!(!looks_like_value_taking_flag("--resume"));
}

#[test]
fn relaunch_notice_names_the_way_back() {
    assert_eq!(relaunch_notice(AgentBackend::Cursor), "Switching to Cursor… (switch back with /grok)");
    assert_eq!(relaunch_notice(AgentBackend::Grok), "Switching to Grok Build… (switch back with /cursor)");
}

#[test]
fn persist_writes_provider() {
    let body = persist(Some("[ui]\nvim_mode = false\n"), AgentBackend::Cursor).unwrap();
    assert!(body.contains("provider") && body.contains("cursor") && body.contains("vim_mode"));
}

#[test]
fn persist_replaces_an_earlier_choice_and_keeps_the_rest() {
    let body = persist(Some("# mine\n[backend]\nprovider = \"cursor\"\n\n[ui]\nvim_mode = true\n"), AgentBackend::Grok)
        .unwrap();
    let cfg: toml::Value = toml::from_str(&body).unwrap();
    assert_eq!(provider_of(&cfg), Some("grok"));
    assert!(body.starts_with("# mine\n"));
    assert!(body.contains("vim_mode = true"));
    assert!(!body.contains("cursor"));
}

#[test]
fn persist_without_a_config_file_creates_the_setting() {
    let body = persist(None, AgentBackend::Cursor).unwrap();
    let cfg: toml::Value = toml::from_str(&body).unwrap();
    assert_eq!(provider_of(&cfg), Some("cursor"));
}

#[test]
fn persist_leaves_unusable_config_alone() {
    assert_eq!(persist(Some("[ui\nvim_mode = "), AgentBackend::Cursor), None);
    assert_eq!(persist(Some("backend = \"grok\"\n"), AgentBackend::Cursor), None);
}

#[test]
fn status_json_email() {
    let v = obj(vec![
        ("status", s("authenticated")),
        ("userInfo", obj(vec![("email", s("a@b.c"))])),
    ]);
    assert_eq!(cursor_status_email(&v).as_deref(), Some("a@b.c"));
    assert_eq!(cursor_status_email(&obj(vec![("userInfo", obj(vec![("email", JsonValue::Bool(true))]))])), None);
    assert_eq!(cursor_status_email(&obj(vec![("email", s("a@b.c"))])), None);
    assert_eq!(cursor_status_email(&s("a@b.c")), None);
}

#[test]
fn relaunch_positions_point_at_the_kept_arguments() {
    let argv: Vec<String> = [
        "spacex", "-v", "--backend=cursor", "--worktree", "wt", "--effort", "high", "--model",
        "--cwd", "/x", "--", "--after",
    ]
    .iter()
    .map(|s| s.to_string())
    .collect();
    let kept = relaunch_kept_positions(&argv);
    assert_eq!(kept, vec![1, 5, 6, 7, 8, 9]);
    let picked: Vec<&str> = kept.iter().map(|&i| argv[i].as_str()).collect();
    let built = build_backend_relaunch_args(&argv, AgentBackend::Cursor);
    assert_eq!(picked, built[..built.len() - 2].iter().map(String::as_str).collect::<Vec<_>>());
    assert_eq!(relaunch_kept_positions(&vec!["prog".to_string(), "prompt".to_string()]), Vec::<usize>::new());
    assert_eq!(relaunch_kept_positions(&vec![]), Vec::<usize>::new());
}

#[test]
fn status_output_is_read_from_bytes() {
    let out = br#"{"status":"authenticated","isAuthenticated":true,"userInfo":{"email":"a@b.c"}}"#;
    assert_eq!(cursor_status_from_output(true, out), Some(true));
    assert_eq!(cursor_status_from_output(false, out), Some(false));
    assert_eq!(cursor_status_from_output(true, br#"{"status":"logged_out"}"#), Some(false));
    assert_eq!(cursor_status_from_output(true, b"Logged in as a@b.c"), None);
    assert_eq!(cursor_email_from_output(out).as_deref(), Some("a@b.c"));
    assert_eq!(cursor_email_from_output(b"not json"), None);
    assert_eq!(cursor_email_from_output(br#"{"userInfo":{"email":"x@y","email":"z@w"}}"#).as_deref(), Some("z@w"));
}

#[test]
fn config_text_provider_and_resolution() {
    assert_eq!(config_provider("[backend]\nprovider = \"cursor\"\n").as_deref(), Some("cursor"));
    assert_eq!(config_provider("[backend]\nprovider = 3\n"), None);
    assert_eq!(config_provider("[ui\n"), None);
    let text = "[backend]\nprovider = \"Cursor\"\n";
    assert_eq!(resolve_config_text(None, None, Some(text)), AgentBackend::Cursor);
    assert_eq!(resolve_config_text(None, Some("grok"), Some(text)), AgentBackend::Grok);
    assert_eq!(resolve_config_text(None, Some("bogus"), Some(text)), AgentBackend::Cursor);
    assert_eq!(resolve_config_text(Some(AgentBackend::Grok), None, Some(text)), AgentBackend::Grok);
    assert_eq!(resolve_config_text(None, None, None), AgentBackend::Grok);
}

#[test]
fn persisted_choice_is_read_back() {
    for b in [AgentBackend::Grok, AgentBackend::Cursor] {
        for before in [None, Some("[ui]\nvim_mode = false\n"), Some("[backend]\nprovider = \"grok\"\n")] {
            let text = persist(before, b).unwrap();
            assert_eq!(resolve_config_text(None, None, Some(&text)), b);
        }
    }
}
