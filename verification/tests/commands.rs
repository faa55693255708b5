use grok_modes::backend::AgentBackend;
use grok_modes::commands::{
    status_message, Action, AskCommand, BackendCommand, CommandResult, CursorCommand, DebugModeCommand,
    GrokCommand,
};

#[test]
fn bare_enters_ask_mode() {
    match AskCommand.run("") {
        CommandResult::Action(Action::SetAskMode(true)) => {}
        other => panic!("expected SetAskMode(true), got {other:?}"),
    }
}

#[test]
fn off_exits_ask_mode() {
    match AskCommand.run("off") {
        CommandResult::Action(Action::SetAskMode(false)) => {}
        other => panic!("expected SetAskMode(false), got {other:?}"),
    }
}

#[test]
fn ask_description_enters_with_prompt() {
    match AskCommand.run("how does auth work?") {
        CommandResult::Action(Action::EnterAskMode { description }) => {
            assert_eq!(description.as_deref(), Some("how does auth work?"));
        }
        other => panic!("expected EnterAskMode, got {other:?}"),
    }
}

#[test]
fn bare_backend_is_status() {
    match BackendCommand.run(AgentBackend::Grok, "") {
        CommandResult::Message(msg) => assert!(msg.contains("Backend:")),
        other => panic!("expected Message, got {other:?}"),
    }
}

#[test]
fn backend_cursor_dispatches() {
    match BackendCommand.run(AgentBackend::Grok, "cursor") {
        CommandResult::Action(Action::SwitchAcpBackend(AgentBackend::Cursor)) => {}
        other => panic!("expected SwitchAcpBackend(Cursor), got {other:?}"),
    }
}

#[test]
fn cursor_command_dispatches() {
    match CursorCommand.run("") {
        CommandResult::Action(Action::SwitchAcpBackend(AgentBackend::Cursor)) => {}
        other => panic!("expected SwitchAcpBackend(Cursor), got {other:?}"),
    }
}

#[test]
fn bare_enters_debug_mode() {
    match DebugModeCommand.run("") {
        CommandResult::Action(Action::SetDebugMode(true)) => {}
        other => panic!("expected SetDebugMode(true), got {other:?}"),
    }
}

#[test]
fn off_exits_debug_mode() {
    match DebugModeCommand.run("off") {
        CommandResult::Action(Action::SetDebugMode(false)) => {}
        other => panic!("expected SetDebugMode(false), got {other:?}"),
    }
}

#[test]
fn debug_mode_description_enters_with_prompt() {
    match DebugModeCommand.run("cart total wrong") {
        CommandResult::Action(Action::EnterDebugMode { description }) => {
            assert_eq!(description.as_deref(), Some("cart total wrong"));
        }
        other => panic!("expected EnterDebugMode, got {other:?}"),
    }
}

#[test]
fn off_words_fold_case_and_trim() {
    assert_eq!(AskCommand.run("  EXIT "), CommandResult::Action(Action::SetAskMode(false)));
    assert_eq!(DebugModeCommand.run("False"), CommandResult::Action(Action::SetDebugMode(false)));
    assert_eq!(
        AskCommand.run("  offline? "),
        CommandResult::Action(Action::EnterAskMode { description: Some("offline?".to_string()) })
    );
    assert_eq!(AskCommand.run(" \t "), CommandResult::Action(Action::SetAskMode(true)));
}

#[test]
fn backend_errors_and_status() {
    assert_eq!(
        BackendCommand.run(AgentBackend::Cursor, " vim "),
        CommandResult::Error("Unknown backend 'vim'. Use grok or cursor.".to_string())
    );
    assert_eq!(
        BackendCommand.run(AgentBackend::Cursor, ""),
        CommandResult::Message(status_message(AgentBackend::Cursor))
    );
    assert!(status_message(AgentBackend::Cursor).contains("Use /grok"));
    assert_eq!(
        BackendCommand.run(AgentBackend::Cursor, "SpaceX"),
        CommandResult::Action(Action::SwitchAcpBackend(AgentBackend::Grok))
    );
    assert_eq!(CursorCommand.run("x"), CommandResult::Error("/cursor does not take arguments".to_string()));
    assert_eq!(GrokCommand.run(" "), CommandResult::Action(Action::SwitchAcpBackend(AgentBackend::Grok)));
    assert_eq!(GrokCommand.run("now"), CommandResult::Error("/grok does not take arguments".to_string()));
}

#[test]
fn backend_suggestions_filter_by_prefix() {
    let all = BackendCommand.suggest_args("").unwrap();
    assert_eq!(all.iter().map(|a| a.display.as_str()).collect::<Vec<_>>(), ["grok", "cursor"]);
    let c = BackendCommand.suggest_args(" CU").unwrap();
    assert_eq!(c.len(), 1);
    assert_eq!(c[0].insert_text, "cursor");
    assert_eq!(c[0].description, "Cursor Agent (existing login)");
    assert!(BackendCommand.suggest_args("x").is_none());
}

#[test]
fn command_metadata() {
    assert_eq!(AskCommand.name(), "ask");
    assert_eq!(AskCommand.usage(), "/ask [question]");
    assert_eq!(AskCommand.arg_placeholder(), Some("[question]"));
    assert!(AskCommand.takes_args() && AskCommand.session_scoped());
    assert_eq!(DebugModeCommand.name(), "debug-mode");
    assert_eq!(BackendCommand.aliases(), vec!["provider"]);
    assert_eq!(GrokCommand.aliases(), vec!["spacex"]);
    assert_eq!(CursorCommand.usage(), "/cursor");
}
