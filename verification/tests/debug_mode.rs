use grok_modes::debug_mode::{DebugModeSnapshot, DebugModeState, DebugModeTracker, DebugPhase, join_path};
use std::path::Path;

fn test_tracker() -> DebugModeTracker {
    DebugModeTracker::new("/tmp/test-debug-session".to_string())
}

#[test]
fn debug_mode_user_initiated_lifecycle() {
    let mut t = test_tracker();
    assert_eq!(t.state(), DebugModeState::Inactive);
    assert!(t.enter_pending());
    assert_eq!(t.state(), DebugModeState::Pending);
    assert!(t.activate());
    assert_eq!(t.state(), DebugModeState::Active);
    assert_eq!(t.phase(), DebugPhase::Exploring);
    assert!(t.deactivate_approved());
    assert_eq!(t.state(), DebugModeState::Inactive);
}

#[test]
fn tool_entry_skips_pending() {
    let mut t = test_tracker();
    assert!(t.activate_from_tool());
    assert_eq!(t.state(), DebugModeState::Active);
    assert!(!t.activate_from_tool());
}

#[test]
fn awaiting_flags_set_phase() {
    let mut t = test_tracker();
    t.activate_from_tool();
    t.set_awaiting_reproduction(true);
    assert!(t.is_awaiting_reproduction());
    assert_eq!(t.phase(), DebugPhase::AwaitingReproduction);
    t.set_awaiting_reproduction(false);
    t.set_awaiting_verification(true);
    assert!(t.is_awaiting_verification());
    assert!(!t.is_awaiting_reproduction());
    assert_eq!(t.phase(), DebugPhase::AwaitingVerification);
}

#[test]
fn paths_under_session_dir() {
    let t = DebugModeTracker::new("/tmp/sess-xyz".to_string());
    assert_eq!(Path::new(t.debug_log_path()), Path::new("/tmp/sess-xyz/debug.log"));
    assert_eq!(Path::new(t.debug_scratch_path()), Path::new("/tmp/sess-xyz/debug.md"));
}

#[test]
fn snapshot_collapse_pending() {
    let snap = DebugModeSnapshot {
        state: DebugModeState::Pending,
        phase: DebugPhase::Exploring,
        was_previously_active: false,
        reminder_count: 0,
        pending_exit_reminder: false,
        awaiting_reproduction: false,
        awaiting_verification: false,
    };
    let t = DebugModeTracker::from_snapshot("/tmp/s".to_string(), snap);
    assert_eq!(t.state(), DebugModeState::Inactive);
}

#[test]
fn user_exit_mid_turn_defers() {
    let mut t = test_tracker();
    t.activate_from_tool();
    t.user_exit(true);
    assert_eq!(t.state(), DebugModeState::ExitPending);
    t.complete_deferred_exit();
    assert_eq!(t.state(), DebugModeState::Inactive);
    assert!(t.has_pending_exit_reminder());
}

#[test]
fn gates_are_exclusive() {
    let mut t = test_tracker();
    t.activate_from_tool();
    t.set_awaiting_verification(true);
    t.set_awaiting_reproduction(true);
    assert!(t.is_awaiting_reproduction());
    assert!(!t.is_awaiting_verification());
    assert_eq!(t.phase(), DebugPhase::AwaitingReproduction);
}

#[test]
fn user_exit_closes_gates() {
    let mut t = test_tracker();
    t.activate_from_tool();
    t.set_awaiting_reproduction(true);
    t.user_exit(false);
    assert!(!t.is_awaiting_reproduction());
    assert!(!t.is_awaiting_verification());
    assert_eq!(t.phase(), DebugPhase::Exploring);
    assert!(t.has_pending_exit_reminder());
}

#[test]
fn approved_exit_only_when_active() {
    let mut t = test_tracker();
    assert!(!t.deactivate_approved());
    t.enter_pending();
    assert!(!t.deactivate_approved());
    t.activate();
    t.set_phase(DebugPhase::CleaningUp);
    assert!(t.deactivate_approved());
    assert_eq!(t.phase(), DebugPhase::Exploring);
    assert!(!t.is_active());
}

#[test]
fn deferred_exit_matches_immediate_exit() {
    let mut a = test_tracker();
    let mut b = test_tracker();
    a.activate_from_tool();
    b.activate_from_tool();
    a.user_exit(true);
    a.complete_deferred_exit();
    b.user_exit(false);
    assert_eq!(a.snapshot(), b.snapshot());
}

#[test]
fn midturn_activation_delivered_once_and_undone_by_exit() {
    let mut t = test_tracker();
    t.enter_pending();
    assert!(t.activate_mid_turn("debug reminder".into()));
    assert_eq!(t.take_pending_activation().as_deref(), Some("debug reminder"));
    assert_eq!(t.take_pending_activation(), None);

    let mut u = test_tracker();
    u.enter_pending();
    u.activate_mid_turn("r".into());
    u.set_awaiting_reproduction(true);
    u.user_exit(false);
    assert_eq!(u.state(), DebugModeState::Inactive);
    assert!(!u.has_pending_exit_reminder());
    assert!(!u.is_awaiting_reproduction());
}

#[test]
fn snapshot_keeps_phase_and_gates() {
    let mut t = test_tracker();
    t.activate_from_tool();
    t.set_awaiting_verification(true);
    t.record_reminder_injected();
    let r = DebugModeTracker::from_snapshot("/tmp/test-debug-session".to_string(), t.snapshot());
    assert_eq!(r.snapshot(), t.snapshot());
    assert_eq!(r.debug_log_path(), "/tmp/test-debug-session/debug.log");
    assert!(!r.should_use_full_reminder());
    t.queue_exit_reminder();
    assert!(t.has_pending_exit_reminder());
}

#[test]
fn join_path_separators() {
    assert_eq!(join_path("/a/", "debug.log"), "/a/debug.log");
    assert_eq!(join_path("", "debug.log"), "debug.log");
    assert_eq!(join_path("rel", "debug.md"), "rel/debug.md");
}

#[test]
fn debug_phase_default_is_exploring() {
    assert_eq!(DebugPhase::default(), DebugPhase::Exploring);
}

#[test]
fn debug_templates_are_stable() {
    let full = grok_modes::debug_mode::debug_mode_reminder_full_template();
    assert!(full.starts_with("Debug mode is active."));
    assert!(full.contains("`${{ debug_log_path }}`"));
    assert!(grok_modes::debug_mode::debug_mode_reminder_sparse_template().starts_with("Debug mode is still active."));
    assert!(grok_modes::debug_mode::debug_mode_reentry_reminder_template().contains("${{ debug_scratch_path }}"));
    assert!(grok_modes::debug_mode::debug_mode_exit_reminder_template().starts_with("You have exited debug mode."));
}

#[test]
fn at_most_one_checkpoint_along_a_session() {
    let mut t = test_tracker();
    let check = |t: &DebugModeTracker| {
        assert!(!(t.is_awaiting_reproduction() && t.is_awaiting_verification()));
        assert!(!t.has_pending_activation() || t.state() == DebugModeState::Active);
    };
    assert!(t.activate_from_tool());
    t.set_awaiting_reproduction(true);
    check(&t);
    t.set_awaiting_verification(true);
    check(&t);
    assert!(t.is_awaiting_verification() && !t.is_awaiting_reproduction());
    t.set_awaiting_reproduction(true);
    check(&t);
    assert!(t.is_awaiting_reproduction() && !t.is_awaiting_verification());
    t.user_exit(true);
    check(&t);
    t.complete_deferred_exit();
    check(&t);
    assert!(t.enter_pending());
    assert!(t.activate_mid_turn("r".to_string()));
    check(&t);
    assert!(t.deactivate_approved());
    check(&t);
}
