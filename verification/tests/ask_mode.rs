use grok_modes::ask_mode::{AskModeSnapshot, AskModeState, AskModeTracker};

fn test_tracker() -> AskModeTracker {
    AskModeTracker::new("/tmp/test-ask-session".to_string())
}

#[test]
fn ask_mode_user_initiated_lifecycle() {
    let mut t = test_tracker();
    assert_eq!(t.state(), AskModeState::Inactive);
    assert!(t.enter_pending());
    assert_eq!(t.state(), AskModeState::Pending);
    assert!(t.activate());
    assert_eq!(t.state(), AskModeState::Active);
    t.user_exit(false);
    assert_eq!(t.state(), AskModeState::Inactive);
    assert!(t.has_pending_exit_reminder());
}

#[test]
fn user_exit_while_turn_in_flight() {
    let mut t = test_tracker();
    t.enter_pending();
    t.activate();
    t.user_exit(true);
    assert_eq!(t.state(), AskModeState::ExitPending);
    t.complete_deferred_exit();
    assert_eq!(t.state(), AskModeState::Inactive);
    assert!(t.has_pending_exit_reminder());
}

#[test]
fn pending_cancel_is_clean() {
    let mut t = test_tracker();
    t.enter_pending();
    t.user_exit(false);
    assert_eq!(t.state(), AskModeState::Inactive);
    assert!(!t.has_pending_exit_reminder());
}

#[test]
fn reentry_detected() {
    let mut t = test_tracker();
    t.enter_pending();
    t.activate();
    t.user_exit(false);
    t.clear_pending_exit_reminder();
    t.enter_pending();
    assert!(t.is_reentry());
}

#[test]
fn reminder_alternation() {
    let mut t = test_tracker();
    t.enter_pending();
    t.activate();
    assert!(t.should_use_full_reminder());
    t.record_reminder_injected();
    assert!(!t.should_use_full_reminder());
    t.record_reminder_injected();
    assert!(t.should_use_full_reminder());
}

#[test]
fn midturn_activation_buffers_and_delivers_exactly_once() {
    let mut t = test_tracker();
    t.enter_pending();
    assert!(t.activate_mid_turn("reminder text".into()));
    assert_eq!(t.state(), AskModeState::Active);
    assert!(t.has_pending_activation());
    assert_eq!(t.take_pending_activation().as_deref(), Some("reminder text"));
    assert!(!t.has_pending_activation());
    assert_eq!(t.take_pending_activation(), None);
}

#[test]
fn snapshot_round_trip_collapses_pending() {
    let mut t = test_tracker();
    t.enter_pending();
    let snap = t.snapshot();
    let restored = AskModeTracker::from_snapshot("/tmp/x".to_string(), snap);
    assert_eq!(restored.state(), AskModeState::Inactive);
}

#[test]
fn exit_during_midturn_activation_restores_prior_state() {
    let mut t = test_tracker();
    t.enter_pending();
    assert!(t.activate_mid_turn("r".into()));
    t.user_exit(true);
    assert_eq!(t.state(), AskModeState::Inactive);
    assert!(!t.has_pending_activation());
    assert!(!t.has_pending_exit_reminder());
    // The activation never counted: entering again is not a re-entry.
    t.enter_pending();
    assert!(!t.is_reentry());
}

#[test]
fn reenter_during_deferred_exit_stays_active() {
    let mut t = test_tracker();
    t.enter_pending();
    t.activate();
    t.user_exit(true);
    assert_eq!(t.state(), AskModeState::ExitPending);
    assert!(t.enter_pending());
    assert_eq!(t.state(), AskModeState::Active);
    assert!(!t.has_pending_exit_reminder());
}

#[test]
fn snapshot_restore_completes_deferred_exit() {
    let snap = AskModeSnapshot {
        state: AskModeState::ExitPending,
        was_previously_active: true,
        reminder_count: 3,
        pending_exit_reminder: false,
    };
    let t = AskModeTracker::from_snapshot("/tmp/y".to_string(), snap);
    assert_eq!(t.state(), AskModeState::Inactive);
    assert!(t.has_pending_exit_reminder());
    let again = AskModeTracker::from_snapshot("/tmp/y".to_string(), t.snapshot());
    assert_eq!(again.snapshot(), t.snapshot());
}

#[test]
fn compaction_restarts_alternation_and_drops_buffered_activation() {
    let mut t = test_tracker();
    t.enter_pending();
    t.activate_mid_turn("x".into());
    t.record_reminder_injected();
    assert!(!t.should_use_full_reminder());
    t.reset_after_compaction();
    assert!(t.should_use_full_reminder());
    assert!(!t.has_pending_activation());
}

#[test]
fn enter_pending_refused_while_active() {
    let mut t = test_tracker();
    t.enter_pending();
    assert!(!t.enter_pending());
    t.activate();
    assert!(!t.enter_pending());
    assert!(!t.activate());
    assert!(t.is_active());
}

#[test]
fn templates_are_stable() {
    assert!(grok_modes::ask_mode::ask_mode_reminder_full_template().starts_with("Ask mode is active."));
    assert_eq!(
        grok_modes::ask_mode::ask_mode_reminder_sparse_template(),
        "Ask mode is still active. Explore and answer questions only — no file edits or writes."
    );
    assert!(grok_modes::ask_mode::ask_mode_reentry_reminder_template().starts_with("## Returning to Ask Mode\n\n"));
    assert!(grok_modes::ask_mode::ask_mode_exit_reminder_template().starts_with("Ask mode has been turned off."));
    assert!(grok_modes::ask_mode::ask_mode_edit_rejected_template().starts_with("Rejected:"));
}

#[test]
fn buffered_activation_only_while_active_along_a_session() {
    let mut t = test_tracker();
    let check = |t: &AskModeTracker| assert!(!t.has_pending_activation() || t.state() == AskModeState::Active);
    assert!(t.enter_pending());
    check(&t);
    assert!(t.activate_mid_turn("reminder".to_string()));
    check(&t);
    t.user_exit(true);
    check(&t);
    assert!(!t.has_pending_activation());
    assert!(t.enter_pending());
    assert!(t.activate_mid_turn("again".to_string()));
    t.reset_after_compaction();
    check(&t);
    assert!(!t.has_pending_activation());
    t.user_exit(true);
    t.complete_deferred_exit();
    check(&t);
}
