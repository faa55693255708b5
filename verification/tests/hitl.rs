use grok_modes::hitl::{
    AwaitDebugReproductionExtRequest, AwaitDebugReproductionExtResponse, AwaitDebugVerificationExtRequest,
    AwaitDebugVerificationExtResponse, DebugHitlKind, DebugHitlViewState, HitlAnswer,
};

fn repro() -> DebugHitlViewState<String> {
    DebugHitlViewState::from_reproduction(
        AwaitDebugReproductionExtRequest {
            session_id: "s1".into(),
            tool_call_id: "t1".into(),
            steps: "1. click".into(),
            run_id: "run1".into(),
            log_path: "/tmp/debug.log".into(),
        },
        "draft".to_string(),
    )
}

#[test]
fn gate_answers_once() {
    let mut g = repro();
    assert_eq!(g.kind(), DebugHitlKind::Reproduction);
    assert_eq!(g.body(), "1. click");
    assert_eq!(g.title(), "Reproduce the bug");
    assert!(g.is_pending());
    assert_eq!(
        g.send_reproduction_outcome("proceed", None),
        Some(HitlAnswer::Reproduction(AwaitDebugReproductionExtResponse { outcome: "proceed".into(), notes: None }))
    );
    assert!(!g.is_pending());
    assert_eq!(g.send_stale_cancel(), None);
    assert_eq!(g.send_reproduction_outcome("abandoned", None), None);
}

#[test]
fn unanswered_gate_cancels_with_its_kind() {
    let mut g = DebugHitlViewState::from_verification(
        AwaitDebugVerificationExtRequest {
            session_id: "s".into(),
            tool_call_id: "t".into(),
            summary: "fixed rounding".into(),
            run_id: "post-fix".into(),
            log_path: "/l".into(),
        },
        0u8,
    );
    assert_eq!(g.title(), "Verify the fix");
    assert_eq!(g.run_id(), "post-fix");
    assert_eq!(
        g.send_stale_cancel(),
        Some(HitlAnswer::Verification(AwaitDebugVerificationExtResponse { outcome: "cancelled".into(), notes: None }))
    );
}

#[test]
fn stashed_prompt_taken_once() {
    let mut g = repro();
    assert_eq!(g.take_stashed_prompt(), Some("draft".to_string()));
    assert_eq!(g.take_stashed_prompt(), None);
    assert!(g.is_pending());
}

#[test]
fn controls_strip() {
    let g = repro();
    let spans = g.controls_line();
    let text: String = spans.iter().map(|s| s.text).collect();
    assert_eq!(text, "Debug repro  p Proceed  q Abandon");
    assert_eq!(spans.iter().filter(|s| s.is_key).count(), 2);
}
