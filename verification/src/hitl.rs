//! The human gates of debug mode: the parked reproduction / verification
//! request shown to the user, and the single answer it gets.
use vstd::prelude::*;

verus! {

/// Which debug gate is open.
#[derive(Clone, Copy, Debug, PartialEq, Eq, Structural)]
pub enum DebugHitlKind {
    Reproduction,
    Verification,
}

/// Agent-to-client request: ask the user to reproduce the bug.
#[derive(Clone, Debug, PartialEq, Eq)]
pub struct AwaitDebugReproductionExtRequest {
    pub session_id: String,
    pub tool_call_id: String,
    pub steps: String,
    pub run_id: String,
    pub log_path: String,
}

/// Client-to-agent answer to a reproduction request.
#[derive(Clone, Debug, PartialEq, Eq)]
pub struct AwaitDebugReproductionExtResponse {
    /// `proceed` | `cancelled` | `abandoned`
    pub outcome: String,
    pub notes: Option<String>,
}

/// Agent-to-client request: ask the user to verify the fix.
#[derive(Clone, Debug, PartialEq, Eq)]
pub struct AwaitDebugVerificationExtRequest {
    pub session_id: String,
    pub tool_call_id: String,
    pub summary: String,
    pub run_id: String,
    pub log_path: String,
}

/// Client-to-agent answer to a verification request.
#[derive(Clone, Debug, PartialEq, Eq)]
pub struct AwaitDebugVerificationExtResponse {
    /// `fixed` | `still_broken` | `cancelled` | `abandoned`
    pub outcome: String,
    pub notes: Option<String>,
}

/// The answer to deliver to the agent.
#[derive(Clone, Debug, PartialEq, Eq)]
pub enum HitlAnswer {
    Reproduction(AwaitDebugReproductionExtResponse),
    Verification(AwaitDebugVerificationExtResponse),
}

/// A parked gate: what is shown, the composer text stashed while it is open,
/// and whether it has been answered.
pub struct DebugHitlViewState<P> {
    kind: DebugHitlKind,
    tool_call_id: String,
    session_id: String,
    /// Steps (reproduction) or fix summary (verification).
    body: String,
    run_id: String,
    log_path: String,
    stashed_prompt: Option<P>,
    answered: bool,
}

/// The abstract state of a parked gate.
pub struct DebugHitlView<P> {
    pub kind: DebugHitlKind,
    pub tool_call_id: Seq<char>,
    pub session_id: Seq<char>,
    pub body: Seq<char>,
    pub run_id: Seq<char>,
    pub log_path: Seq<char>,
    pub stashed: Option<P>,
    pub answered: bool,
}

impl<P> View for DebugHitlViewState<P> {
    type V = DebugHitlView<P>;

    closed spec fn view(&self) -> DebugHitlView<P> {
        DebugHitlView {
            kind: self.kind,
            tool_call_id: self.tool_call_id@,
            session_id: self.session_id@,
            body: self.body@,
            run_id: self.run_id@,
            log_path: self.log_path@,
            stashed: self.stashed_prompt,
            answered: self.answered,
        }
    }
}

pub open spec fn reproduction_answer(outcome: Seq<char>, notes: Option<String>, a: HitlAnswer) -> bool {
    a matches HitlAnswer::Reproduction(r) && r.outcome@ == outcome && r.notes == notes
}

pub open spec fn verification_answer(outcome: Seq<char>, notes: Option<String>, a: HitlAnswer) -> bool {
    a matches HitlAnswer::Verification(r) && r.outcome@ == outcome && r.notes == notes
}

/// A piece of the one-line controls strip: key letters are highlighted.
#[derive(Clone, Copy, Debug, PartialEq, Eq)]
pub struct ControlSpan {
    pub text: &'static str,
    pub is_key: bool,
}

pub open spec fn spans_view(v: Seq<ControlSpan>) -> Seq<(Seq<char>, bool)> {
    v.map_values(|s: ControlSpan| (s.text@, s.is_key))
}

pub open spec fn controls_spec(kind: DebugHitlKind) -> Seq<(Seq<char>, bool)> {
    match kind {
        DebugHitlKind::Reproduction => seq![
            ("Debug repro  "@, false),
            ("p"@, true),
            (" Proceed  "@, false),
            ("q"@, true),
            (" Abandon"@, false),
        ],
        DebugHitlKind::Verification => seq![
            ("Debug verify  "@, false),
            ("f"@, true),
            (" Mark Fixed  "@, false),
            ("b"@, true),
            (" Still broken  "@, false),
            ("q"@, true),
            (" Abandon"@, false),
        ],
    }
}

fn span(text: &'static str, is_key: bool) -> (s: ControlSpan)
    ensures
        s.text@ == text@,
        s.is_key == is_key,
{
    ControlSpan { text, is_key }
}

impl<P> DebugHitlViewState<P> {
    pub fn kind(&self) -> (k: DebugHitlKind)
        ensures
            k == self@.kind,
    {
        self.kind
    }

    pub fn tool_call_id(&self) -> (r: &str)
        ensures
            r@ == self@.tool_call_id,
    {
        self.tool_call_id.as_str()
    }

    pub fn session_id(&self) -> (r: &str)
        ensures
            r@ == self@.session_id,
    {
        self.session_id.as_str()
    }

    /// Steps (reproduction) or fix summary (verification).
    pub fn body(&self) -> (r: &str)
        ensures
            r@ == self@.body,
    {
        self.body.as_str()
    }

    pub fn run_id(&self) -> (r: &str)
        ensures
            r@ == self@.run_id,
    {
        self.run_id.as_str()
    }

    pub fn log_path(&self) -> (r: &str)
        ensures
            r@ == self@.log_path,
    {
        self.log_path.as_str()
    }

    pub fn from_reproduction(request: AwaitDebugReproductionExtRequest, stashed_prompt: P) -> (s:
        Self)
        ensures
            s@.kind == DebugHitlKind::Reproduction,
            s@.tool_call_id == request.tool_call_id@,
            s@.session_id == request.session_id@,
            s@.body == request.steps@,
            s@.run_id == request.run_id@,
            s@.log_path == request.log_path@,
            s@.stashed == Some(stashed_prompt),
            !s@.answered,
    {
        DebugHitlViewState {
            kind: DebugHitlKind::Reproduction,
            tool_call_id: request.tool_call_id,
            session_id: request.session_id,
            body: request.steps,
            run_id: request.run_id,
            log_path: request.log_path,
            stashed_prompt: Some(stashed_prompt),
            answered: false,
        }
    }

    pub fn from_verification(request: AwaitDebugVerificationExtRequest, stashed_prompt: P) -> (s:
        Self)
        ensures
            s@.kind == DebugHitlKind::Verification,
            s@.tool_call_id == request.tool_call_id@,
            s@.session_id == request.session_id@,
            s@.body == request.summary@,
            s@.run_id == request.run_id@,
            s@.log_path == request.log_path@,
            s@.stashed == Some(stashed_prompt),
            !s@.answered,
    {
        DebugHitlViewState {
            kind: DebugHitlKind::Verification,
            tool_call_id: request.tool_call_id,
            session_id: request.session_id,
            body: request.summary,
            run_id: request.run_id,
            log_path: request.log_path,
            stashed_prompt: Some(stashed_prompt),
            answered: false,
        }
    }

    /// Hands out the stashed composer text, once.
    pub fn take_stashed_prompt(&mut self) -> (r: Option<P>)
        ensures
            r == old(self)@.stashed,
            final(self)@ == (DebugHitlView { stashed: None, ..old(self)@ }),
    {
        self.stashed_prompt.take()
    }

    /// Whether no answer has been sent yet.
    pub fn is_pending(&self) -> (r: bool)
        ensures
            r == !self@.answered,
    {
        !self.answered
    }

    /// The reproduction answer to send, if the checkpoint has not been answered yet.
    pub fn send_reproduction_outcome(&mut self, outcome: &str, notes: Option<String>) -> (r: Option<
        HitlAnswer,
    >)
        ensures
            old(self)@.answered ==> r is None,
            !old(self)@.answered ==> (r matches Some(a) && reproduction_answer(
                outcome@,
                notes,
                a,
            )),
            final(self)@ == (DebugHitlView { answered: true, ..old(self)@ }),
    {
        if self.answered {
            return None;
        }
        self.answered = true;
        Some(
            HitlAnswer::Reproduction(
                AwaitDebugReproductionExtResponse { outcome: outcome.to_owned(), notes },
            ),
        )
    }

    /// The verification answer to send, if the checkpoint has not been answered yet.
    pub fn send_verification_outcome(&mut self, outcome: &str, notes: Option<String>) -> (r: Option<
        HitlAnswer,
    >)
        ensures
            old(self)@.answered ==> r is None,
            !old(self)@.answered ==> (r matches Some(a) && verification_answer(
                outcome@,
                notes,
                a,
            )),
            final(self)@ == (DebugHitlView { answered: true, ..old(self)@ }),
    {
        if self.answered {
            return None;
        }
        self.answered = true;
        Some(
            HitlAnswer::Verification(
                AwaitDebugVerificationExtResponse { outcome: outcome.to_owned(), notes },
            ),
        )
    }

    /// Cancels the checkpoint with the answer matching its kind (sent when the view
    /// goes away unanswered).
    pub fn send_stale_cancel(&mut self) -> (r: Option<HitlAnswer>)
        ensures
            old(self)@.answered ==> r is None,
            !old(self)@.answered && old(self)@.kind == DebugHitlKind::Reproduction ==> (r matches Some(
                a,
            ) && reproduction_answer("cancelled"@, None, a)),
            !old(self)@.answered && old(self)@.kind == DebugHitlKind::Verification ==> (r matches Some(
                a,
            ) && verification_answer("cancelled"@, None, a)),
            final(self)@ == (DebugHitlView { answered: true, ..old(self)@ }),
    {
        match self.kind {
            DebugHitlKind::Reproduction => self.send_reproduction_outcome("cancelled", None),
            DebugHitlKind::Verification => self.send_verification_outcome("cancelled", None),
        }
    }

    /// The one-line controls strip of the open gate.
    pub fn controls_line(&self) -> (r: Vec<ControlSpan>)
        ensures
            spans_view(r@) == controls_spec(self@.kind),
    {
        let mut v: Vec<ControlSpan> = Vec::new();
        match self.kind {
            DebugHitlKind::Reproduction => {
                v.push(span("Debug repro  ", false));
                v.push(span("p", true));
                v.push(span(" Proceed  ", false));
                v.push(span("q", true));
                v.push(span(" Abandon", false));
            },
            DebugHitlKind::Verification => {
                v.push(span("Debug verify  ", false));
                v.push(span("f", true));
                v.push(span(" Mark Fixed  ", false));
                v.push(span("b", true));
                v.push(span(" Still broken  ", false));
                v.push(span("q", true));
                v.push(span(" Abandon", false));
            },
        }
        assert(spans_view(v@) =~= controls_spec(self@.kind));
        v
    }

    pub fn title(&self) -> (r: &'static str)
        ensures
            self@.kind == DebugHitlKind::Reproduction ==> r@ == "Reproduce the bug"@,
            self@.kind == DebugHitlKind::Verification ==> r@ == "Verify the fix"@,
    {
        match self.kind {
            DebugHitlKind::Reproduction => "Reproduce the bug",
            DebugHitlKind::Verification => "Verify the fix",
        }
    }
}

} // verus!
