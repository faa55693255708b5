//! Debug mode: the hypothesize / instrument / reproduce / fix loop of a session.
//!
//! The lifecycle is that of ask mode (`Inactive -> Pending -> Active`, with
//! `ExitPending` for an exit requested mid-turn), plus a tool entry that goes
//! straight to `Active`, an approved exit, a sub-phase while active, and the
//! two human gates (reproduction and verification). Every operation is
//! described by a transition function on [`DebugModeView`].
use vstd::prelude::*;
use crate::text::opt_view;

verus! {

/// Lifecycle of debug mode.
#[derive(Clone, Copy, Debug, PartialEq, Eq, Structural)]
pub enum DebugModeState {
    /// Not in debug mode.
    Inactive,
    /// Turned on by the user; the model has not been told yet.
    Pending,
    /// Active; the model has the playbook.
    Active,
    /// Turned off mid-turn; leaves once the turn completes.
    ExitPending,
}

/// Sub-phase while debug mode is active.
#[derive(Clone, Copy, Debug, PartialEq, Eq, Structural)]
pub enum DebugPhase {
    /// Exploring code, forming hypotheses, instrumenting.
    Exploring,
    /// Waiting for the user to reproduce the bug.
    AwaitingReproduction,
    /// The user proceeded; the agent analyzes logs and fixes.
    Analyzing,
    /// Waiting for Mark Fixed / Still broken.
    AwaitingVerification,
    /// Marked fixed; the agent strips instrumentation.
    CleaningUp,
}

impl Default for DebugPhase {
    /// A fresh debug session starts exploring.
    fn default() -> (p: DebugPhase)
        ensures
            p == DebugPhase::Exploring,
    {
        DebugPhase::Exploring
    }
}

struct PendingActivation {
    text: String,
    prior_was_previously_active: bool,
}

/// Tracks the debug-mode lifecycle of one session.
pub struct DebugModeTracker {
    state: DebugModeState,
    phase: DebugPhase,
    was_previously_active: bool,
    reminder_count: u32,
    pending_exit_reminder: bool,
    awaiting_reproduction: bool,
    awaiting_verification: bool,
    debug_log_path: String,
    debug_scratch_path: String,
    pending_activation: Option<PendingActivation>,
}

/// The persisted part of the debug-mode lifecycle.
#[derive(Clone, Copy, Debug, PartialEq, Eq, Structural)]
pub struct DebugModeSnapshot {
    pub state: DebugModeState,
    pub phase: DebugPhase,
    pub was_previously_active: bool,
    pub reminder_count: u32,
    pub pending_exit_reminder: bool,
    pub awaiting_reproduction: bool,
    pub awaiting_verification: bool,
}

/// The abstract state of a [`DebugModeTracker`].
pub struct DebugModeView {
    pub state: DebugModeState,
    pub phase: DebugPhase,
    pub was_previously_active: bool,
    pub reminder_count: u32,
    pub pending_exit_reminder: bool,
    pub awaiting_reproduction: bool,
    pub awaiting_verification: bool,
    pub debug_log_path: Seq<char>,
    pub debug_scratch_path: Seq<char>,
    pub pending_activation: Option<(Seq<char>, bool)>,
}

impl View for DebugModeTracker {
    type V = DebugModeView;

    closed spec fn view(&self) -> DebugModeView {
        DebugModeView {
            state: self.state,
            phase: self.phase,
            was_previously_active: self.was_previously_active,
            reminder_count: self.reminder_count,
            pending_exit_reminder: self.pending_exit_reminder,
            awaiting_reproduction: self.awaiting_reproduction,
            awaiting_verification: self.awaiting_verification,
            debug_log_path: self.debug_log_path@,
            debug_scratch_path: self.debug_scratch_path@,
            pending_activation: match self.pending_activation {
                Some(p) => Some((p.text@, p.prior_was_previously_active)),
                None => None,
            },
        }
    }
}

/// `dir.join(name)` for a relative file name: a separator is added unless
/// `dir` is empty or already ends with one.
pub open spec fn path_join(dir: Seq<char>, name: Seq<char>) -> Seq<char> {
    if dir.len() == 0 || dir.last() == '/' {
        dir + name
    } else {
        dir + seq!['/'] + name
    }
}

pub open spec fn debug_log_file() -> Seq<char> {
    seq!['d', 'e', 'b', 'u', 'g', '.', 'l', 'o', 'g']
}

pub open spec fn debug_scratch_file() -> Seq<char> {
    seq!['d', 'e', 'b', 'u', 'g', '.', 'm', 'd']
}

/// Well-formedness: an activation is buffered only while active, and at most
/// one human gate is open.
pub open spec fn debug_wf(v: DebugModeView) -> bool {
    &&& v.pending_activation is Some ==> v.state == DebugModeState::Active
    &&& !(v.awaiting_reproduction && v.awaiting_verification)
}

pub open spec fn debug_initial(dir: Seq<char>) -> DebugModeView {
    DebugModeView {
        state: DebugModeState::Inactive,
        phase: DebugPhase::Exploring,
        was_previously_active: false,
        reminder_count: 0,
        pending_exit_reminder: false,
        awaiting_reproduction: false,
        awaiting_verification: false,
        debug_log_path: path_join(dir, debug_log_file()),
        debug_scratch_path: path_join(dir, debug_scratch_file()),
        pending_activation: None,
    }
}

/// Restoring from a snapshot: a pending entry is dropped, a deferred exit is
/// completed (leaving an exit reminder queued); everything else is kept.
pub open spec fn debug_from_snapshot(dir: Seq<char>, s: DebugModeSnapshot) -> DebugModeView {
    DebugModeView {
        state: match s.state {
            DebugModeState::Pending => DebugModeState::Inactive,
            DebugModeState::ExitPending => DebugModeState::Inactive,
            other => other,
        },
        phase: s.phase,
        was_previously_active: s.was_previously_active,
        reminder_count: s.reminder_count,
        pending_exit_reminder: s.pending_exit_reminder || s.state == DebugModeState::ExitPending,
        awaiting_reproduction: s.awaiting_reproduction,
        awaiting_verification: s.awaiting_verification,
        debug_log_path: path_join(dir, debug_log_file()),
        debug_scratch_path: path_join(dir, debug_scratch_file()),
        pending_activation: None,
    }
}

pub open spec fn debug_snapshot(v: DebugModeView) -> DebugModeSnapshot {
    DebugModeSnapshot {
        state: v.state,
        phase: v.phase,
        was_previously_active: v.was_previously_active,
        reminder_count: v.reminder_count,
        pending_exit_reminder: v.pending_exit_reminder,
        awaiting_reproduction: v.awaiting_reproduction,
        awaiting_verification: v.awaiting_verification,
    }
}

pub open spec fn debug_full_reminder(v: DebugModeView) -> bool {
    v.reminder_count % 2 == 0
}

/// `set_awaiting_reproduction`: opening the checkpoint moves to its phase and
/// closes the verification gate.
pub open spec fn debug_set_awaiting_reproduction(v: DebugModeView, awaiting: bool) -> DebugModeView {
    if awaiting {
        DebugModeView {
            awaiting_reproduction: true,
            phase: DebugPhase::AwaitingReproduction,
            awaiting_verification: false,
            ..v
        }
    } else {
        DebugModeView { awaiting_reproduction: false, ..v }
    }
}

/// `set_awaiting_verification`: opening the checkpoint moves to its phase and
/// closes the reproduction gate.
pub open spec fn debug_set_awaiting_verification(v: DebugModeView, awaiting: bool) -> DebugModeView {
    if awaiting {
        DebugModeView {
            awaiting_verification: true,
            phase: DebugPhase::AwaitingVerification,
            awaiting_reproduction: false,
            ..v
        }
    } else {
        DebugModeView { awaiting_verification: false, ..v }
    }
}

pub open spec fn debug_enter_pending(v: DebugModeView) -> (DebugModeView, bool) {
    match v.state {
        DebugModeState::Inactive => (
            DebugModeView {
                state: DebugModeState::Pending,
                pending_exit_reminder: false,
                phase: DebugPhase::Exploring,
                ..v
            },
            true,
        ),
        DebugModeState::ExitPending => (
            DebugModeView { state: DebugModeState::Active, pending_exit_reminder: false, ..v },
            true,
        ),
        _ => (v, false),
    }
}

pub open spec fn debug_activate(v: DebugModeView) -> (DebugModeView, bool) {
    if v.state == DebugModeState::Pending {
        (
            DebugModeView {
                state: DebugModeState::Active,
                was_previously_active: true,
                reminder_count: 0,
                phase: DebugPhase::Exploring,
                ..v
            },
            true,
        )
    } else {
        (v, false)
    }
}

pub open spec fn debug_activate_mid_turn(v: DebugModeView, text: Seq<char>) -> (DebugModeView, bool) {
    if v.state == DebugModeState::Pending {
        (
            DebugModeView {
                state: DebugModeState::Active,
                was_previously_active: true,
                reminder_count: 0,
                phase: DebugPhase::Exploring,
                pending_activation: Some((text, v.was_previously_active)),
                ..v
            },
            true,
        )
    } else {
        (v, false)
    }
}

pub open spec fn debug_take_pending_activation(v: DebugModeView) -> (DebugModeView, Option<Seq<char>>) {
    (
        DebugModeView { pending_activation: None, ..v },
        match v.pending_activation {
            Some(p) => Some(p.0),
            None => None,
        },
    )
}

/// `activate_from_tool`: the agent's own entry, from `Inactive` straight to
/// `Active`.
pub open spec fn debug_activate_from_tool(v: DebugModeView) -> (DebugModeView, bool) {
    if v.state == DebugModeState::Inactive {
        (
            DebugModeView {
                state: DebugModeState::Active,
                was_previously_active: true,
                reminder_count: 0,
                pending_exit_reminder: false,
                phase: DebugPhase::Exploring,
                ..v
            },
            true,
        )
    } else {
        (v, false)
    }
}

/// `deactivate_approved`: an approved exit from `Active` clears the checkpoints,
/// the phase, the reminder count and a buffered activation.
pub open spec fn debug_deactivate_approved(v: DebugModeView) -> (DebugModeView, bool) {
    if v.state == DebugModeState::Active {
        (
            DebugModeView {
                state: DebugModeState::Inactive,
                reminder_count: 0,
                awaiting_reproduction: false,
                awaiting_verification: false,
                phase: DebugPhase::Exploring,
                pending_activation: None,
                ..v
            },
            true,
        )
    } else {
        (v, false)
    }
}

/// `user_exit`: both gates close and a buffered activation is dropped; if it
/// was buffered while active, the activation is undone. Otherwise a pending
/// entry is cancelled, and an active mode leaves now or after the turn.
pub open spec fn debug_user_exit(v: DebugModeView, turn_in_flight: bool) -> DebugModeView {
    let w = DebugModeView {
        awaiting_reproduction: false,
        awaiting_verification: false,
        pending_activation: None,
        ..v
    };
    match v.pending_activation {
        Some(p) if v.state == DebugModeState::Active => DebugModeView {
            state: DebugModeState::Inactive,
            was_previously_active: p.1,
            phase: DebugPhase::Exploring,
            ..w
        },
        _ => match v.state {
            DebugModeState::Pending => DebugModeView {
                state: DebugModeState::Inactive,
                phase: DebugPhase::Exploring,
                ..w
            },
            DebugModeState::Active => if turn_in_flight {
                DebugModeView { state: DebugModeState::ExitPending, ..w }
            } else {
                DebugModeView {
                    state: DebugModeState::Inactive,
                    pending_exit_reminder: true,
                    phase: DebugPhase::Exploring,
                    ..w
                }
            },
            _ => w,
        },
    }
}

pub open spec fn debug_complete_deferred_exit(v: DebugModeView) -> DebugModeView {
    if v.state == DebugModeState::ExitPending {
        DebugModeView {
            state: DebugModeState::Inactive,
            pending_exit_reminder: true,
            phase: DebugPhase::Exploring,
            awaiting_reproduction: false,
            awaiting_verification: false,
            ..v
        }
    } else {
        v
    }
}

/// `record_reminder_injected`: one more reminder was injected.
pub open spec fn debug_record_reminder(v: DebugModeView) -> DebugModeView {
    DebugModeView { reminder_count: (v.reminder_count + 1) as u32, ..v }
}

pub open spec fn debug_reset_after_compaction(v: DebugModeView) -> DebugModeView {
    if v.state == DebugModeState::Active {
        DebugModeView { reminder_count: 0, pending_activation: None, ..v }
    } else {
        v
    }
}

/// `dir.join(name)` for a relative file name.
pub fn join_path(dir: &str, name: &str) -> (r: String)
    ensures
        r@ == path_join(dir@, name@),
{
    let n = dir.unicode_len();
    if n == 0 || dir.get_char(n - 1) == '/' {
        dir.to_owned().concat(name)
    } else {
        let sep = "/";
        proof {
            reveal_strlit("/");
        }
        dir.to_owned().concat(sep).concat(name)
    }
}

impl DebugModeTracker {
    pub fn new(session_dir: String) -> (t: Self)
        ensures
            t@ == debug_initial(session_dir@),
            debug_wf(t@),
    {
        let log = "debug.log";
        let scratch = "debug.md";
        proof {
            reveal_strlit("debug.log");
            reveal_strlit("debug.md");
            assert(log@ =~= debug_log_file());
            assert(scratch@ =~= debug_scratch_file());
        }
        DebugModeTracker {
            state: DebugModeState::Inactive,
            phase: DebugPhase::Exploring,
            was_previously_active: false,
            reminder_count: 0,
            pending_exit_reminder: false,
            awaiting_reproduction: false,
            awaiting_verification: false,
            debug_log_path: join_path(session_dir.as_str(), log),
            debug_scratch_path: join_path(session_dir.as_str(), scratch),
            pending_activation: None,
        }
    }

    pub fn from_snapshot(session_dir: String, snapshot: DebugModeSnapshot) -> (t: Self)
        ensures
            t@ == debug_from_snapshot(session_dir@, snapshot),
    {
        let mut snapshot = snapshot;
        match snapshot.state {
            DebugModeState::Pending => {
                snapshot.state = DebugModeState::Inactive;
            },
            DebugModeState::ExitPending => {
                snapshot.state = DebugModeState::Inactive;
                snapshot.pending_exit_reminder = true;
            },
            _ => {},
        }
        let log = "debug.log";
        let scratch = "debug.md";
        proof {
            reveal_strlit("debug.log");
            reveal_strlit("debug.md");
            assert(log@ =~= debug_log_file());
            assert(scratch@ =~= debug_scratch_file());
        }
        DebugModeTracker {
            state: snapshot.state,
            phase: snapshot.phase,
            was_previously_active: snapshot.was_previously_active,
            reminder_count: snapshot.reminder_count,
            pending_exit_reminder: snapshot.pending_exit_reminder,
            awaiting_reproduction: snapshot.awaiting_reproduction,
            awaiting_verification: snapshot.awaiting_verification,
            debug_log_path: join_path(session_dir.as_str(), log),
            debug_scratch_path: join_path(session_dir.as_str(), scratch),
            pending_activation: None,
        }
    }

    pub fn snapshot(&self) -> (s: DebugModeSnapshot)
        ensures
            s == debug_snapshot(self@),
    {
        DebugModeSnapshot {
            state: self.state,
            phase: self.phase,
            was_previously_active: self.was_previously_active,
            reminder_count: self.reminder_count,
            pending_exit_reminder: self.pending_exit_reminder,
            awaiting_reproduction: self.awaiting_reproduction,
            awaiting_verification: self.awaiting_verification,
        }
    }

    pub fn state(&self) -> (s: DebugModeState)
        ensures
            s == self@.state,
    {
        self.state
    }

    pub fn phase(&self) -> (p: DebugPhase)
        ensures
            p == self@.phase,
    {
        self.phase
    }

    pub fn is_active(&self) -> (r: bool)
        ensures
            r == (self@.state == DebugModeState::Active),
    {
        self.state == DebugModeState::Active
    }

    pub fn debug_log_path(&self) -> (p: &str)
        ensures
            p@ == self@.debug_log_path,
    {
        self.debug_log_path.as_str()
    }

    pub fn debug_scratch_path(&self) -> (p: &str)
        ensures
            p@ == self@.debug_scratch_path,
    {
        self.debug_scratch_path.as_str()
    }

    pub fn set_awaiting_reproduction(&mut self, awaiting: bool)
        ensures
            final(self)@ == debug_set_awaiting_reproduction(old(self)@, awaiting),
            debug_wf(old(self)@) ==> debug_wf(final(self)@),
    {
        self.awaiting_reproduction = awaiting;
        if awaiting {
            self.phase = DebugPhase::AwaitingReproduction;
            self.awaiting_verification = false;
        }
    }

    pub fn set_awaiting_verification(&mut self, awaiting: bool)
        ensures
            final(self)@ == debug_set_awaiting_verification(old(self)@, awaiting),
            debug_wf(old(self)@) ==> debug_wf(final(self)@),
    {
        self.awaiting_verification = awaiting;
        if awaiting {
            self.phase = DebugPhase::AwaitingVerification;
            self.awaiting_reproduction = false;
        }
    }

    pub fn is_awaiting_reproduction(&self) -> (r: bool)
        ensures
            r == self@.awaiting_reproduction,
    {
        self.awaiting_reproduction
    }

    pub fn is_awaiting_verification(&self) -> (r: bool)
        ensures
            r == self@.awaiting_verification,
    {
        self.awaiting_verification
    }

    pub fn set_phase(&mut self, phase: DebugPhase)
        ensures
            final(self)@ == (DebugModeView { phase: phase, ..old(self)@ }),
            debug_wf(old(self)@) ==> debug_wf(final(self)@),
    {
        self.phase = phase;
    }

    pub fn should_use_full_reminder(&self) -> (r: bool)
        ensures
            r == debug_full_reminder(self@),
    {
        self.reminder_count % 2 == 0
    }

    pub fn has_pending_exit_reminder(&self) -> (r: bool)
        ensures
            r == self@.pending_exit_reminder,
    {
        self.pending_exit_reminder
    }

    pub fn enter_pending(&mut self) -> (r: bool)
        ensures
            (final(self)@, r) == debug_enter_pending(old(self)@),
            debug_wf(old(self)@) ==> debug_wf(final(self)@),
    {
        match self.state {
            DebugModeState::Inactive => {
                self.state = DebugModeState::Pending;
                self.pending_exit_reminder = false;
                self.phase = DebugPhase::Exploring;
                true
            },
            DebugModeState::ExitPending => {
                self.state = DebugModeState::Active;
                self.pending_exit_reminder = false;
                true
            },
            _ => false,
        }
    }

    pub fn activate(&mut self) -> (r: bool)
        ensures
            (final(self)@, r) == debug_activate(old(self)@),
            debug_wf(old(self)@) ==> debug_wf(final(self)@),
    {
        if self.state != DebugModeState::Pending {
            return false;
        }
        self.state = DebugModeState::Active;
        self.was_previously_active = true;
        self.reminder_count = 0;
        self.phase = DebugPhase::Exploring;
        true
    }

    pub fn activate_mid_turn(&mut self, rendered_reminder: String) -> (r: bool)
        ensures
            (final(self)@, r) == debug_activate_mid_turn(old(self)@, rendered_reminder@),
            debug_wf(old(self)@) ==> debug_wf(final(self)@),
    {
        if self.state != DebugModeState::Pending {
            return false;
        }
        let prior_was_previously_active = self.was_previously_active;
        self.state = DebugModeState::Active;
        self.was_previously_active = true;
        self.reminder_count = 0;
        self.phase = DebugPhase::Exploring;
        self.pending_activation = Some(
            PendingActivation { text: rendered_reminder, prior_was_previously_active },
        );
        true
    }

    pub fn take_pending_activation(&mut self) -> (r: Option<String>)
        ensures
            (final(self)@, opt_view(r)) == debug_take_pending_activation(old(self)@),
            debug_wf(old(self)@) ==> debug_wf(final(self)@),
    {
        let r = match &self.pending_activation {
            Some(p) => Some(p.text.clone()),
            None => None,
        };
        self.pending_activation = None;
        r
    }

    pub fn has_pending_activation(&self) -> (r: bool)
        ensures
            r == (self@.pending_activation is Some),
    {
        self.pending_activation.is_some()
    }

    pub fn activate_from_tool(&mut self) -> (r: bool)
        ensures
            (final(self)@, r) == debug_activate_from_tool(old(self)@),
            debug_wf(old(self)@) ==> debug_wf(final(self)@),
    {
        if self.state != DebugModeState::Inactive {
            return false;
        }
        self.state = DebugModeState::Active;
        self.was_previously_active = true;
        self.reminder_count = 0;
        self.pending_exit_reminder = false;
        self.phase = DebugPhase::Exploring;
        true
    }

    pub fn deactivate_approved(&mut self) -> (r: bool)
        ensures
            (final(self)@, r) == debug_deactivate_approved(old(self)@),
            debug_wf(old(self)@) ==> debug_wf(final(self)@),
    {
        if self.state != DebugModeState::Active {
            return false;
        }
        self.state = DebugModeState::Inactive;
        self.reminder_count = 0;
        self.awaiting_reproduction = false;
        self.awaiting_verification = false;
        self.phase = DebugPhase::Exploring;
        self.pending_activation = None;
        true
    }

    pub fn user_exit(&mut self, turn_in_flight: bool)
        ensures
            final(self)@ == debug_user_exit(old(self)@, turn_in_flight),
            debug_wf(old(self)@) ==> debug_wf(final(self)@),
    {
        self.awaiting_reproduction = false;
        self.awaiting_verification = false;
        let pending = match &self.pending_activation {
            Some(p) => Some(p.prior_was_previously_active),
            None => None,
        };
        self.pending_activation = None;
        if let Some(prior) = pending {
            if self.state == DebugModeState::Active {
                self.state = DebugModeState::Inactive;
                self.was_previously_active = prior;
                self.phase = DebugPhase::Exploring;
                return ;
            }
        }
        match self.state {
            DebugModeState::Pending => {
                self.state = DebugModeState::Inactive;
                self.phase = DebugPhase::Exploring;
            },
            DebugModeState::Active => {
                if turn_in_flight {
                    self.state = DebugModeState::ExitPending;
                } else {
                    self.state = DebugModeState::Inactive;
                    self.pending_exit_reminder = true;
                    self.phase = DebugPhase::Exploring;
                }
            },
            _ => {},
        }
    }

    pub fn complete_deferred_exit(&mut self)
        ensures
            final(self)@ == debug_complete_deferred_exit(old(self)@),
            debug_wf(old(self)@) ==> debug_wf(final(self)@),
    {
        if self.state != DebugModeState::ExitPending {
            return ;
        }
        self.state = DebugModeState::Inactive;
        self.pending_exit_reminder = true;
        self.phase = DebugPhase::Exploring;
        self.awaiting_reproduction = false;
        self.awaiting_verification = false;
    }

    pub fn queue_exit_reminder(&mut self)
        ensures
            final(self)@ == (DebugModeView { pending_exit_reminder: true, ..old(self)@ }),
            debug_wf(old(self)@) ==> debug_wf(final(self)@),
    {
        self.pending_exit_reminder = true;
    }

    pub fn record_reminder_injected(&mut self)
        requires
            old(self)@.reminder_count < u32::MAX,
        ensures
            final(self)@ == debug_record_reminder(old(self)@),
            debug_wf(old(self)@) ==> debug_wf(final(self)@),
    {
        self.reminder_count = self.reminder_count + 1;
    }

    pub fn clear_pending_exit_reminder(&mut self)
        ensures
            final(self)@ == (DebugModeView { pending_exit_reminder: false, ..old(self)@ }),
            debug_wf(old(self)@) ==> debug_wf(final(self)@),
    {
        self.pending_exit_reminder = false;
    }

    pub fn reset_after_compaction(&mut self)
        ensures
            final(self)@ == debug_reset_after_compaction(old(self)@),
            debug_wf(old(self)@) ==> debug_wf(final(self)@),
    {
        if self.state == DebugModeState::Active {
            self.reminder_count = 0;
            self.pending_activation = None;
        }
    }
}

/// Every reminder injection flips between the full and the sparse reminder.
pub proof fn debug_reminder_alternates(v: DebugModeView)
    requires
        v.reminder_count < u32::MAX,
    ensures
        debug_full_reminder(debug_record_reminder(v)) == !debug_full_reminder(v),
{
}

/// Opening one human gate closes the other and moves to its phase; at most
/// one gate is ever open.
pub proof fn debug_gates_exclusive(v: DebugModeView)
    ensures
        ({
            let r = debug_set_awaiting_reproduction(v, true);
            &&& r.awaiting_reproduction && !r.awaiting_verification
            &&& r.phase == DebugPhase::AwaitingReproduction
            &&& debug_wf(v) ==> debug_wf(r)
        }),
        ({
            let r = debug_set_awaiting_verification(v, true);
            &&& r.awaiting_verification && !r.awaiting_reproduction
            &&& r.phase == DebugPhase::AwaitingVerification
            &&& debug_wf(v) ==> debug_wf(r)
        }),
{
}

/// The agent's own entry skips the pending state, and can only happen once
/// until the mode is left again; an approved exit then closes everything.
pub proof fn debug_tool_entry_and_approved_exit(v: DebugModeView)
    requires
        v.state == DebugModeState::Inactive,
    ensures
        ({
            let (a, ok) = debug_activate_from_tool(v);
            &&& ok
            &&& a.state == DebugModeState::Active
            &&& a.phase == DebugPhase::Exploring
            &&& !debug_activate_from_tool(a).1
            &&& debug_activate_from_tool(a).0 == a
            &&& debug_deactivate_approved(a).1
            &&& debug_deactivate_approved(a).0.state == DebugModeState::Inactive
            &&& !debug_deactivate_approved(a).0.awaiting_reproduction
            &&& !debug_deactivate_approved(a).0.awaiting_verification
            &&& debug_deactivate_approved(a).0.was_previously_active
        }),
{
}

/// A reminder buffered by a mid-turn activation is handed out exactly once.
pub proof fn debug_mid_turn_activation_delivered_once(v: DebugModeView, text: Seq<char>)
    requires
        v.state == DebugModeState::Pending,
    ensures
        debug_activate_mid_turn(v, text).1,
        debug_activate_mid_turn(v, text).0.state == DebugModeState::Active,
        debug_take_pending_activation(debug_activate_mid_turn(v, text).0).1 == Some(text),
        debug_take_pending_activation(
            debug_take_pending_activation(debug_activate_mid_turn(v, text).0).0,
        ).1 is None,
{
}

/// Leaving while a mid-turn activation is still buffered undoes the
/// activation and closes both gates, without queuing an exit reminder.
pub proof fn debug_exit_cancels_mid_turn_activation(
    v: DebugModeView,
    text: Seq<char>,
    turn_in_flight: bool,
)
    requires
        v.state == DebugModeState::Pending,
    ensures
        ({
            let e = debug_user_exit(debug_activate_mid_turn(v, text).0, turn_in_flight);
            &&& e.state == DebugModeState::Inactive
            &&& e.was_previously_active == v.was_previously_active
            &&& e.pending_exit_reminder == v.pending_exit_reminder
            &&& e.pending_activation is None
            &&& !e.awaiting_reproduction && !e.awaiting_verification
        }),
{
}

/// A deferred exit, once the turn completes, ends where an immediate exit
/// would have.
pub proof fn debug_deferred_exit_matches_immediate(v: DebugModeView)
    requires
        v.state == DebugModeState::Active,
        v.pending_activation is None,
    ensures
        debug_user_exit(v, true).state == DebugModeState::ExitPending,
        debug_complete_deferred_exit(debug_user_exit(v, true)) == debug_user_exit(v, false),
{
}

/// After activating, leaving and entering again, the tracker remembers that
/// the mode was used before.
pub proof fn debug_reentry_remembered(v: DebugModeView)
    requires
        v.state == DebugModeState::Pending,
        v.pending_activation is None,
    ensures
        ({
            let e = debug_user_exit(debug_activate(v).0, false);
            &&& e.state == DebugModeState::Inactive
            &&& e.pending_exit_reminder
            &&& debug_enter_pending(e).1
            &&& debug_enter_pending(e).0.was_previously_active
            &&& debug_enter_pending(e).0.state == DebugModeState::Pending
        }),
{
}

/// Restoring from a snapshot settles the lifecycle and keeps the phase and
/// the checkpoints; restoring twice changes nothing more. The artifacts lie under
/// the session directory.
pub proof fn debug_snapshot_round_trip(dir: Seq<char>, v: DebugModeView)
    ensures
        ({
            let r = debug_from_snapshot(dir, debug_snapshot(v));
            &&& r.state == DebugModeState::Inactive || r.state == DebugModeState::Active
            &&& r.phase == v.phase
            &&& r.awaiting_reproduction == v.awaiting_reproduction
            &&& r.awaiting_verification == v.awaiting_verification
            &&& (v.state == DebugModeState::Inactive || v.state == DebugModeState::Active) ==> debug_snapshot(r) == debug_snapshot(v)
            &&& v.state == DebugModeState::ExitPending ==> r.state == DebugModeState::Inactive && r.pending_exit_reminder
            &&& debug_from_snapshot(dir, debug_snapshot(r)) == r
            &&& r.debug_log_path == path_join(dir, debug_log_file())
            &&& r.debug_scratch_path == path_join(dir, debug_scratch_file())
        }),
{
}

/// A user exit closes both human checkpoints, whatever the state and
/// whether or not a turn is in flight, and drops a buffered activation.
pub proof fn debug_user_exit_closes_checkpoints(v: DebugModeView, turn_in_flight: bool)
    ensures
        !debug_user_exit(v, turn_in_flight).awaiting_reproduction,
        !debug_user_exit(v, turn_in_flight).awaiting_verification,
        debug_user_exit(v, turn_in_flight).pending_activation is None,
{
}

/// Leaving: the mode ends up inactive, except that an active mode with a
/// turn in flight (and nothing buffered) waits for the turn in
/// `ExitPending`, keeping its phase. An exit reminder is newly queued only by
/// leaving an active mode at once; the log paths never change.
pub proof fn debug_user_exit_effects(v: DebugModeView, turn_in_flight: bool)
    ensures
        ({
            let e = debug_user_exit(v, turn_in_flight);
            let deferred = v.state == DebugModeState::Active && v.pending_activation is None
                && turn_in_flight;
            let immediate = v.state == DebugModeState::Active && v.pending_activation is None
                && !turn_in_flight;
            &&& deferred ==> e.state == DebugModeState::ExitPending && e.phase == v.phase
            &&& (v.state == DebugModeState::Pending || v.state == DebugModeState::Active)
                && !deferred ==> e.state == DebugModeState::Inactive && e.phase
                == DebugPhase::Exploring
            &&& (v.state == DebugModeState::Inactive || v.state == DebugModeState::ExitPending)
                ==> e.state == v.state
            &&& e.pending_exit_reminder == (v.pending_exit_reminder || immediate)
            &&& e.debug_log_path == v.debug_log_path
            &&& e.debug_scratch_path == v.debug_scratch_path
        }),
{
}

/// Turning debug mode on by the user: from `Inactive` it becomes pending and
/// exploring, from a deferred exit it stays active, and either way no exit
/// reminder is left queued; while pending or active it is refused.
pub proof fn debug_entering_clears_exit_reminder(v: DebugModeView)
    ensures
        ({
            let (e, ok) = debug_enter_pending(v);
            &&& ok <==> (v.state == DebugModeState::Inactive || v.state == DebugModeState::ExitPending)
            &&& ok ==> !e.pending_exit_reminder
            &&& v.state == DebugModeState::Inactive ==> e.state == DebugModeState::Pending
                && e.phase == DebugPhase::Exploring
            &&& v.state == DebugModeState::ExitPending ==> e.state == DebugModeState::Active
            &&& !ok ==> e == v
        }),
{
}

/// Activation (by the user's turn or mid-turn) succeeds exactly from
/// `Pending`; the agent's own entry exactly from `Inactive`. Each makes the
/// mode active and exploring, remembers it as used and restarts the reminder
/// alternation; the agent's entry also drops a queued exit reminder.
pub proof fn debug_activation_effects(v: DebugModeView, text: Seq<char>)
    ensures
        ({
            let (a, ok) = debug_activate(v);
            &&& ok <==> v.state == DebugModeState::Pending
            &&& ok ==> a.state == DebugModeState::Active && a.phase == DebugPhase::Exploring
                && a.was_previously_active && a.reminder_count == 0
            &&& !ok ==> a == v
        }),
        ({
            let (a, ok) = debug_activate_mid_turn(v, text);
            &&& ok <==> v.state == DebugModeState::Pending
            &&& ok ==> a.state == DebugModeState::Active && a.phase == DebugPhase::Exploring
                && a.was_previously_active && a.reminder_count == 0 && a.pending_activation
                == Some((text, v.was_previously_active))
            &&& !ok ==> a == v
        }),
        ({
            let (a, ok) = debug_activate_from_tool(v);
            &&& ok <==> v.state == DebugModeState::Inactive
            &&& ok ==> a.state == DebugModeState::Active && a.phase == DebugPhase::Exploring
                && a.was_previously_active && a.reminder_count == 0 && !a.pending_exit_reminder
            &&& !ok ==> a == v
        }),
{
}

/// An approved exit succeeds exactly from `Active`: the mode is inactive,
/// exploring, with both checkpoints closed, no reminder counted and nothing
/// buffered; the exit reminder is left as it was.
pub proof fn debug_approved_exit_effects(v: DebugModeView)
    ensures
        ({
            let (d, ok) = debug_deactivate_approved(v);
            &&& ok <==> v.state == DebugModeState::Active
            &&& ok ==> d.state == DebugModeState::Inactive && d.phase == DebugPhase::Exploring
                && !d.awaiting_reproduction && !d.awaiting_verification && d.reminder_count == 0
                && d.pending_activation is None && d.pending_exit_reminder
                == v.pending_exit_reminder
            &&& !ok ==> d == v
        }),
{
}

/// A deferred exit completes into `Inactive`, exploring, with both
/// checkpoints closed and the exit reminder queued; otherwise nothing
/// changes.
pub proof fn debug_complete_deferred_exit_effects(v: DebugModeView)
    ensures
        ({
            let c = debug_complete_deferred_exit(v);
            &&& v.state == DebugModeState::ExitPending ==> c.state == DebugModeState::Inactive
                && c.phase == DebugPhase::Exploring && c.pending_exit_reminder
                && !c.awaiting_reproduction && !c.awaiting_verification
            &&& v.state != DebugModeState::ExitPending ==> c == v
        }),
{
}

/// Closing a checkpoint touches nothing else; opening one moves to its phase
/// and closes the other.
pub proof fn debug_checkpoint_effects(v: DebugModeView)
    ensures
        debug_set_awaiting_reproduction(v, false) == (DebugModeView {
            awaiting_reproduction: false,
            ..v
        }),
        debug_set_awaiting_verification(v, false) == (DebugModeView {
            awaiting_verification: false,
            ..v
        }),
        debug_set_awaiting_reproduction(v, true) == (DebugModeView {
            awaiting_reproduction: true,
            awaiting_verification: false,
            phase: DebugPhase::AwaitingReproduction,
            ..v
        }),
        debug_set_awaiting_verification(v, true) == (DebugModeView {
            awaiting_verification: true,
            awaiting_reproduction: false,
            phase: DebugPhase::AwaitingVerification,
            ..v
        }),
{
}

/// A fresh tracker is inactive and exploring, with nothing open, counted,
/// queued or buffered, and its log and scratch files are `debug.log` and
/// `debug.md` in the session directory.
pub proof fn debug_fresh_tracker(dir: Seq<char>)
    ensures
        ({
            let t = debug_initial(dir);
            &&& t.state == DebugModeState::Inactive
            &&& t.phase == DebugPhase::Exploring
            &&& !t.was_previously_active
            &&& t.reminder_count == 0
            &&& !t.pending_exit_reminder
            &&& !t.awaiting_reproduction && !t.awaiting_verification
            &&& t.pending_activation is None
            &&& t.debug_log_path == path_join(dir, "debug.log"@)
            &&& t.debug_scratch_path == path_join(dir, "debug.md"@)
        }),
{
    reveal_strlit("debug.log");
    reveal_strlit("debug.md");
    assert(debug_log_file() =~= "debug.log"@);
    assert(debug_scratch_file() =~= "debug.md"@);
}

/// One call of a method that changes a [`DebugModeTracker`], with its argument.
pub enum DebugModeCall {
    SetAwaitingReproduction(bool),
    SetAwaitingVerification(bool),
    SetPhase(DebugPhase),
    EnterPending,
    Activate,
    ActivateMidTurn(Seq<char>),
    TakePendingActivation,
    ActivateFromTool,
    DeactivateApproved,
    UserExit(bool),
    CompleteDeferredExit,
    QueueExitReminder,
    RecordReminderInjected,
    ClearPendingExitReminder,
    ResetAfterCompaction,
}

/// The tracker after one call, as the method's `ensures` states it.
pub open spec fn debug_step(v: DebugModeView, call: DebugModeCall) -> DebugModeView {
    match call {
        DebugModeCall::SetAwaitingReproduction(a) => debug_set_awaiting_reproduction(v, a),
        DebugModeCall::SetAwaitingVerification(a) => debug_set_awaiting_verification(v, a),
        DebugModeCall::SetPhase(phase) => DebugModeView { phase: phase, ..v },
        DebugModeCall::EnterPending => debug_enter_pending(v).0,
        DebugModeCall::Activate => debug_activate(v).0,
        DebugModeCall::ActivateMidTurn(text) => debug_activate_mid_turn(v, text).0,
        DebugModeCall::TakePendingActivation => debug_take_pending_activation(v).0,
        DebugModeCall::ActivateFromTool => debug_activate_from_tool(v).0,
        DebugModeCall::DeactivateApproved => debug_deactivate_approved(v).0,
        DebugModeCall::UserExit(turn_in_flight) => debug_user_exit(v, turn_in_flight),
        DebugModeCall::CompleteDeferredExit => debug_complete_deferred_exit(v),
        DebugModeCall::QueueExitReminder => DebugModeView { pending_exit_reminder: true, ..v },
        DebugModeCall::RecordReminderInjected => debug_record_reminder(v),
        DebugModeCall::ClearPendingExitReminder => DebugModeView {
            pending_exit_reminder: false,
            ..v
        },
        DebugModeCall::ResetAfterCompaction => debug_reset_after_compaction(v),
    }
}

/// The tracker after a sequence of calls, first to last.
pub open spec fn debug_run(v: DebugModeView, calls: Seq<DebugModeCall>) -> DebugModeView
    decreases calls.len(),
{
    if calls.len() == 0 {
        v
    } else {
        debug_run(debug_step(v, calls[0]), calls.drop_first())
    }
}

/// A tracker as `new` makes it (`restored` is `None`) or as `from_snapshot`
/// restores it.
pub open spec fn debug_start(dir: Seq<char>, restored: Option<DebugModeSnapshot>) -> DebugModeView {
    match restored {
        Some(s) => debug_from_snapshot(dir, s),
        None => debug_initial(dir),
    }
}

proof fn debug_run_keeps_wf(v: DebugModeView, calls: Seq<DebugModeCall>)
    requires
        debug_wf(v),
    ensures
        debug_wf(debug_run(v, calls)),
    decreases calls.len(),
{
    if calls.len() > 0 {
        debug_run_keeps_wf(debug_step(v, calls[0]), calls.drop_first());
    }
}

/// Whatever calls follow `new`, or `from_snapshot` of a snapshot with at most
/// one checkpoint open, at most one human checkpoint is open and a mid-turn
/// activation is buffered only while debug mode is active.
pub proof fn debug_one_checkpoint_at_a_time(
    dir: Seq<char>,
    restored: Option<DebugModeSnapshot>,
    calls: Seq<DebugModeCall>,
)
    requires
        restored matches Some(s) ==> !(s.awaiting_reproduction && s.awaiting_verification),
    ensures
        ({
            let t = debug_run(debug_start(dir, restored), calls);
            &&& !(t.awaiting_reproduction && t.awaiting_verification)
            &&& t.pending_activation is Some ==> t.state == DebugModeState::Active
        }),
{
    debug_run_keeps_wf(debug_start(dir, restored), calls);
}

/// Full debug mode reminder (playbook + log path).
pub fn debug_mode_reminder_full_template() -> (r: &'static str)
    ensures
        r@ == "\
Debug mode is active. Do not jump to a speculative large fix — gather runtime evidence first.

## Artifacts
- NDJSON debug log (append one JSON object per line): `${{ debug_log_path }}`
- Scratch notes (hypotheses table, findings): `${{ debug_scratch_path }}`

## Loop
1. Explore relevant code (read/search; optional explore subagents).
2. Write 3–5 labeled hypotheses (A, B, C…) into the scratch file.
3. Instrument with tagged regions (`// #region agent log` / `# region agent log`) that append NDJSON events including `hypothesisId`, `runId`, `location`, `message`, `data`, `timestamp`.
4. Call `${{ tools.by_kind.debug_await_repro }}` with concrete reproduction steps (include rebuild/restart if needed).
5. After the user proceeds: read the log (`${{ tools.by_kind.debug_read_logs }}` or read the log file), mark each hypothesis CONFIRMED/REJECTED/INCONCLUSIVE, apply a **minimal** fix. Keep instrumentation.
6. Call `${{ tools.by_kind.debug_await_verify }}`.
7. On Mark Fixed: remove every agent-log region, then call `${{ tools.by_kind.exit_debug }}`.
8. On Still broken: add/refine instrumentation and repeat from step 4 with a new `runId`.

Fail soft on log IO (never crash the app under test). Prefer evidence over large rewrites."@,
{
    "\
Debug mode is active. Do not jump to a speculative large fix — gather runtime evidence first.

## Artifacts
- NDJSON debug log (append one JSON object per line): `${{ debug_log_path }}`
- Scratch notes (hypotheses table, findings): `${{ debug_scratch_path }}`

## Loop
1. Explore relevant code (read/search; optional explore subagents).
2. Write 3–5 labeled hypotheses (A, B, C…) into the scratch file.
3. Instrument with tagged regions (`// #region agent log` / `# region agent log`) that append NDJSON events including `hypothesisId`, `runId`, `location`, `message`, `data`, `timestamp`.
4. Call `${{ tools.by_kind.debug_await_repro }}` with concrete reproduction steps (include rebuild/restart if needed).
5. After the user proceeds: read the log (`${{ tools.by_kind.debug_read_logs }}` or read the log file), mark each hypothesis CONFIRMED/REJECTED/INCONCLUSIVE, apply a **minimal** fix. Keep instrumentation.
6. Call `${{ tools.by_kind.debug_await_verify }}`.
7. On Mark Fixed: remove every agent-log region, then call `${{ tools.by_kind.exit_debug }}`.
8. On Still broken: add/refine instrumentation and repeat from step 4 with a new `runId`.

Fail soft on log IO (never crash the app under test). Prefer evidence over large rewrites."
}

/// Sparse debug-mode reminder, used between full ones.
pub fn debug_mode_reminder_sparse_template() -> (r: &'static str)
    ensures
        r@ == "Debug mode is still active. Prefer runtime evidence over large speculative fixes. Use the await-reproduction / await-verification tools for human gates."@,
{
    "Debug mode is still active. Prefer runtime evidence over large speculative fixes. Use the await-reproduction / await-verification tools for human gates."
}

/// Reminder when debug mode is entered again (placeholders for both artifact paths).
pub fn debug_mode_reentry_reminder_template() -> (r: &'static str)
    ensures
        r@ == "\
## Returning to Debug Mode

You are entering debug mode again. Prior log/scratch may exist at `${{ debug_log_path }}` and `${{ debug_scratch_path }}`. Continue the hypothesis → instrument → reproduce → verify loop; clean up instrumentation before exiting."@,
{
    "\
## Returning to Debug Mode

You are entering debug mode again. Prior log/scratch may exist at `${{ debug_log_path }}` and `${{ debug_scratch_path }}`. Continue the hypothesis → instrument → reproduce → verify loop; clean up instrumentation before exiting."
}

/// Reminder after debug mode was left.
pub fn debug_mode_exit_reminder_template() -> (r: &'static str)
    ensures
        r@ == "\
You have exited debug mode. You can work normally. If agent log regions (`#region agent log`) remain in the workspace, remove them before committing."@,
{
    "\
You have exited debug mode. You can work normally. If agent log regions (`#region agent log`) remain in the workspace, remove them before committing."
}

} // verus!
