//! Ask mode: a read-only question-and-answer mode of a session.
//!
//! The tracker follows the lifecycle `Inactive -> Pending -> Active`, with
//! `ExitPending` for an exit requested while a turn is still running. Every
//! operation is described by a transition function on [`AskModeView`].
use vstd::prelude::*;
use crate::text::opt_view;

verus! {

/// Lifecycle of ask mode.
#[derive(Clone, Copy, Debug, PartialEq, Eq, Structural)]
pub enum AskModeState {
    /// Not in ask mode.
    Inactive,
    /// Turned on by the user; the model has not been told yet.
    Pending,
    /// Active; the model has the read-only playbook.
    Active,
    /// Turned off mid-turn; leaves once the turn completes.
    ExitPending,
}

/// A mid-turn activation reminder that has not been delivered yet, with the
/// re-entry flag as it was before the activation.
struct PendingActivation {
    text: String,
    prior_was_previously_active: bool,
}

/// Tracks the ask-mode lifecycle of one session.
pub struct AskModeTracker {
    state: AskModeState,
    was_previously_active: bool,
    reminder_count: u32,
    pending_exit_reminder: bool,
    pending_activation: Option<PendingActivation>,
    session_dir: String,
}

/// The persisted part of the ask-mode lifecycle.
#[derive(Clone, Copy, Debug, PartialEq, Eq, Structural)]
pub struct AskModeSnapshot {
    pub state: AskModeState,
    pub was_previously_active: bool,
    pub reminder_count: u32,
    pub pending_exit_reminder: bool,
}

/// The abstract state of an [`AskModeTracker`]. A buffered activation is the
/// reminder text and the prior re-entry flag.
pub struct AskModeView {
    pub state: AskModeState,
    pub was_previously_active: bool,
    pub reminder_count: u32,
    pub pending_exit_reminder: bool,
    pub pending_activation: Option<(Seq<char>, bool)>,
    pub session_dir: Seq<char>,
}

impl View for AskModeTracker {
    type V = AskModeView;

    closed spec fn view(&self) -> AskModeView {
        AskModeView {
            state: self.state,
            was_previously_active: self.was_previously_active,
            reminder_count: self.reminder_count,
            pending_exit_reminder: self.pending_exit_reminder,
            pending_activation: match self.pending_activation {
                Some(p) => Some((p.text@, p.prior_was_previously_active)),
                None => None,
            },
            session_dir: self.session_dir@,
        }
    }
}

/// Well-formedness: an activation is buffered only while ask mode is active.
pub open spec fn ask_wf(v: AskModeView) -> bool {
    v.pending_activation is Some ==> v.state == AskModeState::Active
}

/// A fresh tracker for the session directory `dir`.
pub open spec fn ask_initial(dir: Seq<char>) -> AskModeView {
    AskModeView {
        state: AskModeState::Inactive,
        was_previously_active: false,
        reminder_count: 0,
        pending_exit_reminder: false,
        pending_activation: None,
        session_dir: dir,
    }
}

/// Restoring from a snapshot: a pending entry is dropped, a deferred exit is
/// completed (leaving an exit reminder queued).
pub open spec fn ask_from_snapshot(dir: Seq<char>, s: AskModeSnapshot) -> AskModeView {
    AskModeView {
        state: match s.state {
            AskModeState::Pending => AskModeState::Inactive,
            AskModeState::ExitPending => AskModeState::Inactive,
            other => other,
        },
        was_previously_active: s.was_previously_active,
        reminder_count: s.reminder_count,
        pending_exit_reminder: s.pending_exit_reminder || s.state == AskModeState::ExitPending,
        pending_activation: None,
        session_dir: dir,
    }
}

pub open spec fn ask_snapshot(v: AskModeView) -> AskModeSnapshot {
    AskModeSnapshot {
        state: v.state,
        was_previously_active: v.was_previously_active,
        reminder_count: v.reminder_count,
        pending_exit_reminder: v.pending_exit_reminder,
    }
}

/// Re-entering: pending after having been active before.
pub open spec fn ask_is_reentry(v: AskModeView) -> bool {
    v.was_previously_active && v.state == AskModeState::Pending
}

/// The full reminder is used on every other injection, starting with the first.
pub open spec fn ask_full_reminder(v: AskModeView) -> bool {
    v.reminder_count % 2 == 0
}

/// `enter_pending`: from `Inactive` to `Pending`; from `ExitPending` back to
/// `Active`; otherwise refused.
pub open spec fn ask_enter_pending(v: AskModeView) -> (AskModeView, bool) {
    match v.state {
        AskModeState::Inactive => (
            AskModeView { state: AskModeState::Pending, pending_exit_reminder: false, ..v },
            true,
        ),
        AskModeState::ExitPending => (
            AskModeView { state: AskModeState::Active, pending_exit_reminder: false, ..v },
            true,
        ),
        _ => (v, false),
    }
}

/// `activate`: from `Pending` to `Active`, marking the mode as used and
/// restarting the reminder alternation.
pub open spec fn ask_activate(v: AskModeView) -> (AskModeView, bool) {
    if v.state == AskModeState::Pending {
        (
            AskModeView {
                state: AskModeState::Active,
                was_previously_active: true,
                reminder_count: 0,
                ..v
            },
            true,
        )
    } else {
        (v, false)
    }
}

/// `activate_mid_turn`: as `activate`, and buffers the reminder text together
/// with the previous re-entry flag.
pub open spec fn ask_activate_mid_turn(v: AskModeView, text: Seq<char>) -> (AskModeView, bool) {
    if v.state == AskModeState::Pending {
        (
            AskModeView {
                state: AskModeState::Active,
                was_previously_active: true,
                reminder_count: 0,
                pending_activation: Some((text, v.was_previously_active)),
                ..v
            },
            true,
        )
    } else {
        (v, false)
    }
}

/// `take_pending_activation`: hands out the buffered text once.
pub open spec fn ask_take_pending_activation(v: AskModeView) -> (AskModeView, Option<Seq<char>>) {
    (
        AskModeView { pending_activation: None, ..v },
        match v.pending_activation {
            Some(p) => Some(p.0),
            None => None,
        },
    )
}

/// `user_exit`: a buffered activation is dropped; if it was buffered while
/// active, the activation is undone. Otherwise a pending entry is cancelled,
/// and an active mode leaves now or, with a turn in flight, after the turn.
pub open spec fn ask_user_exit(v: AskModeView, turn_in_flight: bool) -> AskModeView {
    let w = AskModeView { pending_activation: None, ..v };
    match v.pending_activation {
        Some(p) if v.state == AskModeState::Active => AskModeView {
            state: AskModeState::Inactive,
            was_previously_active: p.1,
            ..w
        },
        _ => match v.state {
            AskModeState::Pending => AskModeView { state: AskModeState::Inactive, ..w },
            AskModeState::Active => if turn_in_flight {
                AskModeView { state: AskModeState::ExitPending, ..w }
            } else {
                AskModeView {
                    state: AskModeState::Inactive,
                    pending_exit_reminder: true,
                    ..w
                }
            },
            _ => w,
        },
    }
}

/// `complete_deferred_exit`: a deferred exit leaves and queues the exit reminder.
pub open spec fn ask_complete_deferred_exit(v: AskModeView) -> AskModeView {
    if v.state == AskModeState::ExitPending {
        AskModeView { state: AskModeState::Inactive, pending_exit_reminder: true, ..v }
    } else {
        v
    }
}

/// `record_reminder_injected`: one more reminder was injected.
pub open spec fn ask_record_reminder(v: AskModeView) -> AskModeView {
    AskModeView { reminder_count: (v.reminder_count + 1) as u32, ..v }
}

/// `reset_after_compaction`: while active, restarts the reminder alternation
/// and drops a buffered activation.
pub open spec fn ask_reset_after_compaction(v: AskModeView) -> AskModeView {
    if v.state == AskModeState::Active {
        AskModeView { reminder_count: 0, pending_activation: None, ..v }
    } else {
        v
    }
}

impl AskModeTracker {
    pub fn new(session_dir: String) -> (t: Self)
        ensures
            t@ == ask_initial(session_dir@),
            ask_wf(t@),
    {
        AskModeTracker {
            state: AskModeState::Inactive,
            was_previously_active: false,
            reminder_count: 0,
            pending_exit_reminder: false,
            pending_activation: None,
            session_dir,
        }
    }

    pub fn from_snapshot(session_dir: String, snapshot: AskModeSnapshot) -> (t: Self)
        ensures
            t@ == ask_from_snapshot(session_dir@, snapshot),
            ask_wf(t@),
    {
        let mut snapshot = snapshot;
        match snapshot.state {
            AskModeState::Pending => {
                snapshot.state = AskModeState::Inactive;
            },
            AskModeState::ExitPending => {
                snapshot.state = AskModeState::Inactive;
                snapshot.pending_exit_reminder = true;
            },
            _ => {},
        }
        AskModeTracker {
            state: snapshot.state,
            was_previously_active: snapshot.was_previously_active,
            reminder_count: snapshot.reminder_count,
            pending_exit_reminder: snapshot.pending_exit_reminder,
            pending_activation: None,
            session_dir,
        }
    }

    pub fn snapshot(&self) -> (s: AskModeSnapshot)
        ensures
            s == ask_snapshot(self@),
    {
        AskModeSnapshot {
            state: self.state,
            was_previously_active: self.was_previously_active,
            reminder_count: self.reminder_count,
            pending_exit_reminder: self.pending_exit_reminder,
        }
    }

    pub fn state(&self) -> (s: AskModeState)
        ensures
            s == self@.state,
    {
        self.state
    }

    pub fn is_active(&self) -> (r: bool)
        ensures
            r == (self@.state == AskModeState::Active),
    {
        self.state == AskModeState::Active
    }

    pub fn is_reentry(&self) -> (r: bool)
        ensures
            r == ask_is_reentry(self@),
    {
        self.was_previously_active && self.state == AskModeState::Pending
    }

    pub fn should_use_full_reminder(&self) -> (r: bool)
        ensures
            r == ask_full_reminder(self@),
    {
        self.reminder_count % 2 == 0
    }

    pub fn has_pending_exit_reminder(&self) -> (r: bool)
        ensures
            r == self@.pending_exit_reminder,
    {
        self.pending_exit_reminder
    }

    pub fn enter_pending(&mut self) -> (r: bool)
        ensures
            (final(self)@, r) == ask_enter_pending(old(self)@),
            ask_wf(old(self)@) ==> ask_wf(final(self)@),
    {
        match self.state {
            AskModeState::Inactive => {
                self.state = AskModeState::Pending;
                self.pending_exit_reminder = false;
                true
            },
            AskModeState::ExitPending => {
                self.state = AskModeState::Active;
                self.pending_exit_reminder = false;
                true
            },
            _ => false,
        }
    }

    pub fn activate(&mut self) -> (r: bool)
        ensures
            (final(self)@, r) == ask_activate(old(self)@),
            ask_wf(old(self)@) ==> ask_wf(final(self)@),
    {
        if self.state != AskModeState::Pending {
            return false;
        }
        self.state = AskModeState::Active;
        self.was_previously_active = true;
        self.reminder_count = 0;
        true
    }

    pub fn activate_mid_turn(&mut self, rendered_reminder: String) -> (r: bool)
        ensures
            (final(self)@, r) == ask_activate_mid_turn(old(self)@, rendered_reminder@),
            ask_wf(old(self)@) ==> ask_wf(final(self)@),
    {
        if self.state != AskModeState::Pending {
            return false;
        }
        let prior_was_previously_active = self.was_previously_active;
        self.state = AskModeState::Active;
        self.was_previously_active = true;
        self.reminder_count = 0;
        self.pending_activation = Some(
            PendingActivation { text: rendered_reminder, prior_was_previously_active },
        );
        true
    }

    pub fn take_pending_activation(&mut self) -> (r: Option<String>)
        ensures
            (final(self)@, opt_view(r)) == ask_take_pending_activation(old(self)@),
            ask_wf(old(self)@) ==> ask_wf(final(self)@),
    {
        let r = match &self.pending_activation {
            Some(p) => Some(p.text.clone()),
            None => None,
        };
        self.pending_activation = None;
        r
    }

    pub fn has_pending_activation(&self) -> (r: bool)
        ensures
            r == (self@.pending_activation is Some),
    {
        self.pending_activation.is_some()
    }

    pub fn user_exit(&mut self, turn_in_flight: bool)
        ensures
            final(self)@ == ask_user_exit(old(self)@, turn_in_flight),
            ask_wf(old(self)@) ==> ask_wf(final(self)@),
    {
        let pending = match &self.pending_activation {
            Some(p) => Some(p.prior_was_previously_active),
            None => None,
        };
        self.pending_activation = None;
        if let Some(prior) = pending {
            if self.state == AskModeState::Active {
                self.state = AskModeState::Inactive;
                self.was_previously_active = prior;
                return ;
            }
        }
        match self.state {
            AskModeState::Pending => {
                self.state = AskModeState::Inactive;
            },
            AskModeState::Active => {
                if turn_in_flight {
                    self.state = AskModeState::ExitPending;
                } else {
                    self.state = AskModeState::Inactive;
                    self.pending_exit_reminder = true;
                }
            },
            _ => {},
        }
    }

    pub fn complete_deferred_exit(&mut self)
        ensures
            final(self)@ == ask_complete_deferred_exit(old(self)@),
            ask_wf(old(self)@) ==> ask_wf(final(self)@),
    {
        if self.state != AskModeState::ExitPending {
            return ;
        }
        self.state = AskModeState::Inactive;
        self.pending_exit_reminder = true;
    }

    pub fn record_reminder_injected(&mut self)
        requires
            old(self)@.reminder_count < u32::MAX,
        ensures
            final(self)@ == ask_record_reminder(old(self)@),
            ask_wf(old(self)@) ==> ask_wf(final(self)@),
    {
        self.reminder_count = self.reminder_count + 1;
    }

    pub fn clear_pending_exit_reminder(&mut self)
        ensures
            final(self)@ == (AskModeView { pending_exit_reminder: false, ..old(self)@ }),
            ask_wf(old(self)@) ==> ask_wf(final(self)@),
    {
        self.pending_exit_reminder = false;
    }

    pub fn reset_after_compaction(&mut self)
        ensures
            final(self)@ == ask_reset_after_compaction(old(self)@),
            ask_wf(old(self)@) ==> ask_wf(final(self)@),
    {
        if self.state == AskModeState::Active {
            self.reminder_count = 0;
            self.pending_activation = None;
        }
    }
}

/// Every reminder injection flips between the full and the sparse reminder.
pub proof fn ask_reminder_alternates(v: AskModeView)
    requires
        v.reminder_count < u32::MAX,
    ensures
        ask_full_reminder(ask_record_reminder(v)) == !ask_full_reminder(v),
{
}

/// A reminder buffered by a mid-turn activation is handed out exactly once.
pub proof fn ask_mid_turn_activation_delivered_once(v: AskModeView, text: Seq<char>)
    requires
        v.state == AskModeState::Pending,
    ensures
        ask_activate_mid_turn(v, text).1,
        ask_activate_mid_turn(v, text).0.state == AskModeState::Active,
        ask_take_pending_activation(ask_activate_mid_turn(v, text).0).1 == Some(text),
        ask_take_pending_activation(
            ask_take_pending_activation(ask_activate_mid_turn(v, text).0).0,
        ).1 is None,
{
}

/// Leaving while a mid-turn activation is still buffered undoes the
/// activation: the mode is inactive, the re-entry flag is as before, and no
/// exit reminder is queued for a mode the model never saw.
pub proof fn ask_exit_cancels_mid_turn_activation(
    v: AskModeView,
    text: Seq<char>,
    turn_in_flight: bool,
)
    requires
        v.state == AskModeState::Pending,
    ensures
        ({
            let e = ask_user_exit(ask_activate_mid_turn(v, text).0, turn_in_flight);
            &&& e.state == AskModeState::Inactive
            &&& e.was_previously_active == v.was_previously_active
            &&& e.pending_exit_reminder == v.pending_exit_reminder
            &&& e.pending_activation is None
        }),
{
}

/// Cancelling a pending entry leaves no exit reminder behind.
pub proof fn ask_pending_cancel_is_clean(v: AskModeView, turn_in_flight: bool)
    requires
        v.state == AskModeState::Pending,
        v.pending_activation is None,
    ensures
        ask_user_exit(v, turn_in_flight).state == AskModeState::Inactive,
        ask_user_exit(v, turn_in_flight).pending_exit_reminder == v.pending_exit_reminder,
{
}

/// A deferred exit, once the turn completes, ends where an immediate exit
/// would have.
pub proof fn ask_deferred_exit_matches_immediate(v: AskModeView)
    requires
        v.state == AskModeState::Active,
        v.pending_activation is None,
    ensures
        ask_user_exit(v, true).state == AskModeState::ExitPending,
        ask_complete_deferred_exit(ask_user_exit(v, true)) == ask_user_exit(v, false),
{
}

/// Turning the mode back on before a deferred exit completes keeps it
/// active, with no exit reminder.
pub proof fn ask_reenter_cancels_deferred_exit(v: AskModeView)
    requires
        v.state == AskModeState::Active,
        v.pending_activation is None,
    ensures
        ask_enter_pending(ask_user_exit(v, true)).1,
        ask_enter_pending(ask_user_exit(v, true)).0 == (AskModeView {
            pending_exit_reminder: false,
            ..v
        }),
{
}

/// After activating, leaving and entering again, the entry is a re-entry.
pub proof fn ask_reentry_detected(v: AskModeView)
    requires
        v.state == AskModeState::Pending,
        v.pending_activation is None,
    ensures
        ({
            let e = ask_user_exit(ask_activate(v).0, false);
            &&& e.state == AskModeState::Inactive
            &&& e.pending_exit_reminder
            &&& ask_enter_pending(e).1
            &&& ask_is_reentry(ask_enter_pending(e).0)
        }),
{
}

/// Restoring from a snapshot settles the lifecycle: a pending entry is
/// dropped, a deferred exit is completed with its reminder, and a settled
/// state (inactive or active) comes back unchanged. Restoring twice changes
/// nothing more.
pub proof fn ask_snapshot_round_trip(dir: Seq<char>, v: AskModeView)
    ensures
        ({
            let r = ask_from_snapshot(dir, ask_snapshot(v));
            &&& r.state == AskModeState::Inactive || r.state == AskModeState::Active
            &&& ask_wf(r)
            &&& (v.state == AskModeState::Inactive || v.state == AskModeState::Active) ==> ask_snapshot(r) == ask_snapshot(v)
            &&& v.state == AskModeState::Pending ==> r.state == AskModeState::Inactive
            &&& v.state == AskModeState::ExitPending ==> r.state == AskModeState::Inactive && r.pending_exit_reminder
            &&& ask_from_snapshot(dir, ask_snapshot(r)) == r
        }),
{
}

/// Turning ask mode on: from `Inactive` it becomes pending, from a deferred
/// exit it stays active, and either way no exit reminder is left queued;
/// while pending or active the call is refused and changes nothing. The
/// reminder count, the re-entry flag and a buffered activation are kept.
pub proof fn ask_entering_clears_exit_reminder(v: AskModeView)
    ensures
        ({
            let (e, ok) = ask_enter_pending(v);
            &&& ok <==> (v.state == AskModeState::Inactive || v.state == AskModeState::ExitPending)
            &&& ok ==> !e.pending_exit_reminder
            &&& v.state == AskModeState::Inactive ==> e.state == AskModeState::Pending
            &&& v.state == AskModeState::ExitPending ==> e.state == AskModeState::Active
            &&& !ok ==> e == v
            &&& e.reminder_count == v.reminder_count
            &&& e.was_previously_active == v.was_previously_active
            &&& e.pending_activation == v.pending_activation
            &&& e.session_dir == v.session_dir
        }),
{
}

/// After leaving active ask mode immediately and entering again before the
/// next turn, the tracker is pending with no exit reminder queued.
pub proof fn ask_reenter_before_next_turn(v: AskModeView)
    requires
        v.state == AskModeState::Pending,
    ensures
        ({
            let e = ask_enter_pending(ask_user_exit(ask_activate(v).0, false)).0;
            &&& e.state == AskModeState::Pending
            &&& !e.pending_exit_reminder
        }),
{
}

/// Activation succeeds exactly from `Pending`: the mode becomes active, is
/// remembered as used, and the reminder alternation restarts with the full
/// reminder. A mid-turn activation also buffers the reminder text.
pub proof fn ask_activation_effects(v: AskModeView, text: Seq<char>)
    ensures
        ({
            let (a, ok) = ask_activate(v);
            &&& ok <==> v.state == AskModeState::Pending
            &&& ok ==> a.state == AskModeState::Active && a.was_previously_active
                && a.reminder_count == 0 && a.pending_exit_reminder == v.pending_exit_reminder
                && a.pending_activation == v.pending_activation
            &&& !ok ==> a == v
        }),
        ({
            let (a, ok) = ask_activate_mid_turn(v, text);
            &&& ok <==> v.state == AskModeState::Pending
            &&& ok ==> a.state == AskModeState::Active && a.was_previously_active
                && a.reminder_count == 0 && a.pending_activation == Some(
                (text, v.was_previously_active),
            )
            &&& !ok ==> a == v
        }),
{
}

/// Leaving: afterwards nothing is buffered and the mode is not pending or
/// active, except that an active mode with a turn in flight (and nothing
/// buffered) waits for the turn in `ExitPending`. An exit reminder is newly
/// queued only by leaving an active mode at once.
pub proof fn ask_user_exit_effects(v: AskModeView, turn_in_flight: bool)
    ensures
        ({
            let e = ask_user_exit(v, turn_in_flight);
            let deferred = v.state == AskModeState::Active && v.pending_activation is None
                && turn_in_flight;
            let immediate = v.state == AskModeState::Active && v.pending_activation is None
                && !turn_in_flight;
            &&& e.pending_activation is None
            &&& deferred ==> e.state == AskModeState::ExitPending
            &&& (v.state == AskModeState::Pending || v.state == AskModeState::Active) && !deferred
                ==> e.state == AskModeState::Inactive
            &&& (v.state == AskModeState::Inactive || v.state == AskModeState::ExitPending)
                ==> e.state == v.state
            &&& e.pending_exit_reminder == (v.pending_exit_reminder || immediate)
            &&& e.reminder_count == v.reminder_count
            &&& e.session_dir == v.session_dir
        }),
{
}

/// A deferred exit completes into `Inactive` with the exit reminder queued;
/// in any other state completing changes nothing.
pub proof fn ask_complete_deferred_exit_effects(v: AskModeView)
    ensures
        v.state == AskModeState::ExitPending ==> ask_complete_deferred_exit(v).state
            == AskModeState::Inactive && ask_complete_deferred_exit(v).pending_exit_reminder,
        v.state != AskModeState::ExitPending ==> ask_complete_deferred_exit(v) == v,
{
}

/// Compaction while active restarts the reminder alternation and drops a
/// buffered activation; otherwise it changes nothing. A recorded injection
/// counts one more reminder and changes nothing else.
pub proof fn ask_reminder_bookkeeping(v: AskModeView)
    requires
        v.reminder_count < u32::MAX,
    ensures
        v.state == AskModeState::Active ==> ask_reset_after_compaction(v) == (AskModeView {
            reminder_count: 0,
            pending_activation: None,
            ..v
        }),
        v.state != AskModeState::Active ==> ask_reset_after_compaction(v) == v,
        ask_record_reminder(v) == (AskModeView { reminder_count: (v.reminder_count + 1) as u32, ..v }),
        ask_record_reminder(v).reminder_count == v.reminder_count + 1,
{
}

/// A fresh tracker is inactive, has never been active, has injected no
/// reminder and has nothing queued or buffered.
pub proof fn ask_fresh_tracker(dir: Seq<char>)
    ensures
        ({
            let t = ask_initial(dir);
            &&& t.state == AskModeState::Inactive
            &&& !t.was_previously_active
            &&& t.reminder_count == 0
            &&& !t.pending_exit_reminder
            &&& t.pending_activation is None
            &&& t.session_dir == dir
        }),
{
}

/// One call of a method that changes an [`AskModeTracker`], with its argument.
pub enum AskModeCall {
    EnterPending,
    Activate,
    ActivateMidTurn(Seq<char>),
    TakePendingActivation,
    UserExit(bool),
    CompleteDeferredExit,
    RecordReminderInjected,
    ClearPendingExitReminder,
    ResetAfterCompaction,
}

/// The tracker after one call, as the method's `ensures` states it.
pub open spec fn ask_step(v: AskModeView, call: AskModeCall) -> AskModeView {
    match call {
        AskModeCall::EnterPending => ask_enter_pending(v).0,
        AskModeCall::Activate => ask_activate(v).0,
        AskModeCall::ActivateMidTurn(text) => ask_activate_mid_turn(v, text).0,
        AskModeCall::TakePendingActivation => ask_take_pending_activation(v).0,
        AskModeCall::UserExit(turn_in_flight) => ask_user_exit(v, turn_in_flight),
        AskModeCall::CompleteDeferredExit => ask_complete_deferred_exit(v),
        AskModeCall::RecordReminderInjected => ask_record_reminder(v),
        AskModeCall::ClearPendingExitReminder => AskModeView { pending_exit_reminder: false, ..v },
        AskModeCall::ResetAfterCompaction => ask_reset_after_compaction(v),
    }
}

/// The tracker after a sequence of calls, first to last.
pub open spec fn ask_run(v: AskModeView, calls: Seq<AskModeCall>) -> AskModeView
    decreases calls.len(),
{
    if calls.len() == 0 {
        v
    } else {
        ask_run(ask_step(v, calls[0]), calls.drop_first())
    }
}

/// A tracker as `new` makes it (`restored` is `None`) or as `from_snapshot`
/// restores it.
pub open spec fn ask_start(dir: Seq<char>, restored: Option<AskModeSnapshot>) -> AskModeView {
    match restored {
        Some(s) => ask_from_snapshot(dir, s),
        None => ask_initial(dir),
    }
}

proof fn ask_run_keeps_wf(v: AskModeView, calls: Seq<AskModeCall>)
    requires
        ask_wf(v),
    ensures
        ask_wf(ask_run(v, calls)),
    decreases calls.len(),
{
    if calls.len() > 0 {
        ask_run_keeps_wf(ask_step(v, calls[0]), calls.drop_first());
    }
}

/// Whatever calls follow `new` or `from_snapshot`, a mid-turn activation is
/// buffered only while ask mode is active.
pub proof fn ask_buffered_activation_only_while_active(
    dir: Seq<char>,
    restored: Option<AskModeSnapshot>,
    calls: Seq<AskModeCall>,
)
    ensures
        ({
            let t = ask_run(ask_start(dir, restored), calls);
            t.pending_activation is Some ==> t.state == AskModeState::Active
        }),
{
    ask_run_keeps_wf(ask_start(dir, restored), calls);
}

/// Full ask-mode reminder (read-only Q&A playbook).
pub fn ask_mode_reminder_full_template() -> (r: &'static str)
    ensures
        r@ == "\
Ask mode is active. Answer the user's questions by exploring the codebase — do not make any edits or writes.

## Rules
- You MAY use read-only tools: read files, search/grep, list directories, web search/fetch, and ask clarifying questions.
- You MUST NOT edit, write, create, delete, or apply patches to any files.
- Prefer answering from evidence in the repo. Quote paths and symbols when helpful.
- If the user asks you to implement a change, explain the approach and suggest switching to Agent (or Plan) mode — do not attempt the edit yourself.
- Shell/MCP tools that mutate the system are out of scope; stick to inspection."@,
{
    "\
Ask mode is active. Answer the user's questions by exploring the codebase — do not make any edits or writes.

## Rules
- You MAY use read-only tools: read files, search/grep, list directories, web search/fetch, and ask clarifying questions.
- You MUST NOT edit, write, create, delete, or apply patches to any files.
- Prefer answering from evidence in the repo. Quote paths and symbols when helpful.
- If the user asks you to implement a change, explain the approach and suggest switching to Agent (or Plan) mode — do not attempt the edit yourself.
- Shell/MCP tools that mutate the system are out of scope; stick to inspection."
}

/// Sparse ask-mode reminder, used between full ones.
pub fn ask_mode_reminder_sparse_template() -> (r: &'static str)
    ensures
        r@ == "Ask mode is still active. Explore and answer questions only — no file edits or writes."@,
{
    "Ask mode is still active. Explore and answer questions only — no file edits or writes."
}

/// Reminder when ask mode is entered again.
pub fn ask_mode_reentry_reminder_template() -> (r: &'static str)
    ensures
        r@ == "\
## Returning to Ask Mode

You are entering ask mode again. Continue answering questions with read-only exploration. Do not edit files."@,
{
    "\
## Returning to Ask Mode

You are entering ask mode again. Continue answering questions with read-only exploration. Do not edit files."
}

/// Reminder after ask mode was turned off.
pub fn ask_mode_exit_reminder_template() -> (r: &'static str)
    ensures
        r@ == "Ask mode has been turned off. You may edit files and use the full toolset again, subject to normal permissions."@,
{
    "Ask mode has been turned off. You may edit files and use the full toolset again, subject to normal permissions."
}

/// Answer to a file edit attempted in ask mode.
pub fn ask_mode_edit_rejected_template() -> (r: &'static str)
    ensures
        r@ == "Rejected: file edits are not allowed in ask mode. Switch to Agent mode (or Plan mode) to make changes."@,
{
    "Rejected: file edits are not allowed in ask mode. Switch to Agent mode (or Plan mode) to make changes."
}

} // verus!
