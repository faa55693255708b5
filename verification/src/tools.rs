//! The debug-mode agent tools: entering and leaving debug mode, parking for
//! the user's reproduction or verification, and reading the debug log. Each
//! tool's answer is computed here from its input and the session's paths.
use vstd::prelude::*;
use crate::text::{opt_view, trim_seq, trim_str};

verus! {

/// The run id a waiting tool reports: the given one trimmed, or `default`
/// when it is absent or blank.
pub open spec fn effective_run_id(run_id: Option<Seq<char>>, default: Seq<char>) -> Seq<char> {
    match run_id {
        Some(r) => if trim_seq(r).len() > 0 {
            trim_seq(r)
        } else {
            default
        },
        None => default,
    }
}

/// The reported run id is never blank unless the default is: a given id
/// with content is reported trimmed, otherwise the default.
pub proof fn run_id_defaults_when_blank(run_id: Option<Seq<char>>, default: Seq<char>)
    ensures
        (run_id matches Some(r) && trim_seq(r).len() > 0) ==> effective_run_id(run_id, default)
            == trim_seq(run_id->0),
        !(run_id matches Some(r) && trim_seq(r).len() > 0) ==> effective_run_id(run_id, default)
            == default,
        default.len() > 0 ==> effective_run_id(run_id, default).len() > 0,
{
}

pub fn pick_run_id(run_id: &Option<String>, default: &str) -> (r: String)
    ensures
        r@ == effective_run_id(opt_view(*run_id), default@),
{
    match run_id {
        Some(r) => {
            let t = trim_str(r.as_str());
            if t.unicode_len() > 0 {
                t.to_owned()
            } else {
                default.to_owned()
            }
        },
        None => default.to_owned(),
    }
}

// ---------------------------------------------------------------------------
// await_debug_reproduction
// ---------------------------------------------------------------------------

/// Input for awaiting the user's reproduction.
#[derive(Clone, Debug, PartialEq, Eq)]
pub struct AwaitDebugReproductionInput {
    /// Concrete steps the user should follow to reproduce the bug.
    pub steps: String,
    /// Correlation id written into the events of this run (default `run1`).
    pub run_id: Option<String>,
}

#[derive(Clone, Debug, PartialEq, Eq)]
pub enum AwaitDebugReproductionOutput {
    Waiting { message: String, run_id: String, debug_log_path: String, steps: String },
}

pub open spec fn reproduction_message(run_id: Seq<char>, steps: Seq<char>, path: Seq<char>) -> Seq<
    char,
> {
    "Waiting for the user to reproduce the bug (runId="@ + run_id
        + ").\n\nSteps presented to the user:\n"@ + trim_seq(steps)
        + "\n\nWhen they proceed, analyze NDJSON at "@ + path
        + " for this runId. Do not invent log lines."@
}

/// `await_debug_reproduction`.
#[derive(Clone, Copy, Debug, Default)]
pub struct AwaitDebugReproductionTool;

impl AwaitDebugReproductionTool {
    pub fn id(&self) -> (r: &'static str)
        ensures
            r@ == "await_debug_reproduction"@,
    {
        "await_debug_reproduction"
    }

    pub fn description_template(&self) -> (r: &'static str)
        ensures
            r@ == "After instrumenting the code, call this tool with concrete reproduction steps. The user will reproduce the bug while runtime logs are collected, then signal Proceed. Do not analyze logs until they proceed."@,
    {
        "After instrumenting the code, call this tool with concrete reproduction steps. The user will reproduce the bug while runtime logs are collected, then signal Proceed. Do not analyze logs until they proceed."
    }

    /// The answer given while the user has not proceeded yet.
    pub fn run(&self, input: AwaitDebugReproductionInput, debug_log_path: &str) -> (r:
        AwaitDebugReproductionOutput)
        ensures
            ({
                let run = effective_run_id(opt_view(input.run_id), "run1"@);
                r matches AwaitDebugReproductionOutput::Waiting {
                    message,
                    run_id,
                    debug_log_path: p,
                    steps,
                } && run_id@ == run && p@ == debug_log_path@ && steps@ == input.steps@
                    && message@ == reproduction_message(run, input.steps@, debug_log_path@)
            }),
    {
        let run_id = pick_run_id(&input.run_id, "run1");
        let message = "Waiting for the user to reproduce the bug (runId=".to_owned().concat(
            run_id.as_str(),
        ).concat(").\n\nSteps presented to the user:\n").concat(
            trim_str(input.steps.as_str()),
        ).concat("\n\nWhen they proceed, analyze NDJSON at ").concat(debug_log_path).concat(
            " for this runId. Do not invent log lines.",
        );
        AwaitDebugReproductionOutput::Waiting {
            message,
            run_id,
            debug_log_path: debug_log_path.to_owned(),
            steps: input.steps,
        }
    }
}

// ---------------------------------------------------------------------------
// await_debug_verification
// ---------------------------------------------------------------------------

/// Input for awaiting the user's verification.
#[derive(Clone, Debug, PartialEq, Eq)]
pub struct AwaitDebugVerificationInput {
    /// Short summary of the fix for the user to verify.
    pub summary: String,
    /// Correlation id for post-fix events (default `post-fix`).
    pub run_id: Option<String>,
}

#[derive(Clone, Debug, PartialEq, Eq)]
pub enum AwaitDebugVerificationOutput {
    Waiting { message: String, run_id: String, debug_log_path: String, summary: String },
}

pub open spec fn verification_message(run_id: Seq<char>, summary: Seq<char>, path: Seq<char>) -> Seq<
    char,
> {
    "Waiting for the user to verify the fix (runId="@ + run_id
        + ").\n\nSummary shown to the user:\n"@ + trim_seq(summary)
        + "\n\nOn Mark Fixed: remove all agent-log regions, then exit debug mode.\nOn Still broken: refine hypotheses/instrumentation and loop.\nLog path: "@
        + path
}

/// `await_debug_verification`.
#[derive(Clone, Copy, Debug, Default)]
pub struct AwaitDebugVerificationTool;

impl AwaitDebugVerificationTool {
    pub fn id(&self) -> (r: &'static str)
        ensures
            r@ == "await_debug_verification"@,
    {
        "await_debug_verification"
    }

    pub fn description_template(&self) -> (r: &'static str)
        ensures
            r@ == "After applying a fix (keeping instrumentation), call this so the user can re-reproduce and Mark Fixed or Still broken."@,
    {
        "After applying a fix (keeping instrumentation), call this so the user can re-reproduce and Mark Fixed or Still broken."
    }

    /// The answer given while the user has not verified yet.
    pub fn run(&self, input: AwaitDebugVerificationInput, debug_log_path: &str) -> (r:
        AwaitDebugVerificationOutput)
        ensures
            ({
                let run = effective_run_id(opt_view(input.run_id), "post-fix"@);
                r matches AwaitDebugVerificationOutput::Waiting {
                    message,
                    run_id,
                    debug_log_path: p,
                    summary,
                } && run_id@ == run && p@ == debug_log_path@ && summary@ == input.summary@
                    && message@ == verification_message(run, input.summary@, debug_log_path@)
            }),
    {
        let run_id = pick_run_id(&input.run_id, "post-fix");
        let message = "Waiting for the user to verify the fix (runId=".to_owned().concat(
            run_id.as_str(),
        ).concat(").\n\nSummary shown to the user:\n").concat(
            trim_str(input.summary.as_str()),
        ).concat(
            "\n\nOn Mark Fixed: remove all agent-log regions, then exit debug mode.\nOn Still broken: refine hypotheses/instrumentation and loop.\nLog path: ",
        ).concat(debug_log_path);
        AwaitDebugVerificationOutput::Waiting {
            message,
            run_id,
            debug_log_path: debug_log_path.to_owned(),
            summary: input.summary,
        }
    }
}

// ---------------------------------------------------------------------------
// exit_debug_mode
// ---------------------------------------------------------------------------

/// Input for leaving debug mode.
#[derive(Clone, Debug, PartialEq, Eq)]
pub struct ExitDebugModeInput {
    /// Optional note about residual instrumentation or outcome.
    pub note: Option<String>,
}

#[derive(Clone, Debug, PartialEq, Eq)]
pub enum ExitDebugModeOutput {
    Exited { message: String, debug_log_path: String },
}

pub open spec fn exit_message(note: Option<Seq<char>>, path: Seq<char>) -> Seq<char> {
    if note is Some && trim_seq(note->0).len() > 0 {
        "You have exited debug mode. "@ + trim_seq(note->0) + "\nDebug log was at: "@ + path
    } else {
        "You have exited debug mode. You can now work normally. Debug log was at: "@ + path
    }
}

/// `exit_debug_mode`.
#[derive(Clone, Copy, Debug, Default)]
pub struct ExitDebugModeTool;

impl ExitDebugModeTool {
    pub fn id(&self) -> (r: &'static str)
        ensures
            r@ == "exit_debug_mode"@,
    {
        "exit_debug_mode"
    }

    /// Leaving is offered only together with the entry tool.
    pub fn required_tool(&self) -> (r: Option<&'static str>)
        ensures
            r matches Some(t) && t@ == "enter_debug_mode"@,
    {
        Some("enter_debug_mode")
    }

    pub fn description_template(&self) -> (r: &'static str)
        ensures
            r@ == "Exit debug mode after removing instrumentation and finishing the debug loop. Call only after cleanup (or when abandoning with residual-log warning)."@,
    {
        "Exit debug mode after removing instrumentation and finishing the debug loop. Call only after cleanup (or when abandoning with residual-log warning)."
    }

    pub fn run(&self, input: &ExitDebugModeInput, debug_log_path: &str) -> (r: ExitDebugModeOutput)
        ensures
            r matches ExitDebugModeOutput::Exited { message, debug_log_path: p } && p@
                == debug_log_path@ && message@ == exit_message(opt_view(input.note), debug_log_path@),
    {
        let note = match &input.note {
            Some(n) => {
                let t = trim_str(n.as_str());
                if t.unicode_len() > 0 {
                    Some(t)
                } else {
                    None
                }
            },
            None => None,
        };
        let message = match note {
            Some(t) => "You have exited debug mode. ".to_owned().concat(t).concat(
                "\nDebug log was at: ",
            ).concat(debug_log_path),
            None => "You have exited debug mode. You can now work normally. Debug log was at: ".to_owned().concat(
                debug_log_path,
            ),
        };
        ExitDebugModeOutput::Exited { message, debug_log_path: debug_log_path.to_owned() }
    }
}

// ---------------------------------------------------------------------------
// enter_debug_mode
// ---------------------------------------------------------------------------

/// Input for entering debug mode (entry is a plain gate).
#[derive(Clone, Debug, PartialEq, Eq)]
pub struct EnterDebugModeInput {}

/// Why a debug artifact could not be seeded.
#[derive(Clone, Copy, Debug, PartialEq, Eq, Structural)]
pub enum DebugFileSeedFailure {
    /// No file system or path, or the file could not be probed.
    Unavailable,
    /// The file was missing and could not be created.
    NotCreated,
}

/// The state of a debug artifact after entry.
#[derive(Clone, Copy, Debug, PartialEq, Eq, Structural)]
pub enum DebugFileSeedStatus {
    Empty,
    NonEmpty,
    Missing(DebugFileSeedFailure),
}

/// What probing an artifact found.
#[derive(Clone, Copy, Debug, PartialEq, Eq, Structural)]
pub enum ArtifactProbe {
    /// The file exists and is empty.
    Empty,
    /// The file exists with content.
    NonEmpty,
    /// The file does not exist.
    NotFound,
    /// Reading failed for another reason.
    Failed,
}

/// The next step of seeding an artifact.
#[derive(Clone, Copy, Debug, PartialEq, Eq, Structural)]
pub enum SeedStep {
    /// Seeding is over with this status.
    Done(DebugFileSeedStatus),
    /// Create the file empty, then report with [`seed_after_create`].
    Create,
}

/// After probing: an existing file is reported as is, a missing one is to be
/// created, and a failed probe leaves the artifact unavailable.
pub fn seed_after_probe(probe: ArtifactProbe) -> (s: SeedStep)
    ensures
        probe == ArtifactProbe::Empty ==> s == SeedStep::Done(DebugFileSeedStatus::Empty),
        probe == ArtifactProbe::NonEmpty ==> s == SeedStep::Done(DebugFileSeedStatus::NonEmpty),
        probe == ArtifactProbe::NotFound ==> s == SeedStep::Create,
        probe == ArtifactProbe::Failed ==> s == SeedStep::Done(
            DebugFileSeedStatus::Missing(DebugFileSeedFailure::Unavailable),
        ),
{
    match probe {
        ArtifactProbe::Empty => SeedStep::Done(DebugFileSeedStatus::Empty),
        ArtifactProbe::NonEmpty => SeedStep::Done(DebugFileSeedStatus::NonEmpty),
        ArtifactProbe::NotFound => SeedStep::Create,
        ArtifactProbe::Failed => SeedStep::Done(
            DebugFileSeedStatus::Missing(DebugFileSeedFailure::Unavailable),
        ),
    }
}

/// After creating a missing artifact: empty when it was written.
pub fn seed_after_create(created: bool) -> (s: DebugFileSeedStatus)
    ensures
        created ==> s == DebugFileSeedStatus::Empty,
        !created ==> s == DebugFileSeedStatus::Missing(DebugFileSeedFailure::NotCreated),
{
    if created {
        DebugFileSeedStatus::Empty
    } else {
        DebugFileSeedStatus::Missing(DebugFileSeedFailure::NotCreated)
    }
}

/// The status of an artifact that could not even be probed (no file system
/// or no absolute path).
pub fn seed_unavailable() -> (s: DebugFileSeedStatus)
    ensures
        s == DebugFileSeedStatus::Missing(DebugFileSeedFailure::Unavailable),
{
    DebugFileSeedStatus::Missing(DebugFileSeedFailure::Unavailable)
}

/// The names of the tools the debug loop uses, as the model sees them.
#[derive(Clone, Debug, PartialEq, Eq)]
pub struct EnterDebugModeToolHints {
    pub await_repro: String,
    pub await_verify: String,
    pub read_logs: String,
    pub exit_debug: String,
    pub ask_user: String,
    pub task: String,
}

/// A rendered name, or the fallback when rendering failed.
pub open spec fn hint_or(rendered: Option<Seq<char>>, fallback: Seq<char>) -> Seq<char> {
    match rendered {
        Some(r) => r,
        None => fallback,
    }
}

fn hint(rendered: Option<String>, fallback: &str) -> (r: String)
    ensures
        r@ == hint_or(opt_view(rendered), fallback@),
{
    match rendered {
        Some(r) => r,
        None => fallback.to_owned(),
    }
}

impl Default for EnterDebugModeToolHints {
    /// No template renderer: every name is empty.
    fn default() -> (h: EnterDebugModeToolHints)
        ensures
            h.await_repro@.len() == 0,
            h.await_verify@.len() == 0,
            h.read_logs@.len() == 0,
            h.exit_debug@.len() == 0,
            h.ask_user@.len() == 0,
            h.task@.len() == 0,
    {
        EnterDebugModeToolHints {
            await_repro: String::new(),
            await_verify: String::new(),
            read_logs: String::new(),
            exit_debug: String::new(),
            ask_user: String::new(),
            task: String::new(),
        }
    }
}

impl EnterDebugModeToolHints {
    /// The rendered tool names (`None` where rendering failed), each falling
    /// back to the tool's own id; the task tool falls back to nothing.
    pub fn from_rendered(
        await_repro: Option<String>,
        await_verify: Option<String>,
        read_logs: Option<String>,
        exit_debug: Option<String>,
        ask_user: Option<String>,
        task: Option<String>,
    ) -> (h: EnterDebugModeToolHints)
        ensures
            h.await_repro@ == hint_or(opt_view(await_repro), "await_debug_reproduction"@),
            h.await_verify@ == hint_or(opt_view(await_verify), "await_debug_verification"@),
            h.read_logs@ == hint_or(opt_view(read_logs), "read_debug_logs"@),
            h.exit_debug@ == hint_or(opt_view(exit_debug), "exit_debug_mode"@),
            h.ask_user@ == hint_or(opt_view(ask_user), "ask_user_question"@),
            h.task@ == hint_or(opt_view(task), Seq::empty()),
    {
        proof {
            reveal_strlit("");
        }
        EnterDebugModeToolHints {
            await_repro: hint(await_repro, "await_debug_reproduction"),
            await_verify: hint(await_verify, "await_debug_verification"),
            read_logs: hint(read_logs, "read_debug_logs"),
            exit_debug: hint(exit_debug, "exit_debug_mode"),
            ask_user: hint(ask_user, "ask_user_question"),
            task: hint(task, ""),
        }
    }
}

#[derive(Clone, Debug, PartialEq, Eq)]
pub enum EnterDebugModeOutput {
    Entered {
        message: String,
        debug_log_path: String,
        debug_scratch_path: String,
        tool_hints: EnterDebugModeToolHints,
        debug_log_seed: DebugFileSeedStatus,
        debug_scratch_seed: DebugFileSeedStatus,
    },
}

pub open spec fn entered_message() -> Seq<char> {
    "You have entered debug mode. Explore the codebase, form hypotheses, instrument with NDJSON logs, and use the await tools for human reproduction and verification."@
}

/// `enter_debug_mode`.
#[derive(Clone, Copy, Debug, Default)]
pub struct EnterDebugModeTool;

impl EnterDebugModeTool {
    pub fn id(&self) -> (r: &'static str)
        ensures
            r@ == "enter_debug_mode"@,
    {
        "enter_debug_mode"
    }

    /// Entry is offered only together with the exit tool.
    pub fn required_tool(&self) -> (r: Option<&'static str>)
        ensures
            r matches Some(t) && t@ == "exit_debug_mode"@,
    {
        Some("exit_debug_mode")
    }

    pub fn description_template(&self) -> (r: &'static str)
        ensures
            r@ == "Use this tool when debugging a reproducible bug that needs runtime evidence. This enables debug mode: form multiple hypotheses, instrument with NDJSON logs, ask the user to reproduce, then apply a minimal fix from the logs."@,
    {
        "Use this tool when debugging a reproducible bug that needs runtime evidence. This enables debug mode: form multiple hypotheses, instrument with NDJSON logs, ask the user to reproduce, then apply a minimal fix from the logs."
    }

    /// The answer after entry, with the artifact paths, the tool names and
    /// how the two artifacts were seeded.
    pub fn run(
        &self,
        debug_log_path: &str,
        debug_scratch_path: &str,
        tool_hints: EnterDebugModeToolHints,
        debug_log_seed: DebugFileSeedStatus,
        debug_scratch_seed: DebugFileSeedStatus,
    ) -> (r: EnterDebugModeOutput)
        ensures
            r matches EnterDebugModeOutput::Entered {
                message,
                debug_log_path: lp,
                debug_scratch_path: sp,
                tool_hints: h,
                debug_log_seed: ls,
                debug_scratch_seed: ss,
            } && message@ == entered_message() && lp@ == debug_log_path@ && sp@
                == debug_scratch_path@ && h == tool_hints && ls == debug_log_seed && ss
                == debug_scratch_seed,
    {
        EnterDebugModeOutput::Entered {
            message: "You have entered debug mode. Explore the codebase, form hypotheses, instrument with NDJSON logs, and use the await tools for human reproduction and verification.".to_owned(),
            debug_log_path: debug_log_path.to_owned(),
            debug_scratch_path: debug_scratch_path.to_owned(),
            tool_hints,
            debug_log_seed,
            debug_scratch_seed,
        }
    }
}

// ---------------------------------------------------------------------------
// read_debug_logs
// ---------------------------------------------------------------------------

/// `read_debug_logs`.
#[derive(Clone, Copy, Debug, Default)]
pub struct ReadDebugLogsTool;

impl ReadDebugLogsTool {
    pub fn id(&self) -> (r: &'static str)
        ensures
            r@ == "read_debug_logs"@,
    {
        "read_debug_logs"
    }

    pub fn description_template(&self) -> (r: &'static str)
        ensures
            r@ == "Read and filter the session NDJSON debug log produced by instrumentation. Prefer this over asking the user to paste logs."@,
    {
        "Read and filter the session NDJSON debug log produced by instrumentation. Prefer this over asking the user to paste logs."
    }
}

} // verus!
