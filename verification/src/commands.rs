//! Slash commands: `/ask`, `/debug-mode`, `/backend`, `/cursor` and `/grok`.
//!
//! Each command turns its argument text into a [`CommandResult`]: a message,
//! an error, or an [`Action`] for the application to perform.
use vstd::prelude::*;
use crate::backend::{AgentBackend, parse_name_spec};
use crate::text::{lower_eq, lower_eq_str, trim_seq, trim_str, is_blank};

verus! {

/// What the application is asked to do.
#[derive(Clone, Debug, PartialEq, Eq)]
pub enum Action {
    /// Turn ask mode on or off for the next prompts.
    SetAskMode(bool),
    /// Enter ask mode and start a turn with the given question.
    EnterAskMode { description: Option<String> },
    /// Turn debug mode on or off for the next prompts.
    SetDebugMode(bool),
    /// Enter debug mode and start a turn with the given bug description.
    EnterDebugMode { description: Option<String> },
    /// Relaunch on another agent backend.
    SwitchAcpBackend(AgentBackend),
}

/// The outcome of running a slash command.
#[derive(Clone, Debug, PartialEq, Eq)]
pub enum CommandResult {
    Message(String),
    Error(String),
    Action(Action),
}

/// A completion offered for a command's argument.
#[derive(Clone, Debug, PartialEq, Eq)]
pub struct ArgItem {
    pub display: String,
    pub match_text: String,
    pub insert_text: String,
    pub description: String,
}

/// The words that turn a mode off.
pub open spec fn is_off_word(t: Seq<char>) -> bool {
    lower_eq(t, "off"@) || lower_eq(t, "exit"@) || lower_eq(t, "false"@)
}

fn off_word(t: &str) -> (r: bool)
    ensures
        r == is_off_word(t@),
{
    lower_eq_str(t, "off") || lower_eq_str(t, "exit") || lower_eq_str(t, "false")
}

/// `/ask [question]`.
pub struct AskCommand;

impl AskCommand {
    pub fn name(&self) -> (r: &'static str)
        ensures
            r@ == "ask"@,
    {
        "ask"
    }

    pub fn description(&self) -> (r: &'static str)
        ensures
            r@ == "Enter ask mode (read-only Q&A; explore without edits)"@,
    {
        "Enter ask mode (read-only Q&A; explore without edits)"
    }

    pub fn session_scoped(&self) -> (r: bool)
        ensures
            r,
    {
        true
    }

    pub fn usage(&self) -> (r: &'static str)
        ensures
            r@ == "/ask [question]"@,
    {
        "/ask [question]"
    }

    pub fn takes_args(&self) -> (r: bool)
        ensures
            r,
    {
        true
    }

    pub fn arg_placeholder(&self) -> (r: Option<&'static str>)
        ensures
            r matches Some(p) && p@ == "[question]"@,
    {
        Some("[question]")
    }

    /// No argument enters ask mode; `off`, `exit` or `false` (any ASCII
    /// case) leaves it; anything else enters it with that question.
    pub fn run(&self, args: &str) -> (r: CommandResult)
        ensures
            trim_seq(args@).len() == 0 ==> r == CommandResult::Action(Action::SetAskMode(true)),
            trim_seq(args@).len() != 0 && is_off_word(trim_seq(args@)) ==> r
                == CommandResult::Action(Action::SetAskMode(false)),
            trim_seq(args@).len() != 0 && !is_off_word(trim_seq(args@)) ==> (r matches CommandResult::Action(
                Action::EnterAskMode { description: Some(d) },
            ) && d@ == trim_seq(args@)),
    {
        let trimmed = trim_str(args);
        if trimmed.unicode_len() == 0 {
            return CommandResult::Action(Action::SetAskMode(true));
        }
        if off_word(trimmed) {
            return CommandResult::Action(Action::SetAskMode(false));
        }
        CommandResult::Action(Action::EnterAskMode { description: Some(trimmed.to_owned()) })
    }
}

/// `/debug-mode [bug description]`.
pub struct DebugModeCommand;

impl DebugModeCommand {
    pub fn name(&self) -> (r: &'static str)
        ensures
            r@ == "debug-mode"@,
    {
        "debug-mode"
    }

    pub fn description(&self) -> (r: &'static str)
        ensures
            r@ == "Enter debug mode (hypothesize, instrument, reproduce, fix)"@,
    {
        "Enter debug mode (hypothesize, instrument, reproduce, fix)"
    }

    pub fn session_scoped(&self) -> (r: bool)
        ensures
            r,
    {
        true
    }

    pub fn usage(&self) -> (r: &'static str)
        ensures
            r@ == "/debug-mode [bug description]"@,
    {
        "/debug-mode [bug description]"
    }

    pub fn takes_args(&self) -> (r: bool)
        ensures
            r,
    {
        true
    }

    pub fn arg_placeholder(&self) -> (r: Option<&'static str>)
        ensures
            r matches Some(p) && p@ == "[bug description]"@,
    {
        Some("[bug description]")
    }

    /// No argument enters debug mode; `off`, `exit` or `false` (any ASCII
    /// case) leaves it; anything else enters it with that bug description.
    pub fn run(&self, args: &str) -> (r: CommandResult)
        ensures
            trim_seq(args@).len() == 0 ==> r == CommandResult::Action(Action::SetDebugMode(true)),
            trim_seq(args@).len() != 0 && is_off_word(trim_seq(args@)) ==> r
                == CommandResult::Action(Action::SetDebugMode(false)),
            trim_seq(args@).len() != 0 && !is_off_word(trim_seq(args@)) ==> (r matches CommandResult::Action(
                Action::EnterDebugMode { description: Some(d) },
            ) && d@ == trim_seq(args@)),
    {
        let trimmed = trim_str(args);
        if trimmed.unicode_len() == 0 {
            return CommandResult::Action(Action::SetDebugMode(true));
        }
        if off_word(trimmed) {
            return CommandResult::Action(Action::SetDebugMode(false));
        }
        CommandResult::Action(Action::EnterDebugMode { description: Some(trimmed.to_owned()) })
    }
}

pub open spec fn status_message_spec(current: AgentBackend) -> Seq<char> {
    match current {
        AgentBackend::Grok => "Backend: Grok Build (SpaceXAI). Use /cursor to run on your Cursor subscription."@,
        AgentBackend::Cursor => "Backend: Cursor (local cursor-agent login). Use /grok to switch back to Grok Build."@,
    }
}

/// The status line shown by a bare `/backend`.
pub fn status_message(current: AgentBackend) -> (m: String)
    ensures
        m@ == status_message_spec(current),
{
    match current {
        AgentBackend::Grok => "Backend: Grok Build (SpaceXAI). Use /cursor to run on your Cursor subscription.".to_owned(),
        AgentBackend::Cursor => "Backend: Cursor (local cursor-agent login). Use /grok to switch back to Grok Build.".to_owned(),
    }
}

/// `q` lower-cased is a prefix of `name`.
pub open spec fn lower_prefix_of(q: Seq<char>, name: Seq<char>) -> bool {
    q.len() <= name.len() && lower_eq(q, name.subrange(0, q.len() as int))
}

fn lower_is_prefix_of(q: &str, name: &str) -> (r: bool)
    ensures
        r == lower_prefix_of(q@, name@),
{
    let n = q.unicode_len();
    let m = name.unicode_len();
    if n > m {
        return false;
    }
    lower_eq_str(q, name.substring_char(0, n))
}

/// The completions of `/backend`: a backend name and what it runs.
pub open spec fn backend_choices() -> Seq<(Seq<char>, Seq<char>)> {
    seq![("grok"@, "SpaceXAI / Grok Build"@), ("cursor"@, "Cursor Agent (existing login)"@)]
}

/// The completions offered for `q`: those whose name starts with `q`
/// lower-cased (all of them for a blank query).
pub open spec fn suggested(q: Seq<char>) -> Seq<(Seq<char>, Seq<char>)> {
    backend_choices().filter(|c: (Seq<char>, Seq<char>)| q.len() == 0 || lower_prefix_of(q, c.0))
}

pub open spec fn arg_item_view(a: ArgItem) -> (Seq<char>, Seq<char>) {
    (a.display@, a.description@)
}

pub open spec fn arg_item_ok(a: ArgItem) -> bool {
    a.match_text@ == a.display@ && a.insert_text@ == a.display@
}

fn arg_item(name: &str, desc: &str) -> (a: ArgItem)
    ensures
        arg_item_view(a) == (name@, desc@),
        arg_item_ok(a),
{
    ArgItem {
        display: name.to_owned(),
        match_text: name.to_owned(),
        insert_text: name.to_owned(),
        description: desc.to_owned(),
    }
}

/// `/backend [grok|cursor]`.
pub struct BackendCommand;

impl BackendCommand {
    pub fn name(&self) -> (r: &'static str)
        ensures
            r@ == "backend"@,
    {
        "backend"
    }

    pub fn aliases(&self) -> (r: Vec<&'static str>)
        ensures
            r@.len() == 1,
            r@[0]@ == "provider"@,
    {
        let mut v: Vec<&'static str> = Vec::new();
        v.push("provider");
        v
    }

    pub fn description(&self) -> (r: &'static str)
        ensures
            r@ == "Switch between Grok Build and Cursor (subscription)"@,
    {
        "Switch between Grok Build and Cursor (subscription)"
    }

    pub fn usage(&self) -> (r: &'static str)
        ensures
            r@ == "/backend [grok|cursor]"@,
    {
        "/backend [grok|cursor]"
    }

    pub fn takes_args(&self) -> (r: bool)
        ensures
            r,
    {
        true
    }

    pub fn arg_placeholder(&self) -> (r: Option<&'static str>)
        ensures
            r matches Some(p) && p@ == "[grok|cursor]"@,
    {
        Some("[grok|cursor]")
    }

    /// The backend names matching the (trimmed) query, or `None` when none does.
    pub fn suggest_args(&self, args_query: &str) -> (r: Option<Vec<ArgItem>>)
        ensures
            ({
                let q = trim_seq(args_query@);
                match r {
                    None => suggested(q).len() == 0,
                    Some(items) => {
                        &&& suggested(q).len() > 0
                        &&& items@.map_values(|a: ArgItem| arg_item_view(a)) == suggested(q)
                        &&& forall|i: int| 0 <= i < items@.len() ==> arg_item_ok(#[trigger] items@[i])
                    },
                }
            }),
    {
        let q = trim_str(args_query);
        let blank = q.unicode_len() == 0;
        let mut items: Vec<ArgItem> = Vec::new();
        let grok_ok = blank || lower_is_prefix_of(q, "grok");
        let cursor_ok = blank || lower_is_prefix_of(q, "cursor");
        if grok_ok {
            items.push(arg_item("grok", "SpaceXAI / Grok Build"));
        }
        if cursor_ok {
            items.push(arg_item("cursor", "Cursor Agent (existing login)"));
        }
        proof {
            let f = |c: (Seq<char>, Seq<char>)| q@.len() == 0 || lower_prefix_of(q@, c.0);
            let cs = backend_choices();
            reveal_with_fuel(Seq::filter, 3);
            assert(cs.drop_last().drop_last() =~= Seq::<(Seq<char>, Seq<char>)>::empty());
            assert(cs.drop_last() =~= seq![cs[0]]);
            assert(items@.map_values(|a: ArgItem| arg_item_view(a)) =~= cs.filter(f));
        }
        if items.len() == 0 {
            None
        } else {
            Some(items)
        }
    }

    /// No argument shows the current backend; a backend name switches to
    /// it; anything else is an error.
    pub fn run(&self, current: AgentBackend, args: &str) -> (r: CommandResult)
        ensures
            ({
                let t = trim_seq(args@);
                &&& t.len() == 0 ==> (r matches CommandResult::Message(m) && m@
                    == status_message_spec(current))
                &&& t.len() != 0 && parse_name_spec(t) is Some ==> r == CommandResult::Action(
                    Action::SwitchAcpBackend(parse_name_spec(t)->0),
                )
                &&& t.len() != 0 && parse_name_spec(t) is None ==> (r matches CommandResult::Error(
                    e,
                ) && e@ == "Unknown backend '"@ + t + "'. Use grok or cursor."@)
            }),
    {
        let trimmed = trim_str(args);
        if trimmed.unicode_len() == 0 {
            return CommandResult::Message(status_message(current));
        }
        match AgentBackend::parse_name(trimmed) {
            Some(backend) => CommandResult::Action(Action::SwitchAcpBackend(backend)),
            None => CommandResult::Error(
                "Unknown backend '".to_owned().concat(trimmed).concat("'. Use grok or cursor."),
            ),
        }
    }
}

/// `/cursor`.
pub struct CursorCommand;

impl CursorCommand {
    pub fn name(&self) -> (r: &'static str)
        ensures
            r@ == "cursor"@,
    {
        "cursor"
    }

    pub fn description(&self) -> (r: &'static str)
        ensures
            r@ == "Use Cursor Agent (existing machine login)"@,
    {
        "Use Cursor Agent (existing machine login)"
    }

    pub fn usage(&self) -> (r: &'static str)
        ensures
            r@ == "/cursor"@,
    {
        "/cursor"
    }

    /// Switches to Cursor; takes no argument.
    pub fn run(&self, args: &str) -> (r: CommandResult)
        ensures
            trim_seq(args@).len() == 0 ==> r == CommandResult::Action(
                Action::SwitchAcpBackend(AgentBackend::Cursor),
            ),
            trim_seq(args@).len() != 0 ==> (r matches CommandResult::Error(e) && e@
                == "/cursor does not take arguments"@),
    {
        if !is_blank(args) {
            return CommandResult::Error("/cursor does not take arguments".to_owned());
        }
        CommandResult::Action(Action::SwitchAcpBackend(AgentBackend::Cursor))
    }
}

/// `/grok`.
pub struct GrokCommand;

impl GrokCommand {
    pub fn name(&self) -> (r: &'static str)
        ensures
            r@ == "grok"@,
    {
        "grok"
    }

    pub fn aliases(&self) -> (r: Vec<&'static str>)
        ensures
            r@.len() == 1,
            r@[0]@ == "spacex"@,
    {
        let mut v: Vec<&'static str> = Vec::new();
        v.push("spacex");
        v
    }

    pub fn description(&self) -> (r: &'static str)
        ensures
            r@ == "Use Grok Build (SpaceXAI)"@,
    {
        "Use Grok Build (SpaceXAI)"
    }

    pub fn usage(&self) -> (r: &'static str)
        ensures
            r@ == "/grok"@,
    {
        "/grok"
    }

    /// Switches back to Grok; takes no argument.
    pub fn run(&self, args: &str) -> (r: CommandResult)
        ensures
            trim_seq(args@).len() == 0 ==> r == CommandResult::Action(
                Action::SwitchAcpBackend(AgentBackend::Grok),
            ),
            trim_seq(args@).len() != 0 ==> (r matches CommandResult::Error(e) && e@
                == "/grok does not take arguments"@),
    {
        if !is_blank(args) {
            return CommandResult::Error("/grok does not take arguments".to_owned());
        }
        CommandResult::Action(Action::SwitchAcpBackend(AgentBackend::Grok))
    }
}

/// `off`, `exit` and `false`, in any ASCII case, turn a mode off; no other
/// word does.
pub proof fn off_words(t: Seq<char>)
    ensures
        is_off_word(t) <==> (lower_eq(t, "off"@) || lower_eq(t, "exit"@) || lower_eq(t, "false"@)),
{
}

/// `/backend` offers `grok` and then `cursor`, each when the query is blank
/// or an ASCII-case-insensitive prefix of its name.
pub proof fn backend_suggestions(q: Seq<char>)
    ensures
        suggested(q) == (if q.len() == 0 || lower_prefix_of(q, "grok"@) {
            seq![("grok"@, "SpaceXAI / Grok Build"@)]
        } else {
            Seq::empty()
        }) + (if q.len() == 0 || lower_prefix_of(q, "cursor"@) {
            seq![("cursor"@, "Cursor Agent (existing login)"@)]
        } else {
            Seq::empty()
        }),
{
    let f = |c: (Seq<char>, Seq<char>)| q.len() == 0 || lower_prefix_of(q, c.0);
    let cs = backend_choices();
    reveal_with_fuel(Seq::filter, 3);
    assert(cs.drop_last().drop_last() =~= Seq::<(Seq<char>, Seq<char>)>::empty());
    assert(cs.drop_last() =~= seq![cs[0]]);
    let expected = (if q.len() == 0 || lower_prefix_of(q, "grok"@) {
        seq![("grok"@, "SpaceXAI / Grok Build"@)]
    } else {
        Seq::empty()
    }) + (if q.len() == 0 || lower_prefix_of(q, "cursor"@) {
        seq![("cursor"@, "Cursor Agent (existing login)"@)]
    } else {
        Seq::empty()
    });
    assert(cs.filter(f) =~= expected);
}

} // verus!
