//! Agent backend selection: the in-process Grok shell or the Cursor agent.
//!
//! Naming, parsing and resolving a backend, the process-wide current and
//! relaunch slots, the Cursor readiness probe outcome, the argument list of a
//! relaunch into another backend, and the config text that records a choice.
use vstd::prelude::*;
use crate::text::{lower_code, lower_eq, lower_eq_str, opt_view, trim_is_idempotent, trim_seq, trim_str};

verus! {

/// Which agent this process talks to.
#[derive(Clone, Copy, Debug, PartialEq, Eq, Structural)]
pub enum AgentBackend {
    /// In-process Grok shell (the default).
    Grok,
    /// `cursor-agent acp`, authenticated with the local Cursor login.
    Cursor,
}

impl Default for AgentBackend {
    fn default() -> (b: AgentBackend)
        ensures
            b == AgentBackend::Grok,
    {
        AgentBackend::Grok
    }
}

/// The names a backend is parsed from (after trimming and ASCII lower-casing).
pub open spec fn parse_name_spec(raw: Seq<char>) -> Option<AgentBackend> {
    let t = trim_seq(raw);
    if lower_eq(t, "grok"@) || lower_eq(t, "spacex"@) || lower_eq(t, "spacexai"@) || lower_eq(
        t,
        "xai"@,
    ) {
        Some(AgentBackend::Grok)
    } else if lower_eq(t, "cursor"@) {
        Some(AgentBackend::Cursor)
    } else {
        None
    }
}

pub open spec fn backend_name(b: AgentBackend) -> Seq<char> {
    match b {
        AgentBackend::Grok => "grok"@,
        AgentBackend::Cursor => "cursor"@,
    }
}

pub open spec fn backend_display_name(b: AgentBackend) -> Seq<char> {
    match b {
        AgentBackend::Grok => "Grok Build"@,
        AgentBackend::Cursor => "Cursor"@,
    }
}

impl AgentBackend {
    pub fn as_str(self) -> (s: &'static str)
        ensures
            s@ == backend_name(self),
    {
        match self {
            AgentBackend::Grok => "grok",
            AgentBackend::Cursor => "cursor",
        }
    }

    pub fn display_name(self) -> (s: &'static str)
        ensures
            s@ == backend_display_name(self),
    {
        match self {
            AgentBackend::Grok => "Grok Build",
            AgentBackend::Cursor => "Cursor",
        }
    }

    pub fn parse_name(raw: &str) -> (r: Option<AgentBackend>)
        ensures
            r == parse_name_spec(raw@),
    {
        let t = trim_str(raw);
        if lower_eq_str(t, "grok") || lower_eq_str(t, "spacex") || lower_eq_str(t, "spacexai")
            || lower_eq_str(t, "xai") {
            Some(AgentBackend::Grok)
        } else if lower_eq_str(t, "cursor") {
            Some(AgentBackend::Cursor)
        } else {
            None
        }
    }

    pub fn is_cursor(self) -> (r: bool)
        ensures
            r == (self == AgentBackend::Cursor),
    {
        match self {
            AgentBackend::Cursor => true,
            AgentBackend::Grok => false,
        }
    }
}

/// The canonical name of a backend parses back to that backend.
pub proof fn parse_name_inverts_as_str(b: AgentBackend)
    ensures
        parse_name_spec(backend_name(b)) == Some(b),
{
    reveal_strlit("grok");
    reveal_strlit("cursor");
    reveal_strlit("spacex");
    reveal_strlit("spacexai");
    reveal_strlit("xai");
    let s = backend_name(b);
    assert(trim_seq(s) == s) by {
        reveal_with_fuel(trim_seq, 2);
    }
    assert(lower_eq(s, s));
    match b {
        AgentBackend::Grok => {
            assert(s.len() == 4);
        },
        AgentBackend::Cursor => {
            assert(!lower_eq(s, "grok"@));
            assert(!lower_eq(s, "spacex"@));
            assert(!lower_eq(s, "spacexai"@));
            assert(!lower_eq(s, "xai"@));
        },
    }
}

/// Backend names: `grok`, `spacex`, `spacexai` and `xai` name Grok and
/// `cursor` names Cursor, in any ASCII case and with surrounding whitespace;
/// nothing else names a backend.
pub proof fn backend_names(raw: Seq<char>)
    ensures
        (lower_eq(trim_seq(raw), "grok"@) || lower_eq(trim_seq(raw), "spacex"@) || lower_eq(
            trim_seq(raw),
            "spacexai"@,
        ) || lower_eq(trim_seq(raw), "xai"@)) ==> parse_name_spec(raw) == Some(AgentBackend::Grok),
        lower_eq(trim_seq(raw), "cursor"@) ==> parse_name_spec(raw) == Some(AgentBackend::Cursor),
        parse_name_spec(raw) is Some ==> (lower_eq(trim_seq(raw), "grok"@) || lower_eq(
            trim_seq(raw),
            "spacex"@,
        ) || lower_eq(trim_seq(raw), "spacexai"@) || lower_eq(trim_seq(raw), "xai"@) || lower_eq(
            trim_seq(raw),
            "cursor"@,
        )),
{
    reveal_strlit("cursor");
    reveal_strlit("spacex");
    reveal_strlit("grok");
    reveal_strlit("spacexai");
    reveal_strlit("xai");
    let t = trim_seq(raw);
    if lower_eq(t, "cursor"@) {
        assert(lower_code(t[0]) == 'c' as u32);
        assert(!lower_eq(t, "spacex"@));
    }
}

/// Parsing ignores surrounding whitespace.
pub proof fn parse_name_ignores_whitespace(raw: Seq<char>)
    ensures
        parse_name_spec(raw) == parse_name_spec(trim_seq(raw)),
{
    trim_is_idempotent(raw);
}

/// Backend precedence: a parsable environment value wins over the config,
/// a parsable configured provider over the default, and the default is Grok.
pub proof fn resolve_precedence(env_value: Option<Seq<char>>, config_provider: Option<Seq<char>>)
    ensures
        (env_value matches Some(e) && parse_name_spec(e) is Some) ==> resolve_spec(
            None,
            env_value,
            config_provider,
        ) == parse_name_spec(env_value->0)->0,
        !(env_value matches Some(e) && parse_name_spec(e) is Some) && (config_provider matches Some(
            c,
        ) && parse_name_spec(c) is Some) ==> resolve_spec(None, env_value, config_provider)
            == parse_name_spec(config_provider->0)->0,
        !(env_value matches Some(e) && parse_name_spec(e) is Some) && !(config_provider matches Some(
            c,
        ) && parse_name_spec(c) is Some) ==> resolve_spec(None, env_value, config_provider)
            == AgentBackend::Grok,
{
}

/// The byte a backend is stored as in the current-backend slot.
pub open spec fn encode_spec(b: AgentBackend) -> u8 {
    match b {
        AgentBackend::Grok => 0,
        AgentBackend::Cursor => 1,
    }
}

/// Reading the slot: 1 is Cursor, anything else Grok.
pub open spec fn decode_spec(v: u8) -> AgentBackend {
    if v == 1 {
        AgentBackend::Cursor
    } else {
        AgentBackend::Grok
    }
}

fn encode(backend: AgentBackend) -> (v: u8)
    ensures
        v == encode_spec(backend),
{
    match backend {
        AgentBackend::Grok => 0,
        AgentBackend::Cursor => 1,
    }
}

fn decode(v: u8) -> (b: AgentBackend)
    ensures
        b == decode_spec(v),
{
    if v == 1 {
        AgentBackend::Cursor
    } else {
        AgentBackend::Grok
    }
}

/// Decoding an encoded backend gives it back.
pub proof fn decode_encode(b: AgentBackend)
    ensures
        decode_spec(encode_spec(b)) == b,
{
}

/// The process-wide backend slots: the backend in use (stored encoded) and a
/// one-shot backend to relaunch into.
pub struct BackendSlots {
    current: u8,
    relaunch: Option<AgentBackend>,
}

impl View for BackendSlots {
    type V = (AgentBackend, Option<AgentBackend>);

    closed spec fn view(&self) -> (AgentBackend, Option<AgentBackend>) {
        (decode_spec(self.current), self.relaunch)
    }
}

impl BackendSlots {
    /// Fresh slots: Grok is current, no relaunch is requested.
    pub fn new() -> (s: BackendSlots)
        ensures
            s@ == (AgentBackend::Grok, None::<AgentBackend>),
    {
        BackendSlots { current: 0, relaunch: None }
    }
}

/// `set_current`: the current backend becomes `b`.
pub open spec fn slots_set_current(v: (AgentBackend, Option<AgentBackend>), b: AgentBackend) -> (
    AgentBackend,
    Option<AgentBackend>,
) {
    (b, v.1)
}

/// `set_relaunch`: `b` is requested for the next relaunch.
pub open spec fn slots_set_relaunch(v: (AgentBackend, Option<AgentBackend>), b: AgentBackend) -> (
    AgentBackend,
    Option<AgentBackend>,
) {
    (v.0, Some(b))
}

/// `take_relaunch`: hands out the request and clears it.
pub open spec fn slots_take_relaunch(v: (AgentBackend, Option<AgentBackend>)) -> (
    (AgentBackend, Option<AgentBackend>),
    Option<AgentBackend>,
) {
    ((v.0, None), v.1)
}

pub fn set_current(slots: &mut BackendSlots, backend: AgentBackend)
    ensures
        final(slots)@ == slots_set_current(old(slots)@, backend),
{
    slots.current = encode(backend);
}

pub fn current(slots: &BackendSlots) -> (b: AgentBackend)
    ensures
        b == slots@.0,
{
    decode(slots.current)
}

pub fn set_relaunch(slots: &mut BackendSlots, backend: AgentBackend)
    ensures
        final(slots)@ == slots_set_relaunch(old(slots)@, backend),
{
    slots.relaunch = Some(backend);
}

pub fn take_relaunch(slots: &mut BackendSlots) -> (r: Option<AgentBackend>)
    ensures
        (final(slots)@, r) == slots_take_relaunch(old(slots)@),
{
    let r = slots.relaunch;
    slots.relaunch = None;
    r
}

/// What `current` reads is what `set_current` wrote last, and setting it
/// leaves a relaunch request alone.
pub proof fn current_reads_last_set(v: (AgentBackend, Option<AgentBackend>), b: AgentBackend)
    ensures
        slots_set_current(v, b).0 == b,
        slots_set_current(v, b).1 == v.1,
{
}

/// A relaunch request is handed out exactly once, and taking it leaves the
/// current backend alone.
pub proof fn relaunch_taken_once(v: (AgentBackend, Option<AgentBackend>), b: AgentBackend)
    ensures
        slots_take_relaunch(slots_set_relaunch(v, b)).1 == Some(b),
        slots_take_relaunch(slots_take_relaunch(slots_set_relaunch(v, b)).0).1 is None,
        slots_take_relaunch(slots_set_relaunch(v, b)).0.0 == v.0,
{
}

/// Backend precedence: command line, then the environment value, then the
/// configured provider, then Grok. Values that do not parse are skipped.
pub open spec fn resolve_spec(
    cli: Option<AgentBackend>,
    env_value: Option<Seq<char>>,
    config_provider: Option<Seq<char>>,
) -> AgentBackend {
    if cli is Some {
        cli->0
    } else if env_value is Some && parse_name_spec(env_value->0) is Some {
        parse_name_spec(env_value->0)->0
    } else if config_provider is Some && parse_name_spec(config_provider->0) is Some {
        parse_name_spec(config_provider->0)->0
    } else {
        AgentBackend::Grok
    }
}

pub open spec fn opt_str_view(o: Option<&str>) -> Option<Seq<char>> {
    match o {
        Some(s) => Some(s@),
        None => None,
    }
}

/// Resolves the backend from the command-line choice, the value of the
/// backend environment variable and the configured `[backend].provider`.
pub fn resolve(
    cli: Option<AgentBackend>,
    env_value: Option<&str>,
    config_provider: Option<&str>,
) -> (b: AgentBackend)
    ensures
        b == resolve_spec(cli, opt_str_view(env_value), opt_str_view(config_provider)),
{
    if let Some(cli) = cli {
        return cli;
    }
    if let Some(raw) = env_value {
        if let Some(parsed) = AgentBackend::parse_name(raw) {
            return parsed;
        }
    }
    if let Some(raw) = config_provider {
        if let Some(parsed) = AgentBackend::parse_name(raw) {
            return parsed;
        }
    }
    AgentBackend::Grok
}

/// A command-line choice always wins.
pub proof fn resolve_prefers_cli_law(
    b: AgentBackend,
    env_value: Option<Seq<char>>,
    config_provider: Option<Seq<char>>,
)
    ensures
        resolve_spec(Some(b), env_value, config_provider) == b,
{
}

/// The login found for an authenticated Cursor agent.
#[derive(Clone, Debug, PartialEq, Eq)]
pub struct CursorLogin {
    pub email: Option<String>,
}

/// Outcome of looking for a signed-in Cursor agent.
#[derive(Clone, Debug, PartialEq, Eq)]
pub enum CursorProbe {
    Ready(CursorLogin),
    NotLoggedIn,
    Missing,
}

/// The probe outcome: no binary means `Missing`; a binary whose status check
/// did not report an authenticated login (including a failed check) means
/// `NotLoggedIn`; otherwise `Ready` with the email the status reported.
pub fn probe_cursor(binary_found: bool, authenticated: bool, email: Option<String>) -> (p:
    CursorProbe)
    ensures
        !binary_found ==> p == CursorProbe::Missing,
        binary_found && !authenticated ==> p == CursorProbe::NotLoggedIn,
        binary_found && authenticated ==> p == CursorProbe::Ready(CursorLogin { email }),
{
    if !binary_found {
        return CursorProbe::Missing;
    }
    if authenticated {
        CursorProbe::Ready(CursorLogin { email })
    } else {
        CursorProbe::NotLoggedIn
    }
}

pub open spec fn not_ready_message_spec(p: CursorProbe) -> Seq<char> {
    match p {
        CursorProbe::Ready(_) => Seq::empty(),
        CursorProbe::Missing => "cursor-agent not found. Install the Cursor CLI and sign in with `cursor-agent login`."@,
        CursorProbe::NotLoggedIn => "Cursor Agent is installed but not signed in. Run `cursor-agent login` in a terminal, then try /cursor again."@,
    }
}

pub fn cursor_not_ready_message(probe: &CursorProbe) -> (m: String)
    ensures
        m@ == not_ready_message_spec(*probe),
{
    match probe {
        CursorProbe::Ready(_) => String::new(),
        CursorProbe::Missing => "cursor-agent not found. Install the Cursor CLI and sign in with `cursor-agent login`.".to_owned(),
        CursorProbe::NotLoggedIn => "Cursor Agent is installed but not signed in. Run `cursor-agent login` in a terminal, then try /cursor again.".to_owned(),
    }
}

/// The binary to launch once the probe succeeded, found again after the
/// probe; otherwise the reason it cannot be used.
pub fn ensure_cursor_ready(probe: &CursorProbe, binary: Option<String>) -> (r: Result<
    String,
    String,
>)
    ensures
        match *probe {
            CursorProbe::Ready(_) => match binary {
                Some(b) => r == Ok::<String, String>(b),
                None => r is Err && r->Err_0@
                    == "cursor-agent disappeared after a successful probe"@,
            },
            _ => r is Err && r->Err_0@ == not_ready_message_spec(*probe),
        },
{
    match probe {
        CursorProbe::Ready(_) => match binary {
            Some(b) => Ok(b),
            None => Err("cursor-agent disappeared after a successful probe".to_owned()),
        },
        _ => Err(cursor_not_ready_message(probe)),
    }
}

/// The other backend, named in the hint printed before a relaunch.
pub open spec fn switch_back_name(b: AgentBackend) -> Seq<char> {
    match b {
        AgentBackend::Grok => "cursor"@,
        AgentBackend::Cursor => "grok"@,
    }
}

/// The line printed before relaunching into `backend`.
pub fn relaunch_notice(backend: AgentBackend) -> (m: String)
    ensures
        m@ == "Switching to "@ + backend_display_name(backend) + "… (switch back with /"@
            + switch_back_name(backend) + ")"@,
{
    let back = match backend {
        AgentBackend::Grok => "cursor",
        AgentBackend::Cursor => "grok",
    };
    "Switching to ".to_owned().concat(backend.display_name()).concat("… (switch back with /").concat(
        back,
    ).concat(")")
}

/// The text that `toml_edit` gives back after parsing `text` as a document,
/// setting the string `value` at `key` of the table `table` (creating that
/// table where it is missing, keeping everything else with its formatting)
/// and printing the document again; `None` when it cannot be done.
pub uninterp spec fn toml_with_string(
    text: Seq<char>,
    table: Seq<char>,
    key: Seq<char>,
    value: Seq<char>,
) -> Option<Seq<char>>;

/// `toml_edit`: parses `text` into a `DocumentMut`, sets `doc[table][key]`
/// to the string `value`, and prints the document. `None` when the text does
/// not parse, or when `table` holds a plain value or an array of tables, so
/// that there is no table to write into (where indexing with `[..]` would
/// panic). Claimed: the result is the name applied to the four strings;
/// nothing is said of its content.
#[verifier::external_body]
fn set_toml_string(text: &str, table: &str, key: &str, value: &str) -> (r: Option<String>)
    ensures
        opt_view(r) == toml_with_string(text@, table@, key@, value@),
{
    let mut doc = text.parse::<toml_edit::DocumentMut>().ok()?;
    let slot = doc[table].get_mut(key)?;
    *slot = toml_edit::value(value);
    Some(doc.to_string())
}

/// The string that the `toml` crate reads at `key` of the table `table`
/// when it parses `text` into a `toml::Value`; `None` when the text does not
/// parse or holds no string there.
pub uninterp spec fn toml_string_at(text: Seq<char>, table: Seq<char>, key: Seq<char>) -> Option<
    Seq<char>,
>;

/// `toml::from_str::<toml::Value>(text)`, then `.get(table)`, `.get(key)`
/// and `.as_str()`. Claimed: the result is the name applied to the three
/// strings.
#[verifier::external_body]
fn read_toml_string(text: &str, table: &str, key: &str) -> (r: Option<String>)
    ensures
        opt_view(r) == toml_string_at(text@, table@, key@),
{
    let config: toml::Value = toml::from_str(text).ok()?;
    Some(config.get(table)?.get(key)?.as_str()?.to_owned())
}

/// The configured `[backend].provider` of a config text.
pub fn config_provider(config_text: &str) -> (r: Option<String>)
    ensures
        opt_view(r) == toml_string_at(config_text@, "backend"@, "provider"@),
{
    read_toml_string(config_text, "backend", "provider")
}

/// Resolves the backend from the command-line choice, the value of the
/// backend environment variable and the text of the config file (`None`
/// when there is none).
pub fn resolve_config_text(
    cli: Option<AgentBackend>,
    env_value: Option<&str>,
    config_text: Option<&str>,
) -> (b: AgentBackend)
    ensures
        b == resolve_spec(
            cli,
            opt_str_view(env_value),
            match config_text {
                Some(t) => toml_string_at(t@, "backend"@, "provider"@),
                None => None,
            },
        ),
{
    let provider = match config_text {
        Some(t) => config_provider(t),
        None => None,
    };
    match &provider {
        Some(p) => resolve(cli, env_value, Some(p.as_str())),
        None => resolve(cli, env_value, None),
    }
}

/// A persisted provider is the backend's canonical name, and a configured
/// provider with that name resolves to that backend when neither the command
/// line nor a parsable environment value chooses first.
pub proof fn persisted_name_resolves(b: AgentBackend, env_value: Option<Seq<char>>)
    requires
        env_value is Some ==> parse_name_spec(env_value->0) is None,
    ensures
        resolve_spec(None, env_value, Some(backend_name(b))) == b,
{
    parse_name_inverts_as_str(b);
}

/// What a config file reads before persisting: its text, or nothing when
/// there is no file yet.
pub open spec fn config_text_before(existing: Option<&str>) -> Seq<char> {
    match existing {
        Some(t) => t@,
        None => Seq::empty(),
    }
}

/// The config text that records `backend` as `[backend].provider`, given the
/// current text of the config file (`None` when the file does not exist yet).
/// `None` when the current text cannot be edited; the file is then left as it
/// is and no error is raised.
pub fn persist(existing: Option<&str>, backend: AgentBackend) -> (r: Option<String>)
    ensures
        opt_view(r) == toml_with_string(
            config_text_before(existing),
            "backend"@,
            "provider"@,
            backend_name(backend),
        ),
{
    let text = match existing {
        Some(t) => t,
        None => "",
    };
    proof {
        reveal_strlit("");
        assert(text@ =~= config_text_before(existing));
    }
    set_toml_string(text, "backend", "provider", backend.as_str())
}

} // verus!
