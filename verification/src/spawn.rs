//! How an external agent is launched over stdio.
use vstd::prelude::*;

verus! {

/// The program, arguments and working directory of a stdio agent.
#[derive(Clone, Debug, PartialEq, Eq)]
pub struct StdioAcpSpawn {
    pub program: String,
    pub args: Vec<String>,
    pub cwd: Option<String>,
}

/// The arguments of `cursor-agent` in agent-protocol mode: trusted, forced
/// when running without approvals, scoped to the working directory when it
/// is known.
pub open spec fn cursor_agent_args(yolo: bool, cwd: Option<Seq<char>>) -> Seq<Seq<char>> {
    seq!["--trust"@] + (if yolo {
        seq!["--force"@]
    } else {
        seq![]
    }) + (match cwd {
        Some(d) => seq!["--workspace"@, d],
        None => seq![],
    }) + seq!["acp"@]
}

impl StdioAcpSpawn {
    pub fn cursor_agent(bin: &str, yolo: bool, cwd: Option<String>) -> (s: StdioAcpSpawn)
        ensures
            s.program@ == bin@,
            s.args@.map_values(|a: String| a@) == cursor_agent_args(yolo, crate::text::opt_view(cwd)),
            s.cwd == cwd,
    {
        let mut args: Vec<String> = Vec::new();
        args.push("--trust".to_owned());
        if yolo {
            args.push("--force".to_owned());
        }
        if let Some(d) = &cwd {
            args.push("--workspace".to_owned());
            args.push(d.clone());
        }
        args.push("acp".to_owned());
        assert(args@.map_values(|a: String| a@) =~= cursor_agent_args(yolo, crate::text::opt_view(cwd)));
        StdioAcpSpawn { program: bin.to_owned(), args, cwd }
    }
}

} // verus!
