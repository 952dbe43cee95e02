//! The interactive subcommands the engine understands, and the dispatch from
//! one command word to them.

use vstd::prelude::*;

verus! {

/// One subcommand of the interactive debugger.
#[derive(Clone, Copy, Debug, PartialEq, Eq, Structural)]
pub enum SubCommand {
    /// Continue the process execution.
    Continue,
}

/// A parsed debugger command.
#[derive(Clone, Copy, Debug, PartialEq, Eq, Structural)]
pub struct DbgArgs {
    pub sub_command: SubCommand,
}

impl DbgArgs {
    /// Parses one interactive command word; `None` when the word names no
    /// subcommand.
    pub fn parse_line(line: &str) -> (r: Option<DbgArgs>)
        ensures
            line@ == "continue"@ ==> r == Some((DbgArgs { sub_command: SubCommand::Continue })),
            line@ != "continue"@ ==> r is None,
    {
        let word = line.to_owned();
        let cont = "continue".to_owned();
        if word == cont {
            Some(DbgArgs { sub_command: SubCommand::Continue })
        } else {
            None
        }
    }
}

} // verus!
