//! Command-line vocabulary. Argument parsing itself happens outside the
//! library; here stands the mapping from a parsed subcommand to the daemon
//! command it requests.

use vstd::prelude::*;

use crate::ipc::Command;

verus! {

/// The parsed command line: an optional subcommand. With none, the binary
/// runs as the daemon.
#[derive(Clone, Debug)]
pub struct Cli {
    pub command: Option<Commands>,
}

/// The subcommands a client invocation can carry.
#[derive(Clone, Copy, Debug, PartialEq, Eq, Structural)]
pub enum Commands {
    /// Show the launcher window.
    Show,
    /// Hide the launcher window.
    Hide,
    /// Toggle the launcher window visibility.
    Toggle,
    /// Quit the daemon.
    Quit,
}

impl Commands {
    /// The daemon command that this subcommand stands for.
    pub open spec fn spec_ipc_command(self) -> Command {
        match self {
            Commands::Show => Command::Show,
            Commands::Hide => Command::Hide,
            Commands::Toggle => Command::Toggle,
            Commands::Quit => Command::Quit,
        }
    }

    /// Convert to IPC command.
    pub fn to_ipc_command(&self) -> (r: Command)
        ensures
            r == self.spec_ipc_command(),
    {
        match self {
            Commands::Show => Command::Show,
            Commands::Hide => Command::Hide,
            Commands::Toggle => Command::Toggle,
            Commands::Quit => Command::Quit,
        }
    }
}

} // verus!
