//! The command set exchanged between a client invocation and the running
//! daemon. The wire encoding and the socket live outside the library; the
//! library only defines the vocabulary.

use vstd::prelude::*;

verus! {

/// A request sent to the daemon.
#[derive(Clone, Copy, Debug, PartialEq, Eq, Structural)]
pub enum Command {
    /// Show the launcher window.
    Show,
    /// Hide the launcher window.
    Hide,
    /// Toggle the launcher window visibility.
    Toggle,
    /// Quit the daemon.
    Quit,
}

/// The daemon's answer to a request.
#[derive(Clone, Debug)]
pub enum Response {
    Success,
    Error(String),
}

} // verus!
