//! The daemon's decision rule: from the current window visibility and an
//! incoming event to the action to perform and the next visibility. The
//! loop that waits for events, and the window the actions act on, live
//! outside the library.

use vstd::prelude::*;

use crate::events::DaemonEvent;
use crate::events::WindowEvent;
use crate::ipc::Command;

verus! {

/// What the daemon loop must do in reaction to one event.
#[derive(Clone, Copy, Debug, PartialEq, Eq, Structural)]
pub enum DaemonAction {
    /// Create and show the launcher window.
    OpenWindow,
    /// Close the launcher window.
    CloseWindow,
    /// Leave the event loop and exit.
    Quit,
    /// Nothing to do.
    Idle,
}

/// The daemon's reaction to `event` when the window is currently
/// `visible`: show on `Show`/`Toggle` while hidden, close on
/// `Hide`/`Toggle`/`RequestHide` while shown, quit on `Quit`,
/// otherwise do nothing.
pub open spec fn spec_daemon_step(visible: bool, event: DaemonEvent) -> (DaemonAction, bool) {
    match event {
        DaemonEvent::Window(WindowEvent::RequestHide) => {
            if visible {
                (DaemonAction::CloseWindow, false)
            } else {
                (DaemonAction::Idle, false)
            }
        },
        DaemonEvent::Ipc(Command::Show) => {
            if visible {
                (DaemonAction::Idle, true)
            } else {
                (DaemonAction::OpenWindow, true)
            }
        },
        DaemonEvent::Ipc(Command::Hide) => {
            if visible {
                (DaemonAction::CloseWindow, false)
            } else {
                (DaemonAction::Idle, false)
            }
        },
        DaemonEvent::Ipc(Command::Toggle) => {
            if visible {
                (DaemonAction::CloseWindow, false)
            } else {
                (DaemonAction::OpenWindow, true)
            }
        },
        DaemonEvent::Ipc(Command::Quit) => (DaemonAction::Quit, visible),
    }
}

/// One step of the daemon loop: decide what to do about `event` and what
/// the window visibility becomes once that action is carried out.
pub fn daemon_step(visible: bool, event: DaemonEvent) -> (r: (DaemonAction, bool))
    ensures
        r == spec_daemon_step(visible, event),
{
    match event {
        DaemonEvent::Window(WindowEvent::RequestHide) => {
            if visible {
                (DaemonAction::CloseWindow, false)
            } else {
                (DaemonAction::Idle, false)
            }
        },
        DaemonEvent::Ipc(Command::Show) => {
            if visible {
                (DaemonAction::Idle, true)
            } else {
                (DaemonAction::OpenWindow, true)
            }
        },
        DaemonEvent::Ipc(Command::Hide) => {
            if visible {
                (DaemonAction::CloseWindow, false)
            } else {
                (DaemonAction::Idle, false)
            }
        },
        DaemonEvent::Ipc(Command::Toggle) => {
            if visible {
                (DaemonAction::CloseWindow, false)
            } else {
                (DaemonAction::OpenWindow, true)
            }
        },
        DaemonEvent::Ipc(Command::Quit) => (DaemonAction::Quit, visible),
    }
}

} // verus!
