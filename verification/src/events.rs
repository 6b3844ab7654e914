//! Events that drive the daemon loop: commands arriving over IPC and
//! requests coming back from the window.

use vstd::prelude::*;

use crate::ipc::Command;

verus! {

/// Events that the UI can send to the daemon.
#[derive(Clone, Copy, Debug, PartialEq, Eq, Structural)]
pub enum WindowEvent {
    /// The window asks to be hidden (escape pressed, or an entry launched).
    RequestHide,
}

/// Unified event type for the daemon event loop: IPC commands and window
/// events merged into a single stream.
#[derive(Clone, Copy, Debug, PartialEq, Eq, Structural)]
pub enum DaemonEvent {
    /// IPC command received from an external client.
    Ipc(Command),
    /// Window event from the UI.
    Window(WindowEvent),
}

impl From<Command> for DaemonEvent {
    fn from(cmd: Command) -> (r: DaemonEvent) {
        DaemonEvent::Ipc(cmd)
    }
}

impl vstd::std_specs::convert::FromSpecImpl<Command> for DaemonEvent {
    open spec fn obeys_from_spec() -> bool {
        true
    }

    open spec fn from_spec(cmd: Command) -> DaemonEvent {
        DaemonEvent::Ipc(cmd)
    }
}

impl From<WindowEvent> for DaemonEvent {
    fn from(event: WindowEvent) -> (r: DaemonEvent) {
        DaemonEvent::Window(event)
    }
}

impl vstd::std_specs::convert::FromSpecImpl<WindowEvent> for DaemonEvent {
    open spec fn obeys_from_spec() -> bool {
        true
    }

    open spec fn from_spec(event: WindowEvent) -> DaemonEvent {
        DaemonEvent::Window(event)
    }
}

} // verus!
