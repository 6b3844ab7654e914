//! The daemon's decision rule and the command vocabulary.

use zlaunch::cli::Commands;
use zlaunch::daemon::daemon_step;
use zlaunch::daemon::DaemonAction;
use zlaunch::events::DaemonEvent;
use zlaunch::events::WindowEvent;
use zlaunch::ipc::Command;
use zlaunch::ipc::Response;

#[test]
fn show_opens_only_when_hidden() {
    assert_eq!(
        daemon_step(false, DaemonEvent::Ipc(Command::Show)),
        (DaemonAction::OpenWindow, true)
    );
    assert_eq!(
        daemon_step(true, DaemonEvent::Ipc(Command::Show)),
        (DaemonAction::Idle, true)
    );
}

#[test]
fn hide_closes_only_when_visible() {
    assert_eq!(
        daemon_step(true, DaemonEvent::Ipc(Command::Hide)),
        (DaemonAction::CloseWindow, false)
    );
    assert_eq!(
        daemon_step(false, DaemonEvent::Ipc(Command::Hide)),
        (DaemonAction::Idle, false)
    );
}

#[test]
fn toggle_flips_visibility() {
    assert_eq!(
        daemon_step(false, DaemonEvent::Ipc(Command::Toggle)),
        (DaemonAction::OpenWindow, true)
    );
    assert_eq!(
        daemon_step(true, DaemonEvent::Ipc(Command::Toggle)),
        (DaemonAction::CloseWindow, false)
    );
}

#[test]
fn quit_quits_in_any_state() {
    assert_eq!(
        daemon_step(false, DaemonEvent::Ipc(Command::Quit)),
        (DaemonAction::Quit, false)
    );
    assert_eq!(
        daemon_step(true, DaemonEvent::Ipc(Command::Quit)),
        (DaemonAction::Quit, true)
    );
}

#[test]
fn request_hide_closes_only_when_visible() {
    assert_eq!(
        daemon_step(true, DaemonEvent::Window(WindowEvent::RequestHide)),
        (DaemonAction::CloseWindow, false)
    );
    assert_eq!(
        daemon_step(false, DaemonEvent::Window(WindowEvent::RequestHide)),
        (DaemonAction::Idle, false)
    );
}

#[test]
fn subcommands_map_to_their_ipc_commands() {
    assert_eq!(Commands::Show.to_ipc_command(), Command::Show);
    assert_eq!(Commands::Hide.to_ipc_command(), Command::Hide);
    assert_eq!(Commands::Toggle.to_ipc_command(), Command::Toggle);
    assert_eq!(Commands::Quit.to_ipc_command(), Command::Quit);
}

#[test]
fn events_convert_from_their_sources() {
    assert_eq!(
        DaemonEvent::from(Command::Show),
        DaemonEvent::Ipc(Command::Show)
    );
    assert_eq!(
        DaemonEvent::from(WindowEvent::RequestHide),
        DaemonEvent::Window(WindowEvent::RequestHide)
    );
}

#[test]
fn error_response_carries_its_message() {
    let r = Response::Error("no such window".to_string());
    assert!(matches!(r, Response::Error(ref m) if m == "no such window"));
    assert!(matches!(Response::Success, Response::Success));
}
