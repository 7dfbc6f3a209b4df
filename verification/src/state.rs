//! Application state: the active screen, the keys the widgets understand,
//! and the event loop's key dispatch.

use vstd::prelude::*;

verus! {

/// The screen the application is currently showing.
#[derive(Clone, Copy, Debug, PartialEq, Eq, Structural)]
pub enum Screen {
    Home,
    AddSample,
    FileBrowser,
    KeyBinding,
    Exiting,
}

/// A pressed key, as the application hands it to the library's widgets.
#[derive(Clone, Copy, Debug, PartialEq, Eq)]
pub enum Key {
    Char(char),
    Backspace,
    Delete,
    Left,
    Right,
    Up,
    Down,
    Enter,
    Tab,
    Other,
}

/// What the application's event loop must do with a key press.
#[derive(Clone, Copy, Debug, PartialEq, Eq)]
pub enum AppCommand {
    /// Mark the state as exiting and leave the event loop.
    Quit,
    /// Show another screen.
    Switch(Screen),
    /// Hand the key on to the file browser widget.
    Browser,
    /// Nothing to do.
    Idle,
}

/// The event loop's key dispatch: `q` always quits; on the browser screen
/// every other key goes to the browser widget; on the home screen `a` opens
/// the browser; everything else is ignored.
pub open spec fn dispatch_spec(screen: Screen, key: Key) -> AppCommand {
    if key == Key::Char('q') {
        AppCommand::Quit
    } else if screen == Screen::FileBrowser {
        AppCommand::Browser
    } else if screen == Screen::Home && key == Key::Char('a') {
        AppCommand::Switch(Screen::FileBrowser)
    } else {
        AppCommand::Idle
    }
}

/// Decides what the event loop does with one key press.
pub fn dispatch_key(screen: &Screen, key: Key) -> (c: AppCommand)
    ensures
        c == dispatch_spec(*screen, key),
{
    if let Key::Char(ch) = key {
        if ch == 'q' {
            return AppCommand::Quit;
        }
    }
    match screen {
        Screen::FileBrowser => AppCommand::Browser,
        Screen::Home => {
            if let Key::Char(ch) = key {
                if ch == 'a' {
                    AppCommand::Switch(Screen::FileBrowser)
                } else {
                    AppCommand::Idle
                }
            } else {
                AppCommand::Idle
            }
        },
        _ => AppCommand::Idle,
    }
}

} // verus!
