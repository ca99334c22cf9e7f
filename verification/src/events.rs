//! Keyboard input of the dashboard and the commands it stands for.

use vstd::prelude::*;

verus! {

/// The key of a keyboard event, as far as the dashboard tells keys apart.
#[derive(Clone, Copy, Debug, PartialEq, Eq, Structural)]
pub enum KeyCode {
    Char(char),
    Left,
    Right,
    Esc,
    Other,
}

/// One keyboard event.
#[derive(Clone, Copy, Debug, PartialEq, Eq, Structural)]
pub struct KeyEvent {
    pub code: KeyCode,
    /// Whether the control key was held.
    pub control: bool,
    /// Whether the key went down; releases and repeats are not presses.
    pub pressed: bool,
}

/// What the user asks of the dashboard.
#[derive(Clone, Copy, Debug, PartialEq, Eq, Structural)]
pub enum Command {
    NextTab,
    PreviousTab,
    Quit,
}

/// The command that a key press stands for: `l` or Right for the next tab,
/// `h` or Left for the previous tab, `q`, Esc or Control-`c` to quit. Other
/// keys, and events that are no presses, stand for nothing.
pub open spec fn spec_command(event: Option<KeyEvent>) -> Option<Command> {
    match event {
        None => None,
        Some(key) => if !key.pressed {
            None
        } else if key.code == KeyCode::Char('l') || key.code == KeyCode::Right {
            Some(Command::NextTab)
        } else if key.code == KeyCode::Char('h') || key.code == KeyCode::Left {
            Some(Command::PreviousTab)
        } else if key.code == KeyCode::Char('q') || key.code == KeyCode::Esc {
            Some(Command::Quit)
        } else if key.code == KeyCode::Char('c') && key.control {
            Some(Command::Quit)
        } else {
            None
        },
    }
}

/// The command that the polled input stands for; `None` where nothing was
/// polled or the key means nothing.
pub fn command(event: Option<KeyEvent>) -> (command: Option<Command>)
    ensures
        command == spec_command(event),
{
    match event {
        None => None,
        Some(key) => {
            if !key.pressed {
                return None;
            }
            match key.code {
                KeyCode::Char(c) => {
                    if c == 'l' {
                        Some(Command::NextTab)
                    } else if c == 'h' {
                        Some(Command::PreviousTab)
                    } else if c == 'q' {
                        Some(Command::Quit)
                    } else if c == 'c' && key.control {
                        Some(Command::Quit)
                    } else {
                        None
                    }
                },
                KeyCode::Right => Some(Command::NextTab),
                KeyCode::Left => Some(Command::PreviousTab),
                KeyCode::Esc => Some(Command::Quit),
                KeyCode::Other => None,
            }
        },
    }
}

} // verus!
