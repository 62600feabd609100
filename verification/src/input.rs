//! Commands, the keys that give them, and what each command does to the
//! board view state.

use vstd::prelude::*;
use crate::app::{App, BoardModel};

verus! {

/// What a key press asks of the board.
#[derive(Debug, Clone, Copy, PartialEq, Eq, Structural)]
pub enum Command {
    Quit,
    MoveLeft,
    MoveRight,
    MoveDown,
    MoveUp,
    Reload,
    Ignore,
}

/// The key of a key event.
#[derive(Debug, Clone, Copy, PartialEq, Eq)]
pub enum KeyCode {
    Char(char),
    Left,
    Right,
    Up,
    Down,
    Esc,
    Other,
}

/// Whether a key went down, is held, or came up.
#[derive(Debug, Clone, Copy, PartialEq, Eq, Structural)]
pub enum KeyKind {
    Press,
    Repeat,
    Release,
}

/// A key event as the terminal reports it.
#[derive(Debug, Clone, Copy, PartialEq, Eq)]
pub struct KeyEvent {
    pub code: KeyCode,
    pub control: bool,
    pub kind: KeyKind,
}

impl KeyEvent {
    /// The event is a press of the key with this character.
    pub open spec fn presses_char(self, c: char) -> bool {
        self.kind == KeyKind::Press && self.code == KeyCode::Char(c)
    }

    /// The event is a press of this key.
    pub open spec fn presses(self, code: KeyCode) -> bool {
        self.kind == KeyKind::Press && self.code == code
    }
}

/// The command that a key event gives. Only presses give one; a key that is
/// held or released, and a key without a binding, is ignored.
pub fn command_for_key(key: &KeyEvent) -> (command: Command)
    ensures
        command == Command::Quit <==> key.presses_char('q') || key.presses_char('Q')
            || key.presses(KeyCode::Esc) || (key.presses_char('c') && key.control),
        command == Command::MoveLeft <==> key.presses_char('h') || key.presses(KeyCode::Left),
        command == Command::MoveRight <==> key.presses_char('l') || key.presses(KeyCode::Right),
        command == Command::MoveDown <==> key.presses_char('j') || key.presses(KeyCode::Down),
        command == Command::MoveUp <==> key.presses_char('k') || key.presses(KeyCode::Up),
        command == Command::Reload <==> key.presses_char('r') || key.presses_char('R'),
{
    match key.kind {
        KeyKind::Press => match key.code {
            KeyCode::Char(c) => {
                if c == 'q' || c == 'Q' {
                    Command::Quit
                } else if c == 'c' && key.control {
                    Command::Quit
                } else if c == 'h' {
                    Command::MoveLeft
                } else if c == 'l' {
                    Command::MoveRight
                } else if c == 'j' {
                    Command::MoveDown
                } else if c == 'k' {
                    Command::MoveUp
                } else if c == 'r' || c == 'R' {
                    Command::Reload
                } else {
                    Command::Ignore
                }
            },
            KeyCode::Esc => Command::Quit,
            KeyCode::Left => Command::MoveLeft,
            KeyCode::Right => Command::MoveRight,
            KeyCode::Down => Command::MoveDown,
            KeyCode::Up => Command::MoveUp,
            KeyCode::Other => Command::Ignore,
        },
        _ => Command::Ignore,
    }
}

/// What the event loop has to do once a command has been applied.
#[derive(Debug, Clone, Copy, PartialEq, Eq, Structural)]
pub enum Action {
    /// Draw the board and wait for the next key.
    Continue,
    /// Ask the store for the board again, hand the answer to `reload`, and
    /// pull the cursor back into bounds with `clamp_selection`.
    Reload,
    /// Leave the loop.
    Quit,
}

impl Command {
    /// What the event loop has to do after this command.
    pub open spec fn action(self) -> Action {
        match self {
            Command::Quit => Action::Quit,
            Command::Reload => Action::Reload,
            _ => Action::Continue,
        }
    }
}

impl BoardModel {
    /// The state after a command. Only the four navigation commands change
    /// it: loading is the event loop's part.
    pub open spec fn step(self, command: Command) -> BoardModel {
        match command {
            Command::MoveLeft => self.move_left(),
            Command::MoveRight => self.move_right(),
            Command::MoveDown => self.move_down(),
            Command::MoveUp => self.move_up(),
            _ => self,
        }
    }

    /// The state after a sequence of commands, applied first to last.
    pub open spec fn navigate(self, commands: Seq<Command>) -> BoardModel
        decreases commands.len(),
    {
        if commands.len() == 0 {
            self
        } else {
            self.navigate(commands.drop_last()).step(commands.last())
        }
    }
}

impl App {
    /// Applies one command to the state and says what is left for the event
    /// loop to do.
    pub fn apply(&mut self, command: Command) -> (action: Action)
        ensures
            final(self)@ == old(self)@.step(command),
            action == command.action(),
    {
        match command {
            Command::Quit => Action::Quit,
            Command::MoveLeft => {
                self.move_left();
                Action::Continue
            },
            Command::MoveRight => {
                self.move_right();
                Action::Continue
            },
            Command::MoveDown => {
                self.move_down();
                Action::Continue
            },
            Command::MoveUp => {
                self.move_up();
                Action::Continue
            },
            Command::Reload => Action::Reload,
            Command::Ignore => Action::Continue,
        }
    }
}

} // verus!
