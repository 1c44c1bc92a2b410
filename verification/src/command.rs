//! What the player can ask for, and the keys that ask for it.

use vstd::prelude::*;
use crate::direction::Direction;

verus! {

/// A request of the player.
#[derive(Clone, Copy, Debug, PartialEq, Eq, Structural)]
pub enum Command {
    /// End the session.
    Quit,
    /// Head towards the given direction.
    Turn(Direction),
}

/// The key of a key press, as far as the game tells keys apart.
#[derive(Clone, Copy, Debug, PartialEq, Eq, Structural)]
pub enum Key {
    Char(char),
    Esc,
    Up,
    Right,
    Down,
    Left,
    /// Any other key.
    Other,
}

/// The modifier keys held down during a key press. `other` stands for every
/// modifier besides the three named ones.
#[derive(Clone, Copy, Debug, PartialEq, Eq, Structural)]
pub struct Modifiers {
    pub shift: bool,
    pub control: bool,
    pub alt: bool,
    pub other: bool,
}

/// One key press.
#[derive(Clone, Copy, Debug, PartialEq, Eq, Structural)]
pub struct KeyPress {
    pub key: Key,
    pub modifiers: Modifiers,
}

impl Modifiers {
    /// Control is held down and no other modifier is.
    pub open spec fn only_control(self) -> bool {
        self.control && !self.shift && !self.alt && !self.other
    }
}

impl KeyPress {
    /// The command that this key press stands for, if any: `q`, `Q` and
    /// escape quit under any modifiers; `c` and `C` quit when control, and
    /// control alone, is held; an arrow key turns towards its direction.
    pub open spec fn command(self) -> Option<Command> {
        match self.key {
            Key::Char(c) => if c == 'q' || c == 'Q' {
                Some(Command::Quit)
            } else if (c == 'c' || c == 'C') && self.modifiers.only_control() {
                Some(Command::Quit)
            } else {
                None
            },
            Key::Esc => Some(Command::Quit),
            Key::Up => Some(Command::Turn(Direction::Up)),
            Key::Right => Some(Command::Turn(Direction::Right)),
            Key::Down => Some(Command::Turn(Direction::Down)),
            Key::Left => Some(Command::Turn(Direction::Left)),
            Key::Other => None,
        }
    }
}

/// What the driver of a session reports after each wait for input.
#[derive(Clone, Copy, Debug, PartialEq, Eq, Structural)]
pub struct Event {
    /// The command that arrived during the wait, if one did.
    pub command: Option<Command>,
    /// Milliseconds since the current tick began, read after the wait.
    pub elapsed: u64,
}

/// What the driver of a session has to do next.
#[derive(Clone, Copy, Debug, PartialEq, Eq, Structural)]
pub enum Action {
    /// The tick goes on: wait for input for at most this many milliseconds.
    Wait(u64),
    /// The snake has moved. Draw the board, begin a new tick, and wait for
    /// input for at most this many milliseconds.
    Draw(u64),
    /// The session is over: wait for nothing more and report the score.
    Stop,
}

} // verus!
