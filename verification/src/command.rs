use vstd::prelude::*;

use crate::direction::Direction;

verus! {

/// An action the player can issue during play: end the session, or ask the
/// snake to turn towards a heading.
#[derive(Debug, Copy, Clone, Eq, PartialEq, Structural)]
pub enum Command {
    Quit,
    Turn(Direction),
}

/// A key press as the input layer reports it, reduced to what the game
/// reads: an arrow key, a character together with whether the control
/// modifier alone was held, the escape key, or anything else.
#[derive(Debug, Copy, Clone, Eq, PartialEq, Structural)]
pub enum KeyPress {
    Arrow(Direction),
    Letter(char, bool),
    Escape,
    Other,
}

/// The command a key press stands for: arrows turn; q, Q, escape and
/// control-c (either case) quit; everything else is ignored.
pub open spec fn spec_command_for_key(key: KeyPress) -> Option<Command> {
    match key {
        KeyPress::Arrow(d) => Some(Command::Turn(d)),
        KeyPress::Escape => Some(Command::Quit),
        KeyPress::Letter(c, control) => if c == 'q' || c == 'Q' {
            Some(Command::Quit)
        } else if (c == 'c' || c == 'C') && control {
            Some(Command::Quit)
        } else {
            None
        },
        KeyPress::Other => None,
    }
}

/// Maps a key press to the command it stands for, if any.
pub fn command_for_key(key: KeyPress) -> (r: Option<Command>)
    ensures
        r == spec_command_for_key(key),
{
    match key {
        KeyPress::Arrow(d) => Some(Command::Turn(d)),
        KeyPress::Escape => Some(Command::Quit),
        KeyPress::Letter(c, control) => if c == 'q' || c == 'Q' {
            Some(Command::Quit)
        } else if (c == 'c' || c == 'C') && control {
            Some(Command::Quit)
        } else {
            None
        },
        KeyPress::Other => None,
    }
}

} // verus!
