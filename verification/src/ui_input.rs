//! From what the terminal reports to the commands of the game.

use vstd::prelude::*;
use crate::command::GameCommand;
use crate::location::MovementDirection;

verus! {

/// A key, as far as the game tells keys apart.
#[derive(Clone, Copy, Debug, PartialEq, Eq, Structural)]
pub enum InputKey {
    Esc,
    Up,
    Right,
    Down,
    Left,
    /// Any key the game has no use for.
    Other,
}

/// An event of the terminal.
#[derive(Clone, Copy, Debug, PartialEq, Eq, Structural)]
pub enum InputEvent {
    Key(InputKey),
    Mouse,
    Resize,
}

/// The command an event stands for: `Quit` for the escape key, a move of the
/// player for each arrow key, and none for anything else.
pub open spec fn event_command(event: InputEvent) -> Option<GameCommand> {
    match event {
        InputEvent::Key(InputKey::Esc) => Some(GameCommand::Quit),
        InputEvent::Key(InputKey::Up) => Some(GameCommand::MovePlayer(MovementDirection::Up)),
        InputEvent::Key(InputKey::Right) => Some(
            GameCommand::MovePlayer(MovementDirection::Right),
        ),
        InputEvent::Key(InputKey::Down) => Some(GameCommand::MovePlayer(MovementDirection::Down)),
        InputEvent::Key(InputKey::Left) => Some(GameCommand::MovePlayer(MovementDirection::Left)),
        InputEvent::Key(InputKey::Other) => None,
        InputEvent::Mouse => None,
        InputEvent::Resize => None,
    }
}

/// The command of one event. Events that stand for no command are to be
/// dropped without a word; a game tick never comes from the keyboard.
pub fn command_for_event(event: InputEvent) -> (command: Option<GameCommand>)
    ensures
        command == event_command(event),
        command != Some(GameCommand::GameTick),
{
    match event {
        InputEvent::Key(key) => match key {
            InputKey::Esc => Some(GameCommand::Quit),
            InputKey::Up => Some(GameCommand::MovePlayer(MovementDirection::Up)),
            InputKey::Right => Some(GameCommand::MovePlayer(MovementDirection::Right)),
            InputKey::Down => Some(GameCommand::MovePlayer(MovementDirection::Down)),
            InputKey::Left => Some(GameCommand::MovePlayer(MovementDirection::Left)),
            InputKey::Other => None,
        },
        InputEvent::Mouse => None,
        InputEvent::Resize => None,
    }
}

} // verus!
