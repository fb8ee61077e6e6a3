//! The commands that drive a session, and what one command does to it.
//!
//! The embedding program owns the loop: it receives a command, hands it to
//! [`apply_game_command`], forwards what comes back to its renderer, and
//! stops when the session has ended.

use vstd::prelude::*;
use crate::chance::random_in_range;
use crate::data::{GameData, GameState, UiOutputInstruction};
use crate::location::MovementDirection;

verus! {

/// A unit of intent entering the session: a key press of the player, a tick
/// of the timer, or the wish to leave.
#[derive(Clone, Copy, Debug, PartialEq, Eq, Structural)]
pub enum GameCommand {
    Quit,
    MovePlayer(MovementDirection),
    GameTick,
}

/// Whether the session goes on.
#[derive(Clone, Copy, Debug, PartialEq, Eq, Structural)]
pub enum SessionState {
    Running,
    Ended,
}

/// What the renderer is owed after a command.
#[derive(Debug, PartialEq, Eq)]
pub enum RenderRequest {
    /// Nothing changed on the board.
    Nothing,
    /// One instruction, to be rendered on its own.
    Single(UiOutputInstruction),
    /// The instructions of one tick, to be rendered as one batch, in order.
    Batch(Vec<UiOutputInstruction>),
}

/// What one command led to.
#[derive(Debug, PartialEq, Eq)]
pub struct CommandOutcome {
    pub render: RenderRequest,
    pub state: SessionState,
}

/// The state after `cmd`. `spawn` is the row on which a tick spawns an NPC,
/// `None` for a tick that spawns none; other commands spawn nothing.
pub open spec fn command_applied(
    state: GameState,
    cmd: GameCommand,
    spawn: Option<u16>,
) -> GameState {
    match cmd {
        GameCommand::Quit => state,
        GameCommand::MovePlayer(direction) => state.after_player_move(direction),
        GameCommand::GameTick => match spawn {
            Some(y) => state.after_tick().with_spawn(y),
            None => state.after_tick(),
        },
    }
}

/// The session ends on `Quit`, and on any other command that leaves an NPC
/// on the player's cell.
pub open spec fn command_ends_session(
    state: GameState,
    cmd: GameCommand,
    spawn: Option<u16>,
) -> bool {
    cmd == GameCommand::Quit || command_applied(state, cmd, spawn).collided()
}

/// `render` is what the renderer is owed for `cmd` in `state`: nothing for
/// `Quit`, the player's move for `MovePlayer`, and for a tick the batch of
/// its instructions, one per NPC that was there, in their order.
pub open spec fn render_owed(render: RenderRequest, state: GameState, cmd: GameCommand) -> bool {
    match cmd {
        GameCommand::Quit => render == RenderRequest::Nothing,
        GameCommand::MovePlayer(direction) => render == RenderRequest::Single(
            UiOutputInstruction::MovePlayer {
                from: state.player,
                to: state.after_player_move(direction).player,
            },
        ),
        GameCommand::GameTick => render matches RenderRequest::Batch(instructions)
            && instructions@ == state.tick_instructions(),
    }
}

/// `outcome` and the state `after` are what `cmd` leads to from `before`
/// when the tick's spawn is `spawn`.
pub open spec fn command_led_to(
    before: GameState,
    cmd: GameCommand,
    spawn: Option<u16>,
    after: GameState,
    outcome: CommandOutcome,
) -> bool {
    &&& after == command_applied(before, cmd, spawn)
    &&& render_owed(outcome.render, before, cmd)
    &&& outcome.state == if command_ends_session(before, cmd, spawn) {
        SessionState::Ended
    } else {
        SessionState::Running
    }
}

/// A spawn that [`apply_game_command`] may draw for `cmd` in `state`: none
/// outside a tick, and in a tick none or a row below `bounds.1`.
pub open spec fn spawn_admissible(state: GameState, cmd: GameCommand, spawn: Option<u16>) -> bool {
    spawn matches Some(y) ==> cmd == GameCommand::GameTick && y < state.bounds.1
}

/// Applies one command with the tick's spawn decided by the caller: `spawn`
/// is the row of the NPC to add after the NPCs have moved, or `None`.
/// `Quit` changes nothing; commands other than a tick ignore `spawn`.
pub fn apply_game_command_with(
    gd: &mut GameData,
    cmd: GameCommand,
    spawn: Option<u16>,
) -> (outcome: CommandOutcome)
    ensures
        command_led_to(old(gd)@, cmd, spawn, final(gd)@, outcome),
{
    let render = match cmd {
        GameCommand::Quit => {
            return CommandOutcome { render: RenderRequest::Nothing, state: SessionState::Ended };
        },
        GameCommand::MovePlayer(direction) => RenderRequest::Single(gd.move_player(direction)),
        GameCommand::GameTick => {
            let instructions = gd.move_npcs();
            if let Some(y) = spawn {
                gd.spawn_npc_at(y);
            }
            RenderRequest::Batch(instructions)
        },
    };
    let state = if gd.player_collided() {
        SessionState::Ended
    } else {
        SessionState::Running
    };
    CommandOutcome { render, state }
}

/// The spawn rule: a tick spawns when its roll, one of 1 and 2, shows 1,
/// unless the board has no rows to spawn on.
pub open spec fn spawn_due(y_max: u16, roll: u16) -> bool {
    y_max > 0 && roll == 1
}

/// Whether a tick on a board of `y_max` rows spawns an NPC, given the roll
/// that was drawn for it.
pub fn spawn_is_due(y_max: u16, roll: u16) -> (due: bool)
    ensures
        due == spawn_due(y_max, roll),
{
    y_max > 0 && roll == 1
}

/// Decides by chance whether a tick spawns an NPC, and on which row: it
/// rolls 1 or 2, and where [`spawn_is_due`] says so it draws the row from
/// those below `y_max`. Which of the two comes is chance, so nothing but the
/// range of the row is promised.
fn draw_spawn(y_max: u16) -> (spawn: Option<u16>)
    ensures
        spawn matches Some(y) ==> y < y_max,
{
    let roll = random_in_range(1, 3);
    if spawn_is_due(y_max, roll) {
        Some(random_in_range(0, y_max))
    } else {
        None
    }
}

/// Applies one command. A tick moves the NPCs and then, by chance, spawns
/// one; everything else is decided by the command and the state alone.
pub fn apply_game_command(gd: &mut GameData, cmd: GameCommand) -> (outcome: CommandOutcome)
    ensures
        exists|spawn: Option<u16>|
            spawn_admissible(old(gd)@, cmd, spawn)
                && #[trigger] command_led_to(old(gd)@, cmd, spawn, final(gd)@, outcome),
{
    let spawn = match cmd {
        GameCommand::GameTick => draw_spawn(gd.bounds().1),
        _ => None,
    };
    apply_game_command_with(gd, cmd, spawn)
}

/// Whatever the command and whatever the tick spawns, the bounds stay as
/// they are, a player within them stays within them, and a player on a cell
/// of the board stays on the board.
pub proof fn lemma_command_keeps_player_within(
    state: GameState,
    cmd: GameCommand,
    spawn: Option<u16>,
)
    ensures
        command_applied(state, cmd, spawn).bounds == state.bounds,
        state.player.within(state.bounds) ==> command_applied(state, cmd, spawn).player.within(
            state.bounds,
        ),
        state.player.on_board(state.bounds) ==> command_applied(
            state,
            cmd,
            spawn,
        ).player.on_board(state.bounds),
{
}

} // verus!
