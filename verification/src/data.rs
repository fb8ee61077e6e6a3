//! The game state: board bounds, the player and the NPCs, with the rules
//! that move them, spawn them and detect a collision.

use vstd::prelude::*;
use crate::location::{apply_direction, direction_applied, GameLocation, MovementDirection};
use crate::seq_lemmas::{
    lemma_filter_map_keeps_all, lemma_filter_map_keeps_whole, lemma_filter_map_no_longer,
    lemma_filter_map_skips_none, lemma_filter_map_twice,
};

verus! {

/// What changed on the board, in the terms a renderer needs: the cell to
/// erase (`from`) and, where the entity is still there, the cell to draw it
/// on (`to`).
#[derive(Clone, Copy, Debug, PartialEq, Eq, Structural)]
pub enum UiOutputInstruction {
    MovePlayer { from: GameLocation, to: GameLocation },
    MoveNpc { from: GameLocation, to: GameLocation },
    RemoveNpc { from: GameLocation },
}

/// The mathematical content of a [`GameData`].
pub struct GameState {
    pub bounds: (u16, u16),
    pub player: GameLocation,
    pub npcs: Seq<GameLocation>,
}

/// One tick's move of a single NPC: a step to the left, or `None` where the
/// NPC leaves the board.
pub open spec fn npc_step(bounds: (u16, u16)) -> spec_fn(GameLocation) -> Option<GameLocation> {
    |npc: GameLocation| direction_applied(MovementDirection::Left, npc, bounds)
}

/// What a tick reports for a single NPC.
pub open spec fn npc_instruction(
    bounds: (u16, u16),
) -> spec_fn(GameLocation) -> UiOutputInstruction {
    |npc: GameLocation|
        match direction_applied(MovementDirection::Left, npc, bounds) {
            Some(to) => UiOutputInstruction::MoveNpc { from: npc, to },
            None => UiOutputInstruction::RemoveNpc { from: npc },
        }
}

/// Two ticks' moves of a single NPC, one after the other: the second step is
/// taken from where the first one ended, and each is checked on its own.
pub open spec fn npc_two_steps(
    bounds: (u16, u16),
) -> spec_fn(GameLocation) -> Option<GameLocation> {
    |npc: GameLocation|
        match direction_applied(MovementDirection::Left, npc, bounds) {
            Some(mid) => direction_applied(MovementDirection::Left, mid, bounds),
            None => None,
        }
}

/// The move of a single NPC over `n` ticks: `n` columns to the left, or
/// `None` where the NPC started in a column below `n` and so left the board
/// on the way.
pub open spec fn npc_steps(n: nat) -> spec_fn(GameLocation) -> Option<GameLocation> {
    |npc: GameLocation|
        if npc.x >= n {
            Some(GameLocation { x: (npc.x - n) as u16, y: npc.y })
        } else {
            None
        }
}

impl GameState {
    /// The state after the player tried to move: a rejected move leaves
    /// everything as it was.
    pub open spec fn after_player_move(self, direction: MovementDirection) -> GameState {
        GameState {
            player: match direction_applied(direction, self.player, self.bounds) {
                Some(to) => to,
                None => self.player,
            },
            ..self
        }
    }

    /// The state after one tick: every NPC has moved one step left, those
    /// that left the board are gone, and the others keep their order.
    pub open spec fn after_tick(self) -> GameState {
        GameState { npcs: self.npcs.filter_map(npc_step(self.bounds)), ..self }
    }

    /// The state after `n` ticks in a row, with nothing spawned between them.
    pub open spec fn after_ticks(self, n: nat) -> GameState
        decreases n,
    {
        if n == 0 {
            self
        } else {
            self.after_ticks((n - 1) as nat).after_tick()
        }
    }

    /// The instructions of one tick: one per NPC, in the order of the NPCs.
    pub open spec fn tick_instructions(self) -> Seq<UiOutputInstruction> {
        self.npcs.map_values(npc_instruction(self.bounds))
    }

    /// The state with one more NPC, on row `y` of the column numbered
    /// `bounds.0`, behind the NPCs already there.
    pub open spec fn with_spawn(self, y: u16) -> GameState {
        GameState { npcs: self.npcs.push(GameLocation { x: self.bounds.0, y }), ..self }
    }

    /// Some NPC stands on the player's cell.
    pub open spec fn collided(self) -> bool {
        self.npcs.contains(self.player)
    }
}

/// The authoritative state of one session. The bounds are fixed at
/// construction; the player is only ever relocated; NPCs come and go.
pub struct GameData {
    bounds_xy: (u16, u16),
    player_loc: GameLocation,
    npc_locs: Vec<GameLocation>,
}

impl View for GameData {
    type V = GameState;

    closed spec fn view(&self) -> GameState {
        GameState { bounds: self.bounds_xy, player: self.player_loc, npcs: self.npc_locs@ }
    }
}

impl GameData {
    /// A session on a board of the given bounds, with two NPCs waiting in the
    /// column numbered `bounds_xy.0`, on rows 2 and 6.
    pub fn new(bounds_xy: (u16, u16), player_loc: GameLocation) -> (gd: GameData)
        ensures
            gd@ == (GameState {
                bounds: bounds_xy,
                player: player_loc,
                npcs: seq![
                    GameLocation { x: bounds_xy.0, y: 2 },
                    GameLocation { x: bounds_xy.0, y: 6 },
                ],
            }),
    {
        let mut npc_locs: Vec<GameLocation> = Vec::new();
        npc_locs.push(GameLocation { x: bounds_xy.0, y: 2 });
        npc_locs.push(GameLocation { x: bounds_xy.0, y: 6 });
        assert(npc_locs@ =~= seq![
            GameLocation { x: bounds_xy.0, y: 2 },
            GameLocation { x: bounds_xy.0, y: 6 },
        ]);
        GameData { bounds_xy, player_loc, npc_locs }
    }

    /// A session on a board of the given bounds with the given NPCs, in the
    /// given order.
    pub fn with_npcs(
        bounds_xy: (u16, u16),
        player_loc: GameLocation,
        npc_locs: Vec<GameLocation>,
    ) -> (gd: GameData)
        ensures
            gd@ == (GameState { bounds: bounds_xy, player: player_loc, npcs: npc_locs@ }),
    {
        GameData { bounds_xy, player_loc, npc_locs }
    }

    /// The bounds the session was made with.
    pub fn bounds(&self) -> (bounds_xy: (u16, u16))
        ensures
            bounds_xy == self@.bounds,
    {
        self.bounds_xy
    }

    /// Where the player is.
    pub fn player_loc(&self) -> (player_loc: GameLocation)
        ensures
            player_loc == self@.player,
    {
        self.player_loc
    }

    /// Where the NPCs are, in their order.
    pub fn npc_locs(&self) -> (npc_locs: &Vec<GameLocation>)
        ensures
            npc_locs@ == self@.npcs,
    {
        &self.npc_locs
    }

    /// Moves the player one step, unless the move would leave the board, and
    /// reports where the player was and where it is now.
    pub fn move_player(&mut self, direction: MovementDirection) -> (instruction: UiOutputInstruction)
        ensures
            final(self)@ == old(self)@.after_player_move(direction),
            instruction == (UiOutputInstruction::MovePlayer {
                from: old(self)@.player,
                to: final(self)@.player,
            }),
    {
        let from = self.player_loc;
        if let Some(gl) = apply_direction(direction, &self.player_loc, self.bounds_xy) {
            self.player_loc = gl;
        }
        UiOutputInstruction::MovePlayer { from, to: self.player_loc }
    }

    /// Moves every NPC one step to the left. An NPC that would leave the
    /// board is removed. The instructions come in the order of the NPCs
    /// before the call, and the survivors keep that order.
    pub fn move_npcs(&mut self) -> (instructions: Vec<UiOutputInstruction>)
        ensures
            final(self)@ == old(self)@.after_tick(),
            instructions@ == old(self)@.tick_instructions(),
    {
        let ghost before = self@;
        let ghost step = npc_step(before.bounds);
        let ghost report = npc_instruction(before.bounds);
        let mut new_locs: Vec<GameLocation> = Vec::new();
        let mut instructions: Vec<UiOutputInstruction> = Vec::new();
        let n = self.npc_locs.len();
        let mut i: usize = 0;
        assert(before.npcs.take(0) =~= Seq::<GameLocation>::empty());
        while i < n
            invariant
                i <= n,
                n == self.npc_locs@.len(),
                self@ == before,
                step == npc_step(before.bounds),
                report == npc_instruction(before.bounds),
                new_locs@ == before.npcs.take(i as int).filter_map(step),
                instructions@ == before.npcs.take(i as int).map_values(report),
            decreases n - i,
        {
            let from = self.npc_locs[i];
            let to = apply_direction(MovementDirection::Left, &from, self.bounds_xy);
            proof {
                before.npcs.lemma_filter_map_take_succ(step, i as int);
                assert(before.npcs.take(i + 1).map_values(report)
                    =~= before.npcs.take(i as int).map_values(report).push(report(from)));
            }
            match to {
                Some(to) => {
                    instructions.push(UiOutputInstruction::MoveNpc { from, to });
                    new_locs.push(to);
                },
                None => {
                    instructions.push(UiOutputInstruction::RemoveNpc { from });
                },
            }
            i += 1;
        }
        assert(before.npcs.take(n as int) =~= before.npcs);
        self.npc_locs = new_locs;
        instructions
    }

    /// Adds an NPC on row `y` of the column numbered `bounds.0`. The row is
    /// taken as given.
    pub fn spawn_npc_at(&mut self, y: u16)
        ensures
            final(self)@ == old(self)@.with_spawn(y),
    {
        self.npc_locs.push(GameLocation { x: self.bounds_xy.0, y });
    }

    /// Adds an NPC in the column numbered `bounds.0`, on the row that
    /// `random_source` answers when it is asked once, for the bound
    /// `bounds.1`. The engine draws no random number of its own.
    pub fn spawn_npc<F: Fn(u16) -> u16>(&mut self, random_source: F)
        requires
            call_requires(random_source, (old(self)@.bounds.1,)),
        ensures
            exists|y: u16|
                call_ensures(random_source, (old(self)@.bounds.1,), y)
                    && final(self)@ == old(self)@.with_spawn(y),
    {
        let y = random_source(self.bounds_xy.1);
        self.spawn_npc_at(y);
    }

    /// Whether some NPC stands on the player's cell.
    pub fn player_collided(&self) -> (collided: bool)
        ensures
            collided == self@.collided(),
    {
        let n = self.npc_locs.len();
        let mut i: usize = 0;
        while i < n
            invariant
                i <= n,
                n == self.npc_locs@.len(),
                forall|j: int| 0 <= j < i ==> self.npc_locs@[j] != self.player_loc,
            decreases n - i,
        {
            if self.npc_locs[i] == self.player_loc {
                return true;
            }
            i += 1;
        }
        false
    }
}

/// A tick removes the NPC in column 0: the instruction in its place is
/// `RemoveNpc` with the cell it stood on, and the tick leaves what it would
/// leave had that NPC not been there. Where every other NPC stands in a
/// higher column, the tick leaves exactly one NPC fewer. No tick adds an NPC.
pub proof fn lemma_tick_removes_npc_in_column_zero(state: GameState, i: int)
    requires
        0 <= i < state.npcs.len(),
        state.npcs[i].x == 0,
    ensures
        state.tick_instructions()[i] == (UiOutputInstruction::RemoveNpc { from: state.npcs[i] }),
        state.after_tick() == (GameState { npcs: state.npcs.remove(i), ..state }).after_tick(),
        (forall|j: int| 0 <= j < state.npcs.len() && j != i ==> state.npcs[j].x > 0)
            ==> state.after_tick().npcs.len() == state.npcs.len() - 1,
        state.after_tick().npcs.len() <= state.npcs.len(),
{
    let step = npc_step(state.bounds);
    lemma_filter_map_skips_none(state.npcs, step, i);
    lemma_filter_map_no_longer(state.npcs, step);
    if forall|j: int| 0 <= j < state.npcs.len() && j != i ==> state.npcs[j].x > 0 {
        let others = state.npcs.remove(i);
        assert forall|j: int| 0 <= j < others.len() implies step(#[trigger] others[j]).is_some() by {
            if j < i {
                assert(others[j] == state.npcs[j]);
            } else {
                assert(others[j] == state.npcs[j + 1]);
            }
        }
        lemma_filter_map_keeps_all(others, step);
    }
}

/// Two ticks in a row, with nothing spawned between them, amount to one
/// combined move of two steps for every NPC, each step checked against the
/// edge on its own: an NPC in column 1 reaches column 0 and is then removed,
/// it is not carried two columns at once.
pub proof fn lemma_two_ticks_are_two_steps(state: GameState)
    ensures
        state.after_tick().after_tick() == (GameState {
            npcs: state.npcs.filter_map(npc_two_steps(state.bounds)),
            ..state
        }),
{
    lemma_filter_map_twice(
        state.npcs,
        npc_step(state.bounds),
        npc_step(state.bounds),
        npc_two_steps(state.bounds),
    );
}

/// Any number of ticks in a row, with nothing spawned between them, carry
/// every NPC that many columns to the left and remove exactly those that
/// started in a lower column. The others keep their order, and neither the
/// player nor the bounds change.
///
/// So an NPC in column `x` is still there after `x` ticks, in column 0, and
/// gone after the next.
pub proof fn lemma_ticks_carry_npcs_left(state: GameState, n: nat)
    ensures
        state.after_ticks(n) == (GameState {
            npcs: state.npcs.filter_map(npc_steps(n)),
            ..state
        }),
    decreases n,
{
    if n == 0 {
        lemma_filter_map_keeps_whole(state.npcs, npc_steps(0));
    } else {
        let before = (n - 1) as nat;
        lemma_ticks_carry_npcs_left(state, before);
        lemma_filter_map_twice(
            state.npcs,
            npc_steps(before),
            npc_step(state.bounds),
            npc_steps(n),
        );
    }
}

/// The player never leaves the bounds it is within, nor the board once it
/// stands on one of its cells, whatever it is told to do; and neither a tick
/// nor a spawn moves it.
pub proof fn lemma_player_stays_within(state: GameState, direction: MovementDirection, y: u16)
    ensures
        state.player.within(state.bounds) ==> state.after_player_move(direction).player.within(
            state.bounds,
        ),
        state.player.on_board(state.bounds) ==> state.after_player_move(
            direction,
        ).player.on_board(state.bounds),
        state.after_tick().player == state.player,
        state.with_spawn(y).player == state.player,
{
}

/// Only a spawn adds an NPC, and it adds exactly one: a move of the player
/// leaves the NPCs as they are, and a tick never leaves more than it found.
pub proof fn lemma_only_spawn_adds_npcs(state: GameState, direction: MovementDirection, y: u16)
    ensures
        state.after_player_move(direction).npcs == state.npcs,
        state.after_tick().npcs.len() <= state.npcs.len(),
        state.with_spawn(y).npcs.len() == state.npcs.len() + 1,
{
    lemma_filter_map_no_longer(state.npcs, npc_step(state.bounds));
}

/// The bounds of a session never change.
pub proof fn lemma_bounds_are_fixed(state: GameState, direction: MovementDirection, y: u16)
    ensures
        state.after_player_move(direction).bounds == state.bounds,
        state.after_tick().bounds == state.bounds,
        state.with_spawn(y).bounds == state.bounds,
{
}

} // verus!
