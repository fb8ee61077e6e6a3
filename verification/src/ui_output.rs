//! From instructions to characters on the screen.
//!
//! The board is drawn one row below its own coordinates, under a top border
//! in row 0. Nothing here touches a terminal: the functions say which
//! character goes where, and the embedding program writes them.

use vstd::prelude::*;
use crate::data::UiOutputInstruction;
use crate::location::GameLocation;

verus! {

/// The glyph of the player.
pub const PLAYER_CHARACTER: char = '#';

/// The glyph of an NPC.
pub const NPC_CHARACTER: char = '*';

/// What an empty cell shows.
pub const BLANK_CHARACTER: char = ' ';

/// One character to write, at a cell given in screen coordinates.
#[derive(Clone, Copy, Debug, PartialEq, Eq, Structural)]
pub struct CellUpdate {
    pub at: GameLocation,
    pub character: char,
}

/// Where the frame around the board goes.
#[derive(Clone, Copy, Debug, PartialEq, Eq, Structural)]
pub struct Chrome {
    /// The screen row of the border above the board.
    pub top_row: u16,
    /// The screen row of the border below the board.
    pub bottom_row: u16,
    /// How many columns each border spans.
    pub width: u16,
    /// The screen row on which the cursor rests between updates.
    pub rest_row: u16,
}

/// What to draw before the first command.
#[derive(Clone, Copy, Debug, PartialEq, Eq, Structural)]
pub struct ScreenSetup {
    pub chrome: Chrome,
    pub player: CellUpdate,
}

/// The screen cell of a board cell: same column, one row down.
pub open spec fn offset_applied(gl: GameLocation) -> GameLocation {
    GameLocation { x: gl.x, y: (gl.y + 1) as u16 }
}

/// The update that blanks the board cell `d`.
pub open spec fn location_cleared(d: GameLocation) -> CellUpdate {
    CellUpdate { at: offset_applied(d), character: BLANK_CHARACTER }
}

/// The update that shows `character` on the board cell `d`.
pub open spec fn location_shown(d: GameLocation, character: char) -> CellUpdate {
    CellUpdate { at: offset_applied(d), character }
}

/// The board cell `d` has a screen row.
pub open spec fn location_fits(d: GameLocation) -> bool {
    d.y < u16::MAX
}

/// Every cell that `instruction` names has a screen row.
pub open spec fn instruction_fits(instruction: UiOutputInstruction) -> bool {
    match instruction {
        UiOutputInstruction::MovePlayer { from, to } => location_fits(from) && location_fits(to),
        UiOutputInstruction::MoveNpc { from, to } => location_fits(from) && location_fits(to),
        UiOutputInstruction::RemoveNpc { from } => location_fits(from),
    }
}

/// The updates that carry out `instruction`: blank the cell the entity
/// left, then, where it is still on the board, draw it on its new cell.
pub open spec fn instruction_updates(instruction: UiOutputInstruction) -> Seq<CellUpdate> {
    match instruction {
        UiOutputInstruction::MovePlayer { from, to } => seq![
            location_cleared(from),
            location_shown(to, PLAYER_CHARACTER),
        ],
        UiOutputInstruction::MoveNpc { from, to } => seq![
            location_cleared(from),
            location_shown(to, NPC_CHARACTER),
        ],
        UiOutputInstruction::RemoveNpc { from } => seq![location_cleared(from)],
    }
}

/// Every instruction of the batch fits.
pub open spec fn batch_fits(instructions: Seq<UiOutputInstruction>) -> bool {
    forall|i: int| 0 <= i < instructions.len() ==> instruction_fits(#[trigger] instructions[i])
}

/// The updates of a batch: those of each instruction, in the order of the
/// instructions, so that a later instruction overwrites an earlier one on
/// the same cell.
pub open spec fn batch_updates(instructions: Seq<UiOutputInstruction>) -> Seq<CellUpdate> {
    instructions.flat_map(|instruction: UiOutputInstruction| instruction_updates(instruction))
}

/// The frame of a board of the given bounds.
pub open spec fn chrome_of(bounds_xy: (u16, u16)) -> Chrome {
    Chrome {
        top_row: 0,
        bottom_row: (bounds_xy.1 + 1) as u16,
        width: bounds_xy.0,
        rest_row: (bounds_xy.1 + 3) as u16,
    }
}

/// The screen cell of the board cell `gl`. The last row a `u16` can number
/// has no screen row below it.
pub fn apply_offset(gl: &GameLocation) -> (on_screen: GameLocation)
    requires
        location_fits(*gl),
    ensures
        on_screen == offset_applied(*gl),
        on_screen.x == gl.x,
        on_screen.y == gl.y + 1,
{
    let (x, y) = gl.get_xy();
    GameLocation::new(x, y + 1)
}

fn clear_location(d: &GameLocation) -> (update: CellUpdate)
    requires
        location_fits(*d),
    ensures
        update == location_cleared(*d),
{
    CellUpdate { at: apply_offset(d), character: BLANK_CHARACTER }
}

fn show_location(d: &GameLocation, character: char) -> (update: CellUpdate)
    requires
        location_fits(*d),
    ensures
        update == location_shown(*d, character),
{
    CellUpdate { at: apply_offset(d), character }
}

fn show_character(
    updates: &mut Vec<CellUpdate>,
    from: &GameLocation,
    to: &GameLocation,
    character: char,
)
    requires
        location_fits(*from),
        location_fits(*to),
    ensures
        final(updates)@ == old(updates)@ + seq![
            location_cleared(*from),
            location_shown(*to, character),
        ],
{
    updates.push(clear_location(from));
    updates.push(show_location(to, character));
}

fn process_inst(updates: &mut Vec<CellUpdate>, instruction: &UiOutputInstruction)
    requires
        instruction_fits(*instruction),
    ensures
        final(updates)@ == old(updates)@ + instruction_updates(*instruction),
{
    match instruction {
        UiOutputInstruction::MovePlayer { from, to } => show_character(
            updates,
            from,
            to,
            PLAYER_CHARACTER,
        ),
        UiOutputInstruction::MoveNpc { from, to } => show_character(
            updates,
            from,
            to,
            NPC_CHARACTER,
        ),
        UiOutputInstruction::RemoveNpc { from } => {
            updates.push(clear_location(from));
        },
    }
}

fn location_on_screen(d: &GameLocation) -> (fits: bool)
    ensures
        fits == location_fits(*d),
{
    d.y < u16::MAX
}

fn instruction_on_screen(instruction: &UiOutputInstruction) -> (fits: bool)
    ensures
        fits == instruction_fits(*instruction),
{
    match instruction {
        UiOutputInstruction::MovePlayer { from, to } => location_on_screen(from)
            && location_on_screen(to),
        UiOutputInstruction::MoveNpc { from, to } => location_on_screen(from)
            && location_on_screen(to),
        UiOutputInstruction::RemoveNpc { from } => location_on_screen(from),
    }
}

/// The updates that carry out one instruction, or `None` where a cell it
/// names has no screen row.
pub fn process_instruction(
    instruction: &UiOutputInstruction,
) -> (updates: Option<Vec<CellUpdate>>)
    ensures
        match updates {
            Some(u) => instruction_fits(*instruction) && u@ == instruction_updates(*instruction),
            None => !instruction_fits(*instruction),
        },
{
    if instruction_on_screen(instruction) {
        let mut updates: Vec<CellUpdate> = Vec::new();
        process_inst(&mut updates, instruction);
        Some(updates)
    } else {
        None
    }
}

/// The updates that carry out a batch, instruction by instruction, or `None`
/// where some instruction names a cell without a screen row.
pub fn process_instructions(
    instructions: &[UiOutputInstruction],
) -> (updates: Option<Vec<CellUpdate>>)
    ensures
        match updates {
            Some(u) => batch_fits(instructions@) && u@ == batch_updates(instructions@),
            None => !batch_fits(instructions@),
        },
{
    let ghost per_instruction = |instruction: UiOutputInstruction|
        instruction_updates(instruction);
    let mut updates: Vec<CellUpdate> = Vec::new();
    let n = instructions.len();
    let mut i: usize = 0;
    assert(instructions@.take(0).flat_map(per_instruction) =~= Seq::<CellUpdate>::empty());
    while i < n
        invariant
            i <= n,
            n == instructions@.len(),
            per_instruction == |instruction: UiOutputInstruction|
                instruction_updates(instruction),
            batch_fits(instructions@.take(i as int)),
            updates@ == instructions@.take(i as int).flat_map(per_instruction),
        decreases n - i,
    {
        if !instruction_on_screen(&instructions[i]) {
            return None;
        }
        proof {
            instructions@.lemma_flat_map_take_append(per_instruction, i as int);
        }
        process_inst(&mut updates, &instructions[i]);
        i += 1;
    }
    assert(instructions@.take(n as int) =~= instructions@);
    Some(updates)
}

/// Lays the frame out: a border in row 0, the board below it, a border
/// below the board, and the cursor's resting place two rows further down.
pub fn draw_chrome(bounds_xy: (u16, u16)) -> (chrome: Chrome)
    requires
        bounds_xy.1 + 3 <= u16::MAX,
    ensures
        chrome == chrome_of(bounds_xy),
{
    let (x_bound, y_bound) = bounds_xy;
    Chrome { top_row: 0, bottom_row: y_bound + 1, width: x_bound, rest_row: y_bound + 3 }
}

/// What to draw before the first command: the frame and the player. `None`
/// where the frame or the player's cell has no screen row.
pub fn init(bounds_xy: (u16, u16), player_location: &GameLocation) -> (setup: Option<ScreenSetup>)
    ensures
        setup == if bounds_xy.1 + 3 <= u16::MAX && location_fits(*player_location) {
            Some(
                ScreenSetup {
                    chrome: chrome_of(bounds_xy),
                    player: location_shown(*player_location, PLAYER_CHARACTER),
                },
            )
        } else {
            None
        },
{
    if bounds_xy.1 <= u16::MAX - 3 && location_on_screen(player_location) {
        Some(
            ScreenSetup {
                chrome: draw_chrome(bounds_xy),
                player: show_location(player_location, PLAYER_CHARACTER),
            },
        )
    } else {
        None
    }
}

} // verus!
