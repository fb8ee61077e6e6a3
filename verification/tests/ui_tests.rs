use dodger::ui_input::{command_for_event, InputEvent, InputKey};
use dodger::ui_output::{
    apply_offset, draw_chrome, init, process_instruction, process_instructions, CellUpdate,
    Chrome, ScreenSetup, BLANK_CHARACTER, NPC_CHARACTER, PLAYER_CHARACTER,
};
use dodger::{GameCommand, GameLocation, MovementDirection, UiOutputInstruction};

fn loc(x: u16, y: u16) -> GameLocation {
    GameLocation::new(x, y)
}

fn cell(x: u16, y: u16, character: char) -> CellUpdate {
    CellUpdate { at: loc(x, y), character }
}

#[test]
fn arrow_keys_move_the_player() {
    assert_eq!(
        command_for_event(InputEvent::Key(InputKey::Up)),
        Some(GameCommand::MovePlayer(MovementDirection::Up))
    );
    assert_eq!(
        command_for_event(InputEvent::Key(InputKey::Right)),
        Some(GameCommand::MovePlayer(MovementDirection::Right))
    );
    assert_eq!(
        command_for_event(InputEvent::Key(InputKey::Down)),
        Some(GameCommand::MovePlayer(MovementDirection::Down))
    );
    assert_eq!(
        command_for_event(InputEvent::Key(InputKey::Left)),
        Some(GameCommand::MovePlayer(MovementDirection::Left))
    );
}

#[test]
fn escape_quits() {
    assert_eq!(command_for_event(InputEvent::Key(InputKey::Esc)), Some(GameCommand::Quit));
}

#[test]
fn other_input_is_ignored() {
    assert_eq!(command_for_event(InputEvent::Key(InputKey::Other)), None);
    assert_eq!(command_for_event(InputEvent::Mouse), None);
    assert_eq!(command_for_event(InputEvent::Resize), None);
}

#[test]
fn glyphs_are_fixed() {
    assert_eq!(PLAYER_CHARACTER, '#');
    assert_eq!(NPC_CHARACTER, '*');
    assert_eq!(BLANK_CHARACTER, ' ');
}

#[test]
fn apply_offset_moves_one_row_down() {
    assert_eq!(apply_offset(&loc(0, 0)), loc(0, 1));
    assert_eq!(apply_offset(&loc(40, 9)), loc(40, 10));
    assert_eq!(apply_offset(&loc(u16::MAX, u16::MAX - 1)), loc(u16::MAX, u16::MAX));
}

#[test]
fn player_move_erases_then_draws() {
    let instruction = UiOutputInstruction::MovePlayer { from: loc(0, 0), to: loc(1, 0) };
    assert_eq!(process_instruction(&instruction), Some(vec![cell(0, 1, ' '), cell(1, 1, '#')]));
}

#[test]
fn player_move_in_place_redraws_the_player() {
    let instruction = UiOutputInstruction::MovePlayer { from: loc(0, 0), to: loc(0, 0) };
    assert_eq!(process_instruction(&instruction), Some(vec![cell(0, 1, ' '), cell(0, 1, '#')]));
}

#[test]
fn npc_move_erases_then_draws() {
    let instruction = UiOutputInstruction::MoveNpc { from: loc(3, 2), to: loc(2, 2) };
    assert_eq!(process_instruction(&instruction), Some(vec![cell(3, 3, ' '), cell(2, 3, '*')]));
}

#[test]
fn npc_removal_only_erases() {
    let instruction = UiOutputInstruction::RemoveNpc { from: loc(0, 6) };
    assert_eq!(process_instruction(&instruction), Some(vec![cell(0, 7, ' ')]));
}

#[test]
fn instruction_below_the_last_screen_row_has_no_updates() {
    let bottom = u16::MAX;
    assert_eq!(process_instruction(&UiOutputInstruction::RemoveNpc { from: loc(0, bottom) }), None);
    assert_eq!(
        process_instruction(&UiOutputInstruction::MoveNpc { from: loc(1, bottom), to: loc(0, 2) }),
        None
    );
    assert_eq!(
        process_instruction(&UiOutputInstruction::MovePlayer { from: loc(1, 2), to: loc(1, bottom) }),
        None
    );
    assert_eq!(
        process_instruction(&UiOutputInstruction::RemoveNpc { from: loc(0, bottom - 1) }),
        Some(vec![cell(0, bottom, ' ')])
    );
}

#[test]
fn batch_updates_follow_the_order_of_the_instructions() {
    let batch = vec![
        UiOutputInstruction::MoveNpc { from: loc(5, 5), to: loc(4, 5) },
        UiOutputInstruction::RemoveNpc { from: loc(0, 2) },
        UiOutputInstruction::MoveNpc { from: loc(6, 5), to: loc(5, 5) },
    ];
    assert_eq!(
        process_instructions(&batch),
        Some(vec![
            cell(5, 6, ' '),
            cell(4, 6, '*'),
            cell(0, 3, ' '),
            cell(6, 6, ' '),
            cell(5, 6, '*'),
        ])
    );
}

#[test]
fn empty_batch_has_no_updates() {
    assert_eq!(process_instructions(&vec![]), Some(vec![]));
}

#[test]
fn batch_with_one_unfit_instruction_has_no_updates() {
    let batch = vec![
        UiOutputInstruction::MoveNpc { from: loc(5, 5), to: loc(4, 5) },
        UiOutputInstruction::RemoveNpc { from: loc(0, u16::MAX) },
    ];
    assert_eq!(process_instructions(&batch), None);
}

#[test]
fn chrome_frames_the_board() {
    assert_eq!(
        draw_chrome((40, 10)),
        Chrome { top_row: 0, bottom_row: 11, width: 40, rest_row: 13 }
    );
    assert_eq!(draw_chrome((0, 0)), Chrome { top_row: 0, bottom_row: 1, width: 0, rest_row: 3 });
    assert_eq!(
        draw_chrome((u16::MAX, u16::MAX - 3)),
        Chrome { top_row: 0, bottom_row: u16::MAX - 2, width: u16::MAX, rest_row: u16::MAX }
    );
}

#[test]
fn init_lays_out_the_frame_and_the_player() {
    assert_eq!(
        init((40, 10), &loc(0, 0)),
        Some(ScreenSetup {
            chrome: Chrome { top_row: 0, bottom_row: 11, width: 40, rest_row: 13 },
            player: cell(0, 1, '#'),
        })
    );
}

#[test]
fn init_refuses_what_has_no_screen_row() {
    assert_eq!(init((40, u16::MAX - 2), &loc(0, 0)), None);
    assert_eq!(init((40, u16::MAX), &loc(0, 0)), None);
    assert_eq!(init((40, 10), &loc(0, u16::MAX)), None);
    assert!(init((40, u16::MAX - 3), &loc(0, u16::MAX - 1)).is_some());
}
