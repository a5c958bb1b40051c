use chess_board::coords::{BlackSide, BoardCellCoord};
use chess_board::widget::{
    cell_to_uci, drag_phase, is_promotion_candidate, move_to_uci, ChessStateBuilder, Color,
    DndState, DragPhase, LastMove,
};

const START: &str = "rnbqkbnr/pppppppp/8/8/8/8/PPPPPPPP/RNBQKBNR w KQkq - 0 1";

fn square(file: u8, rank: u8) -> BoardCellCoord {
    BoardCellCoord { file, rank }
}

#[test]
fn squares_as_move_codes_write_them() {
    assert_eq!(cell_to_uci(0, 0), "a1");
    assert_eq!(cell_to_uci(4, 1), "e2");
    assert_eq!(cell_to_uci(4, 3), "e4");
    assert_eq!(cell_to_uci(7, 7), "h8");
    assert_eq!(cell_to_uci(7, 0), "h1");
    assert_eq!(move_to_uci(square(4, 1), square(4, 3)), "e2e4");
    assert_eq!(move_to_uci(square(6, 7), square(5, 5)), "g8f6");
    assert_eq!(move_to_uci(square(0, 0), square(0, 0)), "a1a1");
}

#[test]
fn promotion_candidates() {
    assert!(is_promotion_candidate('P', 7));
    assert!(is_promotion_candidate('p', 0));
    assert!(!is_promotion_candidate('P', 0));
    assert!(!is_promotion_candidate('p', 7));
    assert!(!is_promotion_candidate('P', 6));
    assert!(!is_promotion_candidate('p', 1));
    for piece in ['N', 'B', 'R', 'Q', 'K', 'n', 'b', 'r', 'q', 'k', ' ', '\0'] {
        assert!(!is_promotion_candidate(piece, 7));
        assert!(!is_promotion_candidate(piece, 0));
    }
    assert!(!is_promotion_candidate('P', 8));
    assert!(!is_promotion_candidate('p', 255));
}

#[test]
fn default_looks() {
    let state = ChessStateBuilder::new().build();
    assert_eq!(state.size, 300);
    assert_eq!(state.cell_size(), 33);
    assert_eq!(state.background_color, Color { red: 50, green: 40, blue: 90 });
    assert_eq!(state.white_cells_color, Color { red: 100, green: 85, blue: 60 });
    assert_eq!(state.black_cells_color, Color { red: 85, green: 55, blue: 25 });
    assert_eq!(state.coordinates_color, Color { red: 100, green: 78, blue: 0 });
    assert_eq!(state.dnd_start_cell_color, Color { red: 92, green: 12, blue: 22 });
    assert_eq!(state.dnd_end_cell_color, Color { red: 34, green: 82, blue: 14 });
    assert_eq!(state.dnd_cross_color, Color { red: 70, green: 18, blue: 90 });
    assert_eq!(state.black_side, BlackSide::BlackTop);
    assert_eq!(state.last_move, None);
    assert!(!state.pending_promotion);
    assert_eq!(state.position_fen(), START);
}

#[test]
fn builder_setters_change_one_thing_each() {
    let grey = |level: u8| Color { red: level, green: level, blue: level };
    let mut builder = ChessStateBuilder::new();
    builder.set_board_size(500);
    builder.set_board_background_color(grey(1));
    builder.set_board_white_cells_color(grey(2));
    builder.set_board_black_cells_color(grey(3));
    builder.set_board_coordinates_color(grey(4));
    builder.set_board_orientation(BlackSide::BlackBottom);
    builder.set_dnd_start_cell_color(grey(5));
    builder.set_dnd_end_cell_color(grey(6));
    builder.set_dnd_cross_color(grey(7));
    builder.set_last_move_arrow_color(grey(8));
    let state = builder.build();
    assert_eq!(state.size, 500);
    assert_eq!(state.cell_size(), 55);
    assert_eq!(state.background_color, grey(1));
    assert_eq!(state.white_cells_color, grey(2));
    assert_eq!(state.black_cells_color, grey(3));
    assert_eq!(state.coordinates_color, grey(4));
    assert_eq!(state.black_side, BlackSide::BlackBottom);
    assert_eq!(state.dnd_start_cell_color, grey(5));
    assert_eq!(state.dnd_end_cell_color, grey(6));
    assert_eq!(state.dnd_cross_color, grey(7));
    assert_eq!(state.last_move_arrow_color, grey(8));
    assert_eq!(state.position_fen(), START);
    let mut one = ChessStateBuilder::new();
    one.set_dnd_cross_color(grey(9));
    assert_eq!(
        one,
        ChessStateBuilder { dnd_cross_color: grey(9), ..ChessStateBuilder::new() }
    );
}

#[test]
fn cell_size_is_a_ninth_rounded_down() {
    let mut builder = ChessStateBuilder::new();
    for (size, cells) in [(0, 0), (8, 0), (9, 1), (17, 1), (18, 2), (450, 50), (500, 55)] {
        builder.set_board_size(size);
        assert_eq!(builder.build().cell_size(), cells);
    }
    builder.set_board_size(u32::MAX);
    assert_eq!(builder.build().cell_size(), 477218588);
}

#[test]
fn set_orientation_changes_the_orientation_only() {
    let mut state = ChessStateBuilder::new().build();
    state.set_orientation(BlackSide::BlackBottom);
    assert_eq!(state.black_side, BlackSide::BlackBottom);
    assert_eq!(state.size, 300);
    assert_eq!(state.last_move, None);
    assert_eq!(state.position_fen(), START);
    state.set_orientation(BlackSide::BlackBottom);
    assert_eq!(state.black_side, BlackSide::BlackBottom);
    state.set_orientation(BlackSide::BlackTop);
    assert_eq!(state.black_side, BlackSide::BlackTop);
}

#[test]
fn apply_move_records_the_last_move_on_success_only() {
    let mut state = ChessStateBuilder::new().build();
    assert!(!state.apply_move(square(4, 1), square(4, 4)));
    assert_eq!(state.last_move, None);
    assert_eq!(state.position_fen(), START);
    assert!(state.apply_move(square(4, 1), square(4, 3)));
    assert_eq!(
        state.last_move,
        Some(LastMove { origin: square(4, 1), target: square(4, 3) })
    );
    assert_eq!(
        state.position_fen(),
        "rnbqkbnr/pppppppp/8/8/4P3/8/PPPP1PPP/RNBQKBNR b KQkq - 0 1"
    );
    assert!(!state.apply_move(square(4, 3), square(4, 4)));
    assert_eq!(
        state.last_move,
        Some(LastMove { origin: square(4, 1), target: square(4, 3) })
    );
    assert!(state.apply_move(square(4, 6), square(4, 4)));
    assert_eq!(
        state.last_move,
        Some(LastMove { origin: square(4, 6), target: square(4, 4) })
    );
}

#[test]
fn apply_promotion_needs_a_pawn_on_its_way() {
    let mut state = ChessStateBuilder::new().build();
    assert!(!state.apply_promotion(square(4, 1), square(4, 3), 'q'));
    assert_eq!(state.position_fen(), START);
    assert_eq!(state.last_move, None);
}

#[test]
fn drag_state_defaults_and_well_formedness() {
    let idle = DndState::default();
    assert_eq!(
        idle,
        DndState {
            dnd_active: false,
            cursor_x: 0,
            cursor_y: 0,
            origin_file: 0,
            origin_rank: 0,
            target_file: 0,
            target_rank: 0,
            moved_piece_fen: '\0',
        }
    );
    assert!(idle.is_wf());
    assert!(!DndState { origin_file: 8, ..idle }.is_wf());
    assert!(!DndState { origin_rank: 8, ..idle }.is_wf());
    assert!(!DndState { target_file: 8, ..idle }.is_wf());
    assert!(!DndState { target_rank: 8, ..idle }.is_wf());
    assert!(DndState { origin_file: 7, origin_rank: 7, target_file: 7, target_rank: 7, ..idle }
        .is_wf());
}

#[test]
fn phases() {
    let mut state = ChessStateBuilder::new().build();
    let idle = DndState::default();
    let dragging = DndState { dnd_active: true, ..idle };
    assert_eq!(drag_phase(&state, &idle), DragPhase::Idle);
    assert_eq!(drag_phase(&state, &dragging), DragPhase::Dragging);
    state.pending_promotion = true;
    assert_eq!(drag_phase(&state, &idle), DragPhase::PendingPromotion);
    assert_eq!(drag_phase(&state, &dragging), DragPhase::PendingPromotion);
}
