use chess_board::board::{ChessBoardModel, ChessBoardModelBuilder, ChessBoardMsg, Region};
use chess_board::coords::{BlackSide, BoardCellCoord};
use chess_board::painter::{ChessBoardPainter, DrawCommand};
use chess_board::widget::{Color, DndState, LastMove};
use chess_board::window::{WinAction, WinModel, WinMsg};

const START: &str = "rnbqkbnr/pppppppp/8/8/8/8/PPPPPPPP/RNBQKBNR w KQkq - 0 1";

#[test]
fn new_model() {
    let model = ChessBoardModel::new(500);
    assert_eq!(model.chess_state.size, 500);
    assert_eq!(model.chess_state.black_side, BlackSide::BlackTop);
    assert_eq!(model.chess_state.background_color, Color { red: 50, green: 40, blue: 90 });
    assert_eq!(model.chess_state.last_move, None);
    assert!(!model.chess_state.pending_promotion);
    assert_eq!(model.chess_state.position_fen(), START);
    assert_eq!(model.dnd_state, DndState::default());
    assert_eq!(model.canvas_size(), 500);
    assert_eq!(
        model.repaint_region(),
        Region { x: 0, y: 0, width: 500, height: 500 }
    );
    assert_eq!(model.build_painter().cells_size(), 55);
}

#[test]
fn model_builder() {
    let grey = |level: u8| Color { red: level, green: level, blue: level };
    let plain = ChessBoardModelBuilder::new().build();
    assert_eq!(plain.chess_state.size, 300);
    assert_eq!(plain.chess_state.background_color, Color { red: 50, green: 40, blue: 90 });
    assert_eq!(plain.chess_state.white_cells_color, Color { red: 100, green: 85, blue: 60 });
    assert_eq!(plain.chess_state.black_cells_color, Color { red: 85, green: 55, blue: 25 });
    let mut builder = ChessBoardModelBuilder::new();
    builder.set_size(360);
    builder.set_background_color(grey(10));
    builder.set_white_cells_color(grey(20));
    builder.set_black_cells_color(grey(30));
    let model = builder.build();
    assert_eq!(model.chess_state.size, 360);
    assert_eq!(model.chess_state.background_color, grey(10));
    assert_eq!(model.chess_state.white_cells_color, grey(20));
    assert_eq!(model.chess_state.black_cells_color, grey(30));
    assert_eq!(model.chess_state.coordinates_color, Color { red: 100, green: 78, blue: 0 });
    assert_eq!(model.chess_state.position_fen(), START);
    assert_eq!(model.dnd_state, DndState::default());
}

#[test]
fn update_sets_the_orientation_and_asks_for_a_redraw_on_change() {
    let mut model = ChessBoardModel::new(450);
    assert!(!model.update(ChessBoardMsg::SetBlackSide(BlackSide::BlackTop)));
    assert!(model.update(ChessBoardMsg::SetBlackSide(BlackSide::BlackBottom)));
    assert_eq!(model.chess_state.black_side, BlackSide::BlackBottom);
    assert!(!model.update(ChessBoardMsg::SetBlackSide(BlackSide::BlackBottom)));
    assert_eq!(model.chess_state.black_side, BlackSide::BlackBottom);
    assert!(model.update(ChessBoardMsg::SetBlackSide(BlackSide::BlackTop)));
    assert_eq!(model.chess_state.black_side, BlackSide::BlackTop);
    assert_eq!(model.chess_state.position_fen(), START);
}

#[test]
fn toggling_twice_restores_the_picture() {
    let mut model = ChessBoardModel::new(450);
    let before = model.render();
    assert!(model.orientation_toggle());
    assert_eq!(model.chess_state.black_side, BlackSide::BlackBottom);
    let turned = model.render();
    assert_ne!(turned, before);
    assert!(model.orientation_toggle());
    assert_eq!(model.chess_state.black_side, BlackSide::BlackTop);
    assert_eq!(model.render(), before);
}

#[test]
fn resize_asks_for_a_redraw_when_the_size_changes() {
    let mut model = ChessBoardModel::new(450);
    assert!(!model.resize_request(450));
    assert!(model.resize_request(900));
    assert_eq!(model.canvas_size(), 900);
    assert_eq!(model.build_painter().cells_size(), 100);
    assert_eq!(
        model.repaint_region(),
        Region { x: 0, y: 0, width: 900, height: 900 }
    );
    assert_eq!(model.chess_state.position_fen(), START);
}

#[test]
fn render_is_what_the_painter_of_the_model_paints() {
    let mut model = ChessBoardModel::new(450);
    assert!(model.on_pointer_down(250, 350));
    let mut context = Vec::new();
    ChessBoardPainter::new(50).paint(&mut context, &model.chess_state, &model.dnd_state);
    assert_eq!(model.render(), context);
    assert_eq!(context.len(), 1 + 33 + 1 + 64 + 31 + 0 + 1);
}

#[test]
fn drag_and_drop_through_the_model() {
    let mut model = ChessBoardModel::new(450);
    assert!(!model.on_pointer_move(250, 350));
    assert!(!model.on_pointer_up(250, 350));
    assert!(!model.on_pointer_down(250, 250));
    assert!(model.on_pointer_down(250, 350));
    assert!(model.dnd_state.dnd_active);
    assert!(model.on_pointer_move(255, 300));
    assert_eq!((model.dnd_state.target_file, model.dnd_state.target_rank), (4, 2));
    assert!(model.on_pointer_up(250, 250));
    assert!(!model.dnd_state.dnd_active);
    assert_eq!(
        model.chess_state.last_move,
        Some(LastMove {
            origin: BoardCellCoord { file: 4, rank: 1 },
            target: BoardCellCoord { file: 4, rank: 3 }
        })
    );
    assert_eq!(
        model.chess_state.position_fen(),
        "rnbqkbnr/pppppppp/8/8/4P3/8/PPPP1PPP/RNBQKBNR b KQkq - 0 1"
    );
    let commands = model.render();
    assert_eq!(commands.len(), 1 + 33 + 1 + 64 + 32 + 1);
    assert!(matches!(
        commands[34],
        DrawCommand::TurnDisc { color: Color { red: 0, green: 0, blue: 0 }, .. }
    ));
    assert!(matches!(commands[131], DrawCommand::Arrow { .. }));
}

#[test]
fn the_cell_drawn_under_the_pointer_shows_the_square_that_is_picked() {
    for side in [BlackSide::BlackTop, BlackSide::BlackBottom] {
        let mut model = ChessBoardModel::new(500);
        model.update(ChessBoardMsg::SetBlackSide(side));
        let commands = model.render();
        let pieces: Vec<(char, i64, i64)> = commands
            .iter()
            .filter_map(|command| match command {
                DrawCommand::Piece { piece, x, y } => Some((*piece, *x, *y)),
                _ => None,
            })
            .collect();
        assert_eq!(pieces.len(), 32);
        for x in (28..468).step_by(7) {
            for y in (28..468).step_by(7) {
                let mut probe = ChessBoardModel::new(500);
                probe.update(ChessBoardMsg::SetBlackSide(side));
                let picked = probe.on_pointer_down(x, y);
                let drawn = pieces.iter().find(|(_, left, top)| {
                    *left <= 100 * x as i64
                        && (100 * x as i64) < left + 5500
                        && *top <= 100 * y as i64
                        && (100 * y as i64) < top + 5500
                });
                match drawn {
                    Some((piece, _, _)) => {
                        assert!(picked);
                        assert_eq!(probe.dnd_state.moved_piece_fen, *piece);
                    }
                    None => assert!(!picked),
                }
            }
        }
    }
}

#[test]
fn promotion_through_the_model() {
    let mut model = ChessBoardModel::new(450);
    let moves = [
        ((0u8, 1u8), (0u8, 3u8)),
        ((7, 6), (7, 4)),
        ((0, 3), (0, 4)),
        ((7, 4), (7, 3)),
        ((0, 4), (0, 5)),
        ((7, 3), (7, 2)),
        ((0, 5), (1, 6)),
        ((7, 2), (6, 1)),
    ];
    for (from, to) in moves {
        let (x, y) = (50 + 50 * from.0 as i32, 50 + 50 * (7 - from.1) as i32);
        assert!(model.on_pointer_down(x, y));
        let (x, y) = (50 + 50 * to.0 as i32, 50 + 50 * (7 - to.1) as i32);
        assert!(model.on_pointer_up(x, y));
        assert_eq!(
            model.chess_state.last_move,
            Some(LastMove {
                origin: BoardCellCoord { file: from.0, rank: from.1 },
                target: BoardCellCoord { file: to.0, rank: to.1 }
            })
        );
    }
    assert!(!model.on_promotion_choice(Some('q')));
    assert!(model.on_pointer_down(100, 100));
    assert!(model.on_pointer_up(150, 50));
    assert!(model.chess_state.pending_promotion);
    assert!(!model.on_pointer_down(100, 100));
    assert!(model.on_promotion_choice(Some('n')));
    assert!(!model.chess_state.pending_promotion);
    assert_eq!(
        model.chess_state.position_fen(),
        "rnNqkbnr/p1ppppp1/8/8/8/8/1PPPPPpP/RNBQKBNR b KQkq - 0 5"
    );
}

#[test]
fn window_messages() {
    let mut window = WinModel::new();
    assert_eq!(window.black_side, BlackSide::BlackTop);
    assert_eq!(window.update(WinMsg::Quit), WinAction::Quit);
    assert_eq!(window.black_side, BlackSide::BlackTop);
    assert_eq!(
        window.update(WinMsg::SetBoardUpsideDown),
        WinAction::Emit(ChessBoardMsg::SetBlackSide(BlackSide::BlackBottom))
    );
    assert_eq!(window.black_side, BlackSide::BlackBottom);
    assert_eq!(
        window.update(WinMsg::SetBoardUpsideDown),
        WinAction::Emit(ChessBoardMsg::SetBlackSide(BlackSide::BlackTop))
    );
    assert_eq!(window.black_side, BlackSide::BlackTop);
    assert_eq!(window.update(WinMsg::Quit), WinAction::Quit);
}

#[test]
fn the_engine_places_the_pieces_where_its_text_says() {
    let mut model = ChessBoardModel::new(450);
    for (from, to) in [((4u8, 1u8), (4u8, 3u8)), ((6, 7), (5, 5)), ((5, 0), (2, 3))] {
        assert!(model.chess_state.apply_move(
            BoardCellCoord { file: from.0, rank: from.1 },
            BoardCellCoord { file: to.0, rank: to.1 }
        ));
        let painter = model.build_painter();
        let text = model.chess_state.position_fen();
        let lines = painter.get_pieces_values_from_fen(text.as_str());
        assert_eq!(lines.len(), 8);
        for (line_index, line) in lines.iter().enumerate() {
            let rank = 7 - line_index as u8;
            let glyphs = chess_board::fen::read_line(line);
            for file in 0..8u8 {
                let read = glyphs.iter().find(|glyph| glyph.file == file).map(|g| g.letter);
                assert_eq!(
                    chess_board::handlers::piece_at_square(file, rank, &model.chess_state),
                    read
                );
            }
        }
    }
}
