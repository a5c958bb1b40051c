use chess_board::engine::{Position, MAX_PLIES};

const START: &str = "rnbqkbnr/pppppppp/8/8/8/8/PPPPPPPP/RNBQKBNR w KQkq - 0 1";

#[test]
fn start_position_text_is_the_standard_one() {
    let position = Position::start();
    assert_eq!(position.fen(), START);
}

#[test]
fn illegal_move_is_refused_and_changes_nothing() {
    let mut position = Position::start();
    assert!(!position.apply_uci_move("e2e5"));
    assert_eq!(position.fen(), START);
    assert!(!position.apply_uci_move("e7e5"));
    assert_eq!(position.fen(), START);
    assert!(!position.apply_uci_move(""));
    assert!(!position.apply_uci_move("not a move"));
    assert_eq!(position.fen(), START);
}

#[test]
fn legal_move_is_played() {
    let mut position = Position::start();
    assert!(position.apply_uci_move("e2e4"));
    assert_eq!(
        position.fen(),
        "rnbqkbnr/pppppppp/8/8/4P3/8/PPPP1PPP/RNBQKBNR b KQkq - 0 1"
    );
    assert!(position.apply_uci_move("g8f6"));
    assert_eq!(
        position.fen(),
        "rnbqkb1r/pppppppp/5n2/8/4P3/8/PPPP1PPP/RNBQKBNR w KQkq - 1 2"
    );
}

#[test]
fn piece_at_reads_the_placement() {
    let position = Position::start();
    assert_eq!(position.piece_at(0), Some('R'));
    assert_eq!(position.piece_at(4), Some('K'));
    assert_eq!(position.piece_at(12), Some('P'));
    assert_eq!(position.piece_at(28), None);
    assert_eq!(position.piece_at(52), Some('p'));
    assert_eq!(position.piece_at(59), Some('q'));
    assert_eq!(position.piece_at(63), Some('r'));
}

#[test]
fn piece_at_follows_a_move() {
    let mut position = Position::start();
    assert!(position.apply_uci_move("e2e4"));
    assert_eq!(position.piece_at(12), None);
    assert_eq!(position.piece_at(28), Some('P'));
}

#[test]
fn same_position_and_move_give_the_same_outcome() {
    let mut first = Position::start();
    let mut second = Position::start();
    assert_eq!(first.fen(), second.fen());
    assert_eq!(first.apply_uci_move("b1c3"), second.apply_uci_move("b1c3"));
    assert_eq!(first.fen(), second.fen());
    assert_eq!(first.apply_uci_move("b1c3"), second.apply_uci_move("b1c3"));
    assert_eq!(first.fen(), second.fen());
}

#[test]
fn no_move_is_taken_once_the_game_is_full() {
    assert_eq!(MAX_PLIES, 2048);
    let mut position = Position::start();
    let round = ["g1f3", "g8f6", "f3g1", "f6g8"];
    let mut played: u32 = 0;
    while played < MAX_PLIES as u32 {
        let code = round[(played % 4) as usize];
        assert!(position.apply_uci_move(code), "ply {} was refused", played);
        played += 1;
    }
    let before = position.fen();
    assert_eq!(before, "rnbqkbnr/pppppppp/8/8/8/8/PPPPPPPP/RNBQKBNR w KQkq - 2048 1025");
    assert!(!position.apply_uci_move("g1f3"));
    assert!(!position.apply_uci_move("e2e4"));
    assert_eq!(position.fen(), before);
}
