//! What the pointer does to the board: picking a piece up, carrying it, and
//! dropping it.
//!
//! Each handler takes the pointer's position in whole pixels from the
//! widget's top left corner and says whether the board must be drawn again.
//! The handlers decide; the toolkit around them delivers the events and
//! draws.

use vstd::prelude::*;
use crate::coords::{
    cell_in_bounds,
    cell_of_pixel,
    file_of_col,
    pixel_to_cell,
    probe_square,
    rank_of_row,
    square_nearest,
    square_under,
    target_square,
    BlackSide,
    BoardCellCoord,
};
use crate::engine::piece_letter_at;
use crate::widget::{
    is_promotion_candidate,
    promotion_candidate,
    uci_of_move,
    uci_of_promotion,
    ChessState,
    DndState,
};

verus! {

/// What a drop asks of the board.
#[derive(Debug, PartialEq, Eq, Copy, Clone, Structural)]
pub enum DropAction {
    /// Nothing was being dragged, or a promotion is waiting: nothing happens.
    Ignored,
    /// The piece was dropped outside the playing area: it goes back.
    Cancelled,
    /// A pawn was dropped on its last rank: the move waits for the choice of
    /// the piece that the pawn becomes.
    PromotionPending,
    /// The move is put to the engine.
    MoveAttempt { origin: BoardCellCoord, target: BoardCellCoord },
}

/// The drag state with the pointer at a new place: the cursor is there, and
/// the target is the square nearest to it.
pub open spec fn tracking(dnd_state: DndState, chess_state: ChessState, x: i32, y: i32)
    -> DndState {
    let nearest = square_nearest(
        x as int,
        y as int,
        chess_state.cells_size(),
        chess_state.black_side,
    );
    DndState {
        cursor_x: x,
        cursor_y: y,
        target_file: nearest.file,
        target_rank: nearest.rank,
        ..dnd_state
    }
}

/// The square on which a press starts a drag, with the piece found there: the
/// board must be at rest, the pointer inside the playing area, and the
/// square occupied.
pub open spec fn press_picks(chess_state: ChessState, dnd_state: DndState, x: i32, y: i32)
    -> Option<(BoardCellCoord, char)> {
    if dnd_state.dnd_active || chess_state.pending_promotion {
        None
    } else {
        match square_under(x as int, y as int, chess_state.cells_size(), chess_state.black_side) {
            None => None,
            Some(square) => match piece_letter_at(chess_state.board@, square.index() as u8) {
                None => None,
                Some(letter) => Some((square, letter)),
            },
        }
    }
}

/// The drag state once a piece has been picked up from a square.
pub open spec fn picked_up(
    dnd_state: DndState,
    chess_state: ChessState,
    x: i32,
    y: i32,
    square: BoardCellCoord,
    letter: char,
) -> DndState {
    DndState {
        dnd_active: true,
        origin_file: square.file,
        origin_rank: square.rank,
        moved_piece_fen: letter,
        ..tracking(dnd_state, chess_state, x, y)
    }
}

/// The drag state after a press.
pub open spec fn dnd_after_press(chess_state: ChessState, dnd_state: DndState, x: i32, y: i32)
    -> DndState {
    match press_picks(chess_state, dnd_state, x, y) {
        Some((square, letter)) => picked_up(dnd_state, chess_state, x, y, square, letter),
        None => dnd_state,
    }
}

/// Whether the pointer's moves are followed: a piece is in hand and no
/// promotion is waiting.
pub open spec fn follows_pointer(chess_state: ChessState, dnd_state: DndState) -> bool {
    dnd_state.dnd_active && !chess_state.pending_promotion
}

/// The drag state after the pointer moved.
pub open spec fn dnd_after_move(chess_state: ChessState, dnd_state: DndState, x: i32, y: i32)
    -> DndState {
    if follows_pointer(chess_state, dnd_state) {
        tracking(dnd_state, chess_state, x, y)
    } else {
        dnd_state
    }
}

/// The drag state after the button was released.
pub open spec fn dnd_after_release(chess_state: ChessState, dnd_state: DndState, x: i32, y: i32)
    -> DndState {
    if follows_pointer(chess_state, dnd_state) {
        DndState { dnd_active: false, ..tracking(dnd_state, chess_state, x, y) }
    } else {
        dnd_state
    }
}

/// What a drop asks of the board, given the square under the pointer, if
/// any, and the piece that stands on the square where the drag began.
pub open spec fn drop_action(
    pending_promotion: bool,
    dnd_state: DndState,
    under_pointer: Option<BoardCellCoord>,
    moving_piece: Option<char>,
) -> DropAction {
    if !dnd_state.dnd_active || pending_promotion {
        DropAction::Ignored
    } else {
        match under_pointer {
            None => DropAction::Cancelled,
            Some(target) => if moving_piece matches Some(letter) && promotion_candidate(
                letter,
                target.rank,
            ) {
                DropAction::PromotionPending
            } else {
                DropAction::MoveAttempt { origin: dnd_state.origin(), target }
            },
        }
    }
}

/// What releasing the button at a pixel asks of the board.
pub open spec fn release_action(chess_state: ChessState, dnd_state: DndState, x: i32, y: i32)
    -> DropAction {
    drop_action(
        chess_state.pending_promotion,
        dnd_state,
        square_under(x as int, y as int, chess_state.cells_size(), chess_state.black_side),
        piece_letter_at(chess_state.board@, dnd_state.origin().index() as u8),
    )
}

/// How the board stands after a drop, by what the drop asked. A promotion
/// that waits sets the flag and nothing else. A move that the engine takes
/// changes the position and becomes the last move; one that it refuses, like
/// a drop that was ignored or cancelled, leaves the board as it was.
pub open spec fn board_after_drop(before: ChessState, after: ChessState, action: DropAction)
    -> bool {
    match action {
        DropAction::Ignored => after == before,
        DropAction::Cancelled => after == before,
        DropAction::PromotionPending => after == (ChessState {
            pending_promotion: true,
            ..before
        }),
        DropAction::MoveAttempt { origin, target } => before.played(
            after,
            uci_of_move(origin, target),
            origin,
            target,
        ),
    }
}

/// Whether a piece is in hand.
pub fn get_dnd_active_state(dnd_state: &DndState) -> (active: bool)
    ensures
        active == dnd_state.dnd_active,
{
    dnd_state.dnd_active
}

/// Whether a promotion waits for its piece.
pub fn is_pending_promotion(chess_state: &ChessState) -> (pending: bool)
    ensures
        pending == chess_state.pending_promotion,
{
    chess_state.pending_promotion
}

/// Makes the board wait for the choice of a promotion piece.
pub fn set_pending_promotion_active(chess_state: &mut ChessState)
    ensures
        *final(chess_state) == (ChessState { pending_promotion: true, ..*old(chess_state) }),
{
    chess_state.pending_promotion = true;
}

/// Records where the pointer is.
pub fn update_cursor_position(x: i32, y: i32, dnd_state: &mut DndState)
    ensures
        *final(dnd_state) == (DndState { cursor_x: x, cursor_y: y, ..*old(dnd_state) }),
{
    dnd_state.cursor_x = x;
    dnd_state.cursor_y = y;
}

/// Records the square nearest to the pointer as the target. There always is
/// one, also when the pointer has left the playing area.
pub fn update_target_coordinates(
    x: i32,
    y: i32,
    chess_state: &ChessState,
    dnd_state: &mut DndState,
)
    ensures
        *final(dnd_state) == (DndState {
            cursor_x: old(dnd_state).cursor_x,
            cursor_y: old(dnd_state).cursor_y,
            ..tracking(*old(dnd_state), *chess_state, x, y)
        }),
        final(dnd_state).target().wf(),
{
    let nearest: BoardCellCoord = target_square(
        x,
        y,
        chess_state.cell_size(),
        chess_state.black_side,
    );
    dnd_state.target_file = nearest.file;
    dnd_state.target_rank = nearest.rank;
}

/// Puts a piece in the pointer's hand.
pub fn set_dnd_active(value: char, origin_file: u8, origin_rank: u8, dnd_state: &mut DndState)
    ensures
        *final(dnd_state) == (DndState {
            dnd_active: true,
            origin_file,
            origin_rank,
            moved_piece_fen: value,
            ..*old(dnd_state)
        }),
{
    dnd_state.origin_file = origin_file;
    dnd_state.origin_rank = origin_rank;
    dnd_state.moved_piece_fen = value;
    dnd_state.dnd_active = true;
}

/// Empties the pointer's hand.
pub fn set_dnd_inactive(dnd_state: &mut DndState)
    ensures
        *final(dnd_state) == (DndState { dnd_active: false, ..*old(dnd_state) }),
{
    dnd_state.dnd_active = false;
}

/// The file under a horizontal pixel coordinate. It is off the board, -1 or
/// 8, where the pixel is outside the playing area.
pub fn get_file(x: i32, chess_state: &ChessState) -> (file: i8)
    ensures
        file == file_of_col(
            cell_of_pixel(x as int, chess_state.cells_size()),
            chess_state.black_side,
        ),
{
    let col: i8 = pixel_to_cell(x, chess_state.cell_size());
    match chess_state.black_side {
        BlackSide::BlackBottom => 7 - col,
        BlackSide::BlackTop => col,
    }
}

/// The rank under a vertical pixel coordinate. It is off the board, -1 or 8,
/// where the pixel is outside the playing area.
pub fn get_rank(y: i32, chess_state: &ChessState) -> (rank: i8)
    ensures
        rank == rank_of_row(
            cell_of_pixel(y as int, chess_state.cells_size()),
            chess_state.black_side,
        ),
{
    let row: i8 = pixel_to_cell(y, chess_state.cell_size());
    match chess_state.black_side {
        BlackSide::BlackBottom => row,
        BlackSide::BlackTop => 7 - row,
    }
}

/// The letter of the piece on a square, `None` where the square is empty.
pub fn piece_at_square(file: u8, rank: u8, chess_state: &ChessState) -> (letter: Option<char>)
    requires
        file <= 7,
        rank <= 7,
    ensures
        letter == piece_letter_at(chess_state.board@, (rank * 8 + file) as u8),
{
    chess_state.board.piece_at(rank * 8 + file)
}

/// Whether dropping the dragged piece on a rank would promote it: the piece
/// on the square where the drag began is a pawn, and the rank is its last.
pub fn is_promotion_move(target_rank: u8, chess_state: &ChessState, dnd_state: &DndState) -> (promotes: bool)
    requires
        dnd_state.wf(),
    ensures
        promotes == (piece_letter_at(
            chess_state.board@,
            dnd_state.origin().index() as u8,
        ) matches Some(letter) && promotion_candidate(letter, target_rank)),
{
    match piece_at_square(dnd_state.origin_file, dnd_state.origin_rank, chess_state) {
        Some(moving_piece) => is_promotion_candidate(moving_piece, target_rank),
        None => false,
    }
}

/// Decides what a drop asks of the board, from the square under the pointer
/// and the piece on the square where the drag began.
pub fn decide_drop(
    pending_promotion: bool,
    dnd_state: &DndState,
    under_pointer: Option<BoardCellCoord>,
    moving_piece: Option<char>,
) -> (action: DropAction)
    ensures
        action == drop_action(pending_promotion, *dnd_state, under_pointer, moving_piece),
{
    if !dnd_state.dnd_active || pending_promotion {
        return DropAction::Ignored;
    }
    match under_pointer {
        None => DropAction::Cancelled,
        Some(target) => {
            let promotes: bool = match moving_piece {
                Some(letter) => is_promotion_candidate(letter, target.rank),
                None => false,
            };
            if promotes {
                DropAction::PromotionPending
            } else {
                DropAction::MoveAttempt {
                    origin: BoardCellCoord {
                        file: dnd_state.origin_file,
                        rank: dnd_state.origin_rank,
                    },
                    target,
                }
            }
        },
    }
}

/// Puts the move from the drag's origin to the square under the pointer to
/// the engine. Nothing is tried where the pointer is outside the playing
/// area. The board changes only if the engine takes the move.
pub fn try_to_apply_move(x: i32, y: i32, chess_state: &mut ChessState, dnd_state: &DndState) -> (accepted: bool)
    requires
        dnd_state.wf(),
    ensures
        match square_under(
            x as int,
            y as int,
            old(chess_state).cells_size(),
            old(chess_state).black_side,
        ) {
            Some(target) => {
                &&& accepted == old(chess_state).board.accepts(
                    uci_of_move(dnd_state.origin(), target),
                )
                &&& board_after_drop(
                    *old(chess_state),
                    *final(chess_state),
                    DropAction::MoveAttempt { origin: dnd_state.origin(), target },
                )
            },
            None => !accepted && *final(chess_state) == *old(chess_state),
        },
{
    let under_pointer: Option<BoardCellCoord> = probe_square(
        x,
        y,
        chess_state.cell_size(),
        chess_state.black_side,
    );
    match under_pointer {
        Some(target) => {
            let origin = BoardCellCoord {
                file: dnd_state.origin_file,
                rank: dnd_state.origin_rank,
            };
            chess_state.apply_move(origin, target)
        },
        None => false,
    }
}

/// Starts a drag on a square, given what the engine found there: a piece is
/// picked up, an empty square leaves everything as it was.
pub fn start_drag(
    dnd_state: &mut DndState,
    chess_state: &ChessState,
    x: i32,
    y: i32,
    square: BoardCellCoord,
    found: Option<char>,
) -> (redraw: bool)
    requires
        square.wf(),
    ensures
        redraw == found.is_some(),
        *final(dnd_state) == match found {
            Some(letter) => picked_up(*old(dnd_state), *chess_state, x, y, square, letter),
            None => *old(dnd_state),
        },
        found.is_some() ==> final(dnd_state).wf(),
{
    match found {
        Some(fen) => {
            update_cursor_position(x, y, dnd_state);
            update_target_coordinates(x, y, chess_state, dnd_state);
            set_dnd_active(fen, square.file, square.rank, dnd_state);
            true
        },
        None => false,
    }
}

/// The button went down. A drag starts if the board is at rest and the
/// pointer is on a piece; otherwise nothing changes and nothing is drawn.
pub fn mouse_pressed_handler(
    dnd_state: &mut DndState,
    chess_state: &ChessState,
    x: i32,
    y: i32,
) -> (redraw: bool)
    ensures
        *final(dnd_state) == dnd_after_press(*chess_state, *old(dnd_state), x, y),
        redraw == press_picks(*chess_state, *old(dnd_state), x, y).is_some(),
        redraw == (*final(dnd_state) != *old(dnd_state)),
        old(dnd_state).wf() ==> final(dnd_state).wf(),
{
    if !get_dnd_active_state(dnd_state) && !is_pending_promotion(chess_state) {
        let file: i8 = get_file(x, chess_state);
        let rank: i8 = get_rank(y, chess_state);
        if cell_in_bounds(file, rank) {
            let square = BoardCellCoord { file: file as u8, rank: rank as u8 };
            let found: Option<char> = piece_at_square(square.file, square.rank, chess_state);
            return start_drag(dnd_state, chess_state, x, y, square, found);
        }
    }
    false
}

/// The pointer moved. While a piece is in hand the cursor and the target
/// follow it; otherwise nothing changes. The board is drawn again if the
/// drag state is no longer what it was, and only then.
pub fn mouse_moved_handler(
    dnd_state: &mut DndState,
    chess_state: &ChessState,
    x: i32,
    y: i32,
) -> (redraw: bool)
    ensures
        *final(dnd_state) == dnd_after_move(*chess_state, *old(dnd_state), x, y),
        redraw == (*final(dnd_state) != *old(dnd_state)),
        old(dnd_state).wf() ==> final(dnd_state).wf(),
{
    if get_dnd_active_state(dnd_state) && !is_pending_promotion(chess_state) {
        let before: DndState = *dnd_state;
        update_cursor_position(x, y, dnd_state);
        update_target_coordinates(x, y, chess_state, dnd_state);
        dnd_state.cursor_x != before.cursor_x || dnd_state.cursor_y != before.cursor_y
            || dnd_state.target_file != before.target_file || dnd_state.target_rank
            != before.target_rank
    } else {
        false
    }
}

/// The button went up. If a piece was in hand it is dropped: outside the
/// playing area the drag is cancelled; a pawn on its last rank makes the
/// board wait for a promotion piece; any other drop is put to the engine as a
/// move. Whatever came of it, the drag is over and the board is drawn again.
/// With nothing in hand, or a promotion waiting, nothing changes.
pub fn mouse_released_handler(
    dnd_state: &mut DndState,
    chess_state: &mut ChessState,
    x: i32,
    y: i32,
) -> (redraw: bool)
    requires
        old(dnd_state).wf(),
    ensures
        *final(dnd_state) == dnd_after_release(*old(chess_state), *old(dnd_state), x, y),
        board_after_drop(
            *old(chess_state),
            *final(chess_state),
            release_action(*old(chess_state), *old(dnd_state), x, y),
        ),
        redraw == follows_pointer(*old(chess_state), *old(dnd_state)),
        redraw == (*final(dnd_state) != *old(dnd_state)),
        !redraw ==> *final(chess_state) == *old(chess_state),
        final(dnd_state).wf(),
{
    if get_dnd_active_state(dnd_state) && !is_pending_promotion(chess_state) {
        let under_pointer: Option<BoardCellCoord> = probe_square(
            x,
            y,
            chess_state.cell_size(),
            chess_state.black_side,
        );
        let moving_piece: Option<char> = piece_at_square(
            dnd_state.origin_file,
            dnd_state.origin_rank,
            chess_state,
        );
        let action: DropAction = decide_drop(
            chess_state.pending_promotion,
            dnd_state,
            under_pointer,
            moving_piece,
        );
        set_dnd_inactive(dnd_state);
        update_cursor_position(x, y, dnd_state);
        update_target_coordinates(x, y, chess_state, dnd_state);
        match action {
            DropAction::PromotionPending => {
                set_pending_promotion_active(chess_state);
            },
            DropAction::MoveAttempt { origin, target } => {
                chess_state.apply_move(origin, target);
            },
            DropAction::Ignored => {},
            DropAction::Cancelled => {},
        }
        true
    } else {
        false
    }
}

/// How the board stands once a waiting promotion was resolved, with the
/// piece chosen or without one. The board waits no longer. With a piece the
/// move that was held back goes to the engine as a promotion to that piece,
/// and is played if the engine takes it; without one, or if the engine
/// refuses, the position and the last move stay as they were.
pub open spec fn board_after_promotion(
    before: ChessState,
    after: ChessState,
    dnd_state: DndState,
    choice: Option<char>,
) -> bool {
    let resumed = ChessState { pending_promotion: false, ..before };
    match choice {
        Some(piece) => resumed.played(
            after,
            uci_of_promotion(dnd_state.origin(), dnd_state.target(), piece),
            dnd_state.origin(),
            dnd_state.target(),
        ),
        None => after == resumed,
    }
}

/// Ends the wait for a promotion piece. The drag state still names the
/// squares of the move that was held back. With the letter of a piece the
/// move is put to the engine; with `None` it is given up. Either way the
/// pointer works again and the board is drawn again. Where no promotion
/// waits nothing happens.
pub fn resolve_promotion(
    dnd_state: &DndState,
    chess_state: &mut ChessState,
    choice: Option<char>,
) -> (redraw: bool)
    requires
        dnd_state.wf(),
    ensures
        redraw == old(chess_state).pending_promotion,
        if old(chess_state).pending_promotion {
            board_after_promotion(*old(chess_state), *final(chess_state), *dnd_state, choice)
        } else {
            *final(chess_state) == *old(chess_state)
        },
{
    if !is_pending_promotion(chess_state) {
        return false;
    }
    chess_state.pending_promotion = false;
    match choice {
        Some(piece) => {
            let origin = BoardCellCoord {
                file: dnd_state.origin_file,
                rank: dnd_state.origin_rank,
            };
            let target = BoardCellCoord {
                file: dnd_state.target_file,
                rank: dnd_state.target_rank,
            };
            chess_state.apply_promotion(origin, target, piece);
        },
        None => {},
    }
    true
}

/// A press on an empty square picks nothing up: the drag state stays exactly
/// as it was, so a board at rest stays at rest.
pub proof fn lemma_press_on_empty_square_is_rejected(
    chess_state: ChessState,
    dnd_state: DndState,
    x: i32,
    y: i32,
    square: BoardCellCoord,
)
    requires
        square_under(x as int, y as int, chess_state.cells_size(), chess_state.black_side)
            == Some(square),
        piece_letter_at(chess_state.board@, square.index() as u8) is None,
    ensures
        press_picks(chess_state, dnd_state, x, y) is None,
        dnd_after_press(chess_state, dnd_state, x, y) == dnd_state,
{
}

/// While a promotion waits for its piece the pointer does nothing: a press
/// picks nothing up, a move is not followed, and a release is ignored and
/// leaves the board as it was.
pub proof fn lemma_pending_promotion_freezes_pointer(
    chess_state: ChessState,
    after: ChessState,
    dnd_state: DndState,
    x: i32,
    y: i32,
)
    requires
        chess_state.pending_promotion,
    ensures
        dnd_after_press(chess_state, dnd_state, x, y) == dnd_state,
        dnd_after_move(chess_state, dnd_state, x, y) == dnd_state,
        dnd_after_release(chess_state, dnd_state, x, y) == dnd_state,
        release_action(chess_state, dnd_state, x, y) == DropAction::Ignored,
        board_after_drop(chess_state, after, release_action(chess_state, dnd_state, x, y))
            ==> after == chess_state,
{
}

/// Dropping a pawn on its last rank, inside the playing area, makes the
/// board wait for a promotion piece: the flag is set, and neither the
/// position nor the last move changes.
pub proof fn lemma_pawn_on_last_rank_waits(
    chess_state: ChessState,
    after: ChessState,
    dnd_state: DndState,
    x: i32,
    y: i32,
    target: BoardCellCoord,
    letter: char,
)
    requires
        follows_pointer(chess_state, dnd_state),
        square_under(x as int, y as int, chess_state.cells_size(), chess_state.black_side)
            == Some(target),
        piece_letter_at(chess_state.board@, dnd_state.origin().index() as u8) == Some(letter),
        promotion_candidate(letter, target.rank),
        board_after_drop(chess_state, after, release_action(chess_state, dnd_state, x, y)),
    ensures
        after.pending_promotion,
        after.board == chess_state.board,
        after.last_move == chess_state.last_move,
        !dnd_after_release(chess_state, dnd_state, x, y).dnd_active,
{
}

/// Releasing the button outside the playing area cancels the drag: the
/// piece leaves the hand, and the board, with its position and its last
/// move, stays as it was.
pub proof fn lemma_release_outside_cancels(
    chess_state: ChessState,
    after: ChessState,
    dnd_state: DndState,
    x: i32,
    y: i32,
)
    requires
        follows_pointer(chess_state, dnd_state),
        square_under(x as int, y as int, chess_state.cells_size(), chess_state.black_side)
            is None,
        board_after_drop(chess_state, after, release_action(chess_state, dnd_state, x, y)),
    ensures
        release_action(chess_state, dnd_state, x, y) == DropAction::Cancelled,
        after == chess_state,
        !dnd_after_release(chess_state, dnd_state, x, y).dnd_active,
{
}

} // verus!
