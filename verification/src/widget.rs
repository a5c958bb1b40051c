//! The state of the board widget: its looks, the position on it, and the
//! piece that the pointer is dragging.

use vstd::prelude::*;
use vstd::string::StringExecFns;
use crate::coords::{BlackSide, BoardCellCoord};
use crate::engine::{uci_move_outcome, Position};

verus! {

/// A colour. Each component counts hundredths of full intensity, so 100
/// is the most a surface can show.
#[derive(Debug, PartialEq, Eq, Copy, Clone, Structural)]
pub struct Color {
    pub red: u8,
    pub green: u8,
    pub blue: u8,
}

/// The move played last, by the square it left and the square it reached.
#[derive(Debug, PartialEq, Eq, Copy, Clone, Structural)]
pub struct LastMove {
    pub origin: BoardCellCoord,
    pub target: BoardCellCoord,
}

/// What the board shows when nothing is being dragged.
pub struct ChessState {
    /// The side of the square widget, in pixels.
    pub size: u32,
    pub background_color: Color,
    pub white_cells_color: Color,
    pub black_cells_color: Color,
    pub coordinates_color: Color,
    pub dnd_start_cell_color: Color,
    pub dnd_end_cell_color: Color,
    pub dnd_cross_color: Color,
    pub last_move_arrow_color: Color,
    pub board: Position,
    pub black_side: BlackSide,
    pub last_move: Option<LastMove>,
    /// Set when a pawn was dropped on its last rank and the piece it becomes
    /// has not been chosen yet. While it is set the pointer does nothing.
    pub pending_promotion: bool,
}

/// The piece in the pointer's hand. The fields other than `dnd_active` mean
/// something only while it is set.
#[derive(Debug, PartialEq, Eq, Copy, Clone, Structural)]
pub struct DndState {
    pub dnd_active: bool,
    /// Where the pointer is, in pixels from the widget's top left corner.
    pub cursor_x: i32,
    pub cursor_y: i32,
    pub origin_file: u8,
    pub origin_rank: u8,
    pub target_file: u8,
    pub target_rank: u8,
    /// The dragged piece's letter: upper case for white, lower case for black.
    pub moved_piece_fen: char,
}

/// The three situations that the pointer can meet.
#[derive(Debug, PartialEq, Eq, Copy, Clone, Structural)]
pub enum DragPhase {
    Idle,
    Dragging,
    PendingPromotion,
}

/// The letter `a` to `h` of a file.
pub open spec fn file_letter(file: u8) -> char {
    (97 + file) as char
}

/// The digit `1` to `8` of a rank.
pub open spec fn rank_digit(rank: u8) -> char {
    (49 + rank) as char
}

/// A square as a move code writes it, such as `e2`.
pub open spec fn uci_of_square(square: BoardCellCoord) -> Seq<char> {
    seq![file_letter(square.file), rank_digit(square.rank)]
}

/// The four characters that name a move to the engine: the square left, then
/// the square reached, such as `e2e4`.
pub open spec fn uci_of_move(origin: BoardCellCoord, target: BoardCellCoord) -> Seq<char> {
    uci_of_square(origin) + uci_of_square(target)
}

/// The five characters that name a promotion to the engine: the move, then
/// the letter of the piece that the pawn becomes, such as `e7e8q`.
pub open spec fn uci_of_promotion(origin: BoardCellCoord, target: BoardCellCoord, piece: char)
    -> Seq<char> {
    uci_of_move(origin, target).push(piece)
}

/// A pawn that moves to the far rank: a white one to the eighth, a black one
/// to the first.
pub open spec fn promotion_candidate(moving_piece: char, target_rank: u8) -> bool {
    (moving_piece == 'P' && target_rank == 7) || (moving_piece == 'p' && target_rank == 0)
}

/// Calls `String::push`, which appends one character to the text.
#[verifier::external_body]
fn string_push(text: &mut String, c: char)
    ensures
        final(text)@ == old(text)@.push(c),
{
    text.push(c)
}

/// Writes a square as a move code does: the file's letter, then the rank's
/// digit.
pub fn cell_to_uci(file: u8, rank: u8) -> (code: String)
    requires
        file <= 7,
        rank <= 7,
    ensures
        code@ == uci_of_square(BoardCellCoord { file, rank }),
{
    let ascii_lowercase_a: u8 = 97;
    let file_ascii: u8 = ascii_lowercase_a + file;
    let ascii_1: u8 = 49;
    let rank_ascii: u8 = ascii_1 + rank;
    let mut code: String = String::new();
    string_push(&mut code, file_ascii as char);
    string_push(&mut code, rank_ascii as char);
    assert(code@ =~= uci_of_square(BoardCellCoord { file, rank }));
    code
}

/// Writes the code of the move from one square to another.
pub fn move_to_uci(origin: BoardCellCoord, target: BoardCellCoord) -> (code: String)
    requires
        origin.wf(),
        target.wf(),
    ensures
        code@ == uci_of_move(origin, target),
{
    let origin_cell_uci: String = cell_to_uci(origin.file, origin.rank);
    let target_cell_uci: String = cell_to_uci(target.file, target.rank);
    origin_cell_uci.concat(target_cell_uci.as_str())
}

/// Whether moving this piece to this rank would promote it. The piece is
/// given by its letter, the rank counted from 0.
pub fn is_promotion_candidate(moving_piece: char, target_rank: u8) -> (promotes: bool)
    ensures
        promotes == promotion_candidate(moving_piece, target_rank),
{
    (moving_piece == 'P' && target_rank == 7) || (moving_piece == 'p' && target_rank == 0)
}

impl ChessState {
    /// The side of one cell in pixels: a ninth of the widget's, rounded down.
    /// The painter and the pointer both measure with it.
    pub open spec fn cells_size(&self) -> int {
        self.size as int / 9
    }

    /// The state after the engine accepted a move: the engine's position
    /// has changed, the move is the last one, all else is as it was.
    pub open spec fn moved(self, board: Position, origin: BoardCellCoord, target: BoardCellCoord)
        -> ChessState {
        ChessState { board, last_move: Some(LastMove { origin, target }), ..self }
    }

    /// How the board stands after a move code went to the engine, for the
    /// move from one square to another. If the engine takes the code, the
    /// position after it is the engine's, one half-move later, and the move
    /// is the last one; all else is as it was. If the engine refuses it,
    /// nothing has changed.
    pub open spec fn played(
        self,
        after: ChessState,
        move_uci: Seq<char>,
        origin: BoardCellCoord,
        target: BoardCellCoord,
    ) -> bool {
        if self.board.accepts(move_uci) {
            &&& after == self.moved(after.board, origin, target)
            &&& Some(after.board@) == uci_move_outcome(self.board@, move_uci)
            &&& after.board.plies() == self.board.plies() + 1
        } else {
            after == self
        }
    }

    /// The side of one cell in pixels.
    pub fn cell_size(&self) -> (cells_size: u32)
        ensures
            cells_size == self.cells_size(),
    {
        self.size / 9
    }

    /// Turns the board so that black plays from the given side. Nothing else
    /// changes, and nothing is drawn: the caller asks for that.
    pub fn set_orientation(&mut self, side: BlackSide)
        ensures
            *final(self) == (ChessState { black_side: side, ..*old(self) }),
    {
        self.black_side = side;
    }

    /// The position as the engine writes it.
    pub fn position_fen(&self) -> (text: String)
        ensures
            text@ == self.board@,
    {
        self.board.fen()
    }

    /// Takes note of the engine's answer to a move: a move that it accepted
    /// becomes the last move, one that it refused leaves no trace.
    pub fn record_move(&mut self, accepted: bool, origin: BoardCellCoord, target: BoardCellCoord)
        ensures
            *final(self) == if accepted {
                ChessState { last_move: Some(LastMove { origin, target }), ..*old(self) }
            } else {
                *old(self)
            },
    {
        if accepted {
            self.last_move = Some(LastMove { origin, target });
        }
    }

    /// Puts a move code to the engine, for the move from one square to
    /// another.
    fn play(&mut self, origin: BoardCellCoord, target: BoardCellCoord, move_uci: &str) -> (accepted:
        bool)
        ensures
            accepted == old(self).board.accepts(move_uci@),
            old(self).played(*final(self), move_uci@, origin, target),
    {
        let success: bool = self.board.apply_uci_move(move_uci);
        self.record_move(success, origin, target);
        success
    }

    /// Asks the engine to play the move from one square to another. The
    /// engine decides; the move is recorded as the last one if it was taken,
    /// and nothing changes if it was not.
    pub fn apply_move(&mut self, origin: BoardCellCoord, target: BoardCellCoord) -> (accepted:
        bool)
        requires
            origin.wf(),
            target.wf(),
        ensures
            accepted == old(self).board.accepts(uci_of_move(origin, target)),
            old(self).played(*final(self), uci_of_move(origin, target), origin, target),
    {
        let move_uci: String = move_to_uci(origin, target);
        self.play(origin, target, move_uci.as_str())
    }

    /// Asks the engine to play a pawn's move to its last rank, with the
    /// letter of the piece that the pawn becomes. The engine decides as for
    /// any move.
    pub fn apply_promotion(
        &mut self,
        origin: BoardCellCoord,
        target: BoardCellCoord,
        piece: char,
    ) -> (accepted: bool)
        requires
            origin.wf(),
            target.wf(),
        ensures
            accepted == old(self).board.accepts(uci_of_promotion(origin, target, piece)),
            old(self).played(
                *final(self),
                uci_of_promotion(origin, target, piece),
                origin,
                target,
            ),
    {
        let mut move_uci: String = move_to_uci(origin, target);
        string_push(&mut move_uci, piece);
        self.play(origin, target, move_uci.as_str())
    }
}

impl DndState {
    /// The squares that the state names are on the board.
    pub open spec fn wf(self) -> bool {
        &&& self.origin_file <= 7
        &&& self.origin_rank <= 7
        &&& self.target_file <= 7
        &&& self.target_rank <= 7
    }

    /// The state before anything was ever picked up.
    pub open spec fn idle() -> DndState {
        DndState {
            dnd_active: false,
            cursor_x: 0,
            cursor_y: 0,
            origin_file: 0,
            origin_rank: 0,
            target_file: 0,
            target_rank: 0,
            moved_piece_fen: '\0',
        }
    }

    /// The square from which the piece was picked up.
    pub open spec fn origin(self) -> BoardCellCoord {
        BoardCellCoord { file: self.origin_file, rank: self.origin_rank }
    }

    /// The square over which the piece hangs, or the nearest to it.
    pub open spec fn target(self) -> BoardCellCoord {
        BoardCellCoord { file: self.target_file, rank: self.target_rank }
    }

    /// Whether the squares that the state names are on the board.
    pub fn is_wf(&self) -> (ok: bool)
        ensures
            ok == self.wf(),
    {
        self.origin_file <= 7 && self.origin_rank <= 7 && self.target_file <= 7
            && self.target_rank <= 7
    }
}

impl Default for DndState {
    /// Nothing in hand.
    fn default() -> (state: DndState)
        ensures
            state == DndState::idle(),
            state.wf(),
    {
        DndState {
            dnd_active: false,
            cursor_x: 0,
            cursor_y: 0,
            origin_file: 0,
            origin_rank: 0,
            target_file: 0,
            target_rank: 0,
            moved_piece_fen: '\0',
        }
    }
}

/// The situation that the pointer meets: a promotion waiting for its piece
/// comes before a drag, and a drag before rest.
pub open spec fn phase_of(chess_state: ChessState, dnd_state: DndState) -> DragPhase {
    if chess_state.pending_promotion {
        DragPhase::PendingPromotion
    } else if dnd_state.dnd_active {
        DragPhase::Dragging
    } else {
        DragPhase::Idle
    }
}

/// The situation that the pointer meets.
pub fn drag_phase(chess_state: &ChessState, dnd_state: &DndState) -> (phase: DragPhase)
    ensures
        phase == phase_of(*chess_state, *dnd_state),
{
    if chess_state.pending_promotion {
        DragPhase::PendingPromotion
    } else if dnd_state.dnd_active {
        DragPhase::Dragging
    } else {
        DragPhase::Idle
    }
}

/// Collects the looks of a board before it is made.
#[derive(Debug, PartialEq, Eq, Copy, Clone, Structural)]
pub struct ChessStateBuilder {
    pub size: u32,
    pub background_color: Color,
    pub white_cells_color: Color,
    pub black_cells_color: Color,
    pub coordinates_color: Color,
    pub dnd_start_cell_color: Color,
    pub dnd_end_cell_color: Color,
    pub dnd_cross_color: Color,
    pub last_move_arrow_color: Color,
    pub black_side: BlackSide,
}

impl ChessStateBuilder {
    /// The state that the builder makes around a position: the looks it
    /// holds, no move played yet and no promotion waiting.
    pub open spec fn state_with(self, board: Position) -> ChessState {
        ChessState {
            size: self.size,
            background_color: self.background_color,
            white_cells_color: self.white_cells_color,
            black_cells_color: self.black_cells_color,
            coordinates_color: self.coordinates_color,
            dnd_start_cell_color: self.dnd_start_cell_color,
            dnd_end_cell_color: self.dnd_end_cell_color,
            dnd_cross_color: self.dnd_cross_color,
            last_move_arrow_color: self.last_move_arrow_color,
            board,
            black_side: self.black_side,
            last_move: None,
            pending_promotion: false,
        }
    }

    /// The looks of a board of which nothing was said: 300 pixels wide,
    /// black at the top.
    pub open spec fn default_looks() -> ChessStateBuilder {
        ChessStateBuilder {
            size: 300,
            background_color: Color { red: 50, green: 40, blue: 90 },
            white_cells_color: Color { red: 100, green: 85, blue: 60 },
            black_cells_color: Color { red: 85, green: 55, blue: 25 },
            coordinates_color: Color { red: 100, green: 78, blue: 0 },
            dnd_start_cell_color: Color { red: 92, green: 12, blue: 22 },
            dnd_end_cell_color: Color { red: 34, green: 82, blue: 14 },
            dnd_cross_color: Color { red: 70, green: 18, blue: 90 },
            last_move_arrow_color: Color { red: 20, green: 40, blue: 90 },
            black_side: BlackSide::BlackTop,
        }
    }

    /// A builder with the default looks.
    pub fn new() -> (builder: ChessStateBuilder)
        ensures
            builder == Self::default_looks(),
    {
        ChessStateBuilder {
            size: 300,
            background_color: Color { red: 50, green: 40, blue: 90 },
            white_cells_color: Color { red: 100, green: 85, blue: 60 },
            black_cells_color: Color { red: 85, green: 55, blue: 25 },
            coordinates_color: Color { red: 100, green: 78, blue: 0 },
            dnd_start_cell_color: Color { red: 92, green: 12, blue: 22 },
            dnd_end_cell_color: Color { red: 34, green: 82, blue: 14 },
            dnd_cross_color: Color { red: 70, green: 18, blue: 90 },
            last_move_arrow_color: Color { red: 20, green: 40, blue: 90 },
            black_side: BlackSide::BlackTop,
        }
    }

    /// The board that was asked for, on the standard starting position.
    pub fn build(self) -> (state: ChessState)
        ensures
            state == self.state_with(state.board),
            state.board@ == crate::engine::start_fen(),
            state.board.plies() == 0,
    {
        ChessState {
            size: self.size,
            background_color: self.background_color,
            white_cells_color: self.white_cells_color,
            black_cells_color: self.black_cells_color,
            coordinates_color: self.coordinates_color,
            dnd_start_cell_color: self.dnd_start_cell_color,
            dnd_end_cell_color: self.dnd_end_cell_color,
            dnd_cross_color: self.dnd_cross_color,
            last_move_arrow_color: self.last_move_arrow_color,
            black_side: self.black_side,
            board: Position::start(),
            last_move: None,
            pending_promotion: false,
        }
    }

    pub fn set_board_size(&mut self, size: u32)
        ensures
            *final(self) == (ChessStateBuilder { size, ..*old(self) }),
    {
        self.size = size;
    }

    pub fn set_board_background_color(&mut self, background_color: Color)
        ensures
            *final(self) == (ChessStateBuilder { background_color, ..*old(self) }),
    {
        self.background_color = background_color;
    }

    pub fn set_board_white_cells_color(&mut self, white_cells_color: Color)
        ensures
            *final(self) == (ChessStateBuilder { white_cells_color, ..*old(self) }),
    {
        self.white_cells_color = white_cells_color;
    }

    pub fn set_board_black_cells_color(&mut self, black_cells_color: Color)
        ensures
            *final(self) == (ChessStateBuilder { black_cells_color, ..*old(self) }),
    {
        self.black_cells_color = black_cells_color;
    }

    pub fn set_board_coordinates_color(&mut self, coordinates_color: Color)
        ensures
            *final(self) == (ChessStateBuilder { coordinates_color, ..*old(self) }),
    {
        self.coordinates_color = coordinates_color;
    }

    pub fn set_board_orientation(&mut self, side: BlackSide)
        ensures
            *final(self) == (ChessStateBuilder { black_side: side, ..*old(self) }),
    {
        self.black_side = side;
    }

    pub fn set_dnd_start_cell_color(&mut self, start_cell_color: Color)
        ensures
            *final(self) == (ChessStateBuilder {
                dnd_start_cell_color: start_cell_color,
                ..*old(self)
            }),
    {
        self.dnd_start_cell_color = start_cell_color;
    }

    pub fn set_dnd_end_cell_color(&mut self, end_cell_color: Color)
        ensures
            *final(self) == (ChessStateBuilder { dnd_end_cell_color: end_cell_color, ..*old(self) }),
    {
        self.dnd_end_cell_color = end_cell_color;
    }

    pub fn set_dnd_cross_color(&mut self, cross_color: Color)
        ensures
            *final(self) == (ChessStateBuilder { dnd_cross_color: cross_color, ..*old(self) }),
    {
        self.dnd_cross_color = cross_color;
    }

    pub fn set_last_move_arrow_color(&mut self, arrow_color: Color)
        ensures
            *final(self) == (ChessStateBuilder { last_move_arrow_color: arrow_color, ..*old(self) }),
    {
        self.last_move_arrow_color = arrow_color;
    }
}

} // verus!
