//! The move-legality engine behind the board.
//!
//! The position lives in a `pleco::Board`. Verus does not look inside it: what
//! the engine reports is named here and believed, and every other module works
//! from these contracts alone.

use vstd::prelude::*;

verus! {

/// Makes the engine's board, `pleco::Board`, a type that values can be of.
/// Nothing is said of what is inside.
#[verifier::external_type_specification]
#[verifier::external_body]
pub struct ExBoard(pleco::Board);

/// The position that an engine board holds, as the text `pleco::Board::fen`
/// gives for it.
pub uninterp spec fn board_fen(board: pleco::Board) -> Seq<char>;

/// The number of half-moves that an engine board counts as played, which
/// `pleco::Board::moves_played` reports.
pub uninterp spec fn board_plies(board: pleco::Board) -> u16;

/// What `pleco::Board::apply_uci_move` does with a move code on the position
/// that `fen` describes: the text of the position after the move where the
/// engine accepts it, `None` where it does not.
pub uninterp spec fn uci_move_outcome(fen: Seq<char>, uci_move: Seq<char>) -> Option<Seq<char>>;

/// The letter of the piece that `pleco::Board::piece_at_sq` finds on square
/// `square` of the position that `fen` describes, `None` for an empty square.
pub uninterp spec fn piece_letter_at(fen: Seq<char>, square: u8) -> Option<char>;

/// The text of the standard starting position.
pub open spec fn start_fen() -> Seq<char> {
    "rnbqkbnr/pppppppp/8/8/8/8/PPPPPPPP/RNBQKBNR w KQkq - 0 1"@
}

/// The most half-moves that one game can hold. The engine keeps every
/// earlier position of a game, each holding the one before it, and frees them
/// one inside the other when the game is dropped: a game stays short enough
/// for that to fit an ordinary stack. The bound also keeps the engine's
/// counters, which are 16 bits wide, far from running over.
pub const MAX_PLIES: u16 = 2048;

/// A chess position held by the engine.
///
/// A value is made by [`Position::start`] and changes only by moves that the
/// engine accepted, so it is always a position of a game played from the
/// standard start.
pub struct Position {
    board: pleco::Board,
}

impl View for Position {
    type V = Seq<char>;

    closed spec fn view(&self) -> Seq<char> {
        board_fen(self.board)
    }
}

/// Calls `pleco::Board::start_pos`. The engine documents that the board it
/// returns prints as the standard starting text and counts no move played.
#[verifier::external_body]
fn engine_start_pos() -> (position: Position)
    ensures
        board_fen(position.board) == start_fen(),
        board_plies(position.board) == 0,
{
    Position { board: pleco::Board::start_pos() }
}

/// Calls `pleco::Board::fen`, which writes the position out: the result is
/// the text that `board_fen` names.
#[verifier::external_body]
fn engine_fen(position: &Position) -> (text: String)
    ensures
        text@ == board_fen(position.board),
{
    position.board.fen()
}

/// Calls `pleco::Board::moves_played`, which returns the half-move counter.
#[verifier::external_body]
fn engine_moves_played(position: &Position) -> (plies: u16)
    ensures
        plies == board_plies(position.board),
{
    position.board.moves_played()
}

/// Calls `pleco::Board::piece_at_sq` and `pleco::Piece::character`. The square
/// must be one of the 64: the engine indexes an array of that length with it.
/// The piece found depends on the placement alone, which the position's text
/// holds in full.
#[verifier::external_body]
fn engine_piece_at(position: &Position, square: u8) -> (letter: Option<char>)
    requires
        square < 64,
    ensures
        letter == piece_letter_at(board_fen(position.board), square),
{
    position.board.piece_at_sq(pleco::SQ::from(square)).character()
}

/// Calls `pleco::Board::apply_uci_move`, which looks the code up among the
/// legal moves of the position and plays the one that is written so. The
/// engine documents that a code which matches none leaves the board as it
/// was. Which codes match, and the position after the move, follow from the
/// position's text. Playing a move adds one to each of the engine's 16-bit
/// counters, none of which is ahead of the count of half-moves in a game
/// that began at the start position, and makes the chain of earlier
/// positions one longer: the count of half-moves must be below the limit.
#[verifier::external_body]
fn engine_apply_uci_move(position: &mut Position, uci_move: &str) -> (accepted: bool)
    requires
        board_plies(old(position).board) < MAX_PLIES,
    ensures
        accepted == uci_move_outcome(board_fen(old(position).board), uci_move@).is_some(),
        accepted ==> Some(board_fen(final(position).board)) == uci_move_outcome(
            board_fen(old(position).board),
            uci_move@,
        ),
        accepted ==> board_plies(final(position).board) == board_plies(old(position).board) + 1,
        !accepted ==> *final(position) == *old(position),
{
    position.board.apply_uci_move(uci_move)
}

impl Position {
    /// The number of half-moves played to reach this position.
    pub closed spec fn plies(&self) -> u16 {
        board_plies(self.board)
    }

    /// The standard starting position.
    pub fn start() -> (position: Position)
        ensures
            position@ == start_fen(),
            position.plies() == 0,
    {
        engine_start_pos()
    }

    /// The position as text.
    pub fn fen(&self) -> (text: String)
        ensures
            text@ == self@,
    {
        engine_fen(self)
    }

    /// The letter of the piece on a square, counted from a1 along the ranks.
    pub fn piece_at(&self, square: u8) -> (letter: Option<char>)
        requires
            square < 64,
        ensures
            letter == piece_letter_at(self@, square),
    {
        engine_piece_at(self, square)
    }

    /// Whether the engine would take a move code in this position.
    pub open spec fn accepts(&self, uci_move: Seq<char>) -> bool {
        self.plies() < MAX_PLIES && uci_move_outcome(self@, uci_move).is_some()
    }

    /// Hands a move code to the engine, which plays it if it is legal here.
    /// A game that has reached the limit of half-moves takes no further move.
    pub fn apply_uci_move(&mut self, uci_move: &str) -> (accepted: bool)
        ensures
            accepted == old(self).accepts(uci_move@),
            accepted ==> Some(final(self)@) == uci_move_outcome(old(self)@, uci_move@),
            accepted ==> final(self).plies() == old(self).plies() + 1,
            !accepted ==> *final(self) == *old(self),
    {
        let plies: u16 = engine_moves_played(self);
        if plies >= MAX_PLIES {
            return false;
        }
        engine_apply_uci_move(self, uci_move)
    }
}

} // verus!
