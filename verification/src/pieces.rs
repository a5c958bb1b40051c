//! The twelve pieces, their letters, and the pictures that show them.

use vstd::prelude::*;
use vstd::string::StringExecFns;

verus! {

/// A piece of one colour. The order is that of the picture cache: white's
/// pieces first, each side from pawn to king.
#[derive(Debug, PartialEq, Eq, Copy, Clone, Structural)]
pub enum PieceKind {
    WhitePawn,
    WhiteKnight,
    WhiteBishop,
    WhiteRook,
    WhiteQueen,
    WhiteKing,
    BlackPawn,
    BlackKnight,
    BlackBishop,
    BlackRook,
    BlackQueen,
    BlackKing,
}

/// The number of different pieces, and so of pictures to keep.
pub const PIECE_KINDS: usize = 12;

/// The piece that a letter of a position's text stands for: upper case for
/// white, lower case for black.
pub open spec fn kind_of_letter(letter: char) -> Option<PieceKind> {
    if letter == 'P' {
        Some(PieceKind::WhitePawn)
    } else if letter == 'N' {
        Some(PieceKind::WhiteKnight)
    } else if letter == 'B' {
        Some(PieceKind::WhiteBishop)
    } else if letter == 'R' {
        Some(PieceKind::WhiteRook)
    } else if letter == 'Q' {
        Some(PieceKind::WhiteQueen)
    } else if letter == 'K' {
        Some(PieceKind::WhiteKing)
    } else if letter == 'p' {
        Some(PieceKind::BlackPawn)
    } else if letter == 'n' {
        Some(PieceKind::BlackKnight)
    } else if letter == 'b' {
        Some(PieceKind::BlackBishop)
    } else if letter == 'r' {
        Some(PieceKind::BlackRook)
    } else if letter == 'q' {
        Some(PieceKind::BlackQueen)
    } else if letter == 'k' {
        Some(PieceKind::BlackKing)
    } else {
        None
    }
}

/// Whether a letter stands for a piece.
pub open spec fn is_piece_letter(letter: char) -> bool {
    kind_of_letter(letter).is_some()
}

impl PieceKind {
    /// The letter that stands for the piece.
    pub open spec fn letter_of(self) -> char {
        match self {
            PieceKind::WhitePawn => 'P',
            PieceKind::WhiteKnight => 'N',
            PieceKind::WhiteBishop => 'B',
            PieceKind::WhiteRook => 'R',
            PieceKind::WhiteQueen => 'Q',
            PieceKind::WhiteKing => 'K',
            PieceKind::BlackPawn => 'p',
            PieceKind::BlackKnight => 'n',
            PieceKind::BlackBishop => 'b',
            PieceKind::BlackRook => 'r',
            PieceKind::BlackQueen => 'q',
            PieceKind::BlackKing => 'k',
        }
    }

    /// The piece's place among the twelve.
    pub open spec fn place(self) -> int {
        match self {
            PieceKind::WhitePawn => 0,
            PieceKind::WhiteKnight => 1,
            PieceKind::WhiteBishop => 2,
            PieceKind::WhiteRook => 3,
            PieceKind::WhiteQueen => 4,
            PieceKind::WhiteKing => 5,
            PieceKind::BlackPawn => 6,
            PieceKind::BlackKnight => 7,
            PieceKind::BlackBishop => 8,
            PieceKind::BlackRook => 9,
            PieceKind::BlackQueen => 10,
            PieceKind::BlackKing => 11,
        }
    }

    /// The piece that a letter stands for, `None` for any other character.
    pub fn from_letter(letter: char) -> (kind: Option<PieceKind>)
        ensures
            kind == kind_of_letter(letter),
    {
        if letter == 'P' {
            Some(PieceKind::WhitePawn)
        } else if letter == 'N' {
            Some(PieceKind::WhiteKnight)
        } else if letter == 'B' {
            Some(PieceKind::WhiteBishop)
        } else if letter == 'R' {
            Some(PieceKind::WhiteRook)
        } else if letter == 'Q' {
            Some(PieceKind::WhiteQueen)
        } else if letter == 'K' {
            Some(PieceKind::WhiteKing)
        } else if letter == 'p' {
            Some(PieceKind::BlackPawn)
        } else if letter == 'n' {
            Some(PieceKind::BlackKnight)
        } else if letter == 'b' {
            Some(PieceKind::BlackBishop)
        } else if letter == 'r' {
            Some(PieceKind::BlackRook)
        } else if letter == 'q' {
            Some(PieceKind::BlackQueen)
        } else if letter == 'k' {
            Some(PieceKind::BlackKing)
        } else {
            None
        }
    }

    /// The letter that stands for the piece.
    pub fn letter(self) -> (letter: char)
        ensures
            letter == self.letter_of(),
            kind_of_letter(letter) == Some(self),
    {
        match self {
            PieceKind::WhitePawn => 'P',
            PieceKind::WhiteKnight => 'N',
            PieceKind::WhiteBishop => 'B',
            PieceKind::WhiteRook => 'R',
            PieceKind::WhiteQueen => 'Q',
            PieceKind::WhiteKing => 'K',
            PieceKind::BlackPawn => 'p',
            PieceKind::BlackKnight => 'n',
            PieceKind::BlackBishop => 'b',
            PieceKind::BlackRook => 'r',
            PieceKind::BlackQueen => 'q',
            PieceKind::BlackKing => 'k',
        }
    }

    /// The piece's place among the twelve, for a table of that many
    /// pictures.
    pub fn index(self) -> (index: usize)
        ensures
            index == self.place(),
            index < PIECE_KINDS,
    {
        match self {
            PieceKind::WhitePawn => 0,
            PieceKind::WhiteKnight => 1,
            PieceKind::WhiteBishop => 2,
            PieceKind::WhiteRook => 3,
            PieceKind::WhiteQueen => 4,
            PieceKind::WhiteKing => 5,
            PieceKind::BlackPawn => 6,
            PieceKind::BlackKnight => 7,
            PieceKind::BlackBishop => 8,
            PieceKind::BlackRook => 9,
            PieceKind::BlackQueen => 10,
            PieceKind::BlackKing => 11,
        }
    }

    /// The name of the picture that shows the piece.
    pub open spec fn picture_name_of(self) -> Seq<char> {
        match self {
            PieceKind::WhitePawn => "Chess_plt45.svg"@,
            PieceKind::WhiteKnight => "Chess_nlt45.svg"@,
            PieceKind::WhiteBishop => "Chess_blt45.svg"@,
            PieceKind::WhiteRook => "Chess_rlt45.svg"@,
            PieceKind::WhiteQueen => "Chess_qlt45.svg"@,
            PieceKind::WhiteKing => "Chess_klt45.svg"@,
            PieceKind::BlackPawn => "Chess_pdt45.svg"@,
            PieceKind::BlackKnight => "Chess_ndt45.svg"@,
            PieceKind::BlackBishop => "Chess_bdt45.svg"@,
            PieceKind::BlackRook => "Chess_rdt45.svg"@,
            PieceKind::BlackQueen => "Chess_qdt45.svg"@,
            PieceKind::BlackKing => "Chess_kdt45.svg"@,
        }
    }

    /// The name of the picture that shows the piece.
    pub fn picture_name(self) -> (name: String)
        ensures
            name@ == self.picture_name_of(),
    {
        match self {
            PieceKind::WhitePawn => String::from_str("Chess_plt45.svg"),
            PieceKind::WhiteKnight => String::from_str("Chess_nlt45.svg"),
            PieceKind::WhiteBishop => String::from_str("Chess_blt45.svg"),
            PieceKind::WhiteRook => String::from_str("Chess_rlt45.svg"),
            PieceKind::WhiteQueen => String::from_str("Chess_qlt45.svg"),
            PieceKind::WhiteKing => String::from_str("Chess_klt45.svg"),
            PieceKind::BlackPawn => String::from_str("Chess_pdt45.svg"),
            PieceKind::BlackKnight => String::from_str("Chess_ndt45.svg"),
            PieceKind::BlackBishop => String::from_str("Chess_bdt45.svg"),
            PieceKind::BlackRook => String::from_str("Chess_rdt45.svg"),
            PieceKind::BlackQueen => String::from_str("Chess_qdt45.svg"),
            PieceKind::BlackKing => String::from_str("Chess_kdt45.svg"),
        }
    }
}

/// The name of the picture that shows the piece with this letter, `None`
/// for a letter that stands for no piece. The pictures are drawn on a
/// square of 45 units.
pub fn piece_value_to_svg_string(piece_value_fen: char) -> (name: Option<String>)
    ensures
        match kind_of_letter(piece_value_fen) {
            Some(kind) => name matches Some(text) && text@ == kind.picture_name_of(),
            None => name is None,
        },
{
    match PieceKind::from_letter(piece_value_fen) {
        Some(kind) => Some(kind.picture_name()),
        None => None,
    }
}

/// The letters and the pieces stand for one another: the letter of a piece
/// is read back as that piece, a letter that is read as a piece is that
/// piece's letter, and no two pieces share a place among the twelve.
pub proof fn lemma_letters_and_kinds(kind: PieceKind, other: PieceKind, letter: char)
    ensures
        kind_of_letter(kind.letter_of()) == Some(kind),
        kind_of_letter(letter) == Some(kind) ==> letter == kind.letter_of(),
        0 <= kind.place() < 12,
        kind.place() == other.place() ==> kind == other,
{
}

} // verus!
