use chess_board::pieces::{piece_value_to_svg_string, PieceKind, PIECE_KINDS};

const LETTERS: [char; 12] = ['P', 'N', 'B', 'R', 'Q', 'K', 'p', 'n', 'b', 'r', 'q', 'k'];

#[test]
fn letters_and_kinds_stand_for_one_another() {
    assert_eq!(PIECE_KINDS, 12);
    for (place, letter) in LETTERS.iter().enumerate() {
        let kind = PieceKind::from_letter(*letter).expect("a piece letter");
        assert_eq!(kind.letter(), *letter);
        assert_eq!(kind.index(), place);
    }
    assert_eq!(PieceKind::from_letter('P'), Some(PieceKind::WhitePawn));
    assert_eq!(PieceKind::from_letter('k'), Some(PieceKind::BlackKing));
}

#[test]
fn other_characters_are_no_pieces() {
    for letter in ['x', 'X', '1', '8', '/', ' ', '\0', 'a', 'L', '\u{265a}'] {
        assert_eq!(PieceKind::from_letter(letter), None);
        assert_eq!(piece_value_to_svg_string(letter), None);
    }
}

#[test]
fn picture_names() {
    let names = [
        "Chess_plt45.svg",
        "Chess_nlt45.svg",
        "Chess_blt45.svg",
        "Chess_rlt45.svg",
        "Chess_qlt45.svg",
        "Chess_klt45.svg",
        "Chess_pdt45.svg",
        "Chess_ndt45.svg",
        "Chess_bdt45.svg",
        "Chess_rdt45.svg",
        "Chess_qdt45.svg",
        "Chess_kdt45.svg",
    ];
    for (letter, name) in LETTERS.iter().zip(names.iter()) {
        assert_eq!(piece_value_to_svg_string(*letter), Some(name.to_string()));
        let kind = PieceKind::from_letter(*letter).expect("a piece letter");
        assert_eq!(kind.picture_name(), *name);
    }
}
