use chess_board::fen::{
    char_is_digit, is_white_turn, placement_lines, read_line, skip_and_count_holes, split_chars,
    text_chars, Glyph,
};

fn chars(text: &str) -> Vec<char> {
    text.chars().collect()
}

fn texts(fields: &Vec<Vec<char>>) -> Vec<String> {
    fields.iter().map(|field| field.iter().collect()).collect()
}

#[test]
fn text_chars_keeps_every_character() {
    assert_eq!(text_chars(""), Vec::<char>::new());
    assert_eq!(text_chars("8/8 w"), vec!['8', '/', '8', ' ', 'w']);
    assert_eq!(text_chars("\u{e9}\u{265a}x"), vec!['\u{e9}', '\u{265a}', 'x']);
}

#[test]
fn split_keeps_empty_fields() {
    assert_eq!(texts(&split_chars(&chars(""), '/')), vec![""]);
    assert_eq!(texts(&split_chars(&chars("abc"), '/')), vec!["abc"]);
    assert_eq!(texts(&split_chars(&chars("a/b"), '/')), vec!["a", "b"]);
    assert_eq!(texts(&split_chars(&chars("/a"), '/')), vec!["", "a"]);
    assert_eq!(texts(&split_chars(&chars("a/"), '/')), vec!["a", ""]);
    assert_eq!(texts(&split_chars(&chars("/"), '/')), vec!["", ""]);
    assert_eq!(texts(&split_chars(&chars("a//b"), '/')), vec!["a", "", "b"]);
    assert_eq!(
        texts(&split_chars(&chars("8/8 w - - 0 1"), ' ')),
        vec!["8/8", "w", "-", "-", "0", "1"]
    );
}

#[test]
fn placement_lines_of_the_start_position() {
    let lines = placement_lines("rnbqkbnr/pppppppp/8/8/8/8/PPPPPPPP/RNBQKBNR w KQkq - 0 1");
    assert_eq!(
        texts(&lines),
        vec!["rnbqkbnr", "pppppppp", "8", "8", "8", "8", "PPPPPPPP", "RNBQKBNR"]
    );
}

#[test]
fn placement_lines_of_odd_texts() {
    assert_eq!(texts(&placement_lines("")), vec![""]);
    assert_eq!(texts(&placement_lines(" w")), vec![""]);
    assert_eq!(texts(&placement_lines("4k3")), vec!["4k3"]);
    assert_eq!(texts(&placement_lines("a/b/ c/d")), vec!["a", "b", ""]);
}

#[test]
fn side_to_move() {
    assert!(is_white_turn("rnbqkbnr/pppppppp/8/8/8/8/PPPPPPPP/RNBQKBNR w KQkq - 0 1"));
    assert!(!is_white_turn("rnbqkbnr/pppppppp/8/8/4P3/8/PPPP1PPP/RNBQKBNR b KQkq - 0 1"));
    assert!(is_white_turn("8/8 w"));
    assert!(!is_white_turn("8/8"));
    assert!(!is_white_turn(""));
    assert!(!is_white_turn("8/8 W"));
    assert!(!is_white_turn("8/8 ww"));
    assert!(!is_white_turn("8/8  w"));
    assert!(!is_white_turn("w"));
}

#[test]
fn digits() {
    assert!(char_is_digit('0'));
    assert!(char_is_digit('8'));
    assert!(char_is_digit('9'));
    assert!(!char_is_digit('/'));
    assert!(!char_is_digit(':'));
    assert!(!char_is_digit('p'));
    assert_eq!(skip_and_count_holes(48), 0);
    assert_eq!(skip_and_count_holes(49), 1);
    assert_eq!(skip_and_count_holes(56), 8);
    assert_eq!(skip_and_count_holes(57), 9);
}

#[test]
fn line_of_letters() {
    let glyphs = read_line(&chars("rnbqkbnr"));
    let expected: Vec<Glyph> = "rnbqkbnr"
        .chars()
        .enumerate()
        .map(|(file, letter)| Glyph { file: file as u8, letter })
        .collect();
    assert_eq!(glyphs, expected);
}

#[test]
fn line_with_holes() {
    assert_eq!(read_line(&chars("8")), vec![]);
    assert_eq!(read_line(&chars("")), vec![]);
    assert_eq!(read_line(&chars("4P3")), vec![Glyph { file: 4, letter: 'P' }]);
    assert_eq!(
        read_line(&chars("1p2Q2k")),
        vec![
            Glyph { file: 1, letter: 'p' },
            Glyph { file: 4, letter: 'Q' },
            Glyph { file: 7, letter: 'k' },
        ]
    );
    assert_eq!(
        read_line(&chars("p0p")),
        vec![Glyph { file: 0, letter: 'p' }, Glyph { file: 1, letter: 'p' }]
    );
}

#[test]
fn line_that_runs_off_the_board_is_cut() {
    assert_eq!(read_line(&chars("9p")), vec![]);
    assert_eq!(read_line(&chars("8p")), vec![]);
    assert_eq!(read_line(&chars("7p")), vec![Glyph { file: 7, letter: 'p' }]);
    assert_eq!(read_line(&chars("7pp")), vec![Glyph { file: 7, letter: 'p' }]);
    let glyphs = read_line(&chars("pppppppppp"));
    assert_eq!(glyphs.len(), 8);
    assert_eq!(glyphs[7], Glyph { file: 7, letter: 'p' });
    assert_eq!(read_line(&chars("99999999p")), vec![]);
}
