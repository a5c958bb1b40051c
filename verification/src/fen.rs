//! Reading the text of a position.
//!
//! The engine describes a position in Forsyth-Edwards notation: fields
//! separated by one space each, of which the first lists the ranks from the
//! eighth down, separated by `/`, with a letter for a piece and a digit for a
//! run of empty squares, and the second is `w` or `b` for the side to move.
//! The functions here read such a text. They accept any text: what does not
//! fit on the board is left out.

use vstd::prelude::*;

verus! {

/// One of the digits `0` to `9`.
pub open spec fn is_digit(c: char) -> bool {
    '0' <= c <= '9'
}

/// The number that a digit stands for.
pub open spec fn digit_value(c: char) -> int {
    c as int - 48
}

/// The first position at or after `from` where `text` holds `sep`, or the
/// length of `text` if there is none.
pub open spec fn first_from(text: Seq<char>, sep: char, from: int) -> int
    decreases text.len() - from,
{
    if from >= text.len() {
        text.len() as int
    } else if text[from] == sep {
        from
    } else {
        first_from(text, sep, from + 1)
    }
}

/// The fields of `text` from position `from` on: the stretches between one
/// separator and the next. A text that ends in a separator ends in an empty
/// field.
pub open spec fn split_from(text: Seq<char>, sep: char, from: int) -> Seq<Seq<char>>
    decreases text.len() - from,
{
    let end = first_from(text, sep, from);
    if from > text.len() {
        Seq::empty()
    } else if end >= text.len() {
        seq![text.subrange(from, text.len() as int)]
    } else if end < from {
        Seq::empty()
    } else {
        seq![text.subrange(from, end)] + split_from(text, sep, end + 1)
    }
}

/// The fields of `text`, of which there is at least one.
pub open spec fn split(text: Seq<char>, sep: char) -> Seq<Seq<char>> {
    split_from(text, sep, 0)
}

/// The first field of a position's text, which places the pieces.
pub open spec fn placement_of(fen: Seq<char>) -> Seq<char> {
    split(fen, ' ')[0]
}

/// The lines of the placement, one for each rank, the eighth rank first.
pub open spec fn rank_lines(fen: Seq<char>) -> Seq<Seq<char>> {
    split(placement_of(fen), '/')
}

/// Whether the text gives white the move: its second field is `w`.
pub open spec fn white_to_move(fen: Seq<char>) -> bool {
    split(fen, ' ').len() > 1 && split(fen, ' ')[1] == seq!['w']
}

/// A letter read from a rank's line, with the file on which it stands.
#[derive(Debug, PartialEq, Eq, Copy, Clone, Structural)]
pub struct Glyph {
    pub file: u8,
    pub letter: char,
}

/// A letter on a file of the board.
pub open spec fn glyph_on(file: int, letter: char) -> Glyph {
    Glyph { file: file as u8, letter }
}

/// What a rank's line places, read from position `from` of the line on, where
/// the reading has reached file `file`: a digit skips as many files as it
/// says, any other character stands on the file reached and moves on by one.
/// The reading ends with the line or with the eighth file.
pub open spec fn line_glyphs(line: Seq<char>, from: int, file: int) -> Seq<Glyph>
    decreases line.len() - from,
{
    if from < 0 || from >= line.len() || file < 0 || file > 7 {
        Seq::empty()
    } else if is_digit(line[from]) {
        line_glyphs(line, from + 1, file + digit_value(line[from]))
    } else {
        seq![glyph_on(file, line[from])] + line_glyphs(line, from + 1, file + 1)
    }
}

/// The views of a list of texts.
pub open spec fn views(texts: Seq<Vec<char>>) -> Seq<Seq<char>> {
    texts.map_values(|text: Vec<char>| text@)
}

/// Whether a character is a digit.
pub fn char_is_digit(c: char) -> (digit: bool)
    ensures
        digit == is_digit(c),
{
    c >= '0' && c <= '9'
}

/// The characters of a text.
pub fn text_chars(text: &str) -> (chars: Vec<char>)
    ensures
        chars@ == text@,
{
    let count: usize = text.unicode_len();
    let mut chars: Vec<char> = Vec::new();
    let mut i: usize = 0;
    while i < count
        invariant
            count == text@.len(),
            i <= count,
            chars@ == text@.subrange(0, i as int),
        decreases count - i,
    {
        chars.push(text.get_char(i));
        i += 1;
    }
    chars
}

/// Where no separator stands between `from` and `to`, the first separator
/// from `from` on is the first from `to` on.
proof fn lemma_first_from_skips(text: Seq<char>, sep: char, from: int, to: int)
    requires
        0 <= from <= to <= text.len(),
        forall|k: int| from <= k < to ==> text[k] != sep,
    ensures
        first_from(text, sep, from) == first_from(text, sep, to),
    decreases to - from,
{
    if from < to {
        lemma_first_from_skips(text, sep, from + 1, to);
    }
}

/// Splits a text at each occurrence of a separator.
pub fn split_chars(text: &Vec<char>, sep: char) -> (fields: Vec<Vec<char>>)
    ensures
        views(fields@) == split(text@, sep),
        fields@.len() >= 1,
{
    let mut fields: Vec<Vec<char>> = Vec::new();
    let mut current: Vec<char> = Vec::new();
    let ghost mut start: int = 0;
    let mut i: usize = 0;
    while i < text.len()
        invariant
            0 <= start <= i <= text.len(),
            current@ == text@.subrange(start, i as int),
            forall|k: int| start <= k < i ==> text@[k] != sep,
            split(text@, sep) == views(fields@) + split_from(text@, sep, start),
        decreases text.len() - i,
    {
        let c: char = text[i];
        if c == sep {
            proof {
                lemma_first_from_skips(text@, sep, start, i as int);
                assert(first_from(text@, sep, i as int) == i);
                assert(views(fields@.push(current)) == views(fields@).push(current@));
                assert(split(text@, sep) == views(fields@.push(current)) + split_from(
                    text@,
                    sep,
                    i + 1,
                ));
                start = i + 1;
            }
            fields.push(current);
            current = Vec::new();
        } else {
            current.push(c);
            assert(current@ == text@.subrange(start, i + 1));
        }
        i += 1;
    }
    proof {
        lemma_first_from_skips(text@, sep, start, text@.len() as int);
        assert(views(fields@.push(current)) == views(fields@).push(current@));
    }
    fields.push(current);
    fields
}

/// The lines of a position's placement, one for each rank, the eighth first.
pub fn placement_lines(position_fen: &str) -> (lines: Vec<Vec<char>>)
    ensures
        views(lines@) == rank_lines(position_fen@),
        lines@.len() >= 1,
{
    let chars: Vec<char> = text_chars(position_fen);
    let mut fields: Vec<Vec<char>> = split_chars(&chars, ' ');
    let ghost all = fields@;
    let placement: Vec<char> = fields.swap_remove(0);
    proof {
        assert(views(all)[0] == all[0]@);
    }
    split_chars(&placement, '/')
}

/// Whether a position's text gives white the move.
pub fn is_white_turn(position_fen: &str) -> (white: bool)
    ensures
        white == white_to_move(position_fen@),
{
    let chars: Vec<char> = text_chars(position_fen);
    let fields: Vec<Vec<char>> = split_chars(&chars, ' ');
    proof {
        if fields@.len() > 1 {
            assert(views(fields@)[1] == fields@[1]@);
        }
    }
    if fields.len() > 1 {
        let turn: &Vec<char> = &fields[1];
        let white: bool = turn.len() == 1 && turn[0] == 'w';
        proof {
            if white {
                assert(turn@ =~= seq!['w']);
            }
        }
        white
    } else {
        false
    }
}

/// The number of empty squares that a digit of a rank's line stands for.
pub fn skip_and_count_holes(value_ascii: u8) -> (holes_count: u8)
    requires
        48 <= value_ascii <= 57,
    ensures
        holes_count == value_ascii - 48,
{
    value_ascii - 48
}

/// Reads a rank's line: the letters on it, each with its file.
pub fn read_line(line: &Vec<char>) -> (glyphs: Vec<Glyph>)
    ensures
        glyphs@ == line_glyphs(line@, 0, 0),
        forall|k: int| 0 <= k < glyphs@.len() ==> glyphs@[k].file <= 7,
{
    let mut glyphs: Vec<Glyph> = Vec::new();
    let mut file: u8 = 0;
    let mut i: usize = 0;
    while i < line.len() && file <= 7
        invariant
            i <= line.len(),
            file <= 16,
            line_glyphs(line@, 0, 0) == glyphs@ + line_glyphs(line@, i as int, file as int),
            forall|k: int| 0 <= k < glyphs@.len() ==> glyphs@[k].file <= 7,
        decreases line.len() - i,
    {
        let c: char = line[i];
        let ghost rest = line_glyphs(line@, i + 1, file + 1);
        if char_is_digit(c) {
            file = file + skip_and_count_holes(c as u8);
        } else {
            let glyph = Glyph { file, letter: c };
            assert(glyphs@ + (seq![glyph] + rest) =~= glyphs@.push(glyph) + rest);
            glyphs.push(glyph);
            file = file + 1;
        }
        i += 1;
    }
    glyphs
}

} // verus!
