//! Squares, screen cells and pixels, and the maps between them.
//!
//! The widget is a grid of nine by nine cells of equal size. The playing area
//! is the eight by eight block in its middle; the half cell around it carries
//! the coordinate labels. A *cell* is a column and a row of the playing area
//! as drawn, counted from the top left; a *square* is a file and a rank of the
//! chessboard, counted from a1. Which cell shows which square depends on the
//! side from which black plays.

use vstd::prelude::*;

verus! {

/// The side of the screen on which black's pieces start.
#[derive(Debug, PartialEq, Eq, Copy, Clone, Structural)]
pub enum BlackSide {
    BlackTop,
    BlackBottom,
}

impl BlackSide {
    /// The other orientation.
    pub open spec fn flipped(self) -> BlackSide {
        match self {
            BlackSide::BlackTop => BlackSide::BlackBottom,
            BlackSide::BlackBottom => BlackSide::BlackTop,
        }
    }

    /// Turns the board round.
    pub fn toggled(self) -> (side: BlackSide)
        ensures
            side == self.flipped(),
    {
        match self {
            BlackSide::BlackTop => BlackSide::BlackBottom,
            BlackSide::BlackBottom => BlackSide::BlackTop,
        }
    }
}

/// A square of the board: file 0 is the a-file, rank 0 is the first rank.
#[derive(Debug, PartialEq, Eq, Copy, Clone, Structural)]
pub struct BoardCellCoord {
    pub file: u8,
    pub rank: u8,
}

impl BoardCellCoord {
    /// Both components name a file and a rank that exist.
    pub open spec fn wf(self) -> bool {
        self.file <= 7 && self.rank <= 7
    }

    /// The square's number as the engine counts: a1 is 0, h1 is 7, h8 is 63.
    pub open spec fn index(self) -> int {
        self.rank * 8 + self.file
    }

    /// The square with this file and rank, if there is one.
    pub fn new(file: u8, rank: u8) -> (square: Option<BoardCellCoord>)
        ensures
            square == if file <= 7 && rank <= 7 {
                Some(BoardCellCoord { file, rank })
            } else {
                None
            },
    {
        if file <= 7 && rank <= 7 {
            Some(BoardCellCoord { file, rank })
        } else {
            None
        }
    }

    /// Whether both components are on the board.
    pub fn is_wf(&self) -> (ok: bool)
        ensures
            ok == self.wf(),
    {
        self.file <= 7 && self.rank <= 7
    }

    /// The square's number, from 0 for a1 to 63 for h8.
    pub fn square_index(&self) -> (index: u8)
        requires
            self.wf(),
        ensures
            index == self.index(),
            index < 64,
    {
        self.rank * 8 + self.file
    }
}

/// The column or row under a pixel coordinate, for cells of `cells_size`
/// pixels. The playing area begins half a cell from the widget's edge, so
/// column `k` holds the coordinates from `(k + 1/2) * cells_size` up to, but
/// not including, `(k + 3/2) * cells_size`. The result is 0 to 7 inside the
/// playing area, -1 before it and 8 beyond it.
pub open spec fn cell_of_pixel(pixel: int, cells_size: int) -> int {
    if 2 * pixel < cells_size {
        -1
    } else if 2 * pixel < 3 * cells_size {
        0
    } else if 2 * pixel < 5 * cells_size {
        1
    } else if 2 * pixel < 7 * cells_size {
        2
    } else if 2 * pixel < 9 * cells_size {
        3
    } else if 2 * pixel < 11 * cells_size {
        4
    } else if 2 * pixel < 13 * cells_size {
        5
    } else if 2 * pixel < 15 * cells_size {
        6
    } else if 2 * pixel < 17 * cells_size {
        7
    } else {
        8
    }
}

/// The floor of `(pixel - cells_size / 2) / cells_size` in exact arithmetic,
/// written with numerator and denominator doubled.
pub open spec fn floor_cell(pixel: int, cells_size: int) -> int {
    (2 * pixel - cells_size) / (cells_size + cells_size)
}

/// An index of the playing area seen from the other end: column for file and
/// file for column where black plays from the bottom, row for rank and rank
/// for row where black plays from the top.
pub open spec fn mirrored(index: int) -> int {
    7 - index
}

/// The file shown in a column. The same map takes a file to its column.
pub open spec fn file_of_col(col: int, side: BlackSide) -> int {
    match side {
        BlackSide::BlackBottom => mirrored(col),
        BlackSide::BlackTop => col,
    }
}

/// The rank shown in a row. The same map takes a rank to its row.
pub open spec fn rank_of_row(row: int, side: BlackSide) -> int {
    match side {
        BlackSide::BlackBottom => row,
        BlackSide::BlackTop => mirrored(row),
    }
}

/// The column in which a file is shown.
pub open spec fn col_of_file(file: int, side: BlackSide) -> int {
    file_of_col(file, side)
}

/// The row in which a rank is shown.
pub open spec fn row_of_rank(rank: int, side: BlackSide) -> int {
    rank_of_row(rank, side)
}

/// A file and a rank that are on the board.
pub open spec fn in_bounds(file: int, rank: int) -> bool {
    0 <= file <= 7 && 0 <= rank <= 7
}

/// The nearest index that is on the board.
pub open spec fn clamped(index: int) -> int {
    if index < 0 {
        0
    } else if index > 7 {
        7
    } else {
        index
    }
}

/// The square under a pixel, if the pixel is inside the playing area.
pub open spec fn square_under(x: int, y: int, cells_size: int, side: BlackSide) -> Option<
    BoardCellCoord,
> {
    let file = file_of_col(cell_of_pixel(x, cells_size), side);
    let rank = rank_of_row(cell_of_pixel(y, cells_size), side);
    if in_bounds(file, rank) {
        Some(BoardCellCoord { file: file as u8, rank: rank as u8 })
    } else {
        None
    }
}

/// The square nearest to a pixel: the square under it, or the square of the
/// border cell closest to it where the pixel is outside the playing area.
pub open spec fn square_nearest(x: int, y: int, cells_size: int, side: BlackSide) -> BoardCellCoord {
    BoardCellCoord {
        file: file_of_col(clamped(cell_of_pixel(x, cells_size)), side) as u8,
        rank: rank_of_row(clamped(cell_of_pixel(y, cells_size)), side) as u8,
    }
}

/// The column or row under a pixel coordinate: 0 to 7 inside the playing
/// area, -1 before it, 8 beyond it.
pub fn pixel_to_cell(pixel: i32, cells_size: u32) -> (index: i8)
    ensures
        index == cell_of_pixel(pixel as int, cells_size as int),
        -1 <= index <= 8,
{
    let twice: i64 = 2 * (pixel as i64);
    let cell: i64 = cells_size as i64;
    if twice < cell {
        -1
    } else if twice < 3 * cell {
        0
    } else if twice < 5 * cell {
        1
    } else if twice < 7 * cell {
        2
    } else if twice < 9 * cell {
        3
    } else if twice < 11 * cell {
        4
    } else if twice < 13 * cell {
        5
    } else if twice < 15 * cell {
        6
    } else if twice < 17 * cell {
        7
    } else {
        8
    }
}

/// The file shown in a column, or the column of a file.
pub fn get_col(col_index: u8, black_side: BlackSide) -> (col: u8)
    requires
        col_index <= 7,
    ensures
        col == file_of_col(col_index as int, black_side),
        col <= 7,
{
    match black_side {
        BlackSide::BlackBottom => 7 - col_index,
        BlackSide::BlackTop => col_index,
    }
}

/// The row of a line of the position's text. The text lists the ranks from
/// the eighth down, so line `line_index` holds rank `7 - line_index`.
pub fn get_row(line_index: u8, black_side: BlackSide) -> (row: u8)
    requires
        line_index <= 7,
    ensures
        row == row_of_rank(mirrored(line_index as int), black_side),
        row <= 7,
{
    match black_side {
        BlackSide::BlackBottom => 7 - line_index,
        BlackSide::BlackTop => line_index,
    }
}

/// The square shown in a cell of the playing area.
pub fn cell_to_square(col: u8, row: u8, black_side: BlackSide) -> (square: BoardCellCoord)
    requires
        col <= 7,
        row <= 7,
    ensures
        square.file == file_of_col(col as int, black_side),
        square.rank == rank_of_row(row as int, black_side),
        square.wf(),
{
    match black_side {
        BlackSide::BlackBottom => BoardCellCoord { file: 7 - col, rank: row },
        BlackSide::BlackTop => BoardCellCoord { file: col, rank: 7 - row },
    }
}

/// The cell of the playing area that shows a square, as column and row.
pub fn square_to_cell(square: BoardCellCoord, black_side: BlackSide) -> (cell: (u8, u8))
    requires
        square.wf(),
    ensures
        cell.0 == col_of_file(square.file as int, black_side),
        cell.1 == row_of_rank(square.rank as int, black_side),
        cell.0 <= 7,
        cell.1 <= 7,
{
    match black_side {
        BlackSide::BlackBottom => (7 - square.file, square.rank),
        BlackSide::BlackTop => (square.file, 7 - square.rank),
    }
}

/// Whether a file and a rank are on the board.
pub fn cell_in_bounds(file: i8, rank: i8) -> (inside: bool)
    ensures
        inside == in_bounds(file as int, rank as int),
{
    file >= 0 && file <= 7 && rank >= 0 && rank <= 7
}

/// The nearest index that is on the board.
pub fn clamp_to_board(index: i8) -> (near: u8)
    ensures
        near == clamped(index as int),
        near <= 7,
{
    if index < 0 {
        0
    } else if index > 7 {
        7
    } else {
        index as u8
    }
}

/// The square under a pixel, `None` outside the playing area.
pub fn probe_square(x: i32, y: i32, cells_size: u32, black_side: BlackSide) -> (square: Option<
    BoardCellCoord,
>)
    ensures
        square == square_under(x as int, y as int, cells_size as int, black_side),
        square matches Some(found) ==> found.wf(),
{
    let col: i8 = pixel_to_cell(x, cells_size);
    let row: i8 = pixel_to_cell(y, cells_size);
    if col >= 0 && col <= 7 && row >= 0 && row <= 7 {
        Some(cell_to_square(col as u8, row as u8, black_side))
    } else {
        None
    }
}

/// The square nearest to a pixel, wherever the pixel is.
pub fn target_square(x: i32, y: i32, cells_size: u32, black_side: BlackSide) -> (square:
    BoardCellCoord)
    ensures
        square == square_nearest(x as int, y as int, cells_size as int, black_side),
        square.wf(),
{
    let col: u8 = clamp_to_board(pixel_to_cell(x, cells_size));
    let row: u8 = clamp_to_board(pixel_to_cell(y, cells_size));
    cell_to_square(col, row, black_side)
}

/// Going from a square to its cell and back gives the square again, and from
/// a cell to its square and back the cell, whichever way the board is turned.
/// A square on the board has its cell in the playing area.
pub proof fn lemma_square_cell_round_trip(file: int, rank: int, side: BlackSide)
    ensures
        file_of_col(col_of_file(file, side), side) == file,
        rank_of_row(row_of_rank(rank, side), side) == rank,
        col_of_file(file_of_col(file, side), side) == file,
        row_of_rank(rank_of_row(rank, side), side) == rank,
        in_bounds(file, rank) <==> in_bounds(col_of_file(file, side), row_of_rank(rank, side)),
{
}

/// A pixel coordinate strictly inside the playing area, that is more than
/// half a cell and less than eight and a half cells from the widget's edge,
/// falls in one of the eight columns (or rows), and inside the extent of
/// that cell as it is drawn: from `(index + 1/2) * cells_size` up to, but not
/// including, `(index + 3/2) * cells_size`.
pub proof fn lemma_pixel_inside_playing_area(pixel: int, cells_size: int)
    requires
        cells_size > 0,
        cells_size < 2 * pixel < 17 * cells_size,
    ensures
        0 <= cell_of_pixel(pixel, cells_size) <= 7,
        (2 * cell_of_pixel(pixel, cells_size) + 1) * cells_size <= 2 * pixel,
        2 * pixel < (2 * cell_of_pixel(pixel, cells_size) + 3) * cells_size,
{
    lemma_cell_extent(cell_of_pixel(pixel, cells_size), cells_size);
}

/// The two ends of a cell's extent, doubled, as multiples of the cell size.
proof fn lemma_cell_extent(index: int, cells_size: int)
    by (nonlinear_arith)
    requires
        0 <= index <= 7,
    ensures
        index == 0 ==> (2 * index + 1) * cells_size == cells_size && (2 * index + 3) * cells_size
            == 3 * cells_size,
        index == 1 ==> (2 * index + 1) * cells_size == 3 * cells_size && (2 * index + 3)
            * cells_size == 5 * cells_size,
        index == 2 ==> (2 * index + 1) * cells_size == 5 * cells_size && (2 * index + 3)
            * cells_size == 7 * cells_size,
        index == 3 ==> (2 * index + 1) * cells_size == 7 * cells_size && (2 * index + 3)
            * cells_size == 9 * cells_size,
        index == 4 ==> (2 * index + 1) * cells_size == 9 * cells_size && (2 * index + 3)
            * cells_size == 11 * cells_size,
        index == 5 ==> (2 * index + 1) * cells_size == 11 * cells_size && (2 * index + 3)
            * cells_size == 13 * cells_size,
        index == 6 ==> (2 * index + 1) * cells_size == 13 * cells_size && (2 * index + 3)
            * cells_size == 15 * cells_size,
        index == 7 ==> (2 * index + 1) * cells_size == 15 * cells_size && (2 * index + 3)
            * cells_size == 17 * cells_size,
{
}

/// The column or row under a pixel is the floor of
/// `(pixel - cells_size / 2) / cells_size`, brought into the range from -1
/// to 8: the floor itself where it names a cell, -1 where it is negative, 8
/// where it is more than 7.
pub proof fn lemma_cell_of_pixel_is_floor(pixel: int, cells_size: int)
    requires
        cells_size > 0,
    ensures
        cell_of_pixel(pixel, cells_size) == if floor_cell(pixel, cells_size) < 0 {
            -1
        } else if floor_cell(pixel, cells_size) > 7 {
            8
        } else {
            floor_cell(pixel, cells_size)
        },
{
    let span = cells_size + cells_size;
    let offset = 2 * pixel - cells_size;
    let index = offset / span;
    let rest = offset % span;
    vstd::arithmetic::div_mod::lemma_fundamental_div_mod(offset, span);
    vstd::arithmetic::div_mod::lemma_mod_bound(offset, span);
    assert((2 * index + 1) * cells_size <= 2 * pixel && 2 * pixel < (2 * index + 3) * cells_size)
        by (nonlinear_arith)
        requires
            offset == span * index + rest,
            0 <= rest < span,
            span == cells_size + cells_size,
            offset == 2 * pixel - cells_size,
    ;
    if index < 0 {
        assert(2 * pixel < cells_size) by (nonlinear_arith)
            requires
                2 * pixel < (2 * index + 3) * cells_size,
                index <= -1,
                cells_size > 0,
        ;
    } else if index > 7 {
        assert(2 * pixel >= 17 * cells_size) by (nonlinear_arith)
            requires
                (2 * index + 1) * cells_size <= 2 * pixel,
                index >= 8,
                cells_size > 0,
        ;
    } else {
        assert(index == cell_of_pixel(pixel, cells_size)) by {
            lemma_cell_is_where_its_bounds_are(pixel, cells_size, index);
        }
    }
}

/// The one cell whose extent holds a pixel is the cell under the pixel.
proof fn lemma_cell_is_where_its_bounds_are(pixel: int, cells_size: int, index: int)
    requires
        cells_size > 0,
        0 <= index <= 7,
        (2 * index + 1) * cells_size <= 2 * pixel,
        2 * pixel < (2 * index + 3) * cells_size,
    ensures
        cell_of_pixel(pixel, cells_size) == index,
{
    lemma_cell_extent(index, cells_size);
}

/// For every pixel strictly inside the playing area the square under it is on
/// the board, going from that square to its cell and back gives the square
/// again, and the cell that shows the square is the cell under the pixel:
/// what is drawn where the pointer is and what the pointer picks are the same
/// square, in both orientations.
pub proof fn lemma_pixel_square_cell_agree(x: int, y: int, cells_size: int, side: BlackSide)
    requires
        cells_size > 0,
        cells_size < 2 * x < 17 * cells_size,
        cells_size < 2 * y < 17 * cells_size,
    ensures
        ({
            let col = cell_of_pixel(x, cells_size);
            let row = cell_of_pixel(y, cells_size);
            &&& square_under(x, y, cells_size, side) matches Some(square)
            &&& square.wf()
            &&& square == square_nearest(x, y, cells_size, side)
            &&& col_of_file(square.file as int, side) == col
            &&& row_of_rank(square.rank as int, side) == row
            &&& file_of_col(col_of_file(square.file as int, side), side) == square.file
            &&& rank_of_row(row_of_rank(square.rank as int, side), side) == square.rank
        }),
{
    lemma_pixel_inside_playing_area(x, cells_size);
    lemma_pixel_inside_playing_area(y, cells_size);
}

/// Turning the board round twice restores the orientation, and with it the
/// square shown in every cell, the cell of every square, and the square
/// found under every pixel.
pub proof fn lemma_toggle_twice_is_identity(
    side: BlackSide,
    col: int,
    row: int,
    x: int,
    y: int,
    cells_size: int,
)
    ensures
        side.flipped().flipped() == side,
        side.flipped() != side,
        file_of_col(col, side.flipped().flipped()) == file_of_col(col, side),
        rank_of_row(row, side.flipped().flipped()) == rank_of_row(row, side),
        col_of_file(col, side.flipped().flipped()) == col_of_file(col, side),
        row_of_rank(row, side.flipped().flipped()) == row_of_rank(row, side),
        square_under(x, y, cells_size, side.flipped().flipped()) == square_under(
            x,
            y,
            cells_size,
            side,
        ),
        square_nearest(x, y, cells_size, side.flipped().flipped()) == square_nearest(
            x,
            y,
            cells_size,
            side,
        ),
{
}

/// Turning the board round once shows in every cell the square opposite,
/// through the board's centre, to the one shown before.
pub proof fn lemma_toggle_rotates_board(side: BlackSide, col: int, row: int)
    ensures
        file_of_col(col, side.flipped()) == mirrored(file_of_col(col, side)),
        rank_of_row(row, side.flipped()) == mirrored(rank_of_row(row, side)),
{
}

} // verus!
