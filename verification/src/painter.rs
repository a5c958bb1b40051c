//! What the board looks like: the list of things to draw, in the order in
//! which they are drawn.
//!
//! The painter draws nothing itself. It records drawing commands, from the
//! background up to the piece in the pointer's hand, and the toolkit carries
//! them out one after the other. What is recorded depends on the board's
//! state and the drag's alone.
//!
//! Positions and lengths are in hundredths of a pixel, counted from the
//! widget's top left corner, so that every fraction of a cell that the
//! layout uses is a whole number.

use vstd::prelude::*;
use crate::coords::{
    cell_of_pixel,
    col_of_file,
    file_of_col,
    lemma_pixel_inside_playing_area,
    rank_of_row,
    row_of_rank,
    square_under,
    BlackSide,
    BoardCellCoord,
};
use crate::fen::{
    is_white_turn,
    line_glyphs,
    placement_lines,
    rank_lines,
    read_line,
    views,
    white_to_move,
    Glyph,
};
use crate::pieces::{is_piece_letter, PieceKind};
use crate::widget::{ChessState, Color, DndState, LastMove};

verus! {

/// One thing to draw.
#[derive(Debug, PartialEq, Eq, Copy, Clone, Structural)]
pub enum DrawCommand {
    /// Fill the whole widget.
    Background { color: Color },
    /// Write the labels that follow in this colour, in bold letters of this
    /// height.
    LabelStyle { color: Color, font_size: i64 },
    /// Write one character with its baseline starting here.
    Label { glyph: char, x: i64, y: i64 },
    /// Fill a disc that tells whose turn it is.
    TurnDisc { color: Color, center_x: i64, center_y: i64, radius: i64 },
    /// Fill a square cell whose top left corner is here.
    Cell { x: i64, y: i64, side: i64, color: Color },
    /// Show a piece's picture with its top left corner here, one cell wide.
    Piece { piece: char, x: i64, y: i64 },
    /// Draw an arrow from one point to another. The opacity counts hundredths.
    Arrow {
        from_x: i64,
        from_y: i64,
        to_x: i64,
        to_y: i64,
        color: Color,
        opacity: u8,
        line_width: i64,
        head_length: i64,
        head_width: i64,
    },
    /// Show the dragged piece's picture with its top left corner here.
    CursorPiece { piece: char, x: i64, y: i64 },
}

/// Records what a board of a given cell size looks like.
pub struct ChessBoardPainter {
    cells_size: u32,
}

/// A length given in hundredths of a cell.
pub open spec fn scaled(cells_size: int, hundredths: int) -> int {
    cells_size * hundredths
}

/// The left edge of a column, or the top edge of a row: half a cell of
/// margin, then one cell for each column or row before it.
pub open spec fn cell_edge(cells_size: int, index: int) -> int {
    scaled(cells_size, 50 + 100 * index)
}

/// The middle of a column or of a row.
pub open spec fn cell_middle(cells_size: int, index: int) -> int {
    scaled(cells_size, 100 + 100 * index)
}

/// Full white, for the disc when white is to move.
pub open spec fn white_disc() -> Color {
    Color { red: 100, green: 100, blue: 100 }
}

/// Black, for the disc when black is to move.
pub open spec fn black_disc() -> Color {
    Color { red: 0, green: 0, blue: 0 }
}

/// The first layer: the background.
pub open spec fn background_layer(chess_state: ChessState) -> Seq<DrawCommand> {
    seq![DrawCommand::Background { color: chess_state.background_color }]
}

/// The letter `A` to `H` written over and under a column.
pub open spec fn file_label_glyph(col: int, side: BlackSide) -> char {
    (65 + file_of_col(col, side)) as char
}

/// The digit `1` to `8` written beside a row.
pub open spec fn rank_label_glyph(row: int, side: BlackSide) -> char {
    (49 + rank_of_row(row, side)) as char
}

/// The label of a column, in the top margin or in the bottom margin.
pub open spec fn file_label(cells_size: int, col: int, bottom: bool, side: BlackSide)
    -> DrawCommand {
    DrawCommand::Label {
        glyph: file_label_glyph(col, side),
        x: scaled(cells_size, 90 + 100 * col) as i64,
        y: if bottom {
            scaled(cells_size, 885) as i64
        } else {
            scaled(cells_size, 35) as i64
        },
    }
}

/// The label of a row, in the left margin or in the right margin.
pub open spec fn rank_label(cells_size: int, row: int, right: bool, side: BlackSide)
    -> DrawCommand {
    DrawCommand::Label {
        glyph: rank_label_glyph(row, side),
        x: if right {
            scaled(cells_size, 865) as i64
        } else {
            scaled(cells_size, 15) as i64
        },
        y: scaled(cells_size, 120 + 100 * row) as i64,
    }
}

/// The labels of the first `count` half columns: each column's label over the
/// board, then the same under it.
pub open spec fn file_labels(cells_size: int, side: BlackSide, count: int) -> Seq<DrawCommand> {
    Seq::new(count as nat, |k: int| file_label(cells_size, k / 2, k % 2 == 1, side))
}

/// The labels of the first `count` half rows: each row's label left of the
/// board, then the same right of it.
pub open spec fn rank_labels(cells_size: int, side: BlackSide, count: int) -> Seq<DrawCommand> {
    Seq::new(count as nat, |k: int| rank_label(cells_size, k / 2, k % 2 == 1, side))
}

/// The style in which the labels are written.
pub open spec fn label_style(cells_size: int, chess_state: ChessState) -> DrawCommand {
    DrawCommand::LabelStyle {
        color: chess_state.coordinates_color,
        font_size: scaled(cells_size, 35) as i64,
    }
}

/// The second layer: the coordinates round the board. The letters and digits
/// follow the orientation, so that they name the squares beside them.
pub open spec fn coordinates_layer(cells_size: int, chess_state: ChessState) -> Seq<DrawCommand> {
    seq![label_style(cells_size, chess_state)] + file_labels(
        cells_size,
        chess_state.black_side,
        16,
    ) + rank_labels(cells_size, chess_state.black_side, 16)
}

/// The disc in the bottom right corner of the margin.
pub open spec fn turn_disc(cells_size: int, white: bool) -> DrawCommand {
    DrawCommand::TurnDisc {
        color: if white {
            white_disc()
        } else {
            black_disc()
        },
        center_x: scaled(cells_size, 875) as i64,
        center_y: scaled(cells_size, 875) as i64,
        radius: scaled(cells_size, 25) as i64,
    }
}

/// The third layer: the disc that tells whose turn it is, white when the
/// position's text gives white the move.
pub open spec fn turn_layer(cells_size: int, fen: Seq<char>) -> Seq<DrawCommand> {
    seq![turn_disc(cells_size, white_to_move(fen))]
}

/// Whether a cell shows the square from which the drag began.
pub open spec fn shows_origin(col: int, row: int, side: BlackSide, dnd_state: DndState) -> bool {
    file_of_col(col, side) == dnd_state.origin_file && rank_of_row(row, side)
        == dnd_state.origin_rank
}

/// Whether a cell shows the square over which the dragged piece hangs.
pub open spec fn shows_target(col: int, row: int, side: BlackSide, dnd_state: DndState) -> bool {
    file_of_col(col, side) == dnd_state.target_file && rank_of_row(row, side)
        == dnd_state.target_rank
}

/// Whether a cell shows a square on the file or on the rank of the target.
pub open spec fn on_cross(col: int, row: int, side: BlackSide, dnd_state: DndState) -> bool {
    file_of_col(col, side) == dnd_state.target_file || rank_of_row(row, side)
        == dnd_state.target_rank
}

/// The colour of a cell when nothing is dragged: the light colour where
/// column and row add up to an even number, the dark colour elsewhere.
pub open spec fn base_color(col: int, row: int, chess_state: ChessState) -> Color {
    if (row + col) % 2 == 0 {
        chess_state.white_cells_color
    } else {
        chess_state.black_cells_color
    }
}

/// The colour that a drag gives a cell, if any: the target's colour comes
/// before the origin's, and the origin's before the cross's.
pub open spec fn highlight(col: int, row: int, chess_state: ChessState, dnd_state: DndState)
    -> Option<Color> {
    if !dnd_state.dnd_active {
        None
    } else if shows_target(col, row, chess_state.black_side, dnd_state) {
        Some(chess_state.dnd_end_cell_color)
    } else if shows_origin(col, row, chess_state.black_side, dnd_state) {
        Some(chess_state.dnd_start_cell_color)
    } else if on_cross(col, row, chess_state.black_side, dnd_state) {
        Some(chess_state.dnd_cross_color)
    } else {
        None
    }
}

/// The colour in which a cell is filled.
pub open spec fn cell_color(col: int, row: int, chess_state: ChessState, dnd_state: DndState)
    -> Color {
    match highlight(col, row, chess_state, dnd_state) {
        Some(color) => color,
        None => base_color(col, row, chess_state),
    }
}

/// The filling of one cell.
pub open spec fn cell_fill(cells_size: int, col: int, row: int, color: Color) -> DrawCommand {
    DrawCommand::Cell {
        x: cell_edge(cells_size, col) as i64,
        y: cell_edge(cells_size, row) as i64,
        side: scaled(cells_size, 100) as i64,
        color,
    }
}

/// The fillings of the first `count` cells, row by row from the top, each
/// row from the left.
pub open spec fn cell_fills(
    cells_size: int,
    chess_state: ChessState,
    dnd_state: DndState,
    count: int,
) -> Seq<DrawCommand> {
    Seq::new(
        count as nat,
        |k: int| cell_fill(cells_size, k % 8, k / 8, cell_color(k % 8, k / 8, chess_state, dnd_state)),
    )
}

/// The fourth layer: the 64 cells.
pub open spec fn cells_layer(cells_size: int, chess_state: ChessState, dnd_state: DndState)
    -> Seq<DrawCommand> {
    cell_fills(cells_size, chess_state, dnd_state, 64)
}

/// The picture of a piece on the cell that shows its square. The piece
/// stands on file `file` of the line `line_index` of the position's text,
/// which is rank `7 - line_index`.
pub open spec fn piece_picture(
    cells_size: int,
    letter: char,
    file: int,
    line_index: int,
    side: BlackSide,
) -> DrawCommand {
    DrawCommand::Piece {
        piece: letter,
        x: cell_edge(cells_size, file_of_col(file, side)) as i64,
        y: cell_edge(cells_size, rank_of_row(7 - line_index, side)) as i64,
    }
}

/// Whether a square's piece is the one in the pointer's hand, which is not
/// drawn on its square.
pub open spec fn is_moved_piece(file: int, line_index: int, dnd_state: DndState) -> bool {
    dnd_state.dnd_active && dnd_state.origin_file == file && dnd_state.origin_rank == 7
        - line_index
}

/// What is drawn for one letter of a line: its picture, unless the letter
/// stands for no piece.
pub open spec fn single_piece(
    cells_size: int,
    letter: char,
    file: int,
    line_index: int,
    side: BlackSide,
) -> Seq<DrawCommand> {
    if is_piece_letter(letter) {
        seq![piece_picture(cells_size, letter, file, line_index, side)]
    } else {
        Seq::empty()
    }
}

/// What is drawn for one letter of a line, of which the dragged piece is
/// left out.
pub open spec fn single_piece_if_not_moved(
    cells_size: int,
    glyph: Glyph,
    line_index: int,
    side: BlackSide,
    dnd_state: DndState,
) -> Seq<DrawCommand> {
    if is_moved_piece(glyph.file as int, line_index, dnd_state) {
        Seq::empty()
    } else {
        single_piece(cells_size, glyph.letter, glyph.file as int, line_index, side)
    }
}

/// What is drawn for the letters of a line from the one at `from` on.
pub open spec fn glyphs_layer(
    cells_size: int,
    glyphs: Seq<Glyph>,
    from: int,
    line_index: int,
    side: BlackSide,
    dnd_state: DndState,
) -> Seq<DrawCommand>
    decreases glyphs.len() - from,
{
    if from < 0 || from >= glyphs.len() {
        Seq::empty()
    } else {
        single_piece_if_not_moved(cells_size, glyphs[from], line_index, side, dnd_state)
            + glyphs_layer(cells_size, glyphs, from + 1, line_index, side, dnd_state)
    }
}

/// What is drawn for one line of the position's text.
pub open spec fn line_layer(
    cells_size: int,
    line: Seq<char>,
    line_index: int,
    side: BlackSide,
    dnd_state: DndState,
) -> Seq<DrawCommand> {
    glyphs_layer(cells_size, line_glyphs(line, 0, 0), 0, line_index, side, dnd_state)
}

/// What is drawn for the lines from the one at `from` on. The board has
/// eight ranks: a ninth line and those after it are not drawn.
pub open spec fn lines_layer(
    cells_size: int,
    lines: Seq<Seq<char>>,
    from: int,
    side: BlackSide,
    dnd_state: DndState,
) -> Seq<DrawCommand>
    decreases lines.len() - from,
{
    if from < 0 || from >= lines.len() || from > 7 {
        Seq::empty()
    } else {
        line_layer(cells_size, lines[from], from, side, dnd_state) + lines_layer(
            cells_size,
            lines,
            from + 1,
            side,
            dnd_state,
        )
    }
}

/// The fifth layer: the pieces of the position, each on the cell that shows
/// its square, but for the piece in the pointer's hand.
pub open spec fn pieces_layer(
    cells_size: int,
    fen: Seq<char>,
    side: BlackSide,
    dnd_state: DndState,
) -> Seq<DrawCommand> {
    lines_layer(cells_size, rank_lines(fen), 0, side, dnd_state)
}

/// The arrow that shows a move, from the middle of the cell of the square it
/// left to the middle of the cell of the square it reached.
pub open spec fn move_arrow(cells_size: int, last_move: LastMove, chess_state: ChessState)
    -> DrawCommand {
    DrawCommand::Arrow {
        from_x: cell_middle(
            cells_size,
            file_of_col(last_move.origin.file as int, chess_state.black_side),
        ) as i64,
        from_y: cell_middle(
            cells_size,
            rank_of_row(last_move.origin.rank as int, chess_state.black_side),
        ) as i64,
        to_x: cell_middle(
            cells_size,
            file_of_col(last_move.target.file as int, chess_state.black_side),
        ) as i64,
        to_y: cell_middle(
            cells_size,
            rank_of_row(last_move.target.rank as int, chess_state.black_side),
        ) as i64,
        color: chess_state.last_move_arrow_color,
        opacity: 70,
        line_width: scaled(cells_size, 10) as i64,
        head_length: scaled(cells_size, 50) as i64,
        head_width: scaled(cells_size, 50) as i64,
    }
}

/// The sixth layer: the arrow of the last move, if a move was played.
pub open spec fn last_move_layer(cells_size: int, chess_state: ChessState) -> Seq<DrawCommand> {
    match chess_state.last_move {
        Some(last_move) => seq![move_arrow(cells_size, last_move, chess_state)],
        None => Seq::empty(),
    }
}

/// The picture of the dragged piece, centred on the pointer.
pub open spec fn cursor_picture(cells_size: int, dnd_state: DndState) -> DrawCommand {
    DrawCommand::CursorPiece {
        piece: dnd_state.moved_piece_fen,
        x: (100 * dnd_state.cursor_x - scaled(cells_size, 50)) as i64,
        y: (100 * dnd_state.cursor_y - scaled(cells_size, 50)) as i64,
    }
}

/// The seventh layer: the piece in the pointer's hand, if there is one.
pub open spec fn cursor_layer(cells_size: int, dnd_state: DndState) -> Seq<DrawCommand> {
    if dnd_state.dnd_active && is_piece_letter(dnd_state.moved_piece_fen) {
        seq![cursor_picture(cells_size, dnd_state)]
    } else {
        Seq::empty()
    }
}

/// Everything that is drawn, bottom layer first.
pub open spec fn scene(cells_size: int, chess_state: ChessState, dnd_state: DndState) -> Seq<
    DrawCommand,
> {
    background_layer(chess_state) + coordinates_layer(cells_size, chess_state) + turn_layer(
        cells_size,
        chess_state.board@,
    ) + cells_layer(cells_size, chess_state, dnd_state) + pieces_layer(
        cells_size,
        chess_state.board@,
        chess_state.black_side,
        dnd_state,
    ) + last_move_layer(cells_size, chess_state) + cursor_layer(cells_size, dnd_state)
}

/// A length given in hundredths of a cell, in hundredths of a pixel.
fn scale(cells_size: u32, hundredths: i64) -> (length: i64)
    requires
        -100_000 <= hundredths <= 100_000,
    ensures
        length == scaled(cells_size as int, hundredths as int),
        -430_000_000_000_000 <= length <= 430_000_000_000_000,
{
    assert(-430_000_000_000_000 <= cells_size * hundredths <= 430_000_000_000_000)
        by (nonlinear_arith)
        requires
            0 <= cells_size <= 0xffff_ffff,
            -100_000 <= hundredths <= 100_000,
    ;
    (cells_size as i64) * hundredths
}

/// Whether a cell shows the square from which the drag began.
pub fn is_dnd_start_cell(col: u8, row: u8, chess_state: &ChessState, dnd_state: &DndState) -> (
    start: bool)
    requires
        col <= 7,
        row <= 7,
    ensures
        start == shows_origin(col as int, row as int, chess_state.black_side, *dnd_state),
{
    let square = crate::coords::cell_to_square(col, row, chess_state.black_side);
    square.file == dnd_state.origin_file && square.rank == dnd_state.origin_rank
}

/// Whether a cell shows the square over which the dragged piece hangs.
pub fn is_dnd_target_cell(col: u8, row: u8, chess_state: &ChessState, dnd_state: &DndState) -> (
    target: bool)
    requires
        col <= 7,
        row <= 7,
    ensures
        target == shows_target(col as int, row as int, chess_state.black_side, *dnd_state),
{
    let square = crate::coords::cell_to_square(col, row, chess_state.black_side);
    square.file == dnd_state.target_file && square.rank == dnd_state.target_rank
}

/// Whether a cell shows a square on the target's file or rank.
pub fn is_dnd_cross_cell(col: u8, row: u8, chess_state: &ChessState, dnd_state: &DndState) -> (
    cross: bool)
    requires
        col <= 7,
        row <= 7,
    ensures
        cross == on_cross(col as int, row as int, chess_state.black_side, *dnd_state),
{
    let square = crate::coords::cell_to_square(col, row, chess_state.black_side);
    square.file == dnd_state.target_file || square.rank == dnd_state.target_rank
}

/// The colour of a cell when nothing is dragged.
pub fn setup_current_cell_color(col: u8, row: u8, chess_state: &ChessState) -> (color: Color)
    requires
        col <= 7,
        row <= 7,
    ensures
        color == base_color(col as int, row as int, *chess_state),
{
    let is_white_cell: bool = (row + col) % 2 == 0;
    if is_white_cell {
        chess_state.white_cells_color
    } else {
        chess_state.black_cells_color
    }
}

/// The colour of a cell: the colour that the drag gives it, or else the
/// colour that it had.
pub fn setup_dnd_highlight_if_matches(
    current: Color,
    col: u8,
    row: u8,
    chess_state: &ChessState,
    dnd_state: &DndState,
) -> (color: Color)
    requires
        col <= 7,
        row <= 7,
    ensures
        color == match highlight(col as int, row as int, *chess_state, *dnd_state) {
            Some(highlighted) => highlighted,
            None => current,
        },
{
    if dnd_state.dnd_active {
        if is_dnd_target_cell(col, row, chess_state, dnd_state) {
            chess_state.dnd_end_cell_color
        } else if is_dnd_start_cell(col, row, chess_state, dnd_state) {
            chess_state.dnd_start_cell_color
        } else if is_dnd_cross_cell(col, row, chess_state, dnd_state) {
            chess_state.dnd_cross_color
        } else {
            current
        }
    } else {
        current
    }
}

/// Records the filling of a cell in the colour that was set up.
pub fn fill_current_cell_to_setup(
    context: &mut Vec<DrawCommand>,
    col: u8,
    row: u8,
    cells_size: u32,
    color: Color,
)
    requires
        col <= 7,
        row <= 7,
    ensures
        final(context)@ == old(context)@.push(
            cell_fill(cells_size as int, col as int, row as int, color),
        ),
{
    let cell_x: i64 = scale(cells_size, 50 + 100 * (col as i64));
    let cell_y: i64 = scale(cells_size, 50 + 100 * (row as i64));
    let side: i64 = scale(cells_size, 100);
    context.push(DrawCommand::Cell { x: cell_x, y: cell_y, side, color });
}

impl ChessBoardPainter {
    /// The side of a cell in pixels.
    pub closed spec fn cells(&self) -> int {
        self.cells_size as int
    }

    /// A painter for cells of this many pixels.
    pub fn new(cells_size: u32) -> (painter: Self)
        ensures
            painter.cells() == cells_size,
    {
        ChessBoardPainter { cells_size }
    }

    /// The side of a cell in pixels.
    pub fn cells_size(&self) -> (cells_size: u32)
        ensures
            cells_size == self.cells(),
    {
        self.cells_size
    }

    /// Records the whole board: background, coordinates, turn disc, cells,
    /// pieces, the arrow of the last move, and last, over everything, the
    /// piece in the pointer's hand.
    pub fn paint(
        &self,
        context: &mut Vec<DrawCommand>,
        chess_state: &ChessState,
        dnd_state: &DndState,
    )
        ensures
            final(context)@ == old(context)@ + scene(self.cells(), *chess_state, *dnd_state),
    {
        self.draw_background(context, chess_state);
        self.draw_coordinates(context, chess_state);
        self.draw_player_turn(context, chess_state);
        self.draw_cells(context, chess_state, dnd_state);
        self.draw_pieces(context, chess_state, dnd_state);
        self.draw_last_move(context, chess_state);
        self.draw_cursor_piece(context, dnd_state);
        assert(context@ =~= old(context)@ + scene(self.cells(), *chess_state, *dnd_state));
    }

    /// Records the filling of the widget.
    pub fn draw_background(&self, context: &mut Vec<DrawCommand>, chess_state: &ChessState)
        ensures
            final(context)@ == old(context)@ + background_layer(*chess_state),
    {
        context.push(DrawCommand::Background { color: chess_state.background_color });
        assert(context@ =~= old(context)@ + background_layer(*chess_state));
    }

    /// Records the 64 cells, each in its colour.
    pub fn draw_cells(
        &self,
        context: &mut Vec<DrawCommand>,
        chess_state: &ChessState,
        dnd_state: &DndState,
    )
        ensures
            final(context)@ == old(context)@ + cells_layer(self.cells(), *chess_state, *dnd_state),
    {
        let cells_size: u32 = self.cells_size;
        let mut index: u8 = 0;
        while index < 64
            invariant
                index <= 64,
                cells_size == self.cells(),
                context@ == old(context)@ + cell_fills(
                    cells_size as int,
                    *chess_state,
                    *dnd_state,
                    index as int,
                ),
            decreases 64 - index,
        {
            let col: u8 = index % 8;
            let row: u8 = index / 8;
            let base: Color = setup_current_cell_color(col, row, chess_state);
            let color: Color = setup_dnd_highlight_if_matches(
                base,
                col,
                row,
                chess_state,
                dnd_state,
            );
            fill_current_cell_to_setup(context, col, row, cells_size, color);
            assert(context@ =~= old(context)@ + cell_fills(
                cells_size as int,
                *chess_state,
                *dnd_state,
                index + 1,
            ));
            index += 1;
        }
    }

    /// Records the pieces of the position, but for the one being dragged.
    pub fn draw_pieces(
        &self,
        context: &mut Vec<DrawCommand>,
        chess_state: &ChessState,
        dnd_state: &DndState,
    )
        ensures
            final(context)@ == old(context)@ + pieces_layer(
                self.cells(),
                chess_state.board@,
                chess_state.black_side,
                *dnd_state,
            ),
    {
        let position: String = chess_state.position_fen();
        self.draw_pieces_of(context, position.as_str(), chess_state.black_side, dnd_state);
    }

    /// Records the pieces that a position's text places, but for the one
    /// being dragged. Of any text the first eight lines are drawn, and of
    /// each line what falls on the eight files.
    pub fn draw_pieces_of(
        &self,
        context: &mut Vec<DrawCommand>,
        position: &str,
        black_side: BlackSide,
        dnd_state: &DndState,
    )
        ensures
            final(context)@ == old(context)@ + pieces_layer(
                self.cells(),
                position@,
                black_side,
                *dnd_state,
            ),
    {
        let pieces_lines: Vec<Vec<char>> = self.get_pieces_values_from_fen(position);
        let ghost lines = views(pieces_lines@);
        let mut line_index: usize = 0;
        while line_index < pieces_lines.len() && line_index < 8
            invariant
                line_index <= pieces_lines.len(),
                lines == views(pieces_lines@),
                context@ + lines_layer(
                    self.cells(),
                    lines,
                    line_index as int,
                    black_side,
                    *dnd_state,
                ) == old(context)@ + lines_layer(self.cells(), lines, 0, black_side, *dnd_state),
            decreases pieces_lines.len() - line_index,
        {
            let ghost before = context@;
            let ghost rest = lines_layer(
                self.cells(),
                lines,
                line_index + 1,
                black_side,
                *dnd_state,
            );
            assert(lines[line_index as int] == pieces_lines@[line_index as int]@);
            self.draw_pieces_line(
                context,
                &pieces_lines[line_index],
                line_index as u8,
                black_side,
                dnd_state,
            );
            assert(context@ + rest =~= before + (line_layer(
                self.cells(),
                lines[line_index as int],
                line_index as int,
                black_side,
                *dnd_state,
            ) + rest));
            line_index += 1;
        }
        assert(context@ =~= context@ + Seq::<DrawCommand>::empty());
    }

    /// Records the disc that tells whose turn it is.
    pub fn draw_player_turn(&self, context: &mut Vec<DrawCommand>, chess_state: &ChessState)
        ensures
            final(context)@ == old(context)@ + turn_layer(self.cells(), chess_state.board@),
    {
        let position: String = chess_state.position_fen();
        self.draw_turn_of(context, position.as_str());
    }

    /// Records the disc for a position's text: white where the text gives
    /// white the move, black for any other text.
    pub fn draw_turn_of(&self, context: &mut Vec<DrawCommand>, position: &str)
        ensures
            final(context)@ == old(context)@ + turn_layer(self.cells(), position@),
    {
        let is_white_turn: bool = is_white_turn(position);
        let location: i64 = scale(self.cells_size, 875);
        let radius: i64 = scale(self.cells_size, 25);
        let color: Color = if is_white_turn {
            Color { red: 100, green: 100, blue: 100 }
        } else {
            Color { red: 0, green: 0, blue: 0 }
        };
        context.push(
            DrawCommand::TurnDisc { color, center_x: location, center_y: location, radius },
        );
        assert(context@ =~= old(context)@ + turn_layer(self.cells(), position@));
    }

    /// Records the arrow of the last move, if a move was played.
    pub fn draw_last_move(&self, context: &mut Vec<DrawCommand>, chess_state: &ChessState)
        ensures
            final(context)@ == old(context)@ + last_move_layer(self.cells(), *chess_state),
    {
        match chess_state.last_move {
            Some(last_move) => {
                let origin_col: i64 = self.middle_of_file(
                    last_move.origin.file,
                    chess_state.black_side,
                );
                let origin_row: i64 = self.middle_of_rank(
                    last_move.origin.rank,
                    chess_state.black_side,
                );
                let target_col: i64 = self.middle_of_file(
                    last_move.target.file,
                    chess_state.black_side,
                );
                let target_row: i64 = self.middle_of_rank(
                    last_move.target.rank,
                    chess_state.black_side,
                );
                context.push(
                    DrawCommand::Arrow {
                        from_x: origin_col,
                        from_y: origin_row,
                        to_x: target_col,
                        to_y: target_row,
                        color: chess_state.last_move_arrow_color,
                        opacity: 70,
                        line_width: scale(self.cells_size, 10),
                        head_length: scale(self.cells_size, 50),
                        head_width: scale(self.cells_size, 50),
                    },
                );
                assert(context@ =~= old(context)@ + last_move_layer(self.cells(), *chess_state));
            },
            None => {
                assert(context@ =~= old(context)@ + last_move_layer(self.cells(), *chess_state));
            },
        }
    }

    /// The middle of the column that shows a file.
    fn middle_of_file(&self, file: u8, black_side: BlackSide) -> (x: i64)
        ensures
            x == cell_middle(self.cells(), file_of_col(file as int, black_side)),
    {
        let col: i64 = match black_side {
            BlackSide::BlackBottom => 7 - (file as i64),
            BlackSide::BlackTop => file as i64,
        };
        scale(self.cells_size, 100 + 100 * col)
    }

    /// The middle of the row that shows a rank.
    fn middle_of_rank(&self, rank: u8, black_side: BlackSide) -> (y: i64)
        ensures
            y == cell_middle(self.cells(), rank_of_row(rank as int, black_side)),
    {
        let row: i64 = match black_side {
            BlackSide::BlackBottom => rank as i64,
            BlackSide::BlackTop => 7 - (rank as i64),
        };
        scale(self.cells_size, 100 + 100 * row)
    }

    /// Records the coordinates round the board.
    pub fn draw_coordinates(&self, context: &mut Vec<DrawCommand>, chess_state: &ChessState)
        ensures
            final(context)@ == old(context)@ + coordinates_layer(self.cells(), *chess_state),
    {
        let coordinates_color: Color = chess_state.coordinates_color;
        self.prepare_coordinates_drawing(context, coordinates_color);
        self.draw_files_coordinates(context, chess_state);
        self.draw_ranks_coordinates(context, chess_state);
        assert(context@ =~= old(context)@ + coordinates_layer(self.cells(), *chess_state));
    }

    /// Records the dragged piece under the pointer, if a piece is dragged.
    pub fn draw_cursor_piece(&self, context: &mut Vec<DrawCommand>, dnd_state: &DndState)
        ensures
            final(context)@ == old(context)@ + cursor_layer(self.cells(), *dnd_state),
    {
        if dnd_state.dnd_active && PieceKind::from_letter(dnd_state.moved_piece_fen).is_some() {
            let half: i64 = scale(self.cells_size, 50);
            let x: i64 = 100 * (dnd_state.cursor_x as i64) - half;
            let y: i64 = 100 * (dnd_state.cursor_y as i64) - half;
            context.push(DrawCommand::CursorPiece { piece: dnd_state.moved_piece_fen, x, y });
        }
        assert(context@ =~= old(context)@ + cursor_layer(self.cells(), *dnd_state));
    }

    /// Records the pieces that one line of the position's text places.
    pub fn draw_pieces_line(
        &self,
        context: &mut Vec<DrawCommand>,
        line: &Vec<char>,
        line_index: u8,
        black_side: BlackSide,
        dnd_state: &DndState,
    )
        requires
            line_index <= 7,
        ensures
            final(context)@ == old(context)@ + line_layer(
                self.cells(),
                line@,
                line_index as int,
                black_side,
                *dnd_state,
            ),
    {
        let glyphs: Vec<Glyph> = read_line(line);
        let mut i: usize = 0;
        while i < glyphs.len()
            invariant
                i <= glyphs.len(),
                line_index <= 7,
                glyphs@ == line_glyphs(line@, 0, 0),
                forall|k: int| 0 <= k < glyphs@.len() ==> glyphs@[k].file <= 7,
                context@ + glyphs_layer(
                    self.cells(),
                    glyphs@,
                    i as int,
                    line_index as int,
                    black_side,
                    *dnd_state,
                ) == old(context)@ + glyphs_layer(
                    self.cells(),
                    glyphs@,
                    0,
                    line_index as int,
                    black_side,
                    *dnd_state,
                ),
            decreases glyphs.len() - i,
        {
            let ghost before = context@;
            let ghost rest = glyphs_layer(
                self.cells(),
                glyphs@,
                i + 1,
                line_index as int,
                black_side,
                *dnd_state,
            );
            let glyph: Glyph = glyphs[i];
            self.draw_single_piece_if_not_moved_one(
                context,
                glyph.letter,
                glyph.file,
                line_index,
                black_side,
                dnd_state,
            );
            assert(context@ + rest =~= before + (single_piece_if_not_moved(
                self.cells(),
                glyph,
                line_index as int,
                black_side,
                *dnd_state,
            ) + rest));
            i += 1;
        }
        assert(context@ =~= context@ + Seq::<DrawCommand>::empty());
    }

    /// Records a piece's picture, unless the piece is the one being dragged
    /// from that square.
    pub fn draw_single_piece_if_not_moved_one(
        &self,
        context: &mut Vec<DrawCommand>,
        value: char,
        col_index: u8,
        line_index: u8,
        black_side: BlackSide,
        dnd_state: &DndState,
    )
        requires
            col_index <= 7,
            line_index <= 7,
        ensures
            final(context)@ == old(context)@ + single_piece_if_not_moved(
                self.cells(),
                Glyph { file: col_index, letter: value },
                line_index as int,
                black_side,
                *dnd_state,
            ),
    {
        let file: u8 = col_index;
        let rank: u8 = 7 - line_index;
        let is_not_moved_piece_cell: bool = !dnd_state.dnd_active || dnd_state.origin_file != file
            || dnd_state.origin_rank != rank;
        if is_not_moved_piece_cell {
            self.draw_single_piece(context, value, col_index, line_index, black_side);
        } else {
            assert(context@ =~= old(context)@ + Seq::<DrawCommand>::empty());
        }
    }

    /// Records a piece's picture on the cell that shows its square. A letter
    /// that stands for no piece has no picture and records nothing.
    pub fn draw_single_piece(
        &self,
        context: &mut Vec<DrawCommand>,
        value: char,
        col_index: u8,
        line_index: u8,
        black_side: BlackSide,
    )
        requires
            col_index <= 7,
            line_index <= 7,
        ensures
            final(context)@ == old(context)@ + single_piece(
                self.cells(),
                value,
                col_index as int,
                line_index as int,
                black_side,
            ),
    {
        let col: u8 = crate::coords::get_col(col_index, black_side);
        let row: u8 = crate::coords::get_row(line_index, black_side);
        if PieceKind::from_letter(value).is_some() {
            let x: i64 = scale(self.cells_size, 50 + 100 * (col as i64));
            let y: i64 = scale(self.cells_size, 50 + 100 * (row as i64));
            context.push(DrawCommand::Piece { piece: value, x, y });
        }
        assert(context@ =~= old(context)@ + single_piece(
            self.cells(),
            value,
            col_index as int,
            line_index as int,
            black_side,
        ));
    }

    /// Records the style of the coordinates: their colour, and letters a
    /// little over a third of a cell high.
    pub fn prepare_coordinates_drawing(
        &self,
        context: &mut Vec<DrawCommand>,
        coordinates_color: Color,
    )
        ensures
            final(context)@ == old(context)@.push(
                DrawCommand::LabelStyle {
                    color: coordinates_color,
                    font_size: scaled(self.cells(), 35) as i64,
                },
            ),
    {
        let font_size: i64 = scale(self.cells_size, 35);
        context.push(DrawCommand::LabelStyle { color: coordinates_color, font_size });
    }

    /// Records the letters of the files, over and under each column.
    pub fn draw_files_coordinates(&self, context: &mut Vec<DrawCommand>, chess_state: &ChessState)
        ensures
            final(context)@ == old(context)@ + file_labels(
                self.cells(),
                chess_state.black_side,
                16,
            ),
    {
        let ascii_uppercase_a: u8 = 65;
        let black_side: BlackSide = chess_state.black_side;
        let y1: i64 = scale(self.cells_size, 35);
        let y2: i64 = scale(self.cells_size, 885);
        let mut col: u8 = 0;
        while col < 8
            invariant
                col <= 8,
                ascii_uppercase_a == 65,
                y1 == scaled(self.cells(), 35),
                y2 == scaled(self.cells(), 885),
                context@ == old(context)@ + file_labels(self.cells(), black_side, 2 * col),
            decreases 8 - col,
        {
            let file: u8 = crate::coords::get_col(col, black_side);
            let coordinate: char = (ascii_uppercase_a + file) as char;
            let x: i64 = scale(self.cells_size, 90 + 100 * (col as i64));
            context.push(DrawCommand::Label { glyph: coordinate, x, y: y1 });
            context.push(DrawCommand::Label { glyph: coordinate, x, y: y2 });
            assert(context@ =~= old(context)@ + file_labels(
                self.cells(),
                black_side,
                2 * (col + 1),
            ));
            col += 1;
        }
    }

    /// Records the digits of the ranks, left and right of each row.
    pub fn draw_ranks_coordinates(&self, context: &mut Vec<DrawCommand>, chess_state: &ChessState)
        ensures
            final(context)@ == old(context)@ + rank_labels(
                self.cells(),
                chess_state.black_side,
                16,
            ),
    {
        let ascii_1: u8 = 49;
        let black_side: BlackSide = chess_state.black_side;
        let x1: i64 = scale(self.cells_size, 15);
        let x2: i64 = scale(self.cells_size, 865);
        let mut row: u8 = 0;
        while row < 8
            invariant
                row <= 8,
                ascii_1 == 49,
                x1 == scaled(self.cells(), 15),
                x2 == scaled(self.cells(), 865),
                context@ == old(context)@ + rank_labels(self.cells(), black_side, 2 * row),
            decreases 8 - row,
        {
            let rank: u8 = match black_side {
                BlackSide::BlackBottom => row,
                BlackSide::BlackTop => 7 - row,
            };
            let coordinate: char = (ascii_1 + rank) as char;
            let y: i64 = scale(self.cells_size, 120 + 100 * (row as i64));
            context.push(DrawCommand::Label { glyph: coordinate, x: x1, y });
            context.push(DrawCommand::Label { glyph: coordinate, x: x2, y });
            assert(context@ =~= old(context)@ + rank_labels(
                self.cells(),
                black_side,
                2 * (row + 1),
            ));
            row += 1;
        }
    }

    /// The lines of a position's placement, one for each rank, the eighth
    /// rank first.
    pub fn get_pieces_values_from_fen(&self, position_fen: &str) -> (lines: Vec<Vec<char>>)
        ensures
            views(lines@) == rank_lines(position_fen@),
            lines@.len() >= 1,
    {
        placement_lines(position_fen)
    }

    /// The number of empty squares that a digit of a rank's line stands for.
    pub fn skip_and_count_holes(&self, value_ascii: u8) -> (holes_count: u8)
        requires
            48 <= value_ascii <= 57,
        ensures
            holes_count == value_ascii - 48,
    {
        crate::fen::skip_and_count_holes(value_ascii)
    }
}

/// Of the colours that a drag gives a cell, the target's wins: the cell that
/// shows the target square is filled in the target's colour, although it
/// lies on the cross and even where it is the origin too. The origin's colour
/// comes next, before the cross's.
pub proof fn lemma_highlight_precedence(
    col: int,
    row: int,
    chess_state: ChessState,
    dnd_state: DndState,
)
    requires
        dnd_state.dnd_active,
    ensures
        shows_target(col, row, chess_state.black_side, dnd_state) ==> on_cross(
            col,
            row,
            chess_state.black_side,
            dnd_state,
        ) && cell_color(col, row, chess_state, dnd_state) == chess_state.dnd_end_cell_color,
        !shows_target(col, row, chess_state.black_side, dnd_state) && shows_origin(
            col,
            row,
            chess_state.black_side,
            dnd_state,
        ) ==> cell_color(col, row, chess_state, dnd_state) == chess_state.dnd_start_cell_color,
        !shows_target(col, row, chess_state.black_side, dnd_state) && !shows_origin(
            col,
            row,
            chess_state.black_side,
            dnd_state,
        ) && on_cross(col, row, chess_state.black_side, dnd_state) ==> cell_color(
            col,
            row,
            chess_state,
            dnd_state,
        ) == chess_state.dnd_cross_color,
{
}

/// The cell that is drawn under a pixel shows the square that the pointer
/// finds under that pixel. For a pixel strictly inside the playing area, the
/// cell in the column and row under it is filled from its left edge up to,
/// but not including, its right edge round the pixel, and likewise from top
/// to bottom; and the square that this cell shows is the square under the
/// pixel. So the painter and the pointer never disagree about a square.
pub proof fn lemma_drawn_cell_is_square_under_pointer(
    x: int,
    y: int,
    cells_size: int,
    side: BlackSide,
)
    requires
        cells_size > 0,
        cells_size < 2 * x < 17 * cells_size,
        cells_size < 2 * y < 17 * cells_size,
    ensures
        ({
            let col = cell_of_pixel(x, cells_size);
            let row = cell_of_pixel(y, cells_size);
            &&& 0 <= col <= 7
            &&& 0 <= row <= 7
            &&& cell_edge(cells_size, col) <= 100 * x < cell_edge(cells_size, col) + scaled(
                cells_size,
                100,
            )
            &&& cell_edge(cells_size, row) <= 100 * y < cell_edge(cells_size, row) + scaled(
                cells_size,
                100,
            )
            &&& square_under(x, y, cells_size, side) == Some(
                BoardCellCoord {
                    file: file_of_col(col, side) as u8,
                    rank: rank_of_row(row, side) as u8,
                },
            )
        }),
{
    lemma_pixel_inside_playing_area(x, cells_size);
    lemma_pixel_inside_playing_area(y, cells_size);
    let col = cell_of_pixel(x, cells_size);
    let row = cell_of_pixel(y, cells_size);
    assert(cell_edge(cells_size, col) <= 100 * x < cell_edge(cells_size, col) + scaled(
        cells_size,
        100,
    )) by (nonlinear_arith)
        requires
            (2 * col + 1) * cells_size <= 2 * x,
            2 * x < (2 * col + 3) * cells_size,
    ;
    assert(cell_edge(cells_size, row) <= 100 * y < cell_edge(cells_size, row) + scaled(
        cells_size,
        100,
    )) by (nonlinear_arith)
        requires
            (2 * row + 1) * cells_size <= 2 * y,
            2 * y < (2 * row + 3) * cells_size,
    ;
}

/// A piece is drawn on the cell that shows its square: the picture of the
/// piece on file `file` of line `line_index` of the position's text has its
/// corner at the corner of the cell whose square is on that file and on rank
/// `7 - line_index`.
pub proof fn lemma_piece_is_drawn_on_its_square(
    cells_size: int,
    letter: char,
    file: int,
    line_index: int,
    side: BlackSide,
)
    ensures
        ({
            let col = col_of_file(file, side);
            let row = row_of_rank(7 - line_index, side);
            &&& piece_picture(cells_size, letter, file, line_index, side) == (DrawCommand::Piece {
                piece: letter,
                x: cell_edge(cells_size, col) as i64,
                y: cell_edge(cells_size, row) as i64,
            })
            &&& file_of_col(col, side) == file
            &&& rank_of_row(row, side) == 7 - line_index
        }),
{
}

/// What a drag state holds while no piece is in hand is never drawn: two
/// boards that differ only in such a state look the same.
pub proof fn lemma_idle_drag_is_not_drawn(
    cells_size: int,
    chess_state: ChessState,
    dnd_state: DndState,
    other: DndState,
)
    requires
        !dnd_state.dnd_active,
        !other.dnd_active,
    ensures
        scene(cells_size, chess_state, dnd_state) == scene(cells_size, chess_state, other),
{
    assert(cells_layer(cells_size, chess_state, dnd_state) =~= cells_layer(
        cells_size,
        chess_state,
        other,
    ));
    lemma_idle_lines(cells_size, rank_lines(chess_state.board@), 0, chess_state.black_side, dnd_state, other);
}

/// Without a piece in hand every piece of the position is drawn, whatever
/// else the drag state holds.
proof fn lemma_idle_lines(
    cells_size: int,
    lines: Seq<Seq<char>>,
    from: int,
    side: BlackSide,
    dnd_state: DndState,
    other: DndState,
)
    requires
        !dnd_state.dnd_active,
        !other.dnd_active,
    ensures
        lines_layer(cells_size, lines, from, side, dnd_state) == lines_layer(
            cells_size,
            lines,
            from,
            side,
            other,
        ),
    decreases lines.len() - from,
{
    if !(from < 0 || from >= lines.len() || from > 7) {
        lemma_idle_glyphs(cells_size, line_glyphs(lines[from], 0, 0), 0, from, side, dnd_state, other);
        lemma_idle_lines(cells_size, lines, from + 1, side, dnd_state, other);
    }
}

/// Without a piece in hand every letter of a line is drawn the same.
proof fn lemma_idle_glyphs(
    cells_size: int,
    glyphs: Seq<Glyph>,
    from: int,
    line_index: int,
    side: BlackSide,
    dnd_state: DndState,
    other: DndState,
)
    requires
        !dnd_state.dnd_active,
        !other.dnd_active,
    ensures
        glyphs_layer(cells_size, glyphs, from, line_index, side, dnd_state) == glyphs_layer(
            cells_size,
            glyphs,
            from,
            line_index,
            side,
            other,
        ),
    decreases glyphs.len() - from,
{
    if !(from < 0 || from >= glyphs.len()) {
        lemma_idle_glyphs(cells_size, glyphs, from + 1, line_index, side, dnd_state, other);
    }
}

} // verus!
