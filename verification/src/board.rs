//! The board as its host sees it: one value that owns the board's state and
//! the drag's, takes the host's requests and the pointer's events, and says
//! what to draw.

use vstd::prelude::*;
use crate::coords::BlackSide;
use crate::handlers::{
    board_after_drop,
    board_after_promotion,
    dnd_after_move,
    dnd_after_press,
    dnd_after_release,
    follows_pointer,
    mouse_moved_handler,
    mouse_pressed_handler,
    mouse_released_handler,
    press_picks,
    release_action,
    resolve_promotion,
};
use crate::painter::{scene, ChessBoardPainter, DrawCommand};
use crate::widget::{ChessState, ChessStateBuilder, Color, DndState};

verus! {

/// What the host can ask of the board.
#[derive(Debug, PartialEq, Eq, Copy, Clone, Structural)]
pub enum ChessBoardMsg {
    SetBlackSide(BlackSide),
}

/// A rectangle of the widget, in pixels from its top left corner.
#[derive(Debug, PartialEq, Eq, Copy, Clone, Structural)]
pub struct Region {
    pub x: u32,
    pub y: u32,
    pub width: u32,
    pub height: u32,
}

/// The board's state and the drag's, under one owner.
pub struct ChessBoardModel {
    pub chess_state: ChessState,
    pub dnd_state: DndState,
}

/// Collects what a board is to look like before the board is made.
#[derive(Debug, PartialEq, Eq, Copy, Clone, Structural)]
pub struct ChessBoardModelBuilder {
    pub size: u32,
    pub background_color: Color,
    pub white_cells_color: Color,
    pub black_cells_color: Color,
}

impl ChessBoardModelBuilder {
    /// The looks that the builder asks for: what it holds, and the default
    /// for everything else.
    pub open spec fn looks(self) -> ChessStateBuilder {
        ChessStateBuilder {
            size: self.size,
            background_color: self.background_color,
            white_cells_color: self.white_cells_color,
            black_cells_color: self.black_cells_color,
            ..ChessStateBuilder::default_looks()
        }
    }

    /// A builder with the default size and colours.
    pub fn new() -> (builder: ChessBoardModelBuilder)
        ensures
            builder.looks() == ChessStateBuilder::default_looks(),
    {
        ChessBoardModelBuilder {
            size: 300,
            background_color: Color { red: 50, green: 40, blue: 90 },
            white_cells_color: Color { red: 100, green: 85, blue: 60 },
            black_cells_color: Color { red: 85, green: 55, blue: 25 },
        }
    }

    /// The board that was asked for, on the starting position, with nothing
    /// in the pointer's hand.
    pub fn build(self) -> (model: ChessBoardModel)
        ensures
            model.chess_state == self.looks().state_with(model.chess_state.board),
            model.chess_state.board@ == crate::engine::start_fen(),
            model.dnd_state == DndState::idle(),
    {
        let mut state_builder = ChessStateBuilder::new();
        state_builder.set_board_size(self.size);
        state_builder.set_board_background_color(self.background_color);
        state_builder.set_board_white_cells_color(self.white_cells_color);
        state_builder.set_board_black_cells_color(self.black_cells_color);
        ChessBoardModel { chess_state: state_builder.build(), dnd_state: DndState::default() }
    }

    pub fn set_size(&mut self, size: u32)
        ensures
            *final(self) == (ChessBoardModelBuilder { size, ..*old(self) }),
    {
        self.size = size;
    }

    pub fn set_background_color(&mut self, background_color: Color)
        ensures
            *final(self) == (ChessBoardModelBuilder { background_color, ..*old(self) }),
    {
        self.background_color = background_color;
    }

    pub fn set_white_cells_color(&mut self, white_cells_color: Color)
        ensures
            *final(self) == (ChessBoardModelBuilder { white_cells_color, ..*old(self) }),
    {
        self.white_cells_color = white_cells_color;
    }

    pub fn set_black_cells_color(&mut self, black_cells_color: Color)
        ensures
            *final(self) == (ChessBoardModelBuilder { black_cells_color, ..*old(self) }),
    {
        self.black_cells_color = black_cells_color;
    }
}

impl ChessBoardModel {
    /// A board of the given size with the default looks, on the starting
    /// position, with nothing in the pointer's hand.
    pub fn new(board_size: u32) -> (model: ChessBoardModel)
        ensures
            model.chess_state == (ChessStateBuilder {
                size: board_size,
                ..ChessStateBuilder::default_looks()
            }).state_with(model.chess_state.board),
            model.chess_state.board@ == crate::engine::start_fen(),
            model.dnd_state == DndState::idle(),
            model.dnd_state.wf(),
    {
        let mut state_builder = ChessStateBuilder::new();
        state_builder.set_board_size(board_size);
        ChessBoardModel { chess_state: state_builder.build(), dnd_state: DndState::default() }
    }

    /// Carries out a request of the host and says whether the board must be
    /// drawn again, which it must if the request has changed anything.
    pub fn update(&mut self, event: ChessBoardMsg) -> (redraw: bool)
        ensures
            event matches ChessBoardMsg::SetBlackSide(side) && *final(self) == (ChessBoardModel {
                chess_state: ChessState { black_side: side, ..old(self).chess_state },
                dnd_state: old(self).dnd_state,
            }) && redraw == (side != old(self).chess_state.black_side),
    {
        match event {
            ChessBoardMsg::SetBlackSide(side) => {
                let changed: bool = side != self.chess_state.black_side;
                self.chess_state.set_orientation(side);
                changed
            },
        }
    }

    /// Gives the widget a new size in pixels. The board must be drawn again
    /// if the size has changed.
    pub fn resize_request(&mut self, pixel_size: u32) -> (redraw: bool)
        ensures
            redraw == (pixel_size != old(self).chess_state.size),
            *final(self) == (ChessBoardModel {
                chess_state: ChessState { size: pixel_size, ..old(self).chess_state },
                dnd_state: old(self).dnd_state,
            }),
    {
        let changed: bool = pixel_size != self.chess_state.size;
        self.chess_state.size = pixel_size;
        changed
    }

    /// Turns the board round and says that it must be drawn again.
    pub fn orientation_toggle(&mut self) -> (redraw: bool)
        ensures
            redraw,
            *final(self) == (ChessBoardModel {
                chess_state: ChessState {
                    black_side: old(self).chess_state.black_side.flipped(),
                    ..old(self).chess_state
                },
                dnd_state: old(self).dnd_state,
            }),
    {
        let side: BlackSide = self.chess_state.black_side.toggled();
        self.chess_state.set_orientation(side);
        true
    }

    /// The side of the square that the widget asks its host for.
    pub fn canvas_size(&self) -> (size: u32)
        ensures
            size == self.chess_state.size,
    {
        self.chess_state.size
    }

    /// The part of the widget to draw again: all of it.
    pub fn repaint_region(&self) -> (region: Region)
        ensures
            region == (Region {
                x: 0,
                y: 0,
                width: self.chess_state.size,
                height: self.chess_state.size,
            }),
    {
        let size: u32 = self.chess_state.size;
        Region { x: 0, y: 0, width: size, height: size }
    }

    /// A painter for the board's size: its cells are a ninth of the widget
    /// wide, as the pointer's are.
    pub fn build_painter(&self) -> (painter: ChessBoardPainter)
        ensures
            painter.cells() == self.chess_state.cells_size(),
    {
        let size: u32 = self.chess_state.size;
        ChessBoardPainter::new(size / 9)
    }

    /// Everything to draw, bottom layer first.
    pub fn render(&self) -> (commands: Vec<DrawCommand>)
        ensures
            commands@ == scene(self.chess_state.cells_size(), self.chess_state, self.dnd_state),
    {
        let painter: ChessBoardPainter = self.build_painter();
        let mut context: Vec<DrawCommand> = Vec::new();
        painter.paint(&mut context, &self.chess_state, &self.dnd_state);
        assert(context@ =~= scene(
            self.chess_state.cells_size(),
            self.chess_state,
            self.dnd_state,
        ));
        context
    }

    /// Ends the wait for a promotion piece, with the letter of the piece
    /// chosen or with `None` to give the move up.
    pub fn on_promotion_choice(&mut self, choice: Option<char>) -> (redraw: bool)
        requires
            old(self).dnd_state.wf(),
        ensures
            redraw == old(self).chess_state.pending_promotion,
            final(self).dnd_state == old(self).dnd_state,
            if old(self).chess_state.pending_promotion {
                board_after_promotion(
                    old(self).chess_state,
                    final(self).chess_state,
                    old(self).dnd_state,
                    choice,
                )
            } else {
                final(self).chess_state == old(self).chess_state
            },
    {
        resolve_promotion(&self.dnd_state, &mut self.chess_state, choice)
    }

    /// The button went down at a pixel.
    pub fn on_pointer_down(&mut self, x: i32, y: i32) -> (redraw: bool)
        ensures
            final(self).dnd_state == dnd_after_press(
                old(self).chess_state,
                old(self).dnd_state,
                x,
                y,
            ),
            final(self).chess_state == old(self).chess_state,
            redraw == press_picks(old(self).chess_state, old(self).dnd_state, x, y).is_some(),
            old(self).dnd_state.wf() ==> final(self).dnd_state.wf(),
    {
        mouse_pressed_handler(&mut self.dnd_state, &self.chess_state, x, y)
    }

    /// The pointer moved to a pixel.
    pub fn on_pointer_move(&mut self, x: i32, y: i32) -> (redraw: bool)
        ensures
            final(self).dnd_state == dnd_after_move(
                old(self).chess_state,
                old(self).dnd_state,
                x,
                y,
            ),
            final(self).chess_state == old(self).chess_state,
            redraw == (final(self).dnd_state != old(self).dnd_state),
            old(self).dnd_state.wf() ==> final(self).dnd_state.wf(),
    {
        mouse_moved_handler(&mut self.dnd_state, &self.chess_state, x, y)
    }

    /// The button went up at a pixel.
    pub fn on_pointer_up(&mut self, x: i32, y: i32) -> (redraw: bool)
        requires
            old(self).dnd_state.wf(),
        ensures
            final(self).dnd_state == dnd_after_release(
                old(self).chess_state,
                old(self).dnd_state,
                x,
                y,
            ),
            board_after_drop(
                old(self).chess_state,
                final(self).chess_state,
                release_action(old(self).chess_state, old(self).dnd_state, x, y),
            ),
            redraw == follows_pointer(old(self).chess_state, old(self).dnd_state),
            final(self).dnd_state.wf(),
    {
        mouse_released_handler(&mut self.dnd_state, &mut self.chess_state, x, y)
    }
}

} // verus!
