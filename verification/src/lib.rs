//! The interaction core of a chessboard widget: the coordinate transform
//! between pixels and squares, the drag-and-drop state machine, and the
//! display list that a host toolkit paints.

pub mod board;
pub mod coords;
pub mod engine;
pub mod fen;
pub mod handlers;
pub mod painter;
pub mod pieces;
pub mod widget;
pub mod window;
