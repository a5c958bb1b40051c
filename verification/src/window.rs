//! The window round the board: it holds the orientation that its button
//! toggles, and tells the board.

use vstd::prelude::*;
use crate::board::ChessBoardMsg;
use crate::coords::BlackSide;

verus! {

/// What the window remembers.
#[derive(Debug, PartialEq, Eq, Copy, Clone, Structural)]
pub struct WinModel {
    pub black_side: BlackSide,
}

/// What can happen to the window.
#[derive(Debug, PartialEq, Eq, Copy, Clone, Structural)]
pub enum WinMsg {
    Quit,
    SetBoardUpsideDown,
}

/// What the host does after the window has taken a message.
#[derive(Debug, PartialEq, Eq, Copy, Clone, Structural)]
pub enum WinAction {
    /// Leave the main loop.
    Quit,
    /// Send the message on to the board.
    Emit(ChessBoardMsg),
}

impl WinModel {
    /// A window whose board has black at the top.
    pub fn new() -> (model: WinModel)
        ensures
            model.black_side == BlackSide::BlackTop,
    {
        WinModel { black_side: BlackSide::BlackTop }
    }

    /// Takes a message. Closing the window changes nothing and ends the
    /// program; the button turns the board round and tells the board its new
    /// orientation.
    pub fn update(&mut self, event: WinMsg) -> (action: WinAction)
        ensures
            match event {
                WinMsg::Quit => action == WinAction::Quit && *final(self) == *old(self),
                WinMsg::SetBoardUpsideDown => {
                    &&& final(self).black_side == old(self).black_side.flipped()
                    &&& action == WinAction::Emit(
                        ChessBoardMsg::SetBlackSide(final(self).black_side),
                    )
                },
            },
    {
        match event {
            WinMsg::Quit => WinAction::Quit,
            WinMsg::SetBoardUpsideDown => {
                let new_black_side: BlackSide = match self.black_side {
                    BlackSide::BlackBottom => BlackSide::BlackTop,
                    BlackSide::BlackTop => BlackSide::BlackBottom,
                };
                self.black_side = new_black_side;
                WinAction::Emit(ChessBoardMsg::SetBlackSide(new_black_side))
            },
        }
    }
}

} // verus!
