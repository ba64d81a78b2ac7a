//! Where a bordered window goes on the terminal.

use vstd::prelude::*;

verus! {

/// A bordered window with its title, in terminal rows and columns.
#[derive(Clone, Debug, PartialEq, Eq)]
pub struct Frame {
    pub height: i32,
    pub width: i32,
    pub start_y: i32,
    pub start_x: i32,
    pub title: String,
}

/// A window as plain data.
pub struct FrameView {
    pub height: int,
    pub width: int,
    pub start_y: int,
    pub start_x: int,
    pub title: Seq<char>,
}

impl View for Frame {
    type V = FrameView;

    open spec fn view(&self) -> FrameView {
        FrameView {
            height: self.height as int,
            width: self.width as int,
            start_y: self.start_y as int,
            start_x: self.start_x as int,
            title: self.title@,
        }
    }
}

} // verus!
