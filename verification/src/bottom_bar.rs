//! The status line at the bottom of the window.

use vstd::prelude::*;

verus! {

/// How the status line is shown.
#[derive(Debug, Clone, Copy, PartialEq, Eq, Structural)]
pub enum BottomBarState {
    Normal,
    InProgress,
    Error,
}

/// The status line: a message and the way it is shown.
#[derive(Debug)]
pub struct BottomBar {
    pub message: String,
    pub state: BottomBarState,
}

impl BottomBar {
    /// An empty status line, shown normally.
    pub fn new() -> (r: Self)
        ensures
            r.message@ == Seq::<char>::empty(),
            r.state == BottomBarState::Normal,
    {
        BottomBar { message: String::new(), state: BottomBarState::Normal }
    }

    /// Shows `msg` as an error.
    pub fn set_error(&mut self, msg: String)
        ensures
            final(self).message == msg,
            final(self).state == BottomBarState::Error,
    {
        self.message = msg;
        self.state = BottomBarState::Error;
    }

    /// Clears the status line.
    pub fn set_normal(&mut self)
        ensures
            final(self).message@ == Seq::<char>::empty(),
            final(self).state == BottomBarState::Normal,
    {
        self.message = String::new();
        self.state = BottomBarState::Normal;
    }

    /// Shows `msg` as plain information.
    pub fn set_info(&mut self, msg: String)
        ensures
            final(self).message == msg,
            final(self).state == BottomBarState::Normal,
    {
        self.message = msg;
        self.state = BottomBarState::Normal;
    }

    /// Shows `msg` as work in progress.
    pub fn set_in_progress(&mut self, msg: String)
        ensures
            final(self).message == msg,
            final(self).state == BottomBarState::InProgress,
    {
        self.message = msg;
        self.state = BottomBarState::InProgress;
    }
}

} // verus!
