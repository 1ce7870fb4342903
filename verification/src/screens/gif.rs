//! The screen that lists the frames of a gif.

use vstd::prelude::*;

use crate::screens::DefaultScreen;
use crate::video::VideoData;

verus! {

/// The gif screen keeps no state of its own: it shows the frames of the gif
/// that is open.
#[derive(Debug, Clone, Copy, PartialEq, Eq, Structural)]
pub struct GifInfo {}

impl DefaultScreen for GifInfo {
    open spec fn can_fit_to(&self, video: &VideoData) -> bool {
        true
    }

    fn from_video(video: &VideoData) -> Self {
        GifInfo {  }
    }

    fn fit_to_bounds(&mut self, video: &VideoData, update_text: bool) {
    }
}

} // verus!
