//! The operation screens of the editor and how one is opened.

use vstd::prelude::*;

use crate::video::VideoData;

pub mod crop;
pub mod gif;

use crate::screens::crop::CropInfo;
use crate::screens::gif::GifInfo;

verus! {

/// The screen that is open, with its state. The trim, scale and volume
/// screens hold fractional values (seconds, factors), so their state types
/// are supplied by the application as `T`, `S` and `V`.
#[derive(Debug)]
pub enum Screen<T, S, V> {
    Trim(T),
    Crop(CropInfo),
    Scale(S),
    Pipeline,
    Volume(V),
    GifFrames(GifInfo),
}

/// The name of a screen, as the buttons of the top bar ask for it.
#[derive(Debug, Clone, Copy, PartialEq, Eq, Structural)]
pub enum ScreenName {
    Trim,
    Crop,
    Scale,
    Pipeline,
    Volume,
    GifFrames,
}

/// The state of a screen that starts from the video and can be brought back
/// within the video's bounds.
pub trait DefaultScreen: Sized {
    /// The state may be fitted to `video` without a fault (always, unless
    /// the screen says otherwise).
    open spec fn can_fit_to(&self, video: &VideoData) -> bool {
        true
    }

    /// The state a screen starts with for `video`.
    fn from_video(video: &VideoData) -> Self;

    /// Brings the values within the bounds of `video`; the texts of the
    /// fields that change are rewritten when `update_text` is set.
    fn fit_to_bounds(&mut self, video: &VideoData, update_text: bool)
        requires
            old(self).can_fit_to(video),
    ;
}

/// The text a size field is rewritten to when the size is held to 1.
pub open spec fn one_text() -> Seq<char> {
    seq!['1']
}

/// Holds a size of the scale screen (set by hand, not by a factor) to at
/// least 1: a size of 0 or 1 becomes 1, and its text is rewritten to "1"
/// when `update_text` is set.
pub fn hold_scale_size(size: &mut u32, text: &mut String, update_text: bool)
    ensures
        *final(size) == if *old(size) <= 1 { 1 } else { *old(size) },
        final(text)@ == if *old(size) <= 1 && update_text { one_text() } else { old(text)@ },
{
    if *size <= 1 {
        *size = 1;
        if update_text {
            let mut t = String::new();
            crate::decimal::push_char(&mut t, '1');
            *text = t;
        }
    }
}

impl ScreenName {
    /// Opens the screen of this name with the state it starts with for `video`.
    pub fn to_screen<T: DefaultScreen, S: DefaultScreen, V: DefaultScreen>(
        self,
        video: &VideoData,
    ) -> (r: Screen<T, S, V>)
        ensures
            self == ScreenName::Trim <==> r is Trim,
            self == ScreenName::Crop <==> r is Crop,
            self == ScreenName::Scale <==> r is Scale,
            self == ScreenName::Pipeline <==> r is Pipeline,
            self == ScreenName::Volume <==> r is Volume,
            self == ScreenName::GifFrames <==> r is GifFrames,
            r matches Screen::Crop(c) ==> c.is_initial_for(*video),
            r matches Screen::Trim(t) ==> call_ensures(T::from_video, (video,), t),
            r matches Screen::Scale(sc) ==> call_ensures(S::from_video, (video,), sc),
            r matches Screen::Volume(v) ==> call_ensures(V::from_video, (video,), v),
    {
        match self {
            ScreenName::Trim => Screen::Trim(T::from_video(video)),
            ScreenName::Crop => Screen::Crop(CropInfo::from_video(video)),
            ScreenName::Scale => Screen::Scale(S::from_video(video)),
            ScreenName::Pipeline => Screen::Pipeline,
            ScreenName::Volume => Screen::Volume(V::from_video(video)),
            ScreenName::GifFrames => Screen::GifFrames(GifInfo::from_video(video)),
        }
    }
}

} // verus!
