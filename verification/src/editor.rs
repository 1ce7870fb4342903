//! The editor's decisions after an operation or a request: what the
//! pipeline and the status line become.

use vstd::prelude::*;

use crate::bottom_bar::{BottomBar, BottomBarState};
use crate::pipeline::{Operation, Pipeline, PipelineEntry};
use crate::screens::{DefaultScreen, Screen, ScreenName};
use crate::video::VideoData;

verus! {

/// An operation finished. Where it made the file `path`, whose video is
/// `video`, that file becomes the next version in the pipeline and the
/// status line is cleared; where it failed, the status line shows why.
pub fn operation_finished(
    pipeline: &mut Pipeline,
    bottom_bar: &mut BottomBar,
    finished: Result<(String, VideoData), String>,
    operation: Operation,
)
    requires
        old(pipeline).well_formed(),
    ensures
        final(pipeline).well_formed(),
        final(pipeline).tempdir() == old(pipeline).tempdir(),
        match finished {
            Ok((path, video)) => {
                &&& final(pipeline)@ == old(pipeline)@.push(PipelineEntry {
                    step_num: old(pipeline)@.len() as usize,
                    path,
                    operation,
                    width: video.width as u32,
                    height: video.height as u32,
                    duration: video.duration,
                })
                &&& final(bottom_bar).message@ == Seq::<char>::empty()
                &&& final(bottom_bar).state == BottomBarState::Normal
            },
            Err(e) => {
                &&& final(pipeline)@ == old(pipeline)@
                &&& final(bottom_bar).message == e
                &&& final(bottom_bar).state == BottomBarState::Error
            },
        },
{
    match finished {
        Ok((path, video)) => {
            pipeline.add_from_vid(path, operation, &video);
            assert(pipeline@ =~= old(pipeline)@.push(pipeline@.last()));
            bottom_bar.set_normal();
        },
        Err(e) => bottom_bar.set_error(e),
    }
}

/// The screen shown after the user asks for `name`: that screen, opened for
/// the video, where a video is open and a screen was named; no screen
/// otherwise.
pub fn go_to_screen<T: DefaultScreen, S: DefaultScreen, V: DefaultScreen>(
    video: Option<&VideoData>,
    name: Option<ScreenName>,
) -> (r: Option<Screen<T, S, V>>)
    ensures
        (video is Some && name is Some) <==> r is Some,
        r matches Some(sc) ==> {
            let n = name.unwrap();
            &&& (n == ScreenName::Trim <==> sc is Trim)
            &&& (n == ScreenName::Crop <==> sc is Crop)
            &&& (n == ScreenName::Scale <==> sc is Scale)
            &&& (n == ScreenName::Pipeline <==> sc is Pipeline)
            &&& (n == ScreenName::Volume <==> sc is Volume)
            &&& (n == ScreenName::GifFrames <==> sc is GifFrames)
            &&& (sc matches Screen::Crop(c) ==> c.is_initial_for(*video.unwrap()))
            &&& (sc matches Screen::Trim(t) ==> call_ensures(T::from_video, (video.unwrap(),), t))
            &&& (sc matches Screen::Scale(x) ==> call_ensures(S::from_video, (video.unwrap(),), x))
            &&& (sc matches Screen::Volume(v) ==> call_ensures(V::from_video, (video.unwrap(),), v))
        },
{
    match (video, name) {
        (Some(v), Some(n)) => Some(n.to_screen(v)),
        _ => None,
    }
}

/// Saving was asked for with no video open.
pub fn save_without_video(bottom_bar: &mut BottomBar)
    ensures
        final(bottom_bar).message@ == "No video loaded, cannot save"@,
        final(bottom_bar).state == BottomBarState::Error,
{
    bottom_bar.set_error("No video loaded, cannot save".to_owned());
}

/// Going back in the pipeline was asked for when there is none.
pub fn revert_without_pipeline(bottom_bar: &mut BottomBar)
    ensures
        final(bottom_bar).message@ == "Tried to revert to pipeline when none exists?"@,
        final(bottom_bar).state == BottomBarState::Error,
{
    bottom_bar.set_error("Tried to revert to pipeline when none exists?".to_owned());
}

/// Saving ended: the status line is cleared where it worked (`None`) and
/// shows the message where it did not.
pub fn save_finished(bottom_bar: &mut BottomBar, outcome: Option<String>)
    ensures
        match outcome {
            None => final(bottom_bar).message@ == Seq::<char>::empty()
                && final(bottom_bar).state == BottomBarState::Normal,
            Some(e) => final(bottom_bar).message == e && final(bottom_bar).state == BottomBarState::Error,
        },
{
    match outcome {
        None => bottom_bar.set_normal(),
        Some(e) => bottom_bar.set_error(e),
    }
}

} // verus!
