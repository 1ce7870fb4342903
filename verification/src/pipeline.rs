//! The edit pipeline: every version of the video that an operation made,
//! in order, so that the user can go back to any of them.

use vstd::prelude::*;

use crate::decimal::{decimal, decimal_string};
use crate::video::VideoData;

verus! {

/// The operation that made a version of the video.
#[derive(Debug, Clone, Copy, PartialEq, Eq, Structural)]
pub enum Operation {
    Default,
    Trim,
    Crop,
    Scale,
    Volume,
}

impl Operation {
    /// The name of the operation, as the pipeline screen shows it.
    pub fn display(self) -> (r: &'static str)
        ensures
            r@ == match self {
                Operation::Default => "Default"@,
                Operation::Trim => "Trim"@,
                Operation::Crop => "Crop"@,
                Operation::Scale => "Scale"@,
                Operation::Volume => "Volume"@,
            },
    {
        match self {
            Operation::Default => "Default",
            Operation::Trim => "Trim",
            Operation::Crop => "Crop",
            Operation::Scale => "Scale",
            Operation::Volume => "Volume",
        }
    }
}

/// One version of the video: its place in the pipeline, the file that holds
/// it, the operation that made it, its frame size and its length in
/// nanoseconds.
#[derive(Debug)]
pub struct PipelineEntry {
    pub step_num: usize,
    pub path: String,
    pub operation: Operation,
    pub width: u32,
    pub height: u32,
    pub duration: u128,
}

/// The versions of the video, first the one that was opened, and the
/// directory where the operations write their files.
#[derive(Debug)]
pub struct Pipeline {
    pipeline: Vec<PipelineEntry>,
    tempdir_path: String,
}

/// Each entry knows its own place in the pipeline.
pub open spec fn steps_numbered(s: Seq<PipelineEntry>) -> bool {
    forall|i: int| 0 <= i < s.len() ==> (#[trigger] s[i]).step_num == i
}

/// The paths of a sequence of entries.
pub open spec fn paths_of(s: Seq<PipelineEntry>) -> Seq<Seq<char>> {
    s.map_values(|e: PipelineEntry| e.path@)
}

impl View for Pipeline {
    type V = Seq<PipelineEntry>;

    closed spec fn view(&self) -> Seq<PipelineEntry> {
        self.pipeline@
    }
}

impl Pipeline {
    /// The directory where the operations write their files.
    pub closed spec fn tempdir(&self) -> Seq<char> {
        self.tempdir_path@
    }

    /// There is a first version, and each entry knows its place.
    pub open spec fn well_formed(&self) -> bool {
        &&& self@.len() > 0
        &&& steps_numbered(self@)
    }

    /// A pipeline whose only version is the opened video at `path`.
    pub fn new(path: String, video: &VideoData, tempdir_path: String) -> (r: Self)
        ensures
            r.well_formed(),
            r@.len() == 1,
            r@[0].path == path,
            r@[0].operation == Operation::Default,
            r@[0].width == video.width as u32,
            r@[0].height == video.height as u32,
            r@[0].duration == video.duration,
            r.tempdir() == tempdir_path@,
    {
        let mut pipeline: Vec<PipelineEntry> = Vec::new();
        pipeline.push(PipelineEntry {
            step_num: 0,
            path,
            operation: Operation::Default,
            width: video.width as u32,
            height: video.height as u32,
            duration: video.duration,
        });
        Pipeline { pipeline, tempdir_path }
    }

    /// The directory where the operations write their files.
    pub fn get_tempdir_path(&self) -> (r: String)
        ensures
            r@ == self.tempdir(),
    {
        self.tempdir_path.clone()
    }

    /// The place that the next version will take.
    pub fn get_next_pipeline_step(&self) -> (r: usize)
        ensures
            r == self@.len(),
    {
        self.pipeline.len()
    }

    /// The versions, in order.
    pub fn entries(&self) -> (r: &Vec<PipelineEntry>)
        ensures
            r@ == self@,
    {
        &self.pipeline
    }

    /// Appends a version made by `operation`, held at `path`.
    pub fn add(&mut self, path: String, operation: Operation, width: u32, height: u32, duration: u128)
        requires
            old(self).well_formed(),
        ensures
            final(self).well_formed(),
            final(self)@.len() == old(self)@.len() + 1,
            final(self)@.take(old(self)@.len() as int) == old(self)@,
            final(self)@.last() == (PipelineEntry {
                step_num: old(self)@.len() as usize,
                path,
                operation,
                width,
                height,
                duration,
            }),
            final(self).tempdir() == old(self).tempdir(),
    {
        let pipeline_size = self.pipeline.len();
        self.pipeline.push(PipelineEntry { step_num: pipeline_size, path, operation, width, height, duration });
        assert(self@.take(old(self)@.len() as int) =~= old(self)@);
    }

    /// Appends a version made by `operation`, held at `path`, whose size and
    /// length are those of `video`.
    pub fn add_from_vid(&mut self, path: String, operation: Operation, video: &VideoData)
        requires
            old(self).well_formed(),
        ensures
            final(self).well_formed(),
            final(self)@.len() == old(self)@.len() + 1,
            final(self)@.take(old(self)@.len() as int) == old(self)@,
            final(self)@.last() == (PipelineEntry {
                step_num: old(self)@.len() as usize,
                path,
                operation,
                width: video.width as u32,
                height: video.height as u32,
                duration: video.duration,
            }),
            final(self).tempdir() == old(self).tempdir(),
    {
        self.add(path, operation, video.width as u32, video.height as u32, video.duration);
    }

    /// Drops every version after `step_num` and returns the paths of their
    /// files, in order, for the caller to delete.
    pub fn destroy_steps_after(&mut self, step_num: usize) -> (removed: Vec<String>)
        requires
            old(self).well_formed(),
            step_num < old(self)@.len(),
        ensures
            final(self).well_formed(),
            final(self)@ == old(self)@.take(step_num + 1),
            removed@.map_values(|p: String| p@) == paths_of(old(self)@.skip(step_num + 1)),
            final(self).tempdir() == old(self).tempdir(),
    {
        let n = self.pipeline.len();
        assert(step_num < n);
        let rest = self.pipeline.split_off(step_num + 1);
        let mut removed: Vec<String> = Vec::new();
        let mut i: usize = 0;
        while i < rest.len()
            invariant
                0 <= i <= rest@.len(),
                removed@.len() == i,
                forall|j: int| 0 <= j < i ==> (#[trigger] removed@[j])@ == rest@[j].path@,
            decreases rest@.len() - i,
        {
            removed.push(rest[i].path.clone());
            i = i + 1;
        }
        assert(removed@.map_values(|p: String| p@) =~= paths_of(rest@));
        assert(self@ =~= old(self)@.take(step_num + 1));
        removed
    }

    /// Goes back to the version at `idx`: the versions after it are dropped.
    /// Returns the file of that version and the files of the dropped ones,
    /// or, where there is no such version, the message to show.
    pub fn revert_to(&mut self, idx: usize) -> (r: Result<(String, Vec<String>), String>)
        requires
            old(self).well_formed(),
        ensures
            final(self).well_formed(),
            final(self).tempdir() == old(self).tempdir(),
            match r {
                Ok((path, removed)) => {
                    &&& idx < old(self)@.len()
                    &&& path == old(self)@[idx as int].path
                    &&& final(self)@ == old(self)@.take(idx + 1)
                    &&& removed@.map_values(|p: String| p@) == paths_of(old(self)@.skip(idx + 1))
                },
                Err(msg) => {
                    &&& idx >= old(self)@.len()
                    &&& final(self)@ == old(self)@
                    &&& msg@ == "Pipeline lacked step "@ + decimal(idx as nat)
                },
            },
    {
        match self.get(idx) {
            Some(path) => {
                let removed = self.destroy_steps_after(idx);
                Ok((path, removed))
            },
            None => {
                let mut msg = "Pipeline lacked step ".to_owned();
                msg.append(decimal_string(idx as u64).as_str());
                Err(msg)
            },
        }
    }

    /// The file of the version at `step_num`, if there is one.
    pub fn get(&self, step_num: usize) -> (r: Option<String>)
        ensures
            step_num < self@.len() ==> r == Some(self@[step_num as int].path),
            step_num >= self@.len() ==> r is None,
    {
        if step_num < self.pipeline.len() {
            Some(self.pipeline[step_num].path.clone())
        } else {
            None
        }
    }
}


/// Going back to the version at `idx` leaves a pipeline that ends with that
/// version, whose files are those of the first `idx + 1` versions, so the
/// next version takes place `idx + 1`.
pub proof fn law_revert_ends_at(p: Seq<PipelineEntry>, idx: int)
    requires
        steps_numbered(p),
        0 <= idx < p.len(),
    ensures
        steps_numbered(p.take(idx + 1)),
        p.take(idx + 1).len() == idx + 1,
        p.take(idx + 1).last() == p[idx],
        p.take(idx + 1).last().step_num == idx,
        paths_of(p.take(idx + 1)) + paths_of(p.skip(idx + 1)) == paths_of(p),
{
    assert(paths_of(p.take(idx + 1)) + paths_of(p.skip(idx + 1)) =~= paths_of(p));
}

} // verus!
