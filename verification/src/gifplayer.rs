//! Playback state of a gif: its frames with their durations, which frames
//! are hidden, where playback stands, and how it moves on as time passes.
//! Durations are counted in nanoseconds.

use vstd::prelude::*;
use vstd::std_specs::iter::IteratorSpec;

verus! {

/// The longest duration there is (`Duration::MAX`, in nanoseconds): adding
/// durations past it is a fault.
pub const MAX_DURATION: u128 = 18446744073709551615999999999u128;

/// The frame to start from before the first frame's own duration is known.
pub const FIRST_GOAL_DURATION: u128 = 100000000u128;

/// One frame of a gif: its image, how long it shows, and whether playback
/// skips it.
#[derive(Debug)]
pub struct GifFrame<H> {
    pub handle: H,
    pub duration: u128,
    pub hidden: bool,
}

/// Where playback stands: whether it runs, the frame shown, the time since
/// the gif started, the time spent in the frame shown, and the time that
/// frame is due to show.
#[derive(Debug, Clone, Copy, PartialEq, Eq, Structural)]
pub struct GifPlayback {
    pub playing: bool,
    pub current_frame: u32,
    pub time_from_start: u128,
    pub current_duration_in_frame: u128,
    pub goal_duration_in_frame: u128,
}

/// A gif being played: its frames, where playback stands, and the running
/// count of visible frames and total duration.
#[derive(Debug)]
pub struct GifState<H> {
    internals: GifPlayback,
    frames: Vec<GifFrame<H>>,
    num_visible_frames: u32,
    stored_duration: u128,
}

/// The sum of the durations of `fs`.
pub open spec fn sum_durations<H>(fs: Seq<GifFrame<H>>) -> int
    decreases fs.len(),
{
    if fs.len() == 0 {
        0
    } else {
        sum_durations(fs.drop_last()) + fs.last().duration
    }
}

/// The number of frames of `fs` that are not hidden.
pub open spec fn count_visible<H>(fs: Seq<GifFrame<H>>) -> int
    decreases fs.len(),
{
    if fs.len() == 0 {
        0
    } else {
        count_visible(fs.drop_last()) + if fs.last().hidden { 0int } else { 1int }
    }
}

/// Every duration of `fs` is one that `Duration` can hold.
pub open spec fn durations_bounded<H>(fs: Seq<GifFrame<H>>) -> bool {
    forall|i: int| 0 <= i < fs.len() ==> (#[trigger] fs[i]).duration <= MAX_DURATION
}

/// Where a time of `r` into the gif falls, scanning from frame `i`: the frame
/// and the time already spent in it.
pub open spec fn locate<H>(fs: Seq<GifFrame<H>>, r: int, i: int) -> (int, int)
    decreases fs.len() - i,
{
    if i < 0 || i >= fs.len() || r < fs[i].duration {
        (i, r)
    } else {
        locate(fs, r - fs[i].duration, i + 1)
    }
}

/// One move of the frame search that playback makes after frame `c`,
/// starting from `orig`: the next frame, whether the search wrapped past the
/// last frame (or has wrapped before), and stops at a frame that is not
/// hidden, or back at `orig`.
pub open spec fn scan<H>(fs: Seq<GifFrame<H>>, orig: int, c: int, wrapped: bool, fuel: nat) -> (int, bool)
    decreases fuel,
{
    let wraps = c + 1 >= fs.len();
    let n = if wraps { 0 } else { c + 1 };
    let w = wrapped || wraps;
    if fuel == 0 || !fs[n].hidden || n == orig {
        (n, w)
    } else {
        scan(fs, orig, n, w, (fuel - 1) as nat)
    }
}

/// The frame that playback moves to after frame `cur`: the next one that is
/// not hidden, going round after the last frame, or `cur` again when all
/// others are hidden; and whether it went round.
pub open spec fn next_visible<H>(fs: Seq<GifFrame<H>>, cur: int) -> (int, bool) {
    scan(fs, cur, cur, false, fs.len() as nat)
}

/// Playback after the frame shown has used up its time: that time is taken
/// off, the next frame is shown, and the time since the start restarts when
/// playback went round.
pub open spec fn advance_step<H>(fs: Seq<GifFrame<H>>, p: GifPlayback) -> GifPlayback {
    let c = p.current_duration_in_frame - p.goal_duration_in_frame;
    let (n, wrapped) = next_visible(fs, p.current_frame as int);
    GifPlayback {
        playing: p.playing,
        current_frame: n as u32,
        time_from_start: if wrapped { c as u128 } else { p.time_from_start },
        current_duration_in_frame: c as u128,
        goal_duration_in_frame: fs[n].duration,
    }
}

/// Playback after `k` moves.
pub open spec fn advance_steps<H>(fs: Seq<GifFrame<H>>, p: GifPlayback, k: nat) -> GifPlayback
    decreases k,
{
    if k == 0 {
        p
    } else {
        advance_step(fs, advance_steps(fs, p, (k - 1) as nat))
    }
}

/// Playback can move on from `cur` as often as time asks without going round
/// forever: some frame that is not hidden has a duration, or every frame is
/// hidden and `cur` has one.
pub open spec fn advance_terminates<H>(fs: Seq<GifFrame<H>>, cur: int) -> bool {
    &&& fs.len() > 0
    &&& ((exists|j: int| 0 <= j < fs.len() && !(#[trigger] fs[j]).hidden && fs[j].duration > 0)
        || ((forall|j: int| 0 <= j < fs.len() ==> (#[trigger] fs[j]).hidden) && fs[cur].duration > 0))
}

/// The playback a gif starts with.
pub open spec fn initial_playback() -> GifPlayback {
    GifPlayback {
        playing: true,
        current_frame: 0,
        time_from_start: 0,
        current_duration_in_frame: 0,
        goal_duration_in_frame: FIRST_GOAL_DURATION,
    }
}

/// The first frames of a gif with at most `u32::MAX` frames never add up
/// past what a `u128` holds.
proof fn lemma_sum_take_bound<H>(fs: Seq<GifFrame<H>>, i: int)
    requires
        0 <= i <= fs.len(),
        durations_bounded(fs),
    ensures
        0 <= sum_durations(fs.take(i)) <= i * MAX_DURATION,
    decreases i,
{
    if i > 0 {
        lemma_sum_take_bound(fs, i - 1);
        lemma_sum_take_step(fs, i - 1);
    } else {
        assert(fs.take(0) =~= Seq::<GifFrame<H>>::empty());
    }
}

/// How many single moves forward, going round after the last frame, lead
/// from frame `c` to frame `j`.
pub open spec fn cyclic_distance(j: int, c: int, len: int) -> int {
    if c <= j {
        j - c
    } else {
        j + len - c
    }
}

/// The frame search ends where it is, or at a frame closer to any frame
/// `j` where it would stop.
proof fn lemma_scan_toward<H>(fs: Seq<GifFrame<H>>, orig: int, c: int, w: bool, fuel: nat, j: int)
    requires
        0 <= c < fs.len(),
        0 <= j < fs.len(),
        0 <= orig < fs.len(),
        !fs[j].hidden || j == orig,
        c != j,
    ensures
        0 <= scan(fs, orig, c, w, fuel).0 < fs.len(),
        cyclic_distance(j, scan(fs, orig, c, w, fuel).0, fs.len() as int)
            < cyclic_distance(j, c, fs.len() as int),
    decreases fuel,
{
    let n = if c + 1 >= fs.len() { 0 } else { c + 1 };
    let nw = w || c + 1 >= fs.len();
    if fuel == 0 || !fs[n].hidden || n == orig {
    } else {
        lemma_scan_toward(fs, orig, n, nw, (fuel - 1) as nat, j);
    }
}

/// The frame search ends at a frame.
proof fn lemma_scan_range<H>(fs: Seq<GifFrame<H>>, orig: int, c: int, w: bool, fuel: nat)
    requires
        0 <= c < fs.len(),
    ensures
        0 <= scan(fs, orig, c, w, fuel).0 < fs.len(),
    decreases fuel,
{
    let n = if c + 1 >= fs.len() { 0 } else { c + 1 };
    let nw = w || c + 1 >= fs.len();
    if fuel == 0 || !fs[n].hidden || n == orig {
    } else {
        lemma_scan_range(fs, orig, n, nw, (fuel - 1) as nat);
    }
}

/// When every frame is hidden the frame search goes round back to where it
/// started.
proof fn lemma_scan_all_hidden<H>(fs: Seq<GifFrame<H>>, orig: int, c: int, w: bool, fuel: nat)
    requires
        0 <= c < fs.len(),
        0 <= orig < fs.len(),
        forall|i: int| 0 <= i < fs.len() ==> (#[trigger] fs[i]).hidden,
        c == orig ==> fuel >= fs.len(),
        c != orig ==> fuel + 1 >= cyclic_distance(orig, c, fs.len() as int),
    ensures
        scan(fs, orig, c, w, fuel).0 == orig,
    decreases fuel,
{
    let n = if c + 1 >= fs.len() { 0 } else { c + 1 };
    let nw = w || c + 1 >= fs.len();
    if fuel == 0 || !fs[n].hidden || n == orig {
    } else {
        lemma_scan_all_hidden(fs, orig, n, nw, (fuel - 1) as nat);
    }
}

proof fn lemma_scan_stops_visible<H>(fs: Seq<GifFrame<H>>, orig: int, c: int, w: bool, k: int)
    requires
        0 <= orig < fs.len(),
        0 <= k < fs.len(),
        c == if orig + k < fs.len() { orig + k } else { orig + k - fs.len() },
    ensures
        0 <= scan(fs, orig, c, w, (fs.len() - k) as nat).0 < fs.len(),
        ({
            let n = scan(fs, orig, c, w, (fs.len() - k) as nat).0;
            !fs[n].hidden || n == orig
        }),
    decreases fs.len() - k,
{
    let n = if c + 1 >= fs.len() { 0 } else { c + 1 };
    let nw = w || c + 1 >= fs.len();
    if !fs[n].hidden || n == orig {
    } else {
        lemma_scan_stops_visible(fs, orig, n, nw, k + 1);
    }
}

/// Playback moves on to a frame that is not hidden, unless it comes back to
/// the frame it left because every other frame is hidden.
pub proof fn law_moves_to_visible<H>(fs: Seq<GifFrame<H>>, cur: int)
    requires
        0 <= cur < fs.len(),
    ensures
        0 <= next_visible(fs, cur).0 < fs.len(),
        !fs[next_visible(fs, cur).0].hidden || next_visible(fs, cur).0 == cur,
{
    lemma_scan_stops_visible(fs, cur, cur, false, 0);
}

/// Hidden frames never stop playback: wherever some frame that is not
/// hidden has a duration, playback can move on from any frame as often as
/// time asks.
pub proof fn law_visible_frame_keeps_playing<H>(fs: Seq<GifFrame<H>>, cur: int, j: int)
    requires
        0 <= cur < fs.len(),
        0 <= j < fs.len(),
        !fs[j].hidden,
        fs[j].duration > 0,
    ensures
        advance_terminates(fs, cur),
{
    assert(!fs[j].hidden && fs[j].duration > 0);
}

/// How far playback is from a frame with a duration, where the frame shown
/// has used up no time of its goal: 0 when the goal is not zero.
pub open spec fn stall_measure<H>(fs: Seq<GifFrame<H>>, has_j: bool, j: int, cur: int, goal: u128) -> int {
    if goal > 0 {
        0
    } else if !has_j {
        1
    } else if fs[cur].duration == 0 && cur != j {
        1 + cyclic_distance(j, cur, fs.len() as int)
    } else {
        1 + fs.len() as int
    }
}

/// Replacing one frame moves the total duration by the difference of the
/// two frames' durations, and the visible count by the difference of their
/// visibility.
pub proof fn lemma_update_totals<H>(fs: Seq<GifFrame<H>>, i: int, f: GifFrame<H>)
    requires
        0 <= i < fs.len(),
    ensures
        sum_durations(fs.update(i, f)) == sum_durations(fs) - fs[i].duration + f.duration,
        count_visible(fs.update(i, f)) == count_visible(fs)
            - (if fs[i].hidden { 0int } else { 1int }) + (if f.hidden { 0int } else { 1int }),
    decreases fs.len(),
{
    let u = fs.update(i, f);
    if i == fs.len() - 1 {
        assert(u.drop_last() =~= fs.drop_last());
    } else {
        lemma_update_totals(fs.drop_last(), i, f);
        assert(u.drop_last() =~= fs.drop_last().update(i, f));
    }
}

/// Where no frame is hidden, every frame is visible.
proof fn lemma_count_none_hidden<H>(fs: Seq<GifFrame<H>>)
    requires
        forall|i: int| 0 <= i < fs.len() ==> !(#[trigger] fs[i]).hidden,
    ensures
        count_visible(fs) == fs.len(),
    decreases fs.len(),
{
    if fs.len() > 0 {
        let t = fs.drop_last();
        assert forall|i: int| 0 <= i < t.len() implies !(#[trigger] t[i]).hidden by {
            assert(t[i] == fs[i]);
        }
        lemma_count_none_hidden(t);
        assert(!fs[fs.len() - 1].hidden);
    }
}

/// Seeking one whole run of the gif further lands on the same frame at the
/// same time within it.
pub proof fn law_seek_goes_round<H>(fs: Seq<GifFrame<H>>, d: int)
    requires
        sum_durations(fs) > 0,
        d >= 0,
    ensures
        locate(fs, (d + sum_durations(fs)) % sum_durations(fs), 0) == locate(fs, d % sum_durations(fs), 0),
{
    let t = sum_durations(fs);
    vstd::arithmetic::div_mod::lemma_mod_add_multiples_vanish(d, t);
}

/// The visible frames are at most all frames.
proof fn lemma_count_visible_bounds<H>(fs: Seq<GifFrame<H>>)
    ensures
        0 <= count_visible(fs) <= fs.len(),
    decreases fs.len(),
{
    if fs.len() > 0 {
        lemma_count_visible_bounds(fs.drop_last());
    }
}

/// In a gif whose running count is right and that has at most `u32::MAX`
/// frames, showing or hiding a frame never takes the count out of the `u32`
/// range: the conditions of `set_frame_hidden` then always hold.
pub proof fn law_hide_show_in_range<H>(fs: Seq<GifFrame<H>>, visible: u32, idx: int, hidden: bool)
    requires
        visible == count_visible(fs),
        fs.len() <= u32::MAX,
        0 <= idx < fs.len(),
    ensures
        fs[idx].hidden && !hidden ==> visible < u32::MAX,
        !fs[idx].hidden && hidden ==> visible > 0,
{
    let f = fs[idx];
    let flipped = GifFrame { hidden: !f.hidden, ..f };
    lemma_update_totals(fs, idx, flipped);
    lemma_count_visible_bounds(fs.update(idx, flipped));
}

/// Inserting a frame adds its duration to the total duration, and one to
/// the visible count where it is visible.
pub proof fn lemma_insert_totals<H>(fs: Seq<GifFrame<H>>, i: int, f: GifFrame<H>)
    requires
        0 <= i <= fs.len(),
    ensures
        sum_durations(fs.insert(i, f)) == sum_durations(fs) + f.duration,
        count_visible(fs.insert(i, f)) == count_visible(fs) + if f.hidden { 0int } else { 1int },
    decreases fs.len(),
{
    let u = fs.insert(i, f);
    if i == fs.len() {
        assert(u.drop_last() =~= fs);
    } else {
        lemma_insert_totals(fs.drop_last(), i, f);
        assert(u.drop_last() =~= fs.drop_last().insert(i, f));
        assert(u.last() == fs.last());
    }
}

proof fn lemma_sum_take_step<H>(fs: Seq<GifFrame<H>>, i: int)
    requires
        0 <= i < fs.len(),
    ensures
        sum_durations(fs.take(i + 1)) == sum_durations(fs.take(i)) + fs[i].duration,
{
    assert(fs.take(i + 1).drop_last() =~= fs.take(i));
}

/// The sums of the first frames grow with their number.
proof fn lemma_sum_take_monotone<H>(fs: Seq<GifFrame<H>>, i: int, j: int)
    requires
        0 <= i <= j <= fs.len(),
    ensures
        sum_durations(fs.take(i)) <= sum_durations(fs.take(j)),
    decreases j - i,
{
    if i < j {
        lemma_sum_take_monotone(fs, i, j - 1);
        lemma_sum_take_step(fs, j - 1);
    }
}

impl<H: Clone> GifState<H> {
    /// Inserts a copy of the frame at `idx` just before it; `false` where
    /// there is no such frame. The running total grows by the copy's
    /// duration and the running count by one where the copy is visible.
    pub fn copy_frame_at(&mut self, idx: usize) -> (r: bool)
        requires
            old(self).well_formed(),
            idx < old(self).frames().len() ==> old(self).total_duration()
                + old(self).frames()[idx as int].duration <= MAX_DURATION,
            idx < old(self).frames().len() && !old(self).frames()[idx as int].hidden
                ==> old(self).visible_count() < u32::MAX,
        ensures
            final(self).well_formed(),
            r == (idx < old(self).frames().len()),
            final(self).playback() == old(self).playback(),
            !r ==> {
                &&& final(self).frames() == old(self).frames()
                &&& final(self).visible_count() == old(self).visible_count()
                &&& final(self).total_duration() == old(self).total_duration()
            },
            r ==> {
                let f = old(self).frames()[idx as int];
                let c = final(self).frames()[idx as int];
                &&& final(self).frames() == old(self).frames().insert(idx as int, c)
                &&& c.duration == f.duration
                &&& c.hidden == f.hidden
                &&& cloned(f.handle, c.handle)
                &&& final(self).total_duration() == old(self).total_duration() + f.duration
                &&& final(self).visible_count() == old(self).visible_count()
                    + if f.hidden { 0int } else { 1int }
            },
            old(self).totals_consistent() ==> final(self).totals_consistent(),
    {
        if idx >= self.frames.len() {
            return false;
        }
        let found_frame = &self.frames[idx];
        let copy = GifFrame {
            handle: found_frame.handle.clone(),
            duration: found_frame.duration,
            hidden: found_frame.hidden,
        };
        let copy_duration = copy.duration;
        let copy_hidden = copy.hidden;
        self.frames.insert(idx, copy);
        self.stored_duration = self.stored_duration + copy_duration;
        if !copy_hidden {
            self.num_visible_frames = self.num_visible_frames + 1;
        }
        proof {
            assert(self.frames@[idx as int] == copy);
            lemma_insert_totals(old(self).frames@, idx as int, copy);
        }
        true
    }
}

impl<H> GifState<H> {
    /// The frames, in playing order.
    pub closed spec fn frames(&self) -> Seq<GifFrame<H>> {
        self.frames@
    }

    /// Where playback stands.
    pub closed spec fn playback(&self) -> GifPlayback {
        self.internals
    }

    /// The running count of visible frames.
    pub closed spec fn visible_count(&self) -> u32 {
        self.num_visible_frames
    }

    /// The running total duration.
    pub closed spec fn total_duration(&self) -> u128 {
        self.stored_duration
    }

    /// The running total is the sum of the frames' durations and the running
    /// count is the number of frames that are not hidden.
    pub open spec fn totals_consistent(&self) -> bool {
        &&& self.total_duration() == sum_durations(self.frames())
        &&& self.visible_count() == count_visible(self.frames())
    }

    /// The frame shown exists (or there are no frames and it is the first),
    /// and every duration is one that `Duration` can hold.
    pub open spec fn well_formed(&self) -> bool {
        &&& (self.playback().current_frame == 0 || self.playback().current_frame < self.frames().len())
        &&& durations_bounded(self.frames())
        &&& self.total_duration() <= MAX_DURATION
        &&& self.playback().time_from_start <= MAX_DURATION
        &&& self.playback().current_duration_in_frame <= MAX_DURATION
        &&& self.playback().goal_duration_in_frame <= MAX_DURATION
    }

    /// A gif that plays `frames` from the first, every frame counted as
    /// visible.
    pub fn new(frames: Vec<GifFrame<H>>) -> (r: Self)
        requires
            durations_bounded(frames@),
            sum_durations(frames@) <= MAX_DURATION,
        ensures
            r.well_formed(),
            r.frames() == frames@,
            r.playback() == initial_playback(),
            r.visible_count() == frames@.len() as u32,
            r.total_duration() == sum_durations(frames@),
            (forall|i: int| 0 <= i < frames@.len() ==> !(#[trigger] frames@[i]).hidden)
                && frames@.len() <= u32::MAX ==> r.totals_consistent(),
    {
        proof {
            if forall|i: int| 0 <= i < frames@.len() ==> !(#[trigger] frames@[i]).hidden {
                lemma_count_none_hidden(frames@);
            }
        }
        let num_visible_frames = frames.len() as u32;
        let mut stored_duration: u128 = 0;
        let mut i: usize = 0;
        while i < frames.len()
            invariant
                0 <= i <= frames@.len(),
                sum_durations(frames@) <= MAX_DURATION,
                stored_duration == sum_durations(frames@.take(i as int)),
            decreases frames@.len() - i,
        {
            proof {
                lemma_sum_take_step(frames@, i as int);
                lemma_sum_take_monotone(frames@, i + 1, frames@.len() as int);
                assert(frames@.take(frames@.len() as int) =~= frames@);
            }
            stored_duration = stored_duration + frames[i].duration;
            i = i + 1;
        }
        proof {
            assert(frames@.take(frames@.len() as int) =~= frames@);
        }
        GifState {
            internals: GifPlayback {
                playing: true,
                current_frame: 0,
                time_from_start: 0,
                current_duration_in_frame: 0,
                goal_duration_in_frame: FIRST_GOAL_DURATION,
            },
            frames,
            num_visible_frames,
            stored_duration,
        }
    }

    /// Whether playback runs.
    pub fn playing(&self) -> (r: bool)
        ensures
            r == self.playback().playing,
    {
        self.internals.playing
    }

    /// The frame shown.
    pub fn current_frame(&self) -> (r: u32)
        ensures
            r == self.playback().current_frame,
    {
        self.internals.current_frame
    }

    /// Starts or stops playback.
    pub fn set_playing(&mut self, value: bool)
        requires
            old(self).well_formed(),
        ensures
            final(self).well_formed(),
            final(self).playback() == (GifPlayback { playing: value, ..old(self).playback() }),
            final(self).frames() == old(self).frames(),
            final(self).visible_count() == old(self).visible_count(),
            final(self).total_duration() == old(self).total_duration(),
    {
        self.internals.playing = value;
    }

    /// The frame at `idx`, if there is one.
    pub fn get_frame(&self, idx: usize) -> (r: Option<&GifFrame<H>>)
        ensures
            idx < self.frames().len() ==> r == Some(&self.frames()[idx as int]),
            idx >= self.frames().len() ==> r is None,
    {
        if idx < self.frames.len() {
            Some(&self.frames[idx])
        } else {
            None
        }
    }

    /// The number of frames, hidden ones included.
    pub fn total_frames(&self) -> (r: u32)
        ensures
            r == self.frames().len() as u32,
    {
        self.frames.len() as u32
    }

    /// The running count of visible frames.
    pub fn num_visible_frames(&self) -> (r: u32)
        ensures
            r == self.visible_count(),
    {
        self.num_visible_frames
    }

    /// The running total duration.
    pub fn duration(&self) -> (r: u128)
        ensures
            r == self.total_duration(),
    {
        self.stored_duration
    }

    /// Sets the duration of the frame at `idx` (nothing happens where there is
    /// no such frame) and moves the running total by the difference.
    pub fn set_frame_duration(&mut self, idx: usize, duration: u128)
        requires
            old(self).well_formed(),
            duration <= MAX_DURATION,
            idx < old(self).frames().len() ==> old(self).total_duration() + duration <= MAX_DURATION,
            idx < old(self).frames().len() ==> old(self).total_duration() + duration
                >= old(self).frames()[idx as int].duration,
        ensures
            final(self).well_formed(),
            final(self).playback() == old(self).playback(),
            final(self).visible_count() == old(self).visible_count(),
            idx < old(self).frames().len() ==> {
                let f = old(self).frames()[idx as int];
                &&& final(self).frames() == old(self).frames().update(
                    idx as int,
                    GifFrame { duration, ..f },
                )
                &&& final(self).total_duration() == old(self).total_duration() + duration - f.duration
            },
            idx >= old(self).frames().len() ==> {
                &&& final(self).frames() == old(self).frames()
                &&& final(self).total_duration() == old(self).total_duration()
            },
            old(self).totals_consistent() ==> final(self).totals_consistent(),
    {
        proof {
            if idx < old(self).frames@.len() {
                lemma_update_totals(old(self).frames@, idx as int, GifFrame { duration, ..old(self).frames@[idx as int] });
            }
        }
        if idx < self.frames.len() {
            let old_duration = self.frames[idx].duration;
            self.stored_duration = self.stored_duration + duration;
            self.stored_duration = self.stored_duration - old_duration;
            self.frames[idx].duration = duration;
            proof {
                assert(self.frames@ =~= old(self).frames@.update(
                    idx as int,
                    GifFrame { duration, ..old(self).frames@[idx as int] },
                ));
            }
        }
    }

    /// Hides or shows the frame at `idx` (nothing happens where there is no
    /// such frame), keeping the running count of visible frames.
    pub fn set_frame_hidden(&mut self, idx: usize, hidden: bool)
        requires
            old(self).well_formed(),
            idx < old(self).frames().len() && old(self).frames()[idx as int].hidden && !hidden
                ==> old(self).visible_count() < u32::MAX,
            idx < old(self).frames().len() && !old(self).frames()[idx as int].hidden && hidden
                ==> old(self).visible_count() > 0,
        ensures
            final(self).well_formed(),
            final(self).playback() == old(self).playback(),
            final(self).total_duration() == old(self).total_duration(),
            idx < old(self).frames().len() ==> {
                let f = old(self).frames()[idx as int];
                &&& final(self).frames() == old(self).frames().update(idx as int, GifFrame { hidden, ..f })
                &&& final(self).visible_count() == if f.hidden && !hidden {
                    old(self).visible_count() + 1
                } else if !f.hidden && hidden {
                    old(self).visible_count() - 1
                } else {
                    old(self).visible_count() as int
                }
            },
            idx >= old(self).frames().len() ==> {
                &&& final(self).frames() == old(self).frames()
                &&& final(self).visible_count() == old(self).visible_count()
            },
            old(self).totals_consistent() ==> final(self).totals_consistent(),
    {
        proof {
            if idx < old(self).frames@.len() {
                lemma_update_totals(old(self).frames@, idx as int, GifFrame { hidden, ..old(self).frames@[idx as int] });
            }
        }
        if idx < self.frames.len() {
            let was_hidden = self.frames[idx].hidden;
            if was_hidden && !hidden {
                self.num_visible_frames = self.num_visible_frames + 1;
            }
            if !was_hidden && hidden {
                self.num_visible_frames = self.num_visible_frames - 1;
            }
            self.frames[idx].hidden = hidden;
            proof {
                assert(self.frames@ =~= old(self).frames@.update(
                    idx as int,
                    GifFrame { hidden, ..old(self).frames@[idx as int] },
                ));
            }
        }
    }

    /// Exchanges the frames at `source_idx` and `dest_idx`.
    pub fn swap_frames(&mut self, source_idx: usize, dest_idx: usize)
        requires
            old(self).well_formed(),
            source_idx < old(self).frames().len(),
            dest_idx < old(self).frames().len(),
        ensures
            final(self).well_formed(),
            final(self).frames() == old(self).frames().update(
                source_idx as int,
                old(self).frames()[dest_idx as int],
            ).update(dest_idx as int, old(self).frames()[source_idx as int]),
            final(self).playback() == old(self).playback(),
            final(self).visible_count() == old(self).visible_count(),
            final(self).total_duration() == old(self).total_duration(),
            old(self).totals_consistent() ==> final(self).totals_consistent(),
    {
        proof {
            let fs = old(self).frames@;
            let u1 = fs.update(source_idx as int, fs[dest_idx as int]);
            lemma_update_totals(fs, source_idx as int, fs[dest_idx as int]);
            lemma_update_totals(u1, dest_idx as int, fs[source_idx as int]);
        }
        if source_idx != dest_idx {
            let (lo, hi) = if source_idx < dest_idx {
                (source_idx, dest_idx)
            } else {
                (dest_idx, source_idx)
            };
            let at_hi = self.frames.remove(hi);
            let at_lo = self.frames.remove(lo);
            self.frames.insert(lo, at_hi);
            self.frames.insert(hi, at_lo);
        }
        proof {
            assert(self.frames@ =~= old(self).frames@.update(
                source_idx as int,
                old(self).frames@[dest_idx as int],
            ).update(dest_idx as int, old(self).frames@[source_idx as int]));
        }
    }

    /// The sum of the durations of the first `count` frames.
    fn duration_before(&self, count: usize) -> (r: u128)
        requires
            count <= self.frames().len(),
            sum_durations(self.frames().take(count as int)) <= MAX_DURATION,
        ensures
            r == sum_durations(self.frames().take(count as int)),
    {
        let mut acc: u128 = 0;
        let mut i: usize = 0;
        while i < count
            invariant
                0 <= i <= count <= self.frames@.len(),
                sum_durations(self.frames@.take(count as int)) <= MAX_DURATION,
                acc == sum_durations(self.frames@.take(i as int)),
            decreases count - i,
        {
            proof {
                lemma_sum_take_step(self.frames@, i as int);
                lemma_sum_take_monotone(self.frames@, i + 1, count as int);
            }
            acc = acc + self.frames[i].duration;
            i = i + 1;
        }
        acc
    }

    /// Shows the frame at `value` from its start (nothing happens where there
    /// is no such frame); the time since the gif started becomes the
    /// durations of the frames before it.
    pub fn set_current_frame(&mut self, value: u32)
        requires
            old(self).well_formed(),
            value < old(self).frames().len() ==> sum_durations(old(self).frames().take(value as int))
                <= MAX_DURATION,
        ensures
            final(self).well_formed(),
            final(self).frames() == old(self).frames(),
            final(self).visible_count() == old(self).visible_count(),
            final(self).total_duration() == old(self).total_duration(),
            value < old(self).frames().len() ==> final(self).playback() == (GifPlayback {
                playing: old(self).playback().playing,
                current_frame: value,
                time_from_start: sum_durations(old(self).frames().take(value as int)) as u128,
                current_duration_in_frame: 0,
                goal_duration_in_frame: old(self).frames()[value as int].duration,
            }),
            value >= old(self).frames().len() ==> final(self).playback() == old(self).playback(),
    {
        if (value as usize) >= self.frames.len() {
            return;
        }
        let goal = self.frames[value as usize].duration;
        let before = self.duration_before(value as usize);
        self.internals.current_duration_in_frame = 0;
        self.internals.goal_duration_in_frame = goal;
        self.internals.current_frame = value;
        self.internals.time_from_start = before;
    }

    /// The sum of the durations of all frames.
    fn frames_total(&self) -> (r: u128)
        requires
            durations_bounded(self.frames()),
            self.frames().len() <= u32::MAX,
        ensures
            r == sum_durations(self.frames()),
    {
        let mut acc: u128 = 0;
        let mut i: usize = 0;
        while i < self.frames.len()
            invariant
                0 <= i <= self.frames@.len() <= u32::MAX,
                durations_bounded(self.frames@),
                acc == sum_durations(self.frames@.take(i as int)),
            decreases self.frames@.len() - i,
        {
            proof {
                lemma_sum_take_step(self.frames@, i as int);
                lemma_sum_take_bound(self.frames@, i + 1);
                assert((i + 1) * MAX_DURATION <= 4294967295 * MAX_DURATION);
            }
            acc = acc + self.frames[i].duration;
            i = i + 1;
        }
        proof {
            assert(self.frames@.take(self.frames@.len() as int) =~= self.frames@);
        }
        acc
    }

    /// Moves playback to `duration` after the start, going round the gif as
    /// often as it takes: the frame shown becomes the one in which that time
    /// falls, and the time since the start becomes `duration`.
    pub fn seek_to_time(&mut self, duration: u128)
        requires
            old(self).well_formed(),
            old(self).frames().len() > 0,
            old(self).frames().len() <= u32::MAX,
            sum_durations(old(self).frames()) > 0,
            duration <= MAX_DURATION,
        ensures
            final(self).well_formed(),
            final(self).frames() == old(self).frames(),
            final(self).visible_count() == old(self).visible_count(),
            final(self).total_duration() == old(self).total_duration(),
            ({
                let (f, t) = locate(
                    old(self).frames(),
                    duration as int % sum_durations(old(self).frames()),
                    0,
                );
                &&& 0 <= f < old(self).frames().len()
                &&& 0 <= t < old(self).frames()[f].duration
                &&& final(self).playback() == (GifPlayback {
                    playing: old(self).playback().playing,
                    current_frame: f as u32,
                    time_from_start: duration,
                    current_duration_in_frame: t as u128,
                    goal_duration_in_frame: old(self).frames()[f].duration,
                })
            }),
    {
        let total = self.frames_total();
        let r = duration % total;
        let ghost fs = self.frames@;
        let mut rem: u128 = r;
        let mut i: usize = 0;
        proof {
            assert(fs.take(0) =~= Seq::<GifFrame<H>>::empty());
            assert(fs.take(fs.len() as int) =~= fs);
        }
        while rem >= self.frames[i].duration
            invariant
                fs == self.frames@,
                0 <= i < fs.len() <= u32::MAX,
                0 <= r < sum_durations(fs),
                sum_durations(fs.take(i as int)) <= r,
                rem == r - sum_durations(fs.take(i as int)),
                locate(fs, r as int, 0) == locate(fs, rem as int, i as int),
            decreases fs.len() - i,
        {
            proof {
                lemma_sum_take_step(fs, i as int);
                if i + 1 == fs.len() {
                    assert(fs.take(fs.len() as int) =~= fs);
                }
            }
            rem = rem - self.frames[i].duration;
            i = i + 1;
        }
        let goal = self.frames[i].duration;
        self.internals.current_frame = i as u32;
        self.internals.goal_duration_in_frame = goal;
        self.internals.current_duration_in_frame = rem;
        self.internals.time_from_start = duration;
    }

    /// The frame that playback moves to after `orig`, and whether it went
    /// round past the last frame.
    fn next_visible_frame(&self, orig: u32) -> (r: (u32, bool))
        requires
            0 <= orig < self.frames().len() <= u32::MAX,
        ensures
            (r.0 as int, r.1) == next_visible(self.frames(), orig as int),
            r.0 < self.frames().len(),
    {
        let len = self.frames.len();
        let ghost fs = self.frames@;
        let mut c: u32 = orig;
        let mut wrapped = false;
        let ghost mut k: int = 0;
        loop
            invariant
                fs == self.frames@,
                len == fs.len() <= u32::MAX,
                0 <= orig < len,
                0 <= k < len,
                c == if orig + k < len { orig + k } else { orig + k - len },
                wrapped == (orig + k >= len),
                next_visible(fs, orig as int) == scan(fs, orig as int, c as int, wrapped, (len - k) as nat),
            decreases len - k,
        {
            let wraps = (c as usize) + 1 >= len;
            let n: u32 = if wraps { 0 } else { c + 1 };
            let w = wrapped || wraps;
            if !self.frames[n as usize].hidden || n == orig {
                return (n, w);
            }
            c = n;
            wrapped = w;
            proof {
                k = k + 1;
            }
        }
    }

    /// Whether `advance_by(dt)` may be called: the times stay within what
    /// `Duration` holds, and playback would not go round forever.
    pub fn can_advance_by(&self, dt: u128) -> (r: bool)
        requires
            self.well_formed(),
            self.frames().len() <= u32::MAX,
        ensures
            r == (self.playback().playing ==> {
                let p = self.playback();
                &&& p.current_duration_in_frame + dt <= MAX_DURATION
                &&& p.time_from_start + dt <= MAX_DURATION
                &&& p.current_duration_in_frame + dt >= p.goal_duration_in_frame
                    ==> advance_terminates(self.frames(), p.current_frame as int)
            }),
            ({
                let p = self.playback();
                let fs = self.frames();
                (p.playing ==> p.current_duration_in_frame + dt <= MAX_DURATION
                    && p.time_from_start + dt <= MAX_DURATION)
                    && ((exists|j: int| 0 <= j < fs.len() && !(#[trigger] fs[j]).hidden && fs[j].duration > 0)
                    || (fs.len() > 0 && (forall|j: int| 0 <= j < fs.len() ==> (#[trigger] fs[j]).hidden)
                        && fs[p.current_frame as int].duration > 0))
                    ==> r
            }),
    {
        let p = self.internals;
        if !p.playing {
            return true;
        }
        if dt > MAX_DURATION - p.current_duration_in_frame || dt > MAX_DURATION - p.time_from_start {
            return false;
        }
        if p.current_duration_in_frame + dt < p.goal_duration_in_frame {
            return true;
        }
        let len = self.frames.len();
        if len == 0 {
            return false;
        }
        let mut some_visible_moves = false;
        let mut all_hidden = true;
        let mut i: usize = 0;
        while i < len
            invariant
                len == self.frames@.len(),
                0 <= i <= len,
                some_visible_moves == exists|j: int| 0 <= j < i && !(#[trigger] self.frames@[j]).hidden
                    && self.frames@[j].duration > 0,
                all_hidden == forall|j: int| 0 <= j < i ==> (#[trigger] self.frames@[j]).hidden,
            decreases len - i,
        {
            let f = &self.frames[i];
            if !f.hidden && f.duration > 0 {
                some_visible_moves = true;
            }
            if !f.hidden {
                all_hidden = false;
            }
            i = i + 1;
        }
        some_visible_moves || (all_hidden && self.frames[p.current_frame as usize].duration > 0)
    }

    /// Lets `dt` nanoseconds of playback pass (while playback runs): the
    /// frame shown moves on each time it has used up its time. Returns, for
    /// each move, the frame moved to and the time since the start then.
    pub fn advance_by(&mut self, dt: u128) -> (msgs: Vec<(u32, u128)>)
        requires
            old(self).well_formed(),
            old(self).frames().len() <= u32::MAX,
            old(self).playback().playing ==> {
                let p = old(self).playback();
                &&& p.current_duration_in_frame + dt <= MAX_DURATION
                &&& p.time_from_start + dt <= MAX_DURATION
                &&& p.current_duration_in_frame + dt >= p.goal_duration_in_frame
                    ==> advance_terminates(old(self).frames(), p.current_frame as int)
            },
        ensures
            final(self).well_formed(),
            final(self).frames() == old(self).frames(),
            final(self).visible_count() == old(self).visible_count(),
            final(self).total_duration() == old(self).total_duration(),
            !old(self).playback().playing ==> {
                &&& final(self).playback() == old(self).playback()
                &&& msgs@.len() == 0
            },
            old(self).playback().playing ==> {
                let fs = old(self).frames();
                let p0 = GifPlayback {
                    current_duration_in_frame: (old(self).playback().current_duration_in_frame + dt) as u128,
                    time_from_start: (old(self).playback().time_from_start + dt) as u128,
                    ..old(self).playback()
                };
                let k = msgs@.len() as nat;
                &&& final(self).playback() == advance_steps(fs, p0, k)
                &&& final(self).playback().current_duration_in_frame
                    < final(self).playback().goal_duration_in_frame
                &&& forall|i: nat| i < k ==> #[trigger] advance_steps(fs, p0, i).current_duration_in_frame
                    >= advance_steps(fs, p0, i).goal_duration_in_frame
                &&& forall|i: int| 0 <= i < k ==> #[trigger] msgs@[i] == (
                    advance_steps(fs, p0, (i + 1) as nat).current_frame,
                    advance_steps(fs, p0, (i + 1) as nat).time_from_start,
                )
            },
    {
        let mut msgs: Vec<(u32, u128)> = Vec::new();
        if !self.internals.playing {
            return msgs;
        }
        self.internals.current_duration_in_frame = self.internals.current_duration_in_frame + dt;
        self.internals.time_from_start = self.internals.time_from_start + dt;
        let ghost fs = self.frames@;
        let ghost p0 = self.internals;
        let ghost has_j = exists|j: int| 0 <= j < fs.len() && !(#[trigger] fs[j]).hidden && fs[j].duration > 0;
        let ghost j: int = if has_j {
            choose|j: int| 0 <= j < fs.len() && !(#[trigger] fs[j]).hidden && fs[j].duration > 0
        } else {
            0
        };
        while self.internals.current_duration_in_frame >= self.internals.goal_duration_in_frame
            invariant
                fs == self.frames@,
                fs.len() <= u32::MAX,
                durations_bounded(fs),
                self.num_visible_frames == old(self).num_visible_frames,
                self.stored_duration == old(self).stored_duration,
                self.stored_duration <= MAX_DURATION,
                self.internals.playing,
                self.internals == advance_steps(fs, p0, msgs@.len() as nat),
                self.internals.current_frame == 0 || self.internals.current_frame < fs.len(),
                self.internals.current_duration_in_frame <= MAX_DURATION,
                self.internals.time_from_start <= MAX_DURATION,
                self.internals.goal_duration_in_frame <= MAX_DURATION,
                self.internals.current_duration_in_frame >= self.internals.goal_duration_in_frame
                    ==> advance_terminates(fs, self.internals.current_frame as int),
                has_j ==> 0 <= j < fs.len() && !fs[j].hidden && fs[j].duration > 0,
                !has_j ==> forall|i: int| 0 <= i < fs.len() && !(#[trigger] fs[i]).hidden ==> fs[i].duration == 0,
                forall|i: nat| i < msgs@.len() ==> #[trigger] advance_steps(fs, p0, i).current_duration_in_frame
                    >= advance_steps(fs, p0, i).goal_duration_in_frame,
                forall|i: int| 0 <= i < msgs@.len() ==> #[trigger] msgs@[i] == (
                    advance_steps(fs, p0, (i + 1) as nat).current_frame,
                    advance_steps(fs, p0, (i + 1) as nat).time_from_start,
                ),
            decreases
                self.internals.current_duration_in_frame,
                stall_measure(fs, has_j, j, self.internals.current_frame as int, self.internals.goal_duration_in_frame),
        {
            let ghost before = self.internals;
            let ghost k = msgs@.len() as nat;
            let orig = self.internals.current_frame;
            proof {
                assert(advance_terminates(fs, orig as int));
                if !has_j {
                    assert forall|i: int| 0 <= i < fs.len() implies (#[trigger] fs[i]).hidden by {
                        if !fs[i].hidden {
                            assert(fs[i].duration == 0);
                        }
                    }
                }
            }
            let sub_amt = self.internals.goal_duration_in_frame;
            self.internals.current_duration_in_frame = self.internals.current_duration_in_frame - sub_amt;
            let (n, w) = self.next_visible_frame(orig);
            self.internals.current_frame = n;
            if w {
                self.internals.time_from_start = self.internals.current_duration_in_frame;
            }
            self.internals.goal_duration_in_frame = self.frames[n as usize].duration;
            msgs.push((n, self.internals.time_from_start));
            proof {
                assert(advance_steps(fs, p0, k + 1) == advance_step(fs, advance_steps(fs, p0, k)));
                assert(self.internals == advance_steps(fs, p0, k + 1));
                assert forall|i: nat| i < msgs@.len() implies #[trigger] advance_steps(fs, p0, i).current_duration_in_frame
                    >= advance_steps(fs, p0, i).goal_duration_in_frame by {
                    if i == k {
                        assert(advance_steps(fs, p0, i) == before);
                    }
                }
                let len = fs.len() as int;
                if has_j {
                    if orig as int != j {
                        lemma_scan_toward(fs, orig as int, orig as int, false, len as nat, j);
                    } else {
                        lemma_scan_range(fs, orig as int, orig as int, false, len as nat);
                    }
                } else {
                    lemma_scan_all_hidden(fs, orig as int, orig as int, false, len as nat);
                }
            }
        }
        msgs
    }

    /// The frames, in playing order, to be walked through.
    pub fn frames_iter(&self) -> (r: std::slice::Iter<'_, GifFrame<H>>)
        ensures
            r.remaining() == self.frames().map_values(|f: GifFrame<H>| &f),
    {
        let r = self.frames.as_slice().iter();
        proof {
            assert(r.remaining() =~= self.frames().map_values(|f: GifFrame<H>| &f));
        }
        r
    }

    /// The time since the gif started.
    pub fn time_from_start(&self) -> (r: u128)
        ensures
            r == self.playback().time_from_start,
    {
        self.internals.time_from_start
    }
}

} // verus!
