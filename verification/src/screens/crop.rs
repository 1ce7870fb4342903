//! The crop screen: where the crop rectangle sits, how it is given, and how
//! it is kept inside the video.

use vstd::prelude::*;

use crate::decimal::{decimal, decimal_string, keep_digits, parse_u32_digits_spec, push_char};
use crate::input::{clamp_spec, restrict_to_u32_input};
use crate::screens::DefaultScreen;
use crate::video::VideoData;

verus! {

/// The crop rectangle: its size, how its position is given, and the texts of
/// the size fields as they were typed.
#[derive(Debug)]
pub struct CropInfo {
    pub crop_mode: CropMode,
    pub width: u16,
    pub height: u16,
    pub text_width: String,
    pub text_height: String,
}

/// How the position of the crop rectangle is given: by its top left pixel,
/// by its center pixel, or centered on the video. The texts are those of the
/// position fields.
#[derive(Debug)]
pub enum CropMode {
    TopLeft { x: u16, y: u16, text_x: String, text_y: String },
    PixelCenter { x: u16, y: u16, text_x: String, text_y: String },
    VideoCenter,
}

/// The kind of a `CropMode`, as the mode picker offers it.
#[derive(Debug, Clone, Copy, PartialEq, Eq, Structural, Default)]
pub enum CropModeKind {
    #[default]
    TopLeft,
    VideoCenter,
    PixelCenter,
}

/// `a - b`, or 0 where that would be negative (`u16::saturating_sub`).
pub open spec fn sat_sub(a: u16, b: u16) -> u16 {
    if a >= b {
        (a - b) as u16
    } else {
        0
    }
}

/// `a + b`, or `u16::MAX` where that would not fit (`u16::saturating_add`).
pub open spec fn sat_add(a: u16, b: u16) -> u16 {
    if a + b <= u16::MAX {
        (a + b) as u16
    } else {
        u16::MAX
    }
}

/// The top left pixel of the crop rectangle.
pub open spec fn top_left_of(mode: CropMode, width: u16, height: u16, video: VideoData) -> (u16, u16) {
    match mode {
        CropMode::TopLeft { x, y, .. } => (x, y),
        CropMode::PixelCenter { x, y, .. } => (sat_sub(x, width / 2), sat_sub(y, height / 2)),
        CropMode::VideoCenter => (
            sat_sub(video.width / 2, width / 2),
            sat_sub(video.height / 2, height / 2),
        ),
    }
}

/// The text of a field after fitting: rewritten to the new value when the
/// value changed and texts are to be updated, left as it was otherwise.
pub open spec fn fitted_text(changed: bool, update_text: bool, value: u16, old_text: Seq<char>) -> Seq<char> {
    if changed && update_text {
        decimal(value as nat)
    } else {
        old_text
    }
}

/// A size held to at least 1 and at most `max` (in that order, so `max`
/// wins where it is 0).
pub open spec fn fitted_size(size: u16, max: u16) -> u16 {
    let at_least_one: u16 = if size == 0 { 1 } else { size };
    if at_least_one > max { max } else { at_least_one }
}

/// Fitting a size to `max` touches it.
pub open spec fn size_changes(size: u16, max: u16) -> bool {
    size == 0 || (if size == 0 { 1 } else { size }) > max
}

/// A top left coordinate held below the video's extent.
pub open spec fn fitted_corner(v: u16, extent: u16) -> u16 {
    if v >= extent { (extent - 1) as u16 } else { v }
}

/// A center coordinate held below the video's extent and above 0.
pub open spec fn fitted_center(v: u16, extent: u16) -> u16 {
    if v >= extent {
        (extent - 1) as u16
    } else if v == 0 {
        1
    } else {
        v
    }
}

/// The largest size around a center at `c` that stays inside `[0, extent]`.
pub open spec fn center_room(c: u16, extent: u16) -> u16 {
    let right = sat_sub(extent, c);
    if c <= right { c } else { right }
}

impl CropModeKind {
    /// How the mode picker names this kind.
    pub fn label(self) -> (r: &'static str)
        ensures
            r@ == match self {
                CropModeKind::TopLeft => "Top left pixel"@,
                CropModeKind::VideoCenter => "Center of video"@,
                CropModeKind::PixelCenter => "Center at pixel"@,
            },
    {
        match self {
            CropModeKind::TopLeft => "Top left pixel",
            CropModeKind::VideoCenter => "Center of video",
            CropModeKind::PixelCenter => "Center at pixel",
        }
    }
}

impl CropMode {
    /// The kind of this mode.
    pub fn to_kind(&self) -> (k: CropModeKind)
        ensures
            (k == CropModeKind::TopLeft) == (*self is TopLeft),
            (k == CropModeKind::PixelCenter) == (*self is PixelCenter),
            (k == CropModeKind::VideoCenter) == (*self is VideoCenter),
    {
        match self {
            CropMode::TopLeft { .. } => CropModeKind::TopLeft,
            CropMode::PixelCenter { .. } => CropModeKind::PixelCenter,
            CropMode::VideoCenter => CropModeKind::VideoCenter,
        }
    }

    /// The mode is `TopLeft` at `(x, y)`, its texts writing those numbers.
    pub open spec fn is_top_left_at(self, px: u16, py: u16) -> bool {
        self matches CropMode::TopLeft { x, y, text_x, text_y } && x == px && y == py
            && text_x@ == decimal(px as nat) && text_y@ == decimal(py as nat)
    }

    /// The mode is `PixelCenter` at `(x, y)`, its texts writing those numbers.
    pub open spec fn is_pixel_center_at(self, px: u16, py: u16) -> bool {
        self matches CropMode::PixelCenter { x, y, text_x, text_y } && x == px && y == py
            && text_x@ == decimal(px as nat) && text_y@ == decimal(py as nat)
    }
}

impl Default for CropMode {
    /// The top left corner of the video.
    fn default() -> (r: Self)
        ensures
            r.is_top_left_at(0, 0),
    {
        let mut text_x = String::new();
        push_char(&mut text_x, '0');
        let mut text_y = String::new();
        push_char(&mut text_y, '0');
        proof {
            assert(decimal(0) =~= seq!['0']);
        }
        CropMode::TopLeft { x: 0, y: 0, text_x, text_y }
    }
}

impl Default for CropInfo {
    /// An empty rectangle at the top left corner, with empty size texts.
    fn default() -> (r: Self)
        ensures
            r.crop_mode.is_top_left_at(0, 0),
            r.width == 0,
            r.height == 0,
            r.text_width@ == Seq::<char>::empty(),
            r.text_height@ == Seq::<char>::empty(),
    {
        CropInfo {
            crop_mode: CropMode::default(),
            width: 0,
            height: 0,
            text_width: String::new(),
            text_height: String::new(),
        }
    }
}

impl CropInfo {
    /// The state the crop screen opens with for `video`: the whole frame,
    /// given by its top left corner.
    pub open spec fn is_initial_for(self, video: VideoData) -> bool {
        &&& self.crop_mode.is_top_left_at(0, 0)
        &&& self.width == video.width
        &&& self.height == video.height
        &&& self.text_width@ == decimal(video.width as nat)
        &&& self.text_height@ == decimal(video.height as nat)
    }

    /// The top left pixel of the crop rectangle, whatever the mode.
    pub fn get_top_left_pixel(&self, video: &VideoData) -> (r: (u16, u16))
        ensures
            r == top_left_of(self.crop_mode, self.width, self.height, *video),
    {
        match self.crop_mode {
            CropMode::TopLeft { x, y, .. } => (x, y),
            CropMode::PixelCenter { x, y, .. } => (
                x.saturating_sub(self.width / 2),
                y.saturating_sub(self.height / 2),
            ),
            CropMode::VideoCenter => {
                let center_loc = (video.width / 2, video.height / 2);
                (
                    center_loc.0.saturating_sub(self.width / 2),
                    center_loc.1.saturating_sub(self.height / 2),
                )
            },
        }
    }

    /// Changes the mode to `TopLeft` at the top left pixel that the rectangle
    /// had, and returns that pixel. The size is kept.
    pub fn convert_top_left(&mut self, video: &VideoData) -> (r: (u16, u16))
        ensures
            r == top_left_of(old(self).crop_mode, old(self).width, old(self).height, *video),
            final(self).crop_mode.is_top_left_at(r.0, r.1),
            final(self).width == old(self).width,
            final(self).height == old(self).height,
            final(self).text_width == old(self).text_width,
            final(self).text_height == old(self).text_height,
    {
        let top_left = self.get_top_left_pixel(video);
        self.crop_mode = CropMode::TopLeft {
            x: top_left.0,
            y: top_left.1,
            text_x: decimal_string(top_left.0 as u64),
            text_y: decimal_string(top_left.1 as u64),
        };
        top_left
    }

    /// Changes the mode to `target`, keeping the rectangle where it is
    /// (up to the rounding of a center, and to the `u16` range).
    pub fn convert_to(&mut self, video: &VideoData, target: CropModeKind)
        ensures
            ({
                let tl = top_left_of(old(self).crop_mode, old(self).width, old(self).height, *video);
                match target {
                    CropModeKind::TopLeft => final(self).crop_mode.is_top_left_at(tl.0, tl.1),
                    CropModeKind::VideoCenter => final(self).crop_mode is VideoCenter,
                    CropModeKind::PixelCenter => final(self).crop_mode.is_pixel_center_at(
                        sat_add(tl.0, (old(self).width / 2) as u16),
                        sat_add(tl.1, (old(self).height / 2) as u16),
                    ),
                }
            }),
            ({
                let tl = top_left_of(old(self).crop_mode, old(self).width, old(self).height, *video);
                target == CropModeKind::PixelCenter && tl.0 + old(self).width / 2 <= u16::MAX
                    && tl.1 + old(self).height / 2 <= u16::MAX ==> (final(self).crop_mode matches CropMode::PixelCenter { x, y, .. }
                    && x == tl.0 + old(self).width / 2 && y == tl.1 + old(self).height / 2)
            }),
            final(self).width == old(self).width,
            final(self).height == old(self).height,
            final(self).text_width == old(self).text_width,
            final(self).text_height == old(self).text_height,
    {
        let top_left_pixel = self.convert_top_left(video);
        match target {
            CropModeKind::TopLeft => {},
            CropModeKind::VideoCenter => self.crop_mode = CropMode::VideoCenter,
            CropModeKind::PixelCenter => {
                let new_x = top_left_pixel.0.saturating_add(self.width / 2);
                let new_y = top_left_pixel.1.saturating_add(self.height / 2);
                self.crop_mode = CropMode::PixelCenter {
                    x: new_x,
                    y: new_y,
                    text_x: decimal_string(new_x as u64),
                    text_y: decimal_string(new_y as u64),
                };
            },
        }
    }
}


/// The text of a field after fitting its value.
fn retext(changed: bool, update_text: bool, value: u16, text: String) -> (t: String)
    ensures
        t@ == fitted_text(changed, update_text, value, text@),
{
    if changed && update_text {
        decimal_string(value as u64)
    } else {
        text
    }
}

/// Holds a size to at least 1, then to at most `max`, rewriting its text
/// where it changes.
fn fit_size(size: u16, text: String, max: u16, update_text: bool) -> (r: (u16, String))
    ensures
        1 <= size <= max ==> r.0 == size && r.1 == text,
        r.0 == fitted_size(size, max),
        r.1@ == fitted_text(size_changes(size, max), update_text, r.0, text@),
{
    let mut size = size;
    let mut text = text;
    if size == 0 {
        size = 1;
        if update_text {
            text = decimal_string(size as u64);
        }
    }
    if size > max {
        size = max;
        if update_text {
            text = decimal_string(size as u64);
        }
    }
    (size, text)
}

impl DefaultScreen for CropInfo {
    /// A position given by a pixel can only be fitted to a video that has pixels.
    open spec fn can_fit_to(&self, video: &VideoData) -> bool {
        self.crop_mode is VideoCenter || (video.width > 0 && video.height > 0)
    }

    fn from_video(video: &VideoData) -> (r: Self)
        ensures
            r.is_initial_for(*video),
    {
        CropInfo {
            crop_mode: CropMode::default(),
            width: video.width,
            height: video.height,
            text_width: decimal_string(video.width as u64),
            text_height: decimal_string(video.height as u64),
        }
    }

    fn fit_to_bounds(&mut self, video: &VideoData, update_text: bool)
        ensures
            match old(self).crop_mode {
                CropMode::VideoCenter => {
                    let w = if old(self).width > video.width { video.width } else { old(self).width };
                    let h = if old(self).height > video.height { video.height } else { old(self).height };
                    &&& final(self).crop_mode is VideoCenter
                    &&& final(self).width == w
                    &&& final(self).height == h
                    &&& final(self).text_width@ == fitted_text(old(self).width > video.width, update_text, w, old(self).text_width@)
                    &&& final(self).text_height@ == fitted_text(old(self).height > video.height, update_text, h, old(self).text_height@)
                },
                CropMode::TopLeft { x, y, text_x, text_y } => {
                    let nx = fitted_corner(x, video.width);
                    let ny = fitted_corner(y, video.height);
                    let mw = (video.width - nx) as u16;
                    let mh = (video.height - ny) as u16;
                    &&& final(self).crop_mode matches CropMode::TopLeft { x: fx, y: fy, text_x: ftx, text_y: fty }
                        && fx == nx && fy == ny
                        && ftx@ == fitted_text(x >= video.width, update_text, nx, text_x@)
                        && fty@ == fitted_text(y >= video.height, update_text, ny, text_y@)
                    &&& final(self).width == fitted_size(old(self).width, mw)
                    &&& final(self).height == fitted_size(old(self).height, mh)
                    &&& final(self).text_width@ == fitted_text(size_changes(old(self).width, mw), update_text, final(self).width, old(self).text_width@)
                    &&& final(self).text_height@ == fitted_text(size_changes(old(self).height, mh), update_text, final(self).height, old(self).text_height@)
                },
                CropMode::PixelCenter { x, y, text_x, text_y } => {
                    let nx = fitted_center(x, video.width);
                    let ny = fitted_center(y, video.height);
                    let mw = center_room(nx, video.width);
                    let mh = center_room(ny, video.height);
                    &&& final(self).crop_mode matches CropMode::PixelCenter { x: fx, y: fy, text_x: ftx, text_y: fty }
                        && fx == nx && fy == ny
                        && ftx@ == fitted_text(x >= video.width || x == 0, update_text, nx, text_x@)
                        && fty@ == fitted_text(y >= video.height || y == 0, update_text, ny, text_y@)
                    &&& final(self).width == fitted_size(old(self).width, mw)
                    &&& final(self).height == fitted_size(old(self).height, mh)
                    &&& final(self).text_width@ == fitted_text(size_changes(old(self).width, mw), update_text, final(self).width, old(self).text_width@)
                    &&& final(self).text_height@ == fitted_text(size_changes(old(self).height, mh), update_text, final(self).height, old(self).text_height@)
                },
            },
    {
        let vid_width = video.width;
        let vid_height = video.height;
        let mut mode = CropMode::VideoCenter;
        std::mem::swap(&mut mode, &mut self.crop_mode);
        match mode {
            CropMode::VideoCenter => {
                if self.width > vid_width {
                    self.width = vid_width;
                    if update_text {
                        self.text_width = decimal_string(self.width as u64);
                    }
                }
                if self.height > vid_height {
                    self.height = vid_height;
                    if update_text {
                        self.text_height = decimal_string(self.height as u64);
                    }
                }
            },
            CropMode::TopLeft { x, y, text_x, text_y } => {
                let x_changes = x >= vid_width;
                let nx: u16 = if x_changes { vid_width - 1 } else { x };
                let text_x = retext(x_changes, update_text, nx, text_x);
                let y_changes = y >= vid_height;
                let ny: u16 = if y_changes { vid_height - 1 } else { y };
                let text_y = retext(y_changes, update_text, ny, text_y);

                let max_width_value = vid_width - nx;
                let max_height_value = vid_height - ny;

                let mut text_width = String::new();
                std::mem::swap(&mut text_width, &mut self.text_width);
                let (w, tw) = fit_size(self.width, text_width, max_width_value, update_text);
                self.width = w;
                self.text_width = tw;

                let mut text_height = String::new();
                std::mem::swap(&mut text_height, &mut self.text_height);
                let (h, th) = fit_size(self.height, text_height, max_height_value, update_text);
                self.height = h;
                self.text_height = th;

                self.crop_mode = CropMode::TopLeft { x: nx, y: ny, text_x, text_y };
            },
            CropMode::PixelCenter { x, y, text_x, text_y } => {
                let x_changes = x >= vid_width || x == 0;
                let nx: u16 = if x >= vid_width { vid_width - 1 } else if x == 0 { 1 } else { x };
                let text_x = retext(x_changes, update_text, nx, text_x);
                let y_changes = y >= vid_height || y == 0;
                let ny: u16 = if y >= vid_height { vid_height - 1 } else if y == 0 { 1 } else { y };
                let text_y = retext(y_changes, update_text, ny, text_y);

                let right = vid_width.saturating_sub(nx);
                let max_width_value = if nx <= right { nx } else { right };
                let below = vid_height.saturating_sub(ny);
                let max_height_value = if ny <= below { ny } else { below };

                let mut text_width = String::new();
                std::mem::swap(&mut text_width, &mut self.text_width);
                let (w, tw) = fit_size(self.width, text_width, max_width_value, update_text);
                self.width = w;
                self.text_width = tw;

                let mut text_height = String::new();
                std::mem::swap(&mut text_height, &mut self.text_height);
                let (h, th) = fit_size(self.height, text_height, max_height_value, update_text);
                self.height = h;
                self.text_height = th;

                self.crop_mode = CropMode::PixelCenter { x: nx, y: ny, text_x, text_y };
            },
        }
    }
}


/// What a field that holds a number up to `max` becomes when `typed` is
/// entered into it: the number and the text, as `restrict_to_u32_input`
/// makes them.
pub open spec fn restricted_field(typed: Seq<char>, max: u16) -> (u16, Seq<char>) {
    match parse_u32_digits_spec(keep_digits(typed)) {
        Some(v) => (clamp_spec(v as int, 0, max as int) as u16, decimal(v as nat)),
        None => (0, seq!['0']),
    }
}

/// Enters `typed` into a field that holds a number up to `max`.
fn restrict_field(typed: String, text: &mut String, value: &mut u16, max: u16)
    ensures
        (*final(value), final(text)@) == restricted_field(typed@, max),
{
    let mut v: u32 = *value as u32;
    restrict_to_u32_input(typed, text, &mut v, 0, max as u32);
    *value = v as u16;
}

impl CropInfo {
    /// The column field of the position (left edge or center) was edited
    /// to `new_val`; it holds at most the video's width. Nothing changes when
    /// the rectangle is centered on the video.
    pub fn crop_left_changed(&mut self, new_val: String, video: &VideoData)
        ensures
            final(self).width == old(self).width,
            final(self).height == old(self).height,
            final(self).text_width == old(self).text_width,
            final(self).text_height == old(self).text_height,
            match old(self).crop_mode {
                CropMode::TopLeft { y, text_y, .. } => {
                    let (v, t) = restricted_field(new_val@, video.width);
                    final(self).crop_mode matches CropMode::TopLeft { x: fx, y: fy, text_x: ftx, text_y: fty }
                        && fx == v && ftx@ == t && fy == y && fty == text_y
                },
                CropMode::PixelCenter { y, text_y, .. } => {
                    let (v, t) = restricted_field(new_val@, video.width);
                    final(self).crop_mode matches CropMode::PixelCenter { x: fx, y: fy, text_x: ftx, text_y: fty }
                        && fx == v && ftx@ == t && fy == y && fty == text_y
                },
                CropMode::VideoCenter => final(self).crop_mode is VideoCenter,
            },
    {
        let mut mode = CropMode::VideoCenter;
        std::mem::swap(&mut mode, &mut self.crop_mode);
        self.crop_mode = match mode {
            CropMode::TopLeft { x, y, text_x, text_y } => {
                let mut x = x;
                let mut text_x = text_x;
                restrict_field(new_val, &mut text_x, &mut x, video.width);
                CropMode::TopLeft { x, y, text_x, text_y }
            },
            CropMode::PixelCenter { x, y, text_x, text_y } => {
                let mut x = x;
                let mut text_x = text_x;
                restrict_field(new_val, &mut text_x, &mut x, video.width);
                CropMode::PixelCenter { x, y, text_x, text_y }
            },
            CropMode::VideoCenter => CropMode::VideoCenter,
        };
    }

    /// The row field of the position (top edge or center) was edited to
    /// `new_val`; it holds at most the video's height. Nothing changes when
    /// the rectangle is centered on the video.
    pub fn crop_top_changed(&mut self, new_val: String, video: &VideoData)
        ensures
            final(self).width == old(self).width,
            final(self).height == old(self).height,
            final(self).text_width == old(self).text_width,
            final(self).text_height == old(self).text_height,
            match old(self).crop_mode {
                CropMode::TopLeft { x, text_x, .. } => {
                    let (v, t) = restricted_field(new_val@, video.height);
                    final(self).crop_mode matches CropMode::TopLeft { x: fx, y: fy, text_x: ftx, text_y: fty }
                        && fy == v && fty@ == t && fx == x && ftx == text_x
                },
                CropMode::PixelCenter { x, text_x, .. } => {
                    let (v, t) = restricted_field(new_val@, video.height);
                    final(self).crop_mode matches CropMode::PixelCenter { x: fx, y: fy, text_x: ftx, text_y: fty }
                        && fy == v && fty@ == t && fx == x && ftx == text_x
                },
                CropMode::VideoCenter => final(self).crop_mode is VideoCenter,
            },
    {
        let mut mode = CropMode::VideoCenter;
        std::mem::swap(&mut mode, &mut self.crop_mode);
        self.crop_mode = match mode {
            CropMode::TopLeft { x, y, text_x, text_y } => {
                let mut y = y;
                let mut text_y = text_y;
                restrict_field(new_val, &mut text_y, &mut y, video.height);
                CropMode::TopLeft { x, y, text_x, text_y }
            },
            CropMode::PixelCenter { x, y, text_x, text_y } => {
                let mut y = y;
                let mut text_y = text_y;
                restrict_field(new_val, &mut text_y, &mut y, video.height);
                CropMode::PixelCenter { x, y, text_x, text_y }
            },
            CropMode::VideoCenter => CropMode::VideoCenter,
        };
    }

    /// The width field was edited to `new_val`; it holds at most the video's width.
    pub fn crop_width_changed(&mut self, new_val: String, video: &VideoData)
        ensures
            (final(self).width, final(self).text_width@) == restricted_field(new_val@, video.width),
            final(self).crop_mode == old(self).crop_mode,
            final(self).height == old(self).height,
            final(self).text_height == old(self).text_height,
    {
        let mut text_width = String::new();
        std::mem::swap(&mut text_width, &mut self.text_width);
        let mut width = self.width;
        restrict_field(new_val, &mut text_width, &mut width, video.width);
        self.width = width;
        self.text_width = text_width;
    }

    /// The height field was edited to `new_val`; it holds at most the video's height.
    pub fn crop_height_changed(&mut self, new_val: String, video: &VideoData)
        ensures
            (final(self).height, final(self).text_height@) == restricted_field(new_val@, video.height),
            final(self).crop_mode == old(self).crop_mode,
            final(self).width == old(self).width,
            final(self).text_width == old(self).text_width,
    {
        let mut text_height = String::new();
        std::mem::swap(&mut text_height, &mut self.text_height);
        let mut height = self.height;
        restrict_field(new_val, &mut text_height, &mut height, video.height);
        self.height = height;
        self.text_height = text_height;
    }

    /// Gets the crop ready to run: the position is turned into a top left
    /// pixel and the rectangle is fitted to the video (texts updated).
    /// Returns the top left pixel as it was before fitting, and the fitted
    /// width and height: what the crop is run with.
    pub fn prepare_crop(&mut self, video: &VideoData) -> (r: (u16, u16, u16, u16))
        requires
            video.width > 0,
            video.height > 0,
        ensures
            ({
                let tl = top_left_of(old(self).crop_mode, old(self).width, old(self).height, *video);
                let nx = fitted_corner(tl.0, video.width);
                let ny = fitted_corner(tl.1, video.height);
                &&& r.0 == tl.0
                &&& r.1 == tl.1
                &&& final(self).crop_mode.is_top_left_at(nx, ny)
                &&& r.2 == final(self).width
                &&& r.3 == final(self).height
                &&& final(self).width == fitted_size(old(self).width, (video.width - nx) as u16)
                &&& final(self).height == fitted_size(old(self).height, (video.height - ny) as u16)
                &&& final(self).text_width@ == fitted_text(
                    size_changes(old(self).width, (video.width - nx) as u16),
                    true,
                    final(self).width,
                    old(self).text_width@,
                )
                &&& final(self).text_height@ == fitted_text(
                    size_changes(old(self).height, (video.height - ny) as u16),
                    true,
                    final(self).height,
                    old(self).text_height@,
                )
            }),
    {
        let top_left_pixel = self.convert_top_left(video);
        self.fit_to_bounds(video, true);
        (top_left_pixel.0, top_left_pixel.1, self.width, self.height)
    }
}


/// What fitting does to a size with room `max`: a size already in
/// `[1, max]` is kept and its text untouched; 0 becomes 1 where there is
/// room; a size past the room becomes the room.
pub proof fn law_fitted_size(size: u16, max: u16)
    ensures
        1 <= size <= max ==> fitted_size(size, max) == size && !size_changes(size, max),
        size == 0 && max >= 1 ==> fitted_size(size, max) == 1 && size_changes(size, max),
        size > max ==> fitted_size(size, max) == max && size_changes(size, max),
        fitted_size(size, max) <= max || max == 0,
        max == 0 ==> fitted_size(size, max) == 0,
{
}

/// Saturating addition and subtraction of `u16`: the exact sum or difference
/// wherever it lies in the `u16` range, and the nearest end of the range
/// otherwise.
pub proof fn law_saturating(a: u16, b: u16)
    ensures
        a + b <= u16::MAX ==> sat_add(a, b) == a + b,
        a + b > u16::MAX ==> sat_add(a, b) == u16::MAX,
        a >= b ==> sat_sub(a, b) == a - b,
        a < b ==> sat_sub(a, b) == 0,
{
}

/// A rectangle given by its top left pixel, once fitted to a video that has
/// pixels, is not empty and lies inside the video.
pub proof fn law_fitted_top_left_inside(x: u16, y: u16, width: u16, height: u16, video: VideoData)
    requires
        video.width > 0,
        video.height > 0,
    ensures
        ({
            let nx = fitted_corner(x, video.width);
            let ny = fitted_corner(y, video.height);
            let w = fitted_size(width, (video.width - nx) as u16);
            let h = fitted_size(height, (video.height - ny) as u16);
            &&& nx < video.width
            &&& ny < video.height
            &&& 1 <= w
            &&& 1 <= h
            &&& nx + w <= video.width
            &&& ny + h <= video.height
        }),
{
}

/// A rectangle given by its center pixel, once fitted to a video at least
/// two pixels wide and high, is not empty and, spread around its center,
/// lies inside the video.
pub proof fn law_fitted_center_inside(x: u16, y: u16, width: u16, height: u16, video: VideoData)
    requires
        video.width >= 2,
        video.height >= 2,
    ensures
        ({
            let nx = fitted_center(x, video.width);
            let ny = fitted_center(y, video.height);
            let w = fitted_size(width, center_room(nx, video.width));
            let h = fitted_size(height, center_room(ny, video.height));
            &&& 1 <= nx < video.width
            &&& 1 <= ny < video.height
            &&& 1 <= w
            &&& 1 <= h
            &&& w / 2 <= nx
            &&& h / 2 <= ny
            &&& nx - w / 2 + w <= video.width
            &&& ny - h / 2 + h <= video.height
        }),
{
}

/// A rectangle centered on the video, once fitted, lies inside the video.
pub proof fn law_fitted_video_center_inside(width: u16, height: u16, video: VideoData)
    ensures
        ({
            let w = if width > video.width { video.width } else { width };
            let h = if height > video.height { video.height } else { height };
            let tl = top_left_of(CropMode::VideoCenter, w, h, video);
            &&& tl.0 + w <= video.width
            &&& tl.1 + h <= video.height
        }),
{
}

/// Fitting what is already fitted changes no value: for a position given
/// by its top left pixel, and for one given by its center pixel in a video
/// at least two pixels wide and high.
pub proof fn law_fit_idempotent(x: u16, y: u16, width: u16, height: u16, video: VideoData)
    requires
        video.width > 0,
        video.height > 0,
    ensures
        ({
            let nx = fitted_corner(x, video.width);
            let ny = fitted_corner(y, video.height);
            let w = fitted_size(width, (video.width - nx) as u16);
            let h = fitted_size(height, (video.height - ny) as u16);
            &&& fitted_corner(nx, video.width) == nx
            &&& fitted_corner(ny, video.height) == ny
            &&& fitted_size(w, (video.width - nx) as u16) == w
            &&& fitted_size(h, (video.height - ny) as u16) == h
            &&& !size_changes(w, (video.width - nx) as u16)
            &&& !size_changes(h, (video.height - ny) as u16)
        }),
        video.width >= 2 && video.height >= 2 ==> {
            let cx = fitted_center(x, video.width);
            let cy = fitted_center(y, video.height);
            let cw = fitted_size(width, center_room(cx, video.width));
            let ch = fitted_size(height, center_room(cy, video.height));
            &&& fitted_center(cx, video.width) == cx
            &&& fitted_center(cy, video.height) == cy
            &&& fitted_size(cw, center_room(cx, video.width)) == cw
            &&& fitted_size(ch, center_room(cy, video.height)) == ch
            &&& !size_changes(cw, center_room(cx, video.width))
            &&& !size_changes(ch, center_room(cy, video.height))
        },
{
}

/// Changing the position to a center pixel keeps the rectangle's top left
/// pixel where no coordinate runs past `u16::MAX`.
pub proof fn law_center_keeps_top_left(mode: CropMode, centered: CropMode, width: u16, height: u16, video: VideoData)
    requires
        ({
            let tl = top_left_of(mode, width, height, video);
            &&& tl.0 + width / 2 <= u16::MAX
            &&& tl.1 + height / 2 <= u16::MAX
            &&& centered.is_pixel_center_at(
                sat_add(tl.0, (width / 2) as u16),
                sat_add(tl.1, (height / 2) as u16),
            )
        }),
    ensures
        top_left_of(centered, width, height, video) == top_left_of(mode, width, height, video),
{
}

} // verus!
