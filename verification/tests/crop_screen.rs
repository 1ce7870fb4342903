use vidyffy::screens::crop::{CropInfo, CropMode, CropModeKind};
use vidyffy::screens::gif::GifInfo;
use vidyffy::screens::{DefaultScreen, Screen, ScreenName};
use vidyffy::video::VideoData;

fn video(width: u16, height: u16) -> VideoData {
    VideoData { width, height, duration: 10_000_000_000 }
}

fn top_left(info: &CropInfo) -> (u16, u16, String, String) {
    match &info.crop_mode {
        CropMode::TopLeft { x, y, text_x, text_y } => (*x, *y, text_x.clone(), text_y.clone()),
        other => panic!("not top left: {:?}", other),
    }
}

fn center(info: &CropInfo) -> (u16, u16, String, String) {
    match &info.crop_mode {
        CropMode::PixelCenter { x, y, text_x, text_y } => (*x, *y, text_x.clone(), text_y.clone()),
        other => panic!("not a center: {:?}", other),
    }
}

fn info(mode: CropMode, width: u16, height: u16) -> CropInfo {
    CropInfo {
        crop_mode: mode,
        width,
        height,
        text_width: width.to_string(),
        text_height: height.to_string(),
    }
}

fn at(x: u16, y: u16) -> CropMode {
    CropMode::TopLeft { x, y, text_x: x.to_string(), text_y: y.to_string() }
}

fn centered_at(x: u16, y: u16) -> CropMode {
    CropMode::PixelCenter { x, y, text_x: x.to_string(), text_y: y.to_string() }
}

#[test]
fn from_video_covers_the_whole_frame() {
    let v = video(640, 480);
    let c = CropInfo::from_video(&v);
    assert_eq!(top_left(&c), (0, 0, "0".to_string(), "0".to_string()));
    assert_eq!((c.width, c.height), (640, 480));
    assert_eq!((c.text_width.as_str(), c.text_height.as_str()), ("640", "480"));
}

#[test]
fn default_is_empty_at_the_corner() {
    let c = CropInfo::default();
    assert_eq!(top_left(&c).0, 0);
    assert_eq!((c.width, c.height), (0, 0));
    assert_eq!(c.text_width, "");
}

#[test]
fn top_left_pixel_of_each_mode() {
    let v = video(640, 480);
    assert_eq!(info(at(10, 20), 100, 50).get_top_left_pixel(&v), (10, 20));
    assert_eq!(info(centered_at(100, 100), 100, 50).get_top_left_pixel(&v), (50, 75));
    assert_eq!(info(centered_at(10, 10), 100, 50).get_top_left_pixel(&v), (0, 0));
    assert_eq!(info(CropMode::VideoCenter, 100, 50).get_top_left_pixel(&v), (270, 215));
    assert_eq!(info(CropMode::VideoCenter, 1000, 1000).get_top_left_pixel(&v), (0, 0));
}

#[test]
fn convert_between_modes() {
    let v = video(640, 480);
    let mut c = info(CropMode::VideoCenter, 100, 50);
    assert_eq!(c.convert_top_left(&v), (270, 215));
    assert_eq!(top_left(&c), (270, 215, "270".to_string(), "215".to_string()));

    c.convert_to(&v, CropModeKind::PixelCenter);
    assert_eq!(center(&c), (320, 240, "320".to_string(), "240".to_string()));
    assert_eq!(c.get_top_left_pixel(&v), (270, 215));

    c.convert_to(&v, CropModeKind::VideoCenter);
    assert!(matches!(c.crop_mode, CropMode::VideoCenter));

    c.convert_to(&v, CropModeKind::TopLeft);
    assert_eq!(top_left(&c).0, 270);
    assert_eq!(c.crop_mode.to_kind(), CropModeKind::TopLeft);
}

#[test]
fn convert_to_center_saturates() {
    let v = video(640, 480);
    let mut c = info(at(u16::MAX - 1, 0), 10, 10);
    c.convert_to(&v, CropModeKind::PixelCenter);
    assert_eq!(center(&c).0, u16::MAX);
}

#[test]
fn to_kind_of_each_mode() {
    assert_eq!(at(1, 2).to_kind(), CropModeKind::TopLeft);
    assert_eq!(centered_at(1, 2).to_kind(), CropModeKind::PixelCenter);
    assert_eq!(CropMode::VideoCenter.to_kind(), CropModeKind::VideoCenter);
}

#[test]
fn fit_top_left_keeps_rectangle_inside() {
    let v = video(640, 480);
    let mut c = info(at(700, 100), 0, 1000);
    c.fit_to_bounds(&v, true);
    assert_eq!(top_left(&c), (639, 100, "639".to_string(), "100".to_string()));
    assert_eq!((c.width, c.height), (1, 380));
    assert_eq!((c.text_width.as_str(), c.text_height.as_str()), ("1", "380"));
}

#[test]
fn fit_without_text_update_leaves_texts() {
    let v = video(640, 480);
    let mut c = info(at(700, 100), 0, 1000);
    c.fit_to_bounds(&v, false);
    assert_eq!(top_left(&c), (639, 100, "700".to_string(), "100".to_string()));
    assert_eq!((c.width, c.height), (1, 380));
    assert_eq!((c.text_width.as_str(), c.text_height.as_str()), ("0", "1000"));
}

#[test]
fn fit_pixel_center_keeps_rectangle_around_center() {
    let v = video(640, 480);
    let mut c = info(centered_at(0, 470), 300, 300);
    c.fit_to_bounds(&v, true);
    assert_eq!(center(&c), (1, 470, "1".to_string(), "470".to_string()));
    assert_eq!((c.width, c.height), (1, 10));
}

#[test]
fn fit_pixel_center_in_one_pixel_video_leaves_nothing() {
    let v = video(1, 1);
    let mut c = info(centered_at(0, 0), 5, 5);
    c.fit_to_bounds(&v, true);
    assert_eq!(center(&c).0, 1);
    assert_eq!((c.width, c.height), (0, 0));
}

#[test]
fn fit_video_center_shrinks_to_video() {
    let v = video(640, 480);
    let mut c = info(CropMode::VideoCenter, 1000, 100);
    c.fit_to_bounds(&v, true);
    assert_eq!((c.width, c.height), (640, 100));
    assert_eq!((c.text_width.as_str(), c.text_height.as_str()), ("640", "100"));
    let tl = c.get_top_left_pixel(&v);
    assert!(tl.0 + c.width <= 640 && tl.1 + c.height <= 480);
}

#[test]
fn fit_is_idempotent() {
    let v = video(640, 480);
    let mut c = info(at(900, 5), 0, 9999);
    c.fit_to_bounds(&v, true);
    let first = (top_left(&c), c.width, c.height, c.text_width.clone(), c.text_height.clone());
    c.fit_to_bounds(&v, true);
    let second = (top_left(&c), c.width, c.height, c.text_width.clone(), c.text_height.clone());
    assert_eq!(first, second);
}

#[test]
fn position_and_size_fields_take_typed_text() {
    let v = video(640, 480);
    let mut c = info(at(1, 2), 10, 10);
    c.crop_left_changed("x9999".to_string(), &v);
    assert_eq!(top_left(&c), (640, 2, "9999".to_string(), "2".to_string()));
    c.crop_top_changed("abc".to_string(), &v);
    assert_eq!(top_left(&c), (640, 0, "9999".to_string(), "0".to_string()));
    c.crop_width_changed("0300".to_string(), &v);
    assert_eq!((c.width, c.text_width.as_str()), (300, "300"));
    c.crop_height_changed("900".to_string(), &v);
    assert_eq!((c.height, c.text_height.as_str()), (480, "900"));

    let mut d = info(CropMode::VideoCenter, 10, 10);
    d.crop_left_changed("5".to_string(), &v);
    assert!(matches!(d.crop_mode, CropMode::VideoCenter));

    let mut e = info(centered_at(3, 4), 10, 10);
    e.crop_top_changed("44".to_string(), &v);
    assert_eq!(center(&e), (3, 44, "3".to_string(), "44".to_string()));
}

#[test]
fn prepare_crop_uses_corner_before_fitting() {
    let v = video(640, 480);
    let mut c = info(centered_at(630, 10), 40, 40);
    let (x, y, w, h) = c.prepare_crop(&v);
    assert_eq!((x, y), (610, 0));
    assert_eq!((w, h), (30, 40));
    assert_eq!(top_left(&c), (610, 0, "610".to_string(), "0".to_string()));
    assert_eq!((c.text_width.as_str(), c.text_height.as_str()), ("30", "40"));
}

#[test]
fn screen_names_open_their_screens() {
    #[derive(Debug)]
    struct Plain(u16);
    impl DefaultScreen for Plain {
        fn from_video(video: &VideoData) -> Self {
            Plain(video.width)
        }
        fn fit_to_bounds(&mut self, _video: &VideoData, _update_text: bool) {}
    }
    let v = video(64, 48);
    let s: Screen<Plain, Plain, Plain> = ScreenName::Crop.to_screen(&v);
    match s {
        Screen::Crop(c) => assert_eq!((c.width, c.height), (64, 48)),
        _ => panic!("expected the crop screen"),
    }
    let s: Screen<Plain, Plain, Plain> = ScreenName::Trim.to_screen(&v);
    assert!(matches!(s, Screen::Trim(Plain(64))));
    let s: Screen<Plain, Plain, Plain> = ScreenName::Pipeline.to_screen(&v);
    assert!(matches!(s, Screen::Pipeline));
    let s: Screen<Plain, Plain, Plain> = ScreenName::GifFrames.to_screen(&v);
    assert!(matches!(s, Screen::GifFrames(GifInfo {})));
    let s: Screen<Plain, Plain, Plain> = ScreenName::Volume.to_screen(&v);
    assert!(matches!(s, Screen::Volume(_)));
    let s: Screen<Plain, Plain, Plain> = ScreenName::Scale.to_screen(&v);
    assert!(matches!(s, Screen::Scale(_)));
}

#[test]
fn mode_picker_labels() {
    assert_eq!(CropModeKind::TopLeft.label(), "Top left pixel");
    assert_eq!(CropModeKind::VideoCenter.label(), "Center of video");
    assert_eq!(CropModeKind::PixelCenter.label(), "Center at pixel");
}
