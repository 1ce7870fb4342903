use vidyffy::bottom_bar::{BottomBar, BottomBarState};
use vidyffy::editor::{go_to_screen, operation_finished, revert_without_pipeline, save_finished, save_without_video};
use vidyffy::input::restrict_to_u32_input;
use vidyffy::pipeline::{Operation, Pipeline};
use vidyffy::screens::crop::CropModeKind;
use vidyffy::screens::{hold_scale_size, DefaultScreen, Screen, ScreenName};
use vidyffy::video::{url_result, VideoData};

fn video(width: u16, height: u16) -> VideoData {
    VideoData { width, height, duration: 2_000_000_000 }
}

#[test]
fn finished_operation_adds_a_version() {
    let mut p = Pipeline::new("a".to_string(), &video(10, 10), "t".to_string());
    let mut bar = BottomBar::new();
    bar.set_in_progress("Cropping video...".to_string());
    operation_finished(&mut p, &mut bar, Ok(("t/crop_1.mkv".to_string(), video(4, 2))), Operation::Crop);
    assert_eq!(p.get_next_pipeline_step(), 2);
    let e = &p.entries()[1];
    assert_eq!((e.step_num, e.path.as_str(), e.width, e.height), (1, "t/crop_1.mkv", 4, 2));
    assert_eq!(e.operation, Operation::Crop);
    assert_eq!((bar.message.as_str(), bar.state), ("", BottomBarState::Normal));
}

#[test]
fn failed_operation_reports_why() {
    let mut p = Pipeline::new("a".to_string(), &video(10, 10), "t".to_string());
    let mut bar = BottomBar::new();
    operation_finished(&mut p, &mut bar, Err("bad input".to_string()), Operation::Trim);
    assert_eq!(p.get_next_pipeline_step(), 1);
    assert_eq!((bar.message.as_str(), bar.state), ("bad input", BottomBarState::Error));
}

#[test]
fn status_messages_of_requests() {
    let mut bar = BottomBar::new();
    save_without_video(&mut bar);
    assert_eq!((bar.message.as_str(), bar.state), ("No video loaded, cannot save", BottomBarState::Error));
    revert_without_pipeline(&mut bar);
    assert_eq!(bar.message, "Tried to revert to pipeline when none exists?");
    save_finished(&mut bar, None);
    assert_eq!((bar.message.as_str(), bar.state), ("", BottomBarState::Normal));
    save_finished(&mut bar, Some("Could not copy to new path".to_string()));
    assert_eq!((bar.message.as_str(), bar.state), ("Could not copy to new path", BottomBarState::Error));
}

#[test]
fn url_result_keeps_the_url_or_explains() {
    assert_eq!(url_result(Some("file:///a".to_string()), "/a"), Ok("file:///a".to_string()));
    assert_eq!(url_result(None, "a"), Err("Could not load URL from path_buf a".to_string()));
}

#[test]
fn scale_sizes_held_to_one() {
    let mut size = 0u32;
    let mut text = "0".to_string();
    hold_scale_size(&mut size, &mut text, true);
    assert_eq!((size, text.as_str()), (1, "1"));
    let mut size = 1u32;
    let mut text = "01".to_string();
    hold_scale_size(&mut size, &mut text, false);
    assert_eq!((size, text.as_str()), (1, "01"));
    let mut size = 7u32;
    let mut text = "7".to_string();
    hold_scale_size(&mut size, &mut text, true);
    assert_eq!((size, text.as_str()), (7, "7"));
}

#[test]
fn unreadable_text_needs_no_ordered_range() {
    let mut text = "5".to_string();
    let mut value = 5u32;
    restrict_to_u32_input("none".to_string(), &mut text, &mut value, 10, 1);
    assert_eq!((text.as_str(), value), ("0", 0));
}

#[test]
fn crop_mode_kind_default_is_top_left() {
    assert_eq!(CropModeKind::default(), CropModeKind::TopLeft);
}

#[derive(Debug)]
struct Plain;

impl DefaultScreen for Plain {
    fn from_video(_video: &VideoData) -> Self {
        Plain
    }
    fn fit_to_bounds(&mut self, _video: &VideoData, _update_text: bool) {}
}

#[test]
fn screens_open_only_with_a_video() {
    let v = video(8, 6);
    let s: Option<Screen<Plain, Plain, Plain>> = go_to_screen(Some(&v), Some(ScreenName::Crop));
    match s {
        Some(Screen::Crop(c)) => assert_eq!((c.width, c.height), (8, 6)),
        _ => panic!("expected the crop screen"),
    }
    let s: Option<Screen<Plain, Plain, Plain>> = go_to_screen(None, Some(ScreenName::Crop));
    assert!(s.is_none());
    let s: Option<Screen<Plain, Plain, Plain>> = go_to_screen(Some(&v), None);
    assert!(s.is_none());
}
