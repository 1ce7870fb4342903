use vidyffy::bottom_bar::{BottomBar, BottomBarState};
use vidyffy::pipeline::{Operation, Pipeline};
use vidyffy::style::Palette;
use vidyffy::video::{video_url, VideoData};

fn video(width: u16, height: u16, duration: u128) -> VideoData {
    VideoData { width, height, duration }
}

#[test]
fn operation_names() {
    assert_eq!(Operation::Default.display(), "Default");
    assert_eq!(Operation::Trim.display(), "Trim");
    assert_eq!(Operation::Crop.display(), "Crop");
    assert_eq!(Operation::Scale.display(), "Scale");
    assert_eq!(Operation::Volume.display(), "Volume");
}

#[test]
fn pipeline_numbers_its_steps() {
    let mut p = Pipeline::new("/v/in.mp4".to_string(), &video(640, 480, 5), "/tmp/d".to_string());
    assert_eq!(p.get_next_pipeline_step(), 1);
    assert_eq!(p.get_tempdir_path(), "/tmp/d");
    p.add("/tmp/d/trim_1.mkv".to_string(), Operation::Trim, 640, 480, 3);
    p.add_from_vid("/tmp/d/crop_2.mkv".to_string(), Operation::Crop, &video(100, 50, 3));
    assert_eq!(p.get_next_pipeline_step(), 3);
    for (i, e) in p.entries().iter().enumerate() {
        assert_eq!(e.step_num, i);
    }
    let last = &p.entries()[2];
    assert_eq!((last.width, last.height, last.duration, last.operation), (100, 50, 3, Operation::Crop));
    assert_eq!(p.get(1), Some("/tmp/d/trim_1.mkv".to_string()));
    assert_eq!(p.get(3), None);
}

#[test]
fn destroying_later_steps_returns_their_files() {
    let mut p = Pipeline::new("a".to_string(), &video(1, 1, 1), "t".to_string());
    p.add("b".to_string(), Operation::Trim, 1, 1, 1);
    p.add("c".to_string(), Operation::Scale, 1, 1, 1);
    p.add("d".to_string(), Operation::Volume, 1, 1, 1);
    let removed = p.destroy_steps_after(1);
    assert_eq!(removed, vec!["c".to_string(), "d".to_string()]);
    assert_eq!(p.get_next_pipeline_step(), 2);
    assert_eq!(p.get(1), Some("b".to_string()));
    assert!(p.destroy_steps_after(1).is_empty());
}

#[test]
fn revert_to_a_step() {
    let mut p = Pipeline::new("a".to_string(), &video(1, 1, 1), "t".to_string());
    p.add("b".to_string(), Operation::Trim, 1, 1, 1);
    p.add("c".to_string(), Operation::Crop, 1, 1, 1);
    assert_eq!(p.revert_to(7), Err("Pipeline lacked step 7".to_string()));
    assert_eq!(p.get_next_pipeline_step(), 3);
    assert_eq!(p.revert_to(0), Ok(("a".to_string(), vec!["b".to_string(), "c".to_string()])));
    assert_eq!(p.get_next_pipeline_step(), 1);
    p.add("e".to_string(), Operation::Scale, 1, 1, 1);
    assert_eq!(p.entries()[1].step_num, 1);
}

#[test]
fn bottom_bar_states() {
    let mut b = BottomBar::new();
    assert_eq!((b.message.as_str(), b.state), ("", BottomBarState::Normal));
    b.set_in_progress("Cropping video...".to_string());
    assert_eq!((b.message.as_str(), b.state), ("Cropping video...", BottomBarState::InProgress));
    b.set_error("bad".to_string());
    assert_eq!((b.message.as_str(), b.state), ("bad", BottomBarState::Error));
    b.set_info("note".to_string());
    assert_eq!((b.message.as_str(), b.state), ("note", BottomBarState::Normal));
    b.set_normal();
    assert_eq!((b.message.as_str(), b.state), ("", BottomBarState::Normal));
}

#[test]
fn palette_parts() {
    let c = Palette::rgb8(Palette::DARKEST_BACKGROUND);
    assert_eq!((c.r, c.g, c.b), (34, 37, 48));
    let c = Palette::rgb8(Palette::ERROR_RED);
    assert_eq!((c.r, c.g, c.b), (176, 23, 0));
    let c = Palette::rgb8(Palette::PROGRESS_ORANGE);
    assert_eq!((c.r, c.g, c.b), (252, 123, 3));
}

#[test]
fn video_url_of_paths() {
    let u = video_url("/tmp/my clip.mkv").unwrap();
    assert_eq!(u, "file:///tmp/my%20clip.mkv");
    assert_eq!(
        video_url("relative.mkv"),
        Err("Could not load URL from path_buf relative.mkv".to_string())
    );
}
