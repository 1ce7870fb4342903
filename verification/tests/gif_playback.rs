use vidyffy::gifplayer::{GifFrame, GifState};

const MS: u128 = 1_000_000;

fn frames(spec: &[(u128, bool)]) -> Vec<GifFrame<u32>> {
    spec.iter()
        .enumerate()
        .map(|(i, &(ms, hidden))| GifFrame { handle: i as u32, duration: ms * MS, hidden })
        .collect()
}

fn handles(g: &GifState<u32>) -> Vec<u32> {
    g.frames_iter().map(|f| f.handle).collect()
}

#[test]
fn new_counts_frames_and_duration() {
    let g = GifState::new(frames(&[(100, false), (50, false), (20, true)]));
    assert!(g.playing());
    assert_eq!(g.current_frame(), 0);
    assert_eq!(g.total_frames(), 3);
    assert_eq!(g.num_visible_frames(), 3);
    assert_eq!(g.duration(), 170 * MS);
    assert_eq!(g.time_from_start(), 0);
    assert_eq!(g.get_frame(1).map(|f| f.handle), Some(1));
    assert!(g.get_frame(3).is_none());
}

#[test]
fn durations_and_visibility_keep_running_totals() {
    let mut g = GifState::new(frames(&[(100, false), (50, false)]));
    g.set_frame_duration(1, 80 * MS);
    assert_eq!(g.duration(), 180 * MS);
    assert_eq!(g.get_frame(1).unwrap().duration, 80 * MS);
    g.set_frame_duration(5, 1);
    assert_eq!(g.duration(), 180 * MS);
    g.set_frame_hidden(0, true);
    assert_eq!(g.num_visible_frames(), 1);
    g.set_frame_hidden(0, true);
    assert_eq!(g.num_visible_frames(), 1);
    g.set_frame_hidden(0, false);
    assert_eq!(g.num_visible_frames(), 2);
    g.set_frame_hidden(9, true);
    assert_eq!(g.num_visible_frames(), 2);
}

#[test]
fn copy_and_swap_frames() {
    let mut g = GifState::new(frames(&[(10, false), (20, false), (30, false)]));
    assert!(g.copy_frame_at(1));
    assert_eq!(handles(&g), vec![0, 1, 1, 2]);
    assert_eq!(g.total_frames(), 4);
    assert_eq!(g.duration(), 80 * MS);
    assert_eq!(g.num_visible_frames(), 4);
    assert!(!g.copy_frame_at(4));
    g.swap_frames(0, 3);
    assert_eq!(handles(&g), vec![2, 1, 1, 0]);
    g.swap_frames(2, 2);
    assert_eq!(handles(&g), vec![2, 1, 1, 0]);
}

#[test]
fn set_current_frame_counts_time_before_it() {
    let mut g = GifState::new(frames(&[(10, false), (20, false), (30, false)]));
    g.set_current_frame(2);
    assert_eq!(g.current_frame(), 2);
    assert_eq!(g.time_from_start(), 30 * MS);
    g.set_current_frame(3);
    assert_eq!(g.current_frame(), 2);
}

#[test]
fn seek_goes_round() {
    let mut g = GifState::new(frames(&[(10, false), (20, false), (30, false)]));
    g.seek_to_time(35 * MS);
    assert_eq!(g.current_frame(), 2);
    assert_eq!(g.time_from_start(), 35 * MS);
    g.seek_to_time(95 * MS);
    assert_eq!(g.current_frame(), 2);
    g.seek_to_time(60 * MS);
    assert_eq!(g.current_frame(), 0);
    g.seek_to_time(0);
    assert_eq!(g.current_frame(), 0);
}

#[test]
fn seek_skips_zero_length_frames() {
    let mut g = GifState::new(frames(&[(0, false), (10, false)]));
    g.seek_to_time(5 * MS);
    assert_eq!(g.current_frame(), 1);
}

#[test]
fn advance_moves_through_visible_frames() {
    let mut g = GifState::new(frames(&[(100, false), (50, true), (30, false)]));
    g.set_current_frame(0);
    let moves = g.advance_by(99 * MS);
    assert!(moves.is_empty());
    let moves = g.advance_by(1 * MS);
    assert_eq!(moves, vec![(2, 100 * MS)]);
    assert_eq!(g.current_frame(), 2);
    let moves = g.advance_by(30 * MS);
    assert_eq!(moves, vec![(0, 0)]);
    assert_eq!(g.time_from_start(), 0);
}

#[test]
fn advance_can_move_several_frames() {
    let mut g = GifState::new(frames(&[(10, false), (10, false), (10, false)]));
    g.set_current_frame(0);
    let moves = g.advance_by(25 * MS);
    assert_eq!(moves, vec![(1, 25 * MS), (2, 25 * MS)]);
    assert_eq!(g.current_frame(), 2);
}

#[test]
fn advance_when_all_hidden_stays() {
    let mut g = GifState::new(frames(&[(10, true), (10, true)]));
    g.set_current_frame(1);
    let moves = g.advance_by(10 * MS);
    assert_eq!(moves, vec![(1, 0)]);
    assert_eq!(g.current_frame(), 1);
}

#[test]
fn paused_gif_does_not_move() {
    let mut g = GifState::new(frames(&[(10, false), (10, false)]));
    g.set_playing(false);
    assert!(g.advance_by(500 * MS).is_empty());
    assert_eq!(g.current_frame(), 0);
    assert_eq!(g.time_from_start(), 0);
}

#[test]
fn first_goal_is_a_tenth_of_a_second() {
    let mut g = GifState::new(frames(&[(10, false), (10, false)]));
    assert!(g.advance_by(99 * MS).is_empty());
    assert_eq!(g.advance_by(1 * MS), vec![(1, 100 * MS)]);
}

#[test]
fn copying_a_hidden_frame_keeps_the_visible_count() {
    let mut g = GifState::new(frames(&[(10, false), (20, false)]));
    g.set_frame_hidden(1, true);
    assert_eq!(g.num_visible_frames(), 1);
    assert!(g.copy_frame_at(1));
    assert_eq!(g.num_visible_frames(), 1);
    assert_eq!(g.duration(), 50 * MS);
    assert_eq!(g.total_frames(), 3);
}
