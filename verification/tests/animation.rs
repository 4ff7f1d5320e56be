use desktop_pet::animation::player::AnimationPlayer;
use desktop_pet::pet::entity::FrameRect;

#[test]
fn new_player_loops_from_row_zero() {
    let a = AnimationPlayer::new(4);
    assert_eq!(a.current_row, 0);
    assert_eq!(a.current_frame, 0);
    assert_eq!(a.total_frames, 4);
    assert!(a.playing);
    assert!(!a.pause_on_complete);
    assert!(!a.completed_once);
}

#[test]
fn looping_animation_wraps() {
    let mut a = AnimationPlayer::new(3);
    a.update(true);
    a.update(false);
    assert_eq!(a.current_frame, 1);
    a.update(true);
    assert_eq!(a.current_frame, 2);
    a.update(true);
    assert_eq!(a.current_frame, 0);
    assert!(a.playing);
}

#[test]
fn play_once_stops_on_last_frame() {
    let mut a = AnimationPlayer::new(4);
    assert!(a.switch_to(3, 2, true));
    assert_eq!(a.current_row, 3);
    assert_eq!(a.total_frames, 2);
    a.update(true);
    assert_eq!(a.current_frame, 1);
    a.update(true);
    assert_eq!(a.current_frame, 1);
    assert!(!a.playing);
    assert!(a.completed_once);
    let before = a;
    a.update(true);
    assert_eq!(a, before);
    // a stopped player restarts even on the same row
    assert!(a.switch_to(3, 2, true));
    assert_eq!(a.current_frame, 0);
    assert!(a.playing);
    assert!(!a.completed_once);
}

#[test]
fn switching_to_playing_row_is_noop() {
    let mut a = AnimationPlayer::new(4);
    a.update(true);
    let before = a;
    assert!(!a.switch_to(0, 7, true));
    assert_eq!(a, before);
}

#[test]
fn source_rect_of_current_frame() {
    let mut a = AnimationPlayer::new(4);
    a.switch_to(2, 4, false);
    a.update(true);
    a.update(true);
    assert_eq!(a.source_rect(32, 16), FrameRect { x: 64, y: 32, w: 32, h: 16 });
}
