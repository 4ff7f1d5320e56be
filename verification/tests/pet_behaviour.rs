use desktop_pet::game::types::Direction;
use desktop_pet::pet::entity::{Pet, PetState, SCARED_HOLD_MS, SIT_HOLD_MS};

fn walking_pet() -> Pet {
    Pet::new(4)
}

#[test]
fn row_index_matches_sheet_layout() {
    assert_eq!(PetState::Idle.row_index(), 0);
    assert_eq!(PetState::WalkRight.row_index(), 1);
    assert_eq!(PetState::WalkLeft.row_index(), 2);
    assert_eq!(PetState::Sleep.row_index(), 3);
    assert_eq!(PetState::Happy.row_index(), 4);
    assert_eq!(PetState::Scared.row_index(), 5);
    assert_eq!(PetState::Sit.row_index(), 6);
}

#[test]
fn first_frame_is_row_times_frames_per_row() {
    assert_eq!(PetState::Sleep.first_frame(4), 12);
    assert_eq!(PetState::Idle.first_frame(4), 0);
    assert_eq!(PetState::Sit.first_frame(8), 48);
}

#[test]
fn new_pet_walks_right() {
    let p = walking_pet();
    assert_eq!(p.state, PetState::WalkRight);
    assert_eq!(p.direction, Direction::Right);
    assert_eq!(p.affection, 0);
    assert_eq!(p.anim_frame, 0);
    assert!(!p.mouse_hovering);
    assert!(p.facing_right());
}

#[test]
fn frame_advances_and_wraps() {
    let mut p = walking_pet();
    for expected in [1usize, 2, 3, 0, 1] {
        p.update(true, false, false);
        assert_eq!(p.anim_frame, expected);
    }
    p.update(false, false, false);
    assert_eq!(p.anim_frame, 1);
}

#[test]
fn right_edge_makes_pet_happy_and_turn() {
    let mut p = walking_pet();
    p.update(false, false, true);
    assert_eq!(p.state, PetState::Happy);
    assert_eq!(p.direction, Direction::Left);
    // a happy pet stays put
    p.update(true, true, true);
    assert_eq!(p.state, PetState::Happy);
    assert_eq!(p.direction, Direction::Left);
}

#[test]
fn left_edge_makes_pet_sleep_and_turn() {
    let mut p = walking_pet();
    p.direction = Direction::Left;
    p.state = PetState::WalkLeft;
    p.update(false, false, true);
    assert_eq!(p.state, PetState::Sleep);
    assert_eq!(p.direction, Direction::Right);
}

#[test]
fn walking_without_edge_keeps_walking() {
    let mut p = walking_pet();
    p.update(false, true, false);
    assert_eq!(p.state, PetState::WalkRight);
    assert_eq!(p.direction, Direction::Right);
}

#[test]
fn left_click_scares_until_timer_runs_out() {
    let mut p = walking_pet();
    p.anim_frame = 3;
    let hold = p.on_left_click();
    assert_eq!(hold, SCARED_HOLD_MS);
    assert_eq!(hold, 2000);
    assert_eq!(p.state, PetState::Scared);
    assert_eq!(p.anim_frame, 0);
    p.update(false, false, true);
    assert_eq!(p.state, PetState::Scared);
    p.update(false, true, false);
    assert_eq!(p.state, PetState::WalkRight);
}

#[test]
fn right_click_sits_and_hovering_pet_idles_afterwards() {
    let mut p = walking_pet();
    let hold = p.on_right_click();
    assert_eq!(hold, SIT_HOLD_MS);
    assert_eq!(hold, 3000);
    assert_eq!(p.state, PetState::Sit);
    p.on_mouse_move();
    assert_eq!(p.state, PetState::Sit);
    p.update(false, true, false);
    assert_eq!(p.state, PetState::Idle);
}

#[test]
fn hover_round_trip_restores_walk() {
    let mut p = walking_pet();
    let before = p;
    p.on_mouse_move();
    assert_eq!(p.state, PetState::Idle);
    assert!(p.mouse_hovering);
    p.on_mouse_leave();
    assert_eq!(p, before);
}

#[test]
fn mouse_leave_does_not_wake_sleeping_pet() {
    let mut p = walking_pet();
    p.state = PetState::Sleep;
    p.on_mouse_move();
    assert_eq!(p.state, PetState::Sleep);
    p.on_mouse_leave();
    assert_eq!(p.state, PetState::Sleep);
}

#[test]
fn current_frame_rect_uses_state_row() {
    let mut p = walking_pet();
    p.update(true, false, false);
    assert_eq!(p.current_frame_rect(), 4 + 1);
    p.on_left_click();
    assert_eq!(p.current_frame_rect(), 20);
    assert!(!p.facing_right());
}

#[test]
fn tick_aligns_walking_state_with_facing() {
    let mut p = walking_pet();
    p.state = PetState::WalkLeft; // out of step with facing right
    p.update(false, false, false);
    assert_eq!(p.state, PetState::WalkRight);
    assert_eq!(p.direction, Direction::Right);
}
