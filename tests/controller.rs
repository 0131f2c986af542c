use sprite_motion::animation::{
    advance_frame, select_clip, AnimationIndices, AnimationTimer, Motion, FRAME_PERIOD_NANOS,
};
use sprite_motion::player::{Direction, MovementKeys, Player};
use sprite_motion::zoom::{keyboard_zoom_in, zoom_in, zoom_out, ZoomKeys};

fn keys(right: bool, left: bool, right_released: bool, left_released: bool) -> MovementKeys {
    MovementKeys {
        right_pressed: right,
        left_pressed: left,
        right_just_released: right_released,
        left_just_released: left_released,
    }
}

fn no_keys() -> MovementKeys {
    keys(false, false, false, false)
}

const ZOOM_IN: ZoomKeys = ZoomKeys { zoom_in_just_pressed: true, zoom_out_just_pressed: false };
const ZOOM_OUT: ZoomKeys = ZoomKeys { zoom_in_just_pressed: false, zoom_out_just_pressed: true };

#[test]
fn starts_idle_facing_right() {
    let p = Player::new();
    assert_eq!(p.motion, Motion::Idle);
    assert_eq!(p.direction, Direction::Right);
    assert!(!p.flip_x());
    assert_eq!(p.x, 0);
    assert_eq!(p.indices, AnimationIndices { first: 0, last: 7 });
    assert_eq!(p.frame_index, 0);
    assert_eq!(p.timer.period_nanos, 100_000_000);
}

#[test]
fn walk_five_periods_then_release() {
    let mut p = Player::new();
    p.keyboard_input(keys(true, false, false, false), 0);
    assert_eq!(p.motion, Motion::Walking);
    p.sprite_animation(0);
    assert_eq!(p.indices, AnimationIndices { first: 8, last: 15 });
    assert_eq!(p.frame_index, 8);
    for _ in 0..5 {
        p.sprite_animation(FRAME_PERIOD_NANOS);
    }
    assert_eq!(p.frame_index, 13);
    p.keyboard_input(keys(false, false, true, false), 0);
    assert_eq!(p.motion, Motion::Idle);
    assert_eq!(p.indices, AnimationIndices { first: 8, last: 15 });
    p.sprite_animation(0);
    assert_eq!(p.indices, AnimationIndices { first: 0, last: 7 });
    assert_eq!(p.frame_index, 0);
}

#[test]
fn five_zoom_in_presses_reach_the_floor() {
    let mut scales = vec![100u32];
    for _ in 0..5 {
        assert!(keyboard_zoom_in(&mut scales, ZOOM_IN));
    }
    assert_eq!(scales, vec![20]);
    assert!(keyboard_zoom_in(&mut scales, ZOOM_IN));
    assert_eq!(scales, vec![20]);
}

#[test]
fn zoom_stays_within_bounds() {
    let mut scales = vec![100u32, 60, 20];
    let frames = [ZOOM_OUT, ZOOM_IN, ZOOM_IN, ZOOM_OUT, ZOOM_OUT, ZOOM_OUT, ZOOM_IN];
    for f in frames {
        keyboard_zoom_in(&mut scales, f);
        for s in &scales {
            assert!(20 <= *s && *s <= 100);
        }
    }
    assert_eq!(scales, vec![80, 80, 60]);
}

#[test]
fn zoom_steps_and_clamps() {
    assert_eq!(zoom_in(100), 80);
    assert_eq!(zoom_in(30), 20);
    assert_eq!(zoom_in(0), 20);
    assert_eq!(zoom_out(20), 40);
    assert_eq!(zoom_out(90), 100);
    assert_eq!(zoom_out(u32::MAX), 100);
}

#[test]
fn zoom_without_key_leaves_scales() {
    let mut scales = vec![60u32];
    let idle = ZoomKeys { zoom_in_just_pressed: false, zoom_out_just_pressed: false };
    assert!(!keyboard_zoom_in(&mut scales, idle));
    assert_eq!(scales, vec![60]);
    let both = ZoomKeys { zoom_in_just_pressed: true, zoom_out_just_pressed: true };
    assert!(keyboard_zoom_in(&mut scales, both));
    assert_eq!(scales, vec![40]);
    let mut none: Vec<u32> = Vec::new();
    assert!(keyboard_zoom_in(&mut none, ZOOM_OUT));
    assert!(none.is_empty());
}

#[test]
fn right_press_faces_right_left_press_faces_left() {
    let mut p = Player::new();
    p.keyboard_input(keys(false, true, false, false), 1_000_000_000);
    assert_eq!(p.direction, Direction::Left);
    assert!(p.flip_x());
    assert_eq!(p.motion, Motion::Walking);
    assert_eq!(p.x, -50_000_000_000);
    p.keyboard_input(keys(true, false, false, false), 500_000_000);
    assert_eq!(p.direction, Direction::Right);
    assert!(!p.flip_x());
    assert_eq!(p.x, -25_000_000_000);
}

#[test]
fn both_keys_held_moves_right() {
    let mut p = Player::new();
    p.keyboard_input(keys(false, true, false, false), 10);
    p.keyboard_input(keys(true, true, false, false), 10);
    assert_eq!(p.direction, Direction::Right);
    assert!(!p.flip_x());
    assert_eq!(p.x, 0);
}

#[test]
fn release_after_left_sets_idle() {
    let mut p = Player::new();
    p.keyboard_input(keys(false, true, false, false), 20);
    assert_eq!(p.motion, Motion::Walking);
    p.keyboard_input(keys(false, false, false, true), 20);
    assert_eq!(p.motion, Motion::Idle);
    assert_eq!(p.direction, Direction::Left);
    assert_eq!(p.x, -1000);
}

#[test]
fn no_key_event_changes_nothing() {
    let mut p = Player::new();
    p.keyboard_input(keys(true, false, false, false), 7);
    let before = p;
    p.keyboard_input(no_keys(), 1_000);
    assert_eq!(p, before);
}

#[test]
fn running_from_idle_snaps_to_first_run_frame() {
    let mut p = Player::new();
    p.sprite_animation(FRAME_PERIOD_NANOS);
    p.sprite_animation(FRAME_PERIOD_NANOS);
    assert_eq!(p.frame_index, 2);
    p.motion = Motion::Running;
    p.enter_motion();
    assert_eq!(p.indices, AnimationIndices { first: 16, last: 23 });
    assert_eq!(p.frame_index, 16);
}

#[test]
fn walking_and_running_do_not_switch_directly() {
    let run = AnimationIndices { first: 16, last: 23 };
    let walk = AnimationIndices { first: 8, last: 15 };
    assert_eq!(select_clip(Motion::Walking, run), None);
    assert_eq!(select_clip(Motion::Running, walk), None);
    assert_eq!(select_clip(Motion::Idle, run), Some(AnimationIndices { first: 0, last: 7 }));
    assert_eq!(select_clip(Motion::Idle, AnimationIndices { first: 0, last: 7 }), None);
}

#[test]
fn periods_wrap_within_the_clip() {
    let mut p = Player::new();
    for _ in 0..8 {
        p.sprite_animation(FRAME_PERIOD_NANOS);
    }
    assert_eq!(p.frame_index, 0);
    for _ in 0..10 {
        p.sprite_animation(FRAME_PERIOD_NANOS);
        assert!(p.frame_index <= 7);
    }
    assert_eq!(p.frame_index, 2);
}

#[test]
fn short_frames_wait_for_the_period() {
    let mut p = Player::new();
    p.sprite_animation(60_000_000);
    assert_eq!(p.frame_index, 0);
    assert!(!p.timer.just_finished);
    p.sprite_animation(60_000_000);
    assert_eq!(p.frame_index, 1);
    assert_eq!(p.timer.elapsed_nanos, 20_000_000);
}

#[test]
fn timer_keeps_the_remainder() {
    let mut t = AnimationTimer::new(100);
    t.tick(40);
    assert_eq!(t.elapsed_nanos, 40);
    assert!(!t.just_finished);
    t.tick(310);
    assert_eq!(t.elapsed_nanos, 50);
    assert!(t.just_finished);
    t.tick(0);
    assert_eq!(t.elapsed_nanos, 50);
    assert!(!t.just_finished);
}

#[test]
fn advance_wraps_at_last_frame() {
    let walk = AnimationIndices::walk();
    assert_eq!(advance_frame(8, walk), 9);
    assert_eq!(advance_frame(15, walk), 8);
    assert_eq!(AnimationIndices::idle(), AnimationIndices { first: 0, last: 7 });
    assert_eq!(AnimationIndices::run(), AnimationIndices { first: 16, last: 23 });
}
