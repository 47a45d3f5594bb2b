use jumpy_frog::gameplay::physics::{CollisionState, Direction};
use jumpy_frog::gameplay::{
    apply_launch, launch_velocity, JumpStrength, Velocity, DEFAULT_JUMP_STRENGTH,
    MAX_LAUNCH_DISTANCE,
};
use jumpy_frog::geometry::Vec2i;

fn grounded() -> CollisionState {
    CollisionState { bottom: true, ..CollisionState::new() }
}

fn v(x: i64, y: i64) -> Velocity {
    Velocity { x, y }
}

#[test]
fn long_downward_direction_is_clamped() {
    // world direction (0,-40), strength 10: clamped to length 32, times 10
    let r = launch_velocity(Vec2i::new(0, 0), Vec2i::new(0, 40), &JumpStrength(10));
    assert_eq!(r, v(0, -320));
    let mut vel = v(7, 7);
    let launched = apply_launch(
        &grounded(),
        Some(Vec2i::new(0, 0)),
        Some(Vec2i::new(0, 40)),
        &JumpStrength(10),
        &mut vel,
    );
    assert!(launched);
    assert_eq!(vel, v(0, -320));
}

#[test]
fn short_direction_is_scaled_exactly() {
    // direction = start - end = (3,-4)
    let r = launch_velocity(Vec2i::new(5, 0), Vec2i::new(2, 4), &JumpStrength(10));
    assert_eq!(r, v(30, -40));
    // exactly at the clamp length
    let r = launch_velocity(Vec2i::new(32, 0), Vec2i::new(0, 0), &JumpStrength(10));
    assert_eq!(r, v(320, 0));
    assert_eq!(launch_velocity(Vec2i::new(9, 9), Vec2i::new(9, 9), &JumpStrength(10)), v(0, 0));
}

#[test]
fn clamped_direction_keeps_its_heading() {
    let r = launch_velocity(Vec2i::new(30, 40), Vec2i::new(0, 0), &JumpStrength(10));
    assert_eq!(r, v(192, 256));
    // |(-50,20)| is about 53.85
    let r = launch_velocity(Vec2i::new(0, 20), Vec2i::new(50, 0), &JumpStrength(10));
    assert_eq!(r, v(-297, 118));
    assert!(r.x * r.x + r.y * r.y <= 320 * 320);
}

#[test]
fn speed_never_exceeds_the_cap() {
    let k = u32::MAX;
    let cap = (MAX_LAUNCH_DISTANCE as i128) * (k as i128);
    let r = launch_velocity(Vec2i::new(i32::MAX, i32::MIN), Vec2i::new(i32::MIN, i32::MAX), &JumpStrength(k));
    assert!(r.x > 0 && r.y < 0);
    let (x, y) = (r.x as i128, r.y as i128);
    assert!(x * x + y * y <= cap * cap);
    assert_eq!(r, v(97184015976, -97184015976));
}

#[test]
fn ungrounded_release_keeps_velocity() {
    let mut vel = v(12, -5);
    let air = CollisionState { top: true, left: true, right: true, bottom: false };
    assert!(!apply_launch(&air, Some(Vec2i::new(0, 0)), Some(Vec2i::new(0, 40)), &JumpStrength(10), &mut vel));
    assert_eq!(vel, v(12, -5));
}

#[test]
fn unmapped_endpoint_keeps_velocity() {
    let mut vel = v(1, 2);
    assert!(!apply_launch(&grounded(), None, Some(Vec2i::new(0, 40)), &JumpStrength(10), &mut vel));
    assert_eq!(vel, v(1, 2));
    assert!(!apply_launch(&grounded(), Some(Vec2i::new(0, 40)), None, &JumpStrength(10), &mut vel));
    assert_eq!(vel, v(1, 2));
}

#[test]
fn default_strength() {
    assert_eq!(DEFAULT_JUMP_STRENGTH, 10);
    assert_eq!(JumpStrength::default(), JumpStrength(10));
    assert_eq!(MAX_LAUNCH_DISTANCE, 32);
}

#[test]
fn contact_in_one_direction_touches_only_that_side() {
    let none = CollisionState::new();
    assert!(!none.is_grounded());
    let below = none.with_contact(Direction::Down, true);
    assert_eq!(below, CollisionState { top: false, bottom: true, left: false, right: false });
    assert!(below.is_grounded());
    let all = CollisionState { top: true, bottom: true, left: true, right: true };
    assert_eq!(
        all.with_contact(Direction::Left, false),
        CollisionState { top: true, bottom: true, left: false, right: true }
    );
    assert_eq!(none.with_contact(Direction::Up, true).top, true);
    assert_eq!(none.with_contact(Direction::Right, true).right, true);
}

#[test]
fn direction_units() {
    assert_eq!(Direction::Up.unit(), (0, 1));
    assert_eq!(Direction::Down.unit(), (0, -1));
    assert_eq!(Direction::Left.unit(), (-1, 0));
    assert_eq!(Direction::Right.unit(), (1, 0));
}

#[test]
fn just_past_the_clamp_keeps_full_speed() {
    // |(32,1)| is about 32.016: (32,1) * 320 / 32.016 is about (319.84, 9.995)
    let r = launch_velocity(Vec2i::new(32, 1), Vec2i::new(0, 0), &JumpStrength(10));
    assert_eq!(r, v(319, 9));
    let r = launch_velocity(Vec2i::new(0, 0), Vec2i::new(33, 0), &JumpStrength(10));
    assert_eq!(r, v(-320, 0));
}

#[test]
fn zero_drag_launch_replaces_velocity() {
    let mut vel = v(40, -25);
    assert!(apply_launch(&grounded(), Some(Vec2i::new(7, 7)), Some(Vec2i::new(7, 7)), &JumpStrength(10), &mut vel));
    assert_eq!(vel, v(0, 0));
}
