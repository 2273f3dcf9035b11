use pong::game::Settings;
use pong::paddle::Paddle;
use pong::game::Player;

fn default_settings() -> Settings {
    Settings::default()
}

#[test]
fn integration_clamps_to_max_speed() {
    let s = default_settings();
    let mut p = Paddle::new(Player::Left);
    // a full second of full-throttle acceleration wants 3000 px/s; the
    // result must sit exactly at the 500 px/s maximum
    p.integrate_speed(&s, 1000, 1000);
    assert_eq!(p.speed, 500_000);
    p.integrate_speed(&s, 1000, -1000);
    p.integrate_speed(&s, 1000, -1000);
    assert_eq!(p.speed, -500_000);
}

#[test]
fn integration_partial_step() {
    let s = default_settings();
    let mut p = Paddle::new(Player::Left);
    // 16 ms at full throttle: 3_000_000 * 1000 * 16 / 1_000_000 = 48_000
    p.integrate_speed(&s, 16, 1000);
    assert_eq!(p.speed, 48_000);
}

#[test]
fn friction_opposes_motion_without_crossing_zero() {
    let s = default_settings();
    let mut p = Paddle::new(Player::Left);
    p.integrate_speed(&s, 1000, 1000);
    assert_eq!(p.speed, 500_000);
    // 100 ms of friction: 700_000 * 100 / 1000 = 70_000
    p.apply_friction(&s, 100, 0, false);
    assert_eq!(p.speed, 430_000);
    // a full second of friction would overshoot zero; it must stop there
    p.apply_friction(&s, 1000, 0, false);
    assert_eq!(p.speed, 0);
}

#[test]
fn mouse_controlled_zero_direction_skips_friction() {
    let s = default_settings();
    let mut p = Paddle::new(Player::Left);
    p.integrate_speed(&s, 1000, 1000);
    assert_eq!(p.speed, 500_000);
    // a zero direction would make the friction quotient meaningless,
    // so no friction applies when the mouse drives and the input is 0
    p.apply_friction(&s, 1000, 0, true);
    assert_eq!(p.speed, 500_000);
}

#[test]
fn mouse_controlled_friction_divides_by_direction() {
    let s = default_settings();
    let mut p = Paddle::new(Player::Left);
    p.integrate_speed(&s, 1000, 1000);
    // direction 0.5: friction doubles; 16 ms: 1_400_000 * 16 / 1000 = 22_400
    p.apply_friction(&s, 16, 500, true);
    assert_eq!(p.speed, 500_000 - 22_400);
}

#[test]
fn wall_clamp_stops_the_paddle_dead() {
    let s = default_settings();
    let mut p = Paddle::new(Player::Right);
    p.speed = 400_000;
    p.y = 300_000;
    p.clamp_to_walls(&s);
    // the bound is (436 - 50) / 2 = 193 px
    assert_eq!(p.y, 193_000);
    assert_eq!(p.speed, 0);
    p.speed = -400_000;
    p.y = -194_000;
    p.clamp_to_walls(&s);
    assert_eq!(p.y, -193_000);
    assert_eq!(p.speed, 0);
}

#[test]
fn wall_clamp_leaves_inside_positions_alone() {
    let s = default_settings();
    let mut p = Paddle::new(Player::Right);
    p.speed = 123_000;
    p.y = 190_000;
    p.clamp_to_walls(&s);
    assert_eq!(p.y, 190_000);
    assert_eq!(p.speed, 123_000);
}

#[test]
fn free_update_moves_by_speed_times_dt() {
    let s = default_settings();
    let mut p = Paddle::new(Player::Left);
    // one 16 ms frame at full throttle: integrate to 48 px/s, lose
    // 11.2 px/s to friction, then move 36.8 px/s for 16 ms
    p.update(&s, 16, 1000, None);
    assert_eq!(p.speed, 36_800);
    assert_eq!(p.y, 588);
}

#[test]
fn mouse_update_never_passes_the_pointer() {
    let s = default_settings();
    let mut p = Paddle::new(Player::Left);
    p.speed = 500_000;
    p.y = 0;
    // pointer just above: a 16 ms step at 500 px/s wants 8 px, the
    // pointer sits at 5 px; the paddle lands exactly on it and stops
    p.move_paddle(16, Some(5_000));
    assert_eq!(p.y, 5_000);
    assert_eq!(p.speed, 0);
}

#[test]
fn mouse_update_short_step_keeps_speed() {
    let mut p = Paddle::new(Player::Left);
    p.speed = 100_000;
    p.y = 0;
    // 16 ms at 100 px/s is 1.6 px, pointer at 5 px: not reached
    p.move_paddle(16, Some(5_000));
    assert_eq!(p.y, 1_600);
    assert_eq!(p.speed, 100_000);
}
