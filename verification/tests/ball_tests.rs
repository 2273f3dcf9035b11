use pong::ball::{spawn_ball, Ball, BallTimer};
use pong::game::{GameData, Settings};
use rand::SeedableRng;

fn rng() -> rand::rngs::StdRng {
    rand::rngs::StdRng::seed_from_u64(7)
}

fn setup() -> (Settings, GameData, BallTimer) {
    (Settings::default(), GameData::default(), BallTimer::new(1000))
}

#[test]
fn paddle_hit_scales_speed_by_multiplier() {
    // the worked example: ball at (355, 0) moving (100, 0) meets the
    // right paddle at (350, 0) with half-size (10, 50); the reflection
    // angle is zero and the new speed is 100 * 1.1 = 110
    let (s, mut data, mut timer) = setup();
    let mut r = rng();
    let ball = Ball { x: 355_000, y: 0, vx: 100_000, vy: 0 };
    let out = ball.update_ball(&mut data, &mut timer, &s, 0, &mut r);
    assert!(!out.death);
    let b = out.ball.expect("ball survives a paddle hit");
    assert_eq!(b.vx, 110_000);
    assert_eq!(b.vy, 0);
    assert_eq!(b.x, 355_000);
    assert_eq!(b.y, 0);
    let hit = out.hit_sound.expect("a paddle hit fires a sound");
    assert!((0..3).contains(&hit));
    assert!(out.wall_sound.is_none());
    assert_eq!(data.left_score, 0);
    assert_eq!(data.right_score, 0);
}

#[test]
fn paddle_hit_reflects_along_the_offset() {
    // ball centre 3 px right and 4 px above the paddle centre: the new
    // velocity points along (3, 4) with magnitude 110
    let (s, mut data, mut timer) = setup();
    let mut r = rng();
    let ball = Ball { x: 353_000, y: 4_000, vx: 100_000, vy: 0 };
    let out = ball.update_ball(&mut data, &mut timer, &s, 0, &mut r);
    let b = out.ball.unwrap();
    // dist = 5000, so vx = 110_000 * 3000 / 5000 and vy = 110_000 * 4000 / 5000
    assert_eq!(b.vx, 66_000);
    assert_eq!(b.vy, 88_000);
}

#[test]
fn right_exit_scores_for_the_left_player() {
    let (s, mut data, mut timer) = setup();
    let mut r = rng();
    timer.armed = false;
    let ball = Ball { x: 500_000, y: 0, vx: 0, vy: 0 };
    let out = ball.update_ball(&mut data, &mut timer, &s, 0, &mut r);
    assert!(out.death);
    assert!(out.ball.is_none());
    assert_eq!(data.left_score, 1);
    assert_eq!(data.right_score, 0);
    assert!(data.should_update_scores);
    assert!(timer.armed);
}

#[test]
fn left_exit_scores_for_the_right_player() {
    let (s, mut data, mut timer) = setup();
    let mut r = rng();
    timer.armed = false;
    let ball = Ball { x: -500_000, y: -10_000, vx: -50_000, vy: 0 };
    let out = ball.update_ball(&mut data, &mut timer, &s, 16, &mut r);
    assert!(out.death);
    assert!(out.ball.is_none());
    assert_eq!(data.left_score, 0);
    assert_eq!(data.right_score, 1);
    assert!(timer.armed);
}

#[test]
fn near_miss_does_not_score_or_hit() {
    let (s, mut data, mut timer) = setup();
    let mut r = rng();
    let ball = Ball { x: 0, y: 0, vx: 100_000, vy: 50_000 };
    let out = ball.update_ball(&mut data, &mut timer, &s, 16, &mut r);
    let b = out.ball.unwrap();
    // plain motion: 100 px/s and 50 px/s over 16 ms
    assert_eq!(b.x, 1_600);
    assert_eq!(b.y, 800);
    assert_eq!(b.vx, 100_000);
    assert_eq!(b.vy, 50_000);
    assert!(out.hit_sound.is_none());
    assert!(out.wall_sound.is_none());
    assert!(!out.death);
}

#[test]
fn top_wall_bounce_flips_y_and_scales_by_fourth_root() {
    let (s, mut data, mut timer) = setup();
    let mut r = rng();
    // already past the wall test line, moving up; dt = 0 isolates the
    // bounce itself. The fourth root of 1.1 in thousandths is 1024.
    let ball = Ball { x: 0, y: 214_000, vx: 50_000, vy: 100_000 };
    let out = ball.update_ball(&mut data, &mut timer, &s, 0, &mut r);
    let b = out.ball.unwrap();
    assert_eq!(b.vy, -102_400);
    assert_eq!(b.vx, 51_200);
    let wall = out.wall_sound.expect("a wall bounce fires a sound");
    assert!((0..6).contains(&wall));
    assert!(out.hit_sound.is_none());
}

#[test]
fn bottom_wall_bounce_flips_y_up() {
    let (s, mut data, mut timer) = setup();
    let mut r = rng();
    let ball = Ball { x: 0, y: -214_000, vx: 0, vy: -100_000 };
    let out = ball.update_ball(&mut data, &mut timer, &s, 0, &mut r);
    let b = out.ball.unwrap();
    assert_eq!(b.vy, 102_400);
    assert_eq!(b.vx, 0);
}

#[test]
fn respawn_waits_exactly_one_period() {
    let (s, _data, mut timer) = setup();
    let mut r = rng();
    // 500 ms: nothing yet
    assert!(spawn_ball(&mut timer, &s, 500, &mut r).is_none());
    assert!(timer.armed);
    assert_eq!(timer.elapsed_ms, 500);
    // another 500 ms completes the period: exactly one ball appears
    let b = spawn_ball(&mut timer, &s, 500, &mut r).expect("ball spawns at one period");
    assert!(!timer.armed);
    assert_eq!(timer.elapsed_ms, 0);
    assert_eq!(b.x, 0);
    // y inset twice the ball size from the walls: within ±198 px
    assert!(b.y >= -198_000 && b.y < 198_000);
    let avx = b.vx.abs();
    let avy = b.vy.abs();
    assert!((200_000..300_000).contains(&avx));
    assert!((0..300_000).contains(&avy));
    // both components share the drawn sign
    assert!((b.vx >= 0 && b.vy >= 0) || (b.vx <= 0 && b.vy <= 0));
    // disarmed: further time changes nothing
    assert!(spawn_ball(&mut timer, &s, 5_000, &mut r).is_none());
    assert!(!timer.armed);
}

#[test]
fn spawn_speeds_vary_with_the_seed() {
    let s = Settings::default();
    let mut seen_left = false;
    let mut seen_right = false;
    for seed in 0..32u64 {
        let mut r = rand::rngs::StdRng::seed_from_u64(seed);
        let mut timer = BallTimer::new(1000);
        let b = spawn_ball(&mut timer, &s, 1000, &mut r).unwrap();
        if b.vx < 0 {
            seen_left = true;
        }
        if b.vx > 0 {
            seen_right = true;
        }
    }
    // a generator that ignored its draws could not serve both sides
    assert!(seen_left && seen_right);
}
