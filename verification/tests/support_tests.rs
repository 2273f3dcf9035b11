use pong::camera::{
    approach, camera_movement, camera_setup, drain_step, go_to_target_position,
    keyboard_pan_delta, mid_drag_delta, pow_milli, target_arrived, zoom_target_step, CameraInput,
    CameraSettings, CameraState, CursorWorldPosition,
};
use pong::controls::{keyboard_direction, mouse_direction, FrameInput};
use pong::debug_text::{change_debug_text, construct_debug_string, init_debug_lines, DebugKeys, DebugText};
use pong::fixed::{clamp_i64, isqrt64, mul_div};
use pong::game::{GameData, Orientation, Player, Settings};
use pong::scores::{get_digits, num_length, score_digit_plan, score_digit_x, update_scores};
use pong::sim::Game;
use pong::view::{background_lines, compute_scale};
use rand::SeedableRng;

#[test]
fn isqrt_exact_values() {
    assert_eq!(isqrt64(0), 0);
    assert_eq!(isqrt64(1), 1);
    assert_eq!(isqrt64(2), 1);
    assert_eq!(isqrt64(3), 1);
    assert_eq!(isqrt64(4), 2);
    assert_eq!(isqrt64(10_000_000_000), 100_000);
    assert_eq!(isqrt64(u64::MAX), 0xffff_ffff);
}

#[test]
fn mul_div_truncates_toward_zero() {
    assert_eq!(mul_div(7, 3, 2), 10);
    assert_eq!(mul_div(-7, 3, 2), -10);
    assert_eq!(mul_div(7, -3, 2), -10);
    assert_eq!(mul_div(-7, -3, 2), 10);
    assert_eq!(clamp_i64(5, -3, 3), 3);
    assert_eq!(clamp_i64(-5, -3, 3), -3);
    assert_eq!(clamp_i64(2, -3, 3), 2);
}

#[test]
fn digit_helpers_match_decimal_notation() {
    assert_eq!(num_length(0), 1);
    assert_eq!(num_length(9), 1);
    assert_eq!(num_length(10), 2);
    assert_eq!(num_length(105), 3);
    assert_eq!(num_length(4_294_967_295), 10);
    assert_eq!(get_digits(0), vec![0]);
    assert_eq!(get_digits(105), vec![1, 0, 5]);
    assert_eq!(get_digits(9_876), vec![9, 8, 7, 6]);
}

#[test]
fn score_plan_spawns_on_digit_growth() {
    let plan = score_digit_plan(10, 1);
    assert_eq!(plan.digits, vec![1, 0]);
    assert_eq!(plan.spawn, Some((1, 0)));
    let plan2 = score_digit_plan(7, 1);
    assert_eq!(plan2.digits, vec![7]);
    assert_eq!(plan2.spawn, None);
}

#[test]
fn update_scores_consumes_the_changed_flag() {
    let mut data = GameData::default();
    assert!(update_scores(&mut data, 1, 1).is_none());
    data.left_score = 10;
    data.should_update_scores = true;
    let (left, right) = update_scores(&mut data, 1, 1).expect("plans when scores changed");
    assert!(!data.should_update_scores);
    assert_eq!(left.digits, vec![1, 0]);
    assert_eq!(left.spawn, Some((1, 0)));
    assert_eq!(right.digits, vec![0]);
    assert_eq!(right.spawn, None);
}

#[test]
fn score_sprite_positions() {
    assert_eq!(score_digit_x(Player::Left, 0, 20_000), -200_000);
    assert_eq!(score_digit_x(Player::Left, 2, 20_000), -160_000);
    assert_eq!(score_digit_x(Player::Right, 1, 20_000), 220_000);
}

#[test]
fn directions_from_keys_and_mouse() {
    assert_eq!(keyboard_direction(true, false), 1000);
    assert_eq!(keyboard_direction(false, true), -1000);
    assert_eq!(keyboard_direction(true, true), 0);
    assert_eq!(keyboard_direction(false, false), 0);
    // half the dead zone above the paddle: direction one half
    assert_eq!(mouse_direction(10_000, 0, 20_000), 500);
    // far above: clamped to one
    assert_eq!(mouse_direction(500_000, 0, 20_000), 1000);
    assert_eq!(mouse_direction(-500_000, 0, 20_000), -1000);
}

#[test]
fn window_fit_landscape_and_portrait() {
    let v = compute_scale(800_000, 436_000, 800_000, 436_000);
    assert!(matches!(v.orientation, Orientation::Landscape));
    assert_eq!(v.ratio1, 1000);
    assert_eq!(v.ratio2, 1000);
    assert_eq!(v.scale, 1000);
    let p = compute_scale(400_000, 800_000, 800_000, 436_000);
    assert!(matches!(p.orientation, Orientation::Portrait));
    assert_eq!(p.ratio1, 400_000_000 / 436_000);
    assert_eq!(p.ratio2, 1000);
    assert_eq!(p.scale, 1_000_000 / (400_000_000 / 436_000));
}

#[test]
fn background_layout_walks_down_in_thirty_sections() {
    let (line_w, line_h, positions) = background_lines(436_000);
    let section = 436_000 / 30;
    assert_eq!(line_h, section * 5 / 7);
    assert_eq!(line_w, line_h / 7);
    assert_eq!(positions.len(), 30);
    assert_eq!(positions[0], 218_000 - line_h / 2);
    assert_eq!(positions[1], positions[0] - section);
    assert_eq!(positions[29], positions[0] - 29 * section);
}

#[test]
fn debug_text_updates_matching_lines_only() {
    let mut dt = DebugText::default();
    let keys = DebugKeys(vec!["Play Area".to_string(), "Mouse Coords".to_string()]);
    init_debug_lines(&mut dt, &keys);
    assert_eq!(dt.list.len(), 3);
    assert_eq!(dt.list[0].0, "FPS");
    assert_eq!(dt.list[1].0, "Play Area");
    assert_eq!(dt.list[2].1, "");
    change_debug_text(&mut dt, &"Play Area".to_string(), &"(800, 436)".to_string());
    assert_eq!(dt.list[1].1, "(800, 436)");
    assert_eq!(dt.list[0].1, "");
    assert_eq!(dt.list[2].1, "");
    let s = construct_debug_string(&dt);
    assert_eq!(s, "FPS: \nPlay Area: (800, 436)\nMouse Coords: \n");
}

#[test]
fn camera_setup_adopts_the_multiplier() {
    let mut cs = CameraSettings::default();
    camera_setup(&mut cs);
    assert_eq!(cs.target_scale, 2_000);
}

#[test]
fn camera_fly_to_target_resets_and_aims() {
    let mut cs = CameraSettings::default();
    cs.position_difference_x = 42;
    go_to_target_position(10_000, -5_000, &mut cs, Some(3_000));
    assert!(cs.is_going_to_target_position);
    assert_eq!(cs.target_position_x, 10_000);
    assert_eq!(cs.target_position_y, -5_000);
    assert_eq!(cs.desired_scale, 6_000);
    assert_eq!(cs.target_scale, 6_000);
    assert_eq!(cs.position_difference_x, 0);
    let mut cs2 = CameraSettings::default();
    go_to_target_position(0, 0, &mut cs2, None);
    assert_eq!(cs2.desired_scale, 10_000);
    assert_eq!(cs2.target_scale, 5_000);
}

#[test]
fn camera_smoothing_formulas() {
    // one step of the fly-to smoothing: lose dt/(2*smoothing) of the gap
    assert_eq!(approach(5_000, 1_000, 150, 150), 1_000);
    assert_eq!(approach(5_000, 1_000, 15, 150), 4_600);
    let (moved, rest) = drain_step(1_000, 500, 75);
    assert_eq!(moved, 1_000 * 500 / 75);
    assert_eq!(rest, 1_000 - moved);
    assert_eq!(mid_drag_delta(10_000, 4_000), 3_000);
    assert_eq!(mid_drag_delta(4_000, 10_000), -3_000);
    assert_eq!(keyboard_pan_delta(1000, 16, 200_000, false, 2_000), 6_400);
    assert_eq!(keyboard_pan_delta(1000, 16, 200_000, true, 2_000), 32_000);
    assert_eq!(keyboard_pan_delta(0, 16, 200_000, true, 2_000), 0);
}

#[test]
fn camera_zoom_scrolls_and_banks_displacement() {
    assert_eq!(pow_milli(1200, 0), 1000);
    assert_eq!(pow_milli(1200, 1), 1200);
    assert_eq!(pow_milli(1200, 2), 1440);
    let mut cs = CameraSettings::default();
    // zoom out one notch: the target scale grows by the ratio
    zoom_target_step(&mut cs, -1, 10_000, 0);
    assert_eq!(cs.target_scale, 6_000);
    // the point under the cursor banks its displacement: 10 - 10*1.2
    assert_eq!(cs.position_difference_x, -2_000);
    assert_eq!(cs.position_difference_y, 0);
    // scrolling nothing changes nothing
    let before = cs.target_scale;
    zoom_target_step(&mut cs, 0, 10_000, 0);
    assert_eq!(cs.target_scale, before);
}

#[test]
fn camera_arrival_test() {
    let mut cs = CameraSettings::default();
    cs.desired_scale = 2_000;
    cs.target_position_x = 1_000;
    cs.target_position_y = 0;
    assert!(target_arrived(&cs, 1_000, 0, 2_050));
    assert!(target_arrived(&cs, 11_000, 0, 2_000));
    assert!(!target_arrived(&cs, 11_001, 0, 2_000));
    assert!(!target_arrived(&cs, 1_000, 0, 2_101));
}

fn still_input() -> CameraInput {
    CameraInput {
        scroll: 0,
        cursor: CursorWorldPosition { x: 0, y: 0 },
        middle_just_pressed: false,
        middle_pressed: false,
        x_axis: 0,
        y_axis: 0,
        boost: false,
    }
}

#[test]
fn camera_frame_smooths_scale_toward_target() {
    let mut cs = CameraSettings::default();
    let mut cam = CameraState { x: 0, y: 0, scale: 2_000 };
    camera_movement(&mut cs, &mut cam, still_input(), 16);
    // the scale gains 16/75 of its 3.0 gap to the target: +640
    assert_eq!(cam.scale, 2_640);
    assert_eq!(cam.x, 0);
    assert_eq!(cam.y, 0);
}

#[test]
fn camera_frame_flies_toward_the_target() {
    let mut cs = CameraSettings::default();
    go_to_target_position(100_000, 0, &mut cs, Some(1_000));
    let mut cam = CameraState { x: 0, y: 0, scale: 2_000 };
    camera_movement(&mut cs, &mut cam, still_input(), 16);
    // scale already matches; position closes 16/100 of the 100 px gap
    assert!(cs.is_going_to_target_position);
    assert_eq!(cam.x, 16_000);
    assert_eq!(cam.y, 0);
    assert_eq!(cam.scale, 2_000);
    // close enough: the flight ends and normal control resumes
    let mut near = CameraState { x: 95_000, y: 0, scale: 2_000 };
    camera_movement(&mut cs, &mut near, still_input(), 16);
    assert!(!cs.is_going_to_target_position);
    assert_eq!(near.x, 95_000);
}

#[test]
fn camera_frame_middle_drag_pulls_back() {
    let mut cs = CameraSettings::default();
    cs.middle_mouse_start_x = 6_000;
    let mut cam = CameraState { x: 0, y: 0, scale: 5_000 };
    let input = CameraInput { middle_pressed: true, ..still_input() };
    camera_movement(&mut cs, &mut cam, input, 16);
    // half the way from the cursor back to the drag start
    assert_eq!(cam.x, 3_000);
    assert_eq!(cam.y, 0);
}

#[test]
fn camera_frame_keyboard_pan() {
    let mut cs = CameraSettings::default();
    let mut cam = CameraState { x: 0, y: 0, scale: 5_000 };
    let input = CameraInput { x_axis: 1000, ..still_input() };
    camera_movement(&mut cs, &mut cam, input, 16);
    // 200 px/s for 16 ms at scale 5.0: 16 px
    assert_eq!(cam.x, 16_000);
}

#[test]
fn settings_toggles() {
    let mut s = Settings::default();
    assert!(!s.fullscreen);
    s.toggle_fullscreen();
    assert!(s.fullscreen);
    s.toggle_fullscreen();
    assert!(!s.fullscreen);
    assert!(!s.apply_orientation(Orientation::Landscape));
    assert!(s.apply_orientation(Orientation::Portrait));
    assert!(matches!(s.orientation, Orientation::Portrait));
}

#[test]
fn game_session_spawns_scores_and_replays() {
    let mut game = Game::new(Settings::default());
    let mut rng = rand::rngs::StdRng::seed_from_u64(11);
    let idle = FrameInput {
        left_up: false,
        left_down: false,
        right_up: false,
        right_down: false,
        mouse_pressed: false,
        mouse_x: 0,
        mouse_y: 0,
    };
    // the first ball arrives after exactly one second of frames
    let mut spawned_at = None;
    for frame in 0..200 {
        let ev = game.tick(16, idle, &mut rng);
        if ev.spawned {
            spawned_at = Some(frame);
            break;
        }
        assert!(game.ball.is_none());
    }
    // 63 frames of 16 ms cross 1000 ms
    assert_eq!(spawned_at, Some(62));
    assert!(game.ball.is_some());
    // left alone, the ball eventually leaves and a point is scored
    let mut scored = false;
    for _ in 0..100_000 {
        let ev = game.tick(16, idle, &mut rng);
        if ev.death {
            scored = true;
            break;
        }
    }
    assert!(scored);
    assert_eq!(game.data.left_score + game.data.right_score, 1);
}

#[test]
fn game_keyboard_input_moves_the_left_paddle() {
    let mut game = Game::new(Settings::default());
    let mut rng = rand::rngs::StdRng::seed_from_u64(3);
    let up = FrameInput {
        left_up: true,
        left_down: false,
        right_up: false,
        right_down: false,
        mouse_pressed: false,
        mouse_x: 0,
        mouse_y: 0,
    };
    for _ in 0..10 {
        game.tick(16, up, &mut rng);
    }
    assert!(game.left_paddle.y > 0);
    assert_eq!(game.right_paddle.y, 0);
    assert_eq!(game.data.left_y, game.left_paddle.y);
}

#[test]
fn game_mouse_takes_over_one_paddle() {
    let mut game = Game::new(Settings::default());
    let mut rng = rand::rngs::StdRng::seed_from_u64(3);
    let drag = FrameInput {
        left_up: false,
        left_down: false,
        right_up: false,
        right_down: false,
        mouse_pressed: true,
        mouse_x: -100_000,
        mouse_y: 50_000,
    };
    for _ in 0..600 {
        game.tick(16, drag, &mut rng);
    }
    assert_eq!(game.data.player_controlled_by_mouse, Some(Player::Left));
    // the paddle homes in on the pointer and never passes it
    assert!(game.left_paddle.y > 0);
    assert!(game.left_paddle.y <= 50_000);
    let release = FrameInput { mouse_pressed: false, ..drag };
    game.tick(16, release, &mut rng);
    assert_eq!(game.data.player_controlled_by_mouse, None);
}
