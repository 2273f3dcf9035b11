//! The whole game, stepped one frame at a time by the host loop. A tick
//! runs input handling, then both paddles, then the ball, then the
//! respawn countdown — in that order, so the ball always reads the
//! paddle heights produced this same frame.

use vstd::prelude::*;

use crate::ball::{ball_tick_model, spawn_ball, Ball, BallTimer};
use crate::controls::{apply_inputs, key_dir, mouse_dir, FrameInput};
use crate::game::{GameData, Player, Settings, DT_LIMIT, POS_LIMIT, SPEED_LIMIT};
use crate::paddle::{paddle_model, Paddle};

verus! {

/// Everything one frame reports back to the host: sounds to play, a
/// lost ball, a fresh spawn, and whether the score display is stale.
pub struct TickEvents {
    pub hit_sound: Option<i64>,
    pub wall_sound: Option<i64>,
    pub death: bool,
    pub spawned: bool,
}

/// The whole simulation state.
pub struct Game {
    pub settings: Settings,
    pub data: GameData,
    pub left_paddle: Paddle,
    pub right_paddle: Paddle,
    pub ball: Option<Ball>,
    pub timer: BallTimer,
}

/// The pointer target a paddle follows this frame, if it is the one
/// paddle marked mouse-controlled.
pub open spec fn mouse_target(marker: Option<Player>, who: Player, mouse_y: i64) -> Option<i64> {
    if marker == Some(who) {
        Some(mouse_y)
    } else {
        None
    }
}

impl Game {
    /// Every piece within its bounds, each paddle on its own side, and
    /// the mirrored paddle heights in agreement with the paddles.
    pub open spec fn wf(self) -> bool {
        &&& self.settings.wf()
        &&& self.data.wf()
        &&& self.left_paddle.player == Player::Left
        &&& self.right_paddle.player == Player::Right
        &&& -SPEED_LIMIT <= self.left_paddle.speed <= SPEED_LIMIT
        &&& -SPEED_LIMIT <= self.right_paddle.speed <= SPEED_LIMIT
        &&& -POS_LIMIT <= self.left_paddle.y <= POS_LIMIT
        &&& -POS_LIMIT <= self.right_paddle.y <= POS_LIMIT
        &&& self.data.left_y == self.left_paddle.y
        &&& self.data.right_y == self.right_paddle.y
        &&& self.ball is Some ==> self.ball->Some_0.wf()
        &&& self.timer.wf()
    }

    /// A fresh session: paddles centred, no ball yet, the respawn
    /// countdown armed so the first ball appears one period in.
    pub fn new(settings: Settings) -> (r: Game)
        requires
            settings.wf(),
        ensures
            r.wf(),
            r.settings == settings,
            r.data == GameData::spec_default(),
            r.ball is None,
            r.timer.armed,
            r.timer.period_ms == 1000,
            r.left_paddle.y == 0 && r.left_paddle.speed == 0,
            r.right_paddle.y == 0 && r.right_paddle.speed == 0,
    {
        Game {
            settings,
            data: GameData::default(),
            left_paddle: Paddle::new(Player::Left),
            right_paddle: Paddle::new(Player::Right),
            ball: None,
            timer: BallTimer::new(1000),
        }
    }

    /// One frame: inputs, paddles, ball, respawn countdown, in the
    /// order the ball simulator relies on. The paddles land exactly on
    /// `paddle_model` of the directions the inputs produced; a live
    /// ball follows `ball_tick_model` read against this frame's paddle
    /// heights; scoring, sounds and respawn are reported in the result.
    pub fn tick(&mut self, dt: i64, input: FrameInput, rng: &mut rand::rngs::StdRng) -> (ev:
        TickEvents)
        requires
            old(self).wf(),
            0 <= dt <= DT_LIMIT,
            -POS_LIMIT <= input.mouse_x <= POS_LIMIT,
            -POS_LIMIT <= input.mouse_y <= POS_LIMIT,
            old(self).data.left_score < u32::MAX,
            old(self).data.right_score < u32::MAX,
        ensures
            final(self).wf(),
            final(self).settings == old(self).settings,
            ({
                let s = old(self).settings;
                let marker = (if !input.mouse_pressed {
                    Option::<Player>::None
                } else if input.mouse_x < 0 {
                    Option::Some(Player::Left)
                } else {
                    Option::Some(Player::Right)
                });
                let ldir = (if input.mouse_pressed && input.mouse_x < 0 {
                    mouse_dir(input.mouse_y as int, old(self).data.left_y as int, s.mouse_area_y as int)
                } else {
                    key_dir(input.left_up, input.left_down)
                });
                let rdir = (if input.mouse_pressed && input.mouse_x >= 0 {
                    mouse_dir(input.mouse_y as int, old(self).data.right_y as int, s.mouse_area_y as int)
                } else {
                    key_dir(input.right_up, input.right_down)
                });
                let lp = paddle_model(
                    old(self).left_paddle.speed as int,
                    old(self).left_paddle.y as int,
                    ldir,
                    dt as int,
                    s,
                    mouse_target(marker, Player::Left, input.mouse_y),
                );
                let rp = paddle_model(
                    old(self).right_paddle.speed as int,
                    old(self).right_paddle.y as int,
                    rdir,
                    dt as int,
                    s,
                    mouse_target(marker, Player::Right, input.mouse_y),
                );
                &&& final(self).data.player_controlled_by_mouse == marker
                &&& final(self).data.left_dir == ldir
                &&& final(self).data.right_dir == rdir
                &&& (final(self).left_paddle.speed as int, final(self).left_paddle.y as int) == lp
                &&& (final(self).right_paddle.speed as int, final(self).right_paddle.y as int)
                    == rp
                &&& final(self).data.left_y == final(self).left_paddle.y
                &&& final(self).data.right_y == final(self).right_paddle.y
                &&& (old(self).ball is Some ==> {
                    let m = ball_tick_model(old(self).ball->Some_0, dt as int, lp.1, rp.1, s);
                    &&& ev.death == m.removed
                    &&& ev.hit_sound is Some <==> m.hit
                    &&& ev.wall_sound is Some <==> m.bounced
                    &&& final(self).data.left_score == old(self).data.left_score + (
                    if m.scored_left {
                        1int
                    } else {
                        0int
                    })
                    &&& final(self).data.right_score == old(self).data.right_score + (
                    if m.scored_right {
                        1int
                    } else {
                        0int
                    })
                    &&& m.removed ==> final(self).data.should_update_scores
                    &&& !m.removed ==> {
                        &&& final(self).ball is Some
                        &&& final(self).ball->Some_0.x == m.x
                        &&& final(self).ball->Some_0.y == m.y
                        &&& final(self).ball->Some_0.vx == m.vx
                        &&& final(self).ball->Some_0.vy == m.vy
                        &&& !ev.spawned
                    }
                })
                &&& (old(self).ball is None ==> {
                    &&& ev.death == false
                    &&& ev.hit_sound is None
                    &&& ev.wall_sound is None
                    &&& final(self).data.left_score == old(self).data.left_score
                    &&& final(self).data.right_score == old(self).data.right_score
                })
            }),
            // the respawn countdown: no ball appears before a full
            // period has accumulated, and one does when it has
            old(self).ball is None && old(self).timer.armed && old(self).timer.elapsed_ms + dt
                < old(self).timer.period_ms ==> {
                &&& final(self).ball is None
                &&& !ev.spawned
                &&& final(self).timer.armed
                &&& final(self).timer.elapsed_ms == old(self).timer.elapsed_ms + dt
            },
            old(self).ball is None && old(self).timer.armed && old(self).timer.elapsed_ms + dt
                >= old(self).timer.period_ms ==> {
                &&& final(self).ball is Some
                &&& ev.spawned
                &&& !final(self).timer.armed
            },
            old(self).ball is None && !old(self).timer.armed ==> final(self).ball is None
                && !ev.spawned && final(self).timer == old(self).timer,
    {
        let s = self.settings;
        apply_inputs(&mut self.data, &s, input);
        let marker = self.data.player_controlled_by_mouse;
        let left_target: Option<i64> = match marker {
            Some(Player::Left) => Some(input.mouse_y),
            _ => None,
        };
        let right_target: Option<i64> = match marker {
            Some(Player::Right) => Some(input.mouse_y),
            _ => None,
        };
        let ldir = self.data.left_dir;
        let rdir = self.data.right_dir;
        self.left_paddle.update(&s, dt, ldir, left_target);
        self.right_paddle.update(&s, dt, rdir, right_target);
        self.data.left_y = self.left_paddle.y;
        self.data.right_y = self.right_paddle.y;
        let mut ev = TickEvents { hit_sound: None, wall_sound: None, death: false, spawned: false };
        let live: Option<Ball> = self.ball;
        match live {
            Some(ball) => {
                let outcome = ball.update_ball(&mut self.data, &mut self.timer, &s, dt, rng);
                ev.hit_sound = outcome.hit_sound;
                ev.wall_sound = outcome.wall_sound;
                ev.death = outcome.death;
                self.ball = outcome.ball;
            },
            None => {},
        }
        if self.ball.is_none() {
            match spawn_ball(&mut self.timer, &s, dt, rng) {
                Some(b) => {
                    self.ball = Some(b);
                    ev.spawned = true;
                },
                None => {},
            }
        }
        ev
    }
}

} // verus!
