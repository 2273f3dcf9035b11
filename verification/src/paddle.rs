//! The paddle controller. Each frame a paddle integrates its speed from a
//! direction input, loses speed to friction, moves (either freely or toward
//! the pointer), and is stopped dead at the play-area walls.
//!
//! Two quirks are part of the game's feel and are kept on purpose: a
//! mouse-controlled paddle divides friction by the direction input (with
//! friction skipped entirely when that input is exactly zero, since a
//! quotient means nothing there), and a paddle that reaches a wall has
//! its speed zeroed rather than bouncing.

use vstd::prelude::*;

use crate::fixed::{abs, clamp, clamp_i64, mul_div, tdiv};
use crate::game::{Player, Settings, ACCEL_LIMIT, DIM_LIMIT, DT_LIMIT, POS_LIMIT, SPEED_LIMIT};

verus! {

/// A paddle: its player identity, its signed vertical speed
/// (milli-pixels per second), and its vertical position (milli-pixels).
pub struct Paddle {
    pub player: Player,
    pub speed: i64,
    pub y: i64,
}

/// Half the vertical room a paddle centre has: positions are clamped to
/// `[-wall_bound, wall_bound]`.
pub open spec fn wall_bound(s: Settings) -> int {
    (s.play_height - s.paddle_size_y) / 2
}

/// Speed after integrating the direction input, clamped to the speed limit
/// of the settings.
pub open spec fn integrated_speed(speed: int, dir: int, s: Settings, dt: int) -> int {
    clamp(speed + tdiv(dir * s.paddle_acceleration * dt, 1_000_000), -s.max_paddle_speed as int, s.max_paddle_speed as int)
}

/// The friction rate a paddle feels: the configured rate, except that a
/// mouse-controlled paddle divides it by the direction input (zero input
/// skips friction entirely).
pub open spec fn friction_rate(s: Settings, dir: int, mouse_controlled: bool) -> int {
    if mouse_controlled {
        if dir == 0 {
            0
        } else if dir < 0 {
            -(s.friction * 1000 / (-dir))
        } else {
            s.friction * 1000 / dir
        }
    } else {
        s.friction as int
    }
}

/// Speed after one friction step: friction opposes the sign of the speed
/// and never pushes it past zero; the result saturates at the hard limit.
pub open spec fn frictioned_speed(speed: int, rate: int, dt: int) -> int {
    let step = tdiv(rate * dt, 1000);
    let s1 = if speed > 0 {
        if speed - step < 0 {
            0
        } else {
            speed - step
        }
    } else {
        speed
    };
    let s2 = if s1 < 0 {
        if s1 + step > 0 {
            0
        } else {
            s1 + step
        }
    } else {
        s1
    };
    clamp(s2, -SPEED_LIMIT as int, SPEED_LIMIT as int)
}

/// Position after one movement step. A free paddle just integrates its
/// speed; a mouse-controlled paddle moves toward the pointer and never
/// passes it.
pub open spec fn moved_y(y: int, speed: int, dt: int, mouse_y: Option<i64>) -> int {
    let step = tdiv(speed * dt, 1000);
    match mouse_y {
        Option::Some(my) => {
            if y > my {
                if y + step < my {
                    my as int
                } else {
                    y + step
                }
            } else if y < my {
                if y + step > my {
                    my as int
                } else {
                    y + step
                }
            } else {
                y
            }
        },
        Option::None => y + step,
    }
}

/// The whole per-frame paddle rule: integrate, rub, move, stop at walls.
/// Returns the new `(speed, y)` pair.
pub open spec fn paddle_model(
    speed: int,
    y: int,
    dir: int,
    dt: int,
    s: Settings,
    mouse_y: Option<i64>,
) -> (int, int) {
    let s1 = integrated_speed(speed, dir, s, dt);
    let s2 = frictioned_speed(s1, friction_rate(s, dir, mouse_y is Some), dt);
    let y1 = moved_y(y, s2, dt, mouse_y);
    let s3 = if mouse_y is Some && y1 == mouse_y->Some_0 {
        0
    } else {
        s2
    };
    let b = wall_bound(s);
    if y1 > b {
        (0, b)
    } else if y1 < -b {
        (0, -b)
    } else {
        (s3, y1)
    }
}

impl Paddle {
    /// A paddle starts centred and at rest.
    pub fn new(player: Player) -> (r: Paddle)
        ensures
            r.player == player,
            r.speed == 0,
            r.y == 0,
    {
        Paddle { player, speed: 0, y: 0 }
    }

    /// Integrate the direction input into the speed. For every input the
    /// resulting speed lies within the configured maximum.
    pub fn integrate_speed(&mut self, s: &Settings, dt: i64, dir: i64)
        requires
            s.wf(),
            0 <= dt <= DT_LIMIT,
            -1000 <= dir <= 1000,
            -SPEED_LIMIT <= old(self).speed <= SPEED_LIMIT,
        ensures
            final(self).speed == integrated_speed(old(self).speed as int, dir as int, *s, dt as int),
            -s.max_paddle_speed <= final(self).speed <= s.max_paddle_speed,
            final(self).y == old(self).y,
            final(self).player == old(self).player,
    {
        assert(-1000 * ACCEL_LIMIT <= dir * s.paddle_acceleration <= 1000 * ACCEL_LIMIT)
            by (nonlinear_arith)
            requires
                -1000 <= dir <= 1000,
                0 <= s.paddle_acceleration <= ACCEL_LIMIT,
        ;
        let p: i64 = dir * s.paddle_acceleration;
        assert(-0x7fff_ffff_ffff_ffff <= p * dt <= 0x7fff_ffff_ffff_ffff) by (nonlinear_arith)
            requires
                -1000 * ACCEL_LIMIT <= p <= 1000 * ACCEL_LIMIT,
                0 <= dt <= DT_LIMIT,
        ;
        let delta: i64 = mul_div(p, dt, 1_000_000);
        assert(abs(delta as int) <= 1_000_000_000) by {
            assert(abs(p * dt) <= 1_000_000_000_000_000) by (nonlinear_arith)
                requires
                    -1000 * ACCEL_LIMIT <= p <= 1000 * ACCEL_LIMIT,
                    0 <= dt <= DT_LIMIT,
            ;
        };
        self.speed = clamp_i64(self.speed + delta, -s.max_paddle_speed, s.max_paddle_speed);
    }

    /// Apply one friction step against the current sign of the speed.
    pub fn apply_friction(&mut self, s: &Settings, dt: i64, dir: i64, mouse_controlled: bool)
        requires
            s.wf(),
            0 <= dt <= DT_LIMIT,
            -1000 <= dir <= 1000,
            -SPEED_LIMIT <= old(self).speed <= SPEED_LIMIT,
        ensures
            final(self).speed == frictioned_speed(
                old(self).speed as int,
                friction_rate(*s, dir as int, mouse_controlled),
                dt as int,
            ),
            -SPEED_LIMIT <= final(self).speed <= SPEED_LIMIT,
            final(self).y == old(self).y,
            final(self).player == old(self).player,
    {
        let rate: i64 = if mouse_controlled {
            if dir == 0 {
                0
            } else if dir < 0 {
                -mul_div(s.friction, 1000, -dir)
            } else {
                mul_div(s.friction, 1000, dir)
            }
        } else {
            s.friction
        };
        assert(rate == friction_rate(*s, dir as int, mouse_controlled));
        assert(abs(rate as int) <= ACCEL_LIMIT * 1000) by {
            if mouse_controlled && dir != 0 {
                assert(abs(rate as int) <= s.friction * 1000) by (nonlinear_arith)
                    requires
                        dir != 0,
                        -1000 <= dir <= 1000,
                        0 <= s.friction,
                        rate == friction_rate(*s, dir as int, mouse_controlled),
                        friction_rate(*s, dir as int, mouse_controlled) == (if dir < 0 {
                            -(s.friction * 1000 / (-dir as int))
                        } else {
                            s.friction * 1000 / (dir as int)
                        }),
                ;
            }
        };
        assert(-0x7fff_ffff_ffff_ffff <= rate * dt <= 0x7fff_ffff_ffff_ffff) by (nonlinear_arith)
            requires
                abs(rate as int) <= ACCEL_LIMIT * 1000,
                0 <= dt <= DT_LIMIT,
        ;
        let step: i64 = mul_div(rate, dt, 1000);
        assert(abs(step as int) <= 0x7fff_ffff_ffff_ffffint / 1000);
        if self.speed > 0 {
            self.speed = self.speed - step;
            if self.speed < 0 {
                self.speed = 0;
            }
        }
        if self.speed < 0 {
            self.speed = self.speed + step;
            if self.speed > 0 {
                self.speed = 0;
            }
        }
        self.speed = clamp_i64(self.speed, -SPEED_LIMIT, SPEED_LIMIT);
    }

    /// Move for one frame: freely, or toward the pointer without ever
    /// passing it (reaching the pointer exactly zeroes the speed).
    pub fn move_paddle(&mut self, dt: i64, mouse_y: Option<i64>)
        requires
            0 <= dt <= DT_LIMIT,
            -SPEED_LIMIT <= old(self).speed <= SPEED_LIMIT,
            -POS_LIMIT <= old(self).y <= POS_LIMIT,
            mouse_y is Some ==> -POS_LIMIT <= mouse_y->Some_0 <= POS_LIMIT,
        ensures
            final(self).y == moved_y(old(self).y as int, old(self).speed as int, dt as int, mouse_y),
            final(self).speed == (if mouse_y is Some && final(self).y == mouse_y->Some_0 {
                0
            } else {
                old(self).speed
            }),
            final(self).player == old(self).player,
    {
        assert(-0x7fff_ffff_ffff_ffff <= self.speed * dt <= 0x7fff_ffff_ffff_ffff)
            by (nonlinear_arith)
            requires
                -SPEED_LIMIT <= self.speed <= SPEED_LIMIT,
                0 <= dt <= DT_LIMIT,
        ;
        let step: i64 = mul_div(self.speed, dt, 1000);
        assert(abs((self.speed * dt) as int) <= SPEED_LIMIT * DT_LIMIT) by (nonlinear_arith)
            requires
                -SPEED_LIMIT <= self.speed <= SPEED_LIMIT,
                0 <= dt <= DT_LIMIT,
        ;
        assert(abs(step as int) <= SPEED_LIMIT * DT_LIMIT / 1000);
        match mouse_y {
            Option::Some(my) => {
                if self.y > my {
                    let moved: i64 = self.y + step;
                    self.y = if moved < my {
                        my
                    } else {
                        moved
                    };
                } else if self.y < my {
                    let moved: i64 = self.y + step;
                    self.y = if moved > my {
                        my
                    } else {
                        moved
                    };
                }
                if self.y == my {
                    self.speed = 0;
                }
            },
            Option::None => {
                self.y = self.y + step;
            },
        }
    }

    /// Stop dead at the play-area walls: the final position always lies
    /// within `[-wall_bound, wall_bound]`, and the speed is exactly zero
    /// whenever clamping occurred.
    pub fn clamp_to_walls(&mut self, s: &Settings)
        requires
            s.wf(),
        ensures
            -wall_bound(*s) <= final(self).y <= wall_bound(*s),
            old(self).y > wall_bound(*s) || old(self).y < -wall_bound(*s) ==> final(self).speed
                == 0,
            !(old(self).y > wall_bound(*s) || old(self).y < -wall_bound(*s)) ==> *final(self)
                == *old(self),
            final(self).y == clamp(old(self).y as int, -wall_bound(*s), wall_bound(*s)),
            final(self).player == old(self).player,
    {
        let bound: i64 = (s.play_height - s.paddle_size_y) / 2;
        if self.y > bound {
            self.speed = 0;
            self.y = bound;
        } else if self.y < -bound {
            self.speed = 0;
            self.y = -bound;
        }
    }

    /// The whole per-frame paddle update, exactly `paddle_model`.
    pub fn update(&mut self, s: &Settings, dt: i64, dir: i64, mouse_y: Option<i64>)
        requires
            s.wf(),
            0 <= dt <= DT_LIMIT,
            -1000 <= dir <= 1000,
            -SPEED_LIMIT <= old(self).speed <= SPEED_LIMIT,
            -POS_LIMIT <= old(self).y <= POS_LIMIT,
            mouse_y is Some ==> -POS_LIMIT <= mouse_y->Some_0 <= POS_LIMIT,
        ensures
            (final(self).speed as int, final(self).y as int) == paddle_model(
                old(self).speed as int,
                old(self).y as int,
                dir as int,
                dt as int,
                *s,
                mouse_y,
            ),
            -SPEED_LIMIT <= final(self).speed <= SPEED_LIMIT,
            -wall_bound(*s) <= final(self).y <= wall_bound(*s),
            final(self).player == old(self).player,
    {
        self.integrate_speed(s, dt, dir);
        self.apply_friction(s, dt, dir, mouse_y.is_some());
        self.move_paddle(dt, mouse_y);
        self.clamp_to_walls(s);
    }
}

} // verus!
