//! The ball simulator. Each frame the ball advances by its velocity,
//! may reflect off the paddle on its side of the field, may leave the
//! field (scoring for the opponent and arming the respawn timer), and
//! may bounce off the top or bottom wall, gaining speed on every bounce.
//!
//! The collision test deliberately holds the ball's centre point against
//! the paddle's half-extents (not a true rectangle-against-rectangle
//! sweep), and a collision frame advances the position twice: once with
//! the old velocity to detect the hit, once with the reflected velocity.
//! Both are part of the game's feel, stated here as contracts and kept
//! as they are.

use vstd::prelude::*;

use crate::fixed::{
    abs, clamp, clamp_i64, is_sqrt, isqrt64, lemma_sqrt_bound, lemma_tdiv_abs_bound, mul_div,
    sqrt_floor, tdiv,
};
use crate::game::{GameData, Settings, DT_LIMIT, POS_LIMIT, SPEED_CAP, SPEED_LIMIT};
use crate::rng::rng_range;

verus! {

/// The ball: a position and a velocity, in thousandths.
#[derive(Clone, Copy)]
pub struct Ball {
    pub x: i64,
    pub y: i64,
    pub vx: i64,
    pub vy: i64,
}

impl Ball {
    /// Coordinates and velocity components within the hard bounds.
    pub open spec fn wf(self) -> bool {
        &&& -POS_LIMIT <= self.x <= POS_LIMIT
        &&& -POS_LIMIT <= self.y <= POS_LIMIT
        &&& -SPEED_LIMIT <= self.vx <= SPEED_LIMIT
        &&& -SPEED_LIMIT <= self.vy <= SPEED_LIMIT
    }
}

/// The repeating respawn countdown: armed only while no ball exists, it
/// accumulates elapsed time and fires once a full period has passed.
pub struct BallTimer {
    pub period_ms: i64,
    pub elapsed_ms: i64,
    pub armed: bool,
}

impl BallTimer {
    pub open spec fn wf(self) -> bool {
        &&& 0 < self.period_ms <= 1_000_000_000
        &&& 0 <= self.elapsed_ms < self.period_ms
    }

    /// A fresh countdown of the given period, armed so that the first
    /// ball spawns one period into the session.
    pub fn new(period_ms: i64) -> (r: BallTimer)
        requires
            0 < period_ms <= 1_000_000_000,
        ensures
            r.wf(),
            r.period_ms == period_ms,
            r.elapsed_ms == 0,
            r.armed,
    {
        BallTimer { period_ms, elapsed_ms: 0, armed: true }
    }
}

/// A position advanced by one frame's worth of a velocity.
pub open spec fn stepped(p: int, v: int, dt: int) -> int {
    p + tdiv(v * dt, 1000)
}

/// The speed a paddle hit sets: the current speed magnitude scaled by the
/// multiplier, saturating at `SPEED_CAP`.
pub open spec fn hit_speed(vx: int, vy: int, mult: int) -> int {
    let sp = sqrt_floor(vx * vx + vy * vy);
    let scaled = tdiv(sp * mult, 1000);
    if scaled > SPEED_CAP {
        SPEED_CAP as int
    } else {
        scaled
    }
}

/// The velocity after reflection off a paddle: the new speed is spread
/// over the offset from the paddle centre to the ball's pre-collision
/// position. An offset of zero length carries no direction, so it sends
/// the ball straight along x (a reflection at angle zero).
pub open spec fn reflected(speed: int, dx: int, dy: int) -> (int, int) {
    let dist = sqrt_floor(dx * dx + dy * dy);
    if dist == 0 {
        (speed, 0)
    } else {
        (tdiv(speed * dx, dist), tdiv(speed * dy, dist))
    }
}

/// The fourth root of a multiplier, in thousandths: the per-axis factor
/// of a wall bounce.
pub open spec fn fourth_root_milli(mult: int) -> int {
    sqrt_floor(sqrt_floor(mult * 1_000_000_000))
}

/// A velocity component scaled by a wall bounce, saturating at the hard
/// speed limit.
pub open spec fn bounced(v: int, fr: int) -> int {
    clamp(tdiv(v * fr, 1000), -SPEED_LIMIT as int, SPEED_LIMIT as int)
}

/// Everything one ball tick decides, as mathematical integers.
pub struct BallTick {
    pub hit: bool,
    pub removed: bool,
    pub scored_left: bool,
    pub scored_right: bool,
    pub bounced: bool,
    pub x: int,
    pub y: int,
    pub vx: int,
    pub vy: int,
}

/// The whole per-frame ball rule of the game, stated once: advance,
/// test the near paddle against the tentative centre, reflect on a hit
/// (advancing again), remove and score on leaving the field sideways,
/// bounce and speed up at the horizontal walls.
pub open spec fn ball_tick_model(b: Ball, dt: int, left_y: int, right_y: int, s: Settings) -> BallTick {
    let tx1 = stepped(b.x as int, b.vx as int, dt);
    let ty1 = stepped(b.y as int, b.vy as int, dt);
    let pcx: int = if tx1 < 0 {
        -s.paddle_x as int
    } else {
        s.paddle_x as int
    };
    let pcy: int = if tx1 < 0 {
        left_y
    } else {
        right_y
    };
    let hit = pcx - s.paddle_size_x < tx1 && tx1 < pcx + s.paddle_size_x && pcy - s.paddle_size_y
        < ty1 && ty1 < pcy + s.paddle_size_y;
    let rv = reflected(hit_speed(b.vx as int, b.vy as int, s.speed_multiplier as int), b.x - pcx, b.y - pcy);
    let vx1 = if hit {
        rv.0
    } else {
        b.vx as int
    };
    let vy1 = if hit {
        rv.1
    } else {
        b.vy as int
    };
    let tx2 = if hit {
        stepped(tx1, vx1, dt)
    } else {
        tx1
    };
    let ty2 = if hit {
        stepped(ty1, vy1, dt)
    } else {
        ty1
    };
    if tx2 - s.ball_size > s.play_width / 2 || tx2 + s.ball_size < -(s.play_width / 2) {
        BallTick {
            hit,
            removed: true,
            scored_left: tx2 >= 0,
            scored_right: tx2 < 0,
            bounced: false,
            x: tx2,
            y: ty2,
            vx: vx1,
            vy: vy1,
        }
    } else {
        let wall = ty2 + s.ball_size / 2 > s.play_height / 2 || ty2 - s.ball_size / 2 < -(
        s.play_height / 2);
        let fr = fourth_root_milli(s.speed_multiplier as int);
        let vx2 = if wall {
            bounced(vx1, fr)
        } else {
            vx1
        };
        let vy2 = if wall {
            bounced(-vy1, fr)
        } else {
            vy1
        };
        let tx3 = if wall {
            stepped(tx2, vx2, dt)
        } else {
            tx2
        };
        let ty3 = if wall {
            stepped(ty2, vy2, dt)
        } else {
            ty2
        };
        BallTick {
            hit,
            removed: false,
            scored_left: false,
            scored_right: false,
            bounced: wall,
            x: clamp(tx3, -POS_LIMIT as int, POS_LIMIT as int),
            y: clamp(ty3, -POS_LIMIT as int, POS_LIMIT as int),
            vx: vx2,
            vy: vy2,
        }
    }
}

/// A ball bouncing off the top or bottom wall: the vertical velocity's
/// sign flips, and the magnitude of each component scales by exactly the
/// fourth root of the speed multiplier (in thousandths, rounded toward
/// zero) — so the speed never shrinks. Stated away from the saturation
/// bound, where the scaled components still fit the hard speed limit.
pub proof fn lemma_wall_bounce(vx: int, vy: int, mult: int)
    requires
        1000 <= mult <= 100_000,
        abs(vx) <= SPEED_LIMIT,
        abs(vy) <= SPEED_LIMIT,
        abs(tdiv(vx * fourth_root_milli(mult), 1000)) <= SPEED_LIMIT,
        abs(tdiv(-vy * fourth_root_milli(mult), 1000)) <= SPEED_LIMIT,
    ensures
        ({
            let fr = fourth_root_milli(mult);
            &&& 1000 <= fr <= 3163
            &&& vy > 0 ==> bounced(-vy, fr) < 0
            &&& vy < 0 ==> bounced(-vy, fr) > 0
            &&& abs(bounced(-vy, fr)) == tdiv(abs(vy) * fr, 1000)
            &&& abs(bounced(vx, fr)) == tdiv(abs(vx) * fr, 1000)
            &&& abs(bounced(-vy, fr)) >= abs(vy)
            &&& abs(bounced(vx, fr)) >= abs(vx)
        }),
{
    let deep = mult * 1_000_000_000;
    lemma_sqrt_bound(deep, 10_000_000);
    let r1 = sqrt_floor(deep);
    lemma_sqrt_bound(r1, 3163);
    let fr = sqrt_floor(r1);
    assert(r1 >= 1_000_000) by (nonlinear_arith)
        requires
            is_sqrt(deep, r1),
            deep >= 1_000_000_000_000,
    ;
    assert(fr >= 1000) by (nonlinear_arith)
        requires
            is_sqrt(r1, fr),
            r1 >= 1_000_000,
    ;
    assert(abs(-vy * fr) == abs(vy) * fr && abs(vx * fr) == abs(vx) * fr && abs(vy) * fr >= abs(vy)
        * 1000 && abs(vx) * fr >= abs(vx) * 1000) by (nonlinear_arith)
        requires
            1000 <= fr,
    ;
    vstd::arithmetic::div_mod::lemma_div_is_ordered(abs(vy) * 1000, abs(vy) * fr, 1000);
    vstd::arithmetic::div_mod::lemma_div_is_ordered(abs(vx) * 1000, abs(vx) * fr, 1000);
    vstd::arithmetic::div_mod::lemma_div_multiples_vanish(abs(vy), 1000);
    vstd::arithmetic::div_mod::lemma_div_multiples_vanish(abs(vx), 1000);
    assert(abs(vy) * 1000 == 1000 * abs(vy) && abs(vx) * 1000 == 1000 * abs(vx))
        by (nonlinear_arith);
    assert((vy > 0 ==> -vy * fr == -(abs(vy) * fr) && abs(vy) * fr >= 1000) && (vy < 0 ==> -vy * fr
        == abs(vy) * fr && abs(vy) * fr >= 1000) && (vy == 0 ==> -vy * fr == 0 && abs(vy) * fr
        == 0) && (vx >= 0 ==> vx * fr == abs(vx) * fr && abs(vx) * fr >= 0) && (vx < 0 ==> vx * fr
        == -(abs(vx) * fr) && abs(vx) * fr >= 1000) && abs(vy) * fr >= 0) by (nonlinear_arith)
        requires
            1000 <= fr,
    ;
    vstd::arithmetic::div_mod::lemma_div_pos_is_pos(abs(vy) * fr, 1000);
    vstd::arithmetic::div_mod::lemma_div_pos_is_pos(abs(vx) * fr, 1000);
}

/// A paddle collision preserves ball speed up to the configured
/// multiplier: the reflected velocity's squared length brackets the
/// square of the scaled speed, up to one rounding unit per component
/// and the one-unit width of the integer square root. Stated below the
/// saturation cap, where the scaled speed is the multiplier applied to
/// the old speed's magnitude.
pub proof fn lemma_paddle_hit_preserves_speed(vx: int, vy: int, mult: int, dx: int, dy: int)
    requires
        1000 <= mult <= 100_000,
        abs(vx) <= SPEED_LIMIT,
        abs(vy) <= SPEED_LIMIT,
        dx * dx + dy * dy >= 1,
        tdiv(sqrt_floor(vx * vx + vy * vy) * mult, 1000) <= SPEED_CAP,
    ensures
        ({
            let s2 = hit_speed(vx, vy, mult);
            let nv = reflected(s2, dx, dy);
            let d = sqrt_floor(dx * dx + dy * dy);
            &&& s2 == tdiv(sqrt_floor(vx * vx + vy * vy) * mult, 1000)
            &&& d * d * (nv.0 * nv.0 + nv.1 * nv.1) <= s2 * s2 * ((d + 1) * (d + 1))
            &&& (abs(nv.0) + 1) * (abs(nv.0) + 1) + (abs(nv.1) + 1) * (abs(nv.1) + 1) > s2 * s2
        }),
{
    let vsq = vx * vx + vy * vy;
    assert(0 <= vsq && vsq <= (2 * SPEED_LIMIT) * (2 * SPEED_LIMIT)) by (nonlinear_arith)
        requires
            abs(vx) <= SPEED_LIMIT,
            abs(vy) <= SPEED_LIMIT,
            vsq == vx * vx + vy * vy,
    ;
    lemma_sqrt_bound(vsq, 2 * SPEED_LIMIT);
    let sp = sqrt_floor(vsq);
    assert(sp * mult >= 0) by (nonlinear_arith)
        requires
            sp >= 0,
            mult >= 0,
    ;
    vstd::arithmetic::div_mod::lemma_div_pos_is_pos(sp * mult, 1000);
    let s2 = hit_speed(vx, vy, mult);
    assert(s2 == tdiv(sp * mult, 1000) && s2 >= 0);

    let n = dx * dx + dy * dy;
    assert(n <= n * n) by (nonlinear_arith)
        requires
            n >= 1,
    ;
    lemma_sqrt_bound(n, n);
    let d = sqrt_floor(n);
    assert(d >= 1) by (nonlinear_arith)
        requires
            is_sqrt(n, d),
            n >= 1,
    ;
    let nv = reflected(s2, dx, dy);
    let adx = abs(dx);
    let ady = abs(dy);
    assert(abs(s2 * dx) == s2 * adx && abs(s2 * dy) == s2 * ady && s2 * adx >= 0 && s2 * ady >= 0)
        by (nonlinear_arith)
        requires
            s2 >= 0,
            adx == abs(dx),
            ady == abs(dy),
    ;
    vstd::arithmetic::div_mod::lemma_div_pos_is_pos(s2 * adx, d);
    vstd::arithmetic::div_mod::lemma_div_pos_is_pos(s2 * ady, d);
    let qx = abs(nv.0);
    let qy = abs(nv.1);
    assert(qx == (s2 * adx) / d && qy == (s2 * ady) / d);
    vstd::arithmetic::div_mod::lemma_fundamental_div_mod(s2 * adx, d);
    vstd::arithmetic::div_mod::lemma_remainder_upper(s2 * adx, d);
    vstd::arithmetic::div_mod::lemma_remainder_lower(s2 * adx, d);
    vstd::arithmetic::div_mod::lemma_fundamental_div_mod(s2 * ady, d);
    vstd::arithmetic::div_mod::lemma_remainder_upper(s2 * ady, d);
    vstd::arithmetic::div_mod::lemma_remainder_lower(s2 * ady, d);
    assert(d * qx <= s2 * adx < d * (qx + 1) && d * qy <= s2 * ady < d * (qy + 1))
        by (nonlinear_arith)
        requires
            s2 * adx == d * ((s2 * adx) / d) + (s2 * adx) % d,
            s2 * ady == d * ((s2 * ady) / d) + (s2 * ady) % d,
            0 <= (s2 * adx) % d < d,
            0 <= (s2 * ady) % d < d,
            qx == (s2 * adx) / d,
            qy == (s2 * ady) / d,
            d >= 1,
    ;
    // upper bound: d²·|nv|² <= s2²·n <= s2²·(d+1)²
    assert((d * qx) * (d * qx) <= (s2 * adx) * (s2 * adx) && (d * qy) * (d * qy) <= (s2 * ady) * (
    s2 * ady)) by (nonlinear_arith)
        requires
            d >= 1,
            qx >= 0,
            qy >= 0,
            d * qx <= s2 * adx,
            d * qy <= s2 * ady,
    ;
    assert((d * qx) * (d * qx) == d * d * (qx * qx) && (d * qy) * (d * qy) == d * d * (qy * qy)
        && (s2 * adx) * (s2 * adx) == s2 * s2 * (adx * adx) && (s2 * ady) * (s2 * ady) == s2 * s2
        * (ady * ady) && d * d * (qx * qx + qy * qy) == d * d * (qx * qx) + d * d * (qy * qy))
        by (nonlinear_arith);
    assert(adx * adx == dx * dx && ady * ady == dy * dy) by (nonlinear_arith)
        requires
            adx == abs(dx),
            ady == abs(dy),
    ;
    assert(s2 * s2 * (dx * dx) + s2 * s2 * (dy * dy) == s2 * s2 * n) by (nonlinear_arith)
        requires
            n == dx * dx + dy * dy,
    ;
    assert(s2 * s2 * n <= s2 * s2 * ((d + 1) * (d + 1))) by (nonlinear_arith)
        requires
            n < (d + 1) * (d + 1),
            s2 >= 0,
    ;
    assert(qx * qx == nv.0 * nv.0 && qy * qy == nv.1 * nv.1) by (nonlinear_arith)
        requires
            qx == abs(nv.0),
            qy == abs(nv.1),
    ;
    // lower bound: s2²·d² <= s2²·n < d²·((qx+1)² + (qy+1)²)
    assert((s2 * adx) * (s2 * adx) < (d * (qx + 1)) * (d * (qx + 1)) && (s2 * ady) * (s2 * ady) < (
    d * (qy + 1)) * (d * (qy + 1))) by (nonlinear_arith)
        requires
            0 <= s2 * adx < d * (qx + 1),
            0 <= s2 * ady < d * (qy + 1),
    ;
    assert((d * (qx + 1)) * (d * (qx + 1)) == d * d * ((qx + 1) * (qx + 1)) && (d * (qy + 1)) * (d
        * (qy + 1)) == d * d * ((qy + 1) * (qy + 1)) && d * d * ((qx + 1) * (qx + 1) + (qy + 1) * (
    qy + 1)) == d * d * ((qx + 1) * (qx + 1)) + d * d * ((qy + 1) * (qy + 1))) by (nonlinear_arith);
    assert(s2 * s2 * (d * d) <= s2 * s2 * n) by (nonlinear_arith)
        requires
            d * d <= n,
            s2 >= 0,
    ;
    assert((qx + 1) * (qx + 1) + (qy + 1) * (qy + 1) > s2 * s2) by (nonlinear_arith)
        requires
            s2 * s2 * (d * d) < d * d * ((qx + 1) * (qx + 1) + (qy + 1) * (qy + 1)),
            d >= 1,
    ;
}

/// What one ball tick hands back to the host: the surviving ball (if
/// any) and the sound events to fire.
pub struct BallOutcome {
    pub ball: Option<Ball>,
    pub hit_sound: Option<i64>,
    pub wall_sound: Option<i64>,
    pub death: bool,
}

/// One frame's position advance, bounds carried along.
fn step_pos(p: i64, v: i64, dt: i64) -> (r: i64)
    requires
        -2_000_000_000 <= p <= 2_000_000_000,
        -SPEED_LIMIT <= v <= SPEED_LIMIT,
        0 <= dt <= DT_LIMIT,
    ensures
        r == stepped(p as int, v as int, dt as int),
        abs(r as int) <= abs(p as int) + 200_000_000,
{
    assert(-0x7fff_ffff_ffff_ffff <= v * dt <= 0x7fff_ffff_ffff_ffff && abs(v * dt) <= SPEED_LIMIT
        * DT_LIMIT) by (nonlinear_arith)
        requires
            -SPEED_LIMIT <= v <= SPEED_LIMIT,
            0 <= dt <= DT_LIMIT,
    ;
    let sv: i64 = mul_div(v, dt, 1000);
    proof {
        lemma_tdiv_abs_bound(v as int * dt as int, 1000, 200_000_000);
    }
    p + sv
}

impl Ball {
    /// Advance the ball by one frame, resolving paddle reflection, the
    /// sideways exits that score, and wall bounces — exactly
    /// `ball_tick_model` of the state this tick read. A ball whose
    /// tentative position leaves the field on the right scores one point
    /// for the left player and is removed, and symmetrically; each sound
    /// event carries a variant drawn from the injected generator.
    pub fn update_ball(
        &self,
        data: &mut GameData,
        timer: &mut BallTimer,
        s: &Settings,
        dt: i64,
        rng: &mut rand::rngs::StdRng,
    ) -> (r: BallOutcome)
        requires
            s.wf(),
            self.wf(),
            old(data).wf(),
            old(timer).wf(),
            0 <= dt <= DT_LIMIT,
            old(data).left_score < u32::MAX,
            old(data).right_score < u32::MAX,
        ensures
            ({
                let m = ball_tick_model(*self, dt as int, old(data).left_y as int, old(data).right_y as int, *s);
                &&& r.death == m.removed
                &&& m.removed <==> r.ball is None
                &&& !m.removed ==> {
                    &&& r.ball->Some_0.x == m.x
                    &&& r.ball->Some_0.y == m.y
                    &&& r.ball->Some_0.vx == m.vx
                    &&& r.ball->Some_0.vy == m.vy
                    &&& r.ball->Some_0.wf()
                }
                &&& r.hit_sound is Some <==> m.hit
                &&& m.hit ==> 0 <= r.hit_sound->Some_0 < 3
                &&& r.wall_sound is Some <==> m.bounced
                &&& m.bounced ==> 0 <= r.wall_sound->Some_0 < 6
                &&& final(data).left_score == old(data).left_score + (if m.scored_left {
                    1int
                } else {
                    0int
                })
                &&& final(data).right_score == old(data).right_score + (if m.scored_right {
                    1int
                } else {
                    0int
                })
                &&& m.removed ==> final(data).should_update_scores
                &&& !m.removed ==> final(data).should_update_scores == old(
                    data,
                ).should_update_scores
                &&& final(data).left_dir == old(data).left_dir
                &&& final(data).right_dir == old(data).right_dir
                &&& final(data).left_y == old(data).left_y
                &&& final(data).right_y == old(data).right_y
                &&& final(data).player_controlled_by_mouse == old(
                    data,
                ).player_controlled_by_mouse
                &&& final(timer).armed == (old(timer).armed || m.removed)
                &&& final(timer).period_ms == old(timer).period_ms
                &&& final(timer).elapsed_ms == old(timer).elapsed_ms
                &&& final(timer).wf()
                &&& m.removed && m.x >= 0 ==> final(data).left_score == old(data).left_score + 1
                    && r.ball is None
                &&& m.removed && m.x < 0 ==> final(data).right_score == old(data).right_score + 1
                    && r.ball is None
            }),
    {
        let ghost m = ball_tick_model(*self, dt as int, data.left_y as int, data.right_y as int, *s);
        let mut bx: i64 = step_pos(self.x, self.vx, dt);
        let mut by: i64 = step_pos(self.y, self.vy, dt);
        let pcx: i64 = if bx < 0 {
            -s.paddle_x
        } else {
            s.paddle_x
        };
        let pcy: i64 = if bx < 0 {
            data.left_y
        } else {
            data.right_y
        };
        let mut vx: i64 = self.vx;
        let mut vy: i64 = self.vy;
        let mut hit_sound: Option<i64> = None;
        let hit: bool = bx > pcx - s.paddle_size_x && bx < pcx + s.paddle_size_x && by > pcy
            - s.paddle_size_y && by < pcy + s.paddle_size_y;
        if hit {
            assert(0 <= vx * vx <= SPEED_LIMIT * SPEED_LIMIT && 0 <= vy * vy <= SPEED_LIMIT
                * SPEED_LIMIT) by (nonlinear_arith)
                requires
                    -SPEED_LIMIT <= vx <= SPEED_LIMIT,
                    -SPEED_LIMIT <= vy <= SPEED_LIMIT,
            ;
            let vsq: i64 = vx * vx + vy * vy;
            let sp_u: u64 = isqrt64(vsq as u64);
            proof {
                lemma_sqrt_bound(vsq as int, 30_000_000);
            }
            let sp: i64 = sp_u as i64;
            assert(0 <= sp * s.speed_multiplier <= 3_000_000_000_000) by (nonlinear_arith)
                requires
                    0 <= sp <= 30_000_000,
                    0 <= s.speed_multiplier <= 100_000,
            ;
            let scaled: i64 = mul_div(sp, s.speed_multiplier, 1000);
            let sp2: i64 = if scaled > SPEED_CAP {
                SPEED_CAP
            } else {
                scaled
            };
            assert(sp2 == hit_speed(self.vx as int, self.vy as int, s.speed_multiplier as int));
            assert(0 <= sp2 <= SPEED_CAP) by {
                vstd::arithmetic::div_mod::lemma_div_pos_is_pos(sp as int * s.speed_multiplier as int, 1000);
                assert(sp as int * s.speed_multiplier as int >= 0) by (nonlinear_arith)
                    requires
                        sp >= 0,
                        s.speed_multiplier >= 0,
                ;
            };
            let dx: i64 = self.x - pcx;
            let dy: i64 = self.y - pcy;
            assert(0 <= dx * dx <= 2_000_000_000_000_000_000 && 0 <= dy * dy
                <= 5_000_000_000_000_000_000) by (nonlinear_arith)
                requires
                    abs(dx as int) <= 1_200_000_000,
                    abs(dy as int) <= 2_000_000_001,
            ;
            let dsq: i64 = dx * dx + dy * dy;
            let dist_u: u64 = isqrt64(dsq as u64);
            proof {
                lemma_sqrt_bound(dsq as int, 3_000_000_000);
            }
            let dist: i64 = dist_u as i64;
            if dist == 0 {
                vx = sp2;
                vy = 0;
            } else {
                // the offset components are no longer than the offset length
                assert(abs(dx as int) <= dist && abs(dy as int) <= dist) by (nonlinear_arith)
                    requires
                        is_sqrt((dx * dx + dy * dy) as int, dist as int),
                        dist >= 1,
                ;
                assert(abs(sp2 * dx) <= sp2 * dist && abs(sp2 * dy) <= sp2 * dist && sp2 * dist
                    <= 0x7fff_ffff_ffff_ffff) by (nonlinear_arith)
                    requires
                        0 <= sp2 <= SPEED_CAP,
                        abs(dx as int) <= dist,
                        abs(dy as int) <= dist,
                        1 <= dist <= 3_000_000_000,
                ;
                vx = mul_div(sp2, dx, dist);
                vy = mul_div(sp2, dy, dist);
                proof {
                    lemma_tdiv_abs_bound(sp2 as int * dx as int, dist as int, sp2 as int);
                    lemma_tdiv_abs_bound(sp2 as int * dy as int, dist as int, sp2 as int);
                }
            }
            assert((vx as int, vy as int) == reflected(sp2 as int, dx as int, dy as int));
            hit_sound = Some(rng_range(rng, 0, 3));
            bx = step_pos(bx, vx, dt);
            by = step_pos(by, vy, dt);
        }
        let half_w: i64 = s.play_width / 2;
        if bx - s.ball_size > half_w || bx + s.ball_size < -half_w {
            timer.armed = true;
            if bx < 0 {
                data.right_score = data.right_score + 1;
            } else {
                data.left_score = data.left_score + 1;
            }
            data.should_update_scores = true;
            return BallOutcome { ball: None, hit_sound, wall_sound: None, death: true };
        }
        let mut wall_sound: Option<i64> = None;
        let half_h: i64 = s.play_height / 2;
        let half_ball: i64 = s.ball_size / 2;
        if by + half_ball > half_h || by - half_ball < -half_h {
            let deep: i64 = s.speed_multiplier * 1_000_000_000;
            let r1: u64 = isqrt64(deep as u64);
            proof {
                lemma_sqrt_bound(deep as int, 10_000_000);
            }
            let fr_u: u64 = isqrt64(r1);
            proof {
                lemma_sqrt_bound(r1 as int, 3163);
            }
            let fr: i64 = fr_u as i64;
            assert(fr == fourth_root_milli(s.speed_multiplier as int));
            assert(-0x7fff_ffff_ffff_ffff <= (-(vy as int)) * fr <= 0x7fff_ffff_ffff_ffff
                && -0x7fff_ffff_ffff_ffff <= vx * fr <= 0x7fff_ffff_ffff_ffff)
                by (nonlinear_arith)
                requires
                    -SPEED_LIMIT <= vx <= SPEED_LIMIT,
                    -SPEED_LIMIT <= vy <= SPEED_LIMIT,
                    0 <= fr <= 3163,
            ;
            let nvy: i64 = clamp_i64(mul_div(-vy, fr, 1000), -SPEED_LIMIT, SPEED_LIMIT);
            let nvx: i64 = clamp_i64(mul_div(vx, fr, 1000), -SPEED_LIMIT, SPEED_LIMIT);
            vy = nvy;
            vx = nvx;
            bx = step_pos(bx, vx, dt);
            by = step_pos(by, vy, dt);
            wall_sound = Some(rng_range(rng, 0, 6));
        }
        let fx: i64 = clamp_i64(bx, -POS_LIMIT, POS_LIMIT);
        let fy: i64 = clamp_i64(by, -POS_LIMIT, POS_LIMIT);
        BallOutcome {
            ball: Some(Ball { x: fx, y: fy, vx, vy }),
            hit_sound,
            wall_sound,
            death: false,
        }
    }
}

/// Tick the respawn countdown and, when a full period has accumulated,
/// spawn the new ball: centred horizontally, at a random height inset
/// twice the ball size from the walls, with per-axis random speeds that
/// share one random sign.
pub fn spawn_ball(
    timer: &mut BallTimer,
    s: &Settings,
    dt: i64,
    rng: &mut rand::rngs::StdRng,
) -> (r: Option<Ball>)
    requires
        s.wf(),
        old(timer).wf(),
        0 <= dt <= DT_LIMIT,
    ensures
        final(timer).wf(),
        final(timer).period_ms == old(timer).period_ms,
        !old(timer).armed ==> r is None && *final(timer) == *old(timer),
        old(timer).armed && old(timer).elapsed_ms + dt < old(timer).period_ms ==> {
            &&& r is None
            &&& final(timer).armed
            &&& final(timer).elapsed_ms == old(timer).elapsed_ms + dt
        },
        old(timer).armed && old(timer).elapsed_ms + dt >= old(timer).period_ms ==> {
            &&& r is Some
            &&& !final(timer).armed
            &&& final(timer).elapsed_ms == 0
            &&& r->Some_0.wf()
            &&& r->Some_0.x == 0
            &&& -(s.play_height / 2) + s.ball_size * 2 <= r->Some_0.y < s.play_height / 2
                - s.ball_size * 2
            &&& s.min_spawn_speed_x <= abs(r->Some_0.vx as int) < s.max_spawn_speed_x
            &&& s.min_spawn_speed_y <= abs(r->Some_0.vy as int) < s.max_spawn_speed_y
            &&& (r->Some_0.vx >= 0 && r->Some_0.vy >= 0) || (r->Some_0.vx <= 0 && r->Some_0.vy
                <= 0)
        },
{
    if !timer.armed {
        return None;
    }
    let e: i64 = timer.elapsed_ms + dt;
    if e < timer.period_ms {
        timer.elapsed_ms = e;
        return None;
    }
    timer.elapsed_ms = 0;
    timer.armed = false;
    let half_h: i64 = s.play_height / 2;
    let inset: i64 = s.ball_size * 2;
    let y: i64 = rng_range(rng, -half_h + inset, half_h - inset);
    let pick: i64 = rng_range(rng, 0, 2);
    let dvx: i64 = rng_range(rng, s.min_spawn_speed_x, s.max_spawn_speed_x);
    let dvy: i64 = rng_range(rng, s.min_spawn_speed_y, s.max_spawn_speed_y);
    let (vx, vy): (i64, i64) = if pick == 0 {
        (-dvx, -dvy)
    } else {
        (dvx, dvy)
    };
    Some(Ball { x: 0, y, vx, vy })
}

} // verus!
