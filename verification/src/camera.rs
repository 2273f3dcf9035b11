//! The camera controller: wheel zoom toward the cursor, smoothed panning
//! and zooming, middle-mouse dragging, keyboard panning, and a "fly to a
//! target" mode. All values are thousandths; a few results saturate at
//! hard bounds so that every step stays exact in an `i64`, each such
//! guard noted where it stands.

use vstd::prelude::*;

use crate::fixed::{abs, clamp, clamp_i64, isqrt64, mul_div, sqrt_floor, tdiv};
use crate::game::{DT_LIMIT, POS_LIMIT};

verus! {

/// Deepest scale the zoom may reach (a billionfold, in thousandths).
pub const SCALE_CAP: i64 = 1_000_000_000_000;

/// The camera tunables and accumulated motion state.
#[derive(Clone, Copy)]
pub struct CameraSettings {
    pub speed: i64,
    pub scale_speed: i64,
    pub scale_multiplier: i64,
    pub max_zoom: i64,
    pub min_zoom: i64,
    pub target_scale: i64,
    pub zoom_smoothing: i64,
    pub position_difference_x: i64,
    pub position_difference_y: i64,
    pub middle_mouse_start_x: i64,
    pub middle_mouse_start_y: i64,
    pub target_position_x: i64,
    pub target_position_y: i64,
    pub desired_scale: i64,
    pub is_going_to_target_position: bool,
}

/// The cursor's position in world coordinates, as the camera needs it.
#[derive(Clone, Copy)]
pub struct CursorWorldPosition {
    pub x: i64,
    pub y: i64,
}

impl CameraSettings {
    /// Bounds under which every camera formula stays exact in an `i64`.
    pub open spec fn wf(self) -> bool {
        &&& 1000 <= self.scale_speed <= 10_000
        &&& 0 <= self.max_zoom <= 64
        &&& 0 <= self.min_zoom <= 64
        &&& 1 <= self.zoom_smoothing <= 1_000_000
        &&& 0 <= self.speed <= 100_000_000
        &&& 1000 <= self.scale_multiplier <= 1_000_000
        &&& 1 <= self.target_scale <= SCALE_CAP
        &&& 0 <= self.desired_scale <= SCALE_CAP
        &&& -POS_LIMIT <= self.position_difference_x <= POS_LIMIT
        &&& -POS_LIMIT <= self.position_difference_y <= POS_LIMIT
        &&& -POS_LIMIT <= self.middle_mouse_start_x <= POS_LIMIT
        &&& -POS_LIMIT <= self.middle_mouse_start_y <= POS_LIMIT
        &&& -POS_LIMIT <= self.target_position_x <= POS_LIMIT
        &&& -POS_LIMIT <= self.target_position_y <= POS_LIMIT
    }

    /// The tuning the controller ships with, in thousandths.
    pub open spec fn spec_default() -> CameraSettings {
        CameraSettings {
            speed: 200_000,
            scale_speed: 1200,
            max_zoom: 40,
            min_zoom: 30,
            scale_multiplier: 2000,
            target_scale: 5000,
            zoom_smoothing: 75,
            position_difference_x: 0,
            position_difference_y: 0,
            middle_mouse_start_x: 0,
            middle_mouse_start_y: 0,
            target_position_x: 0,
            target_position_y: 0,
            desired_scale: 1000,
            is_going_to_target_position: false,
        }
    }
}

impl Default for CameraSettings {
    fn default() -> (r: CameraSettings)
        ensures
            r == CameraSettings::spec_default(),
            r.wf(),
    {
        CameraSettings {
            speed: 200_000,
            scale_speed: 1200,
            max_zoom: 40,
            min_zoom: 30,
            scale_multiplier: 2000,
            target_scale: 5000,
            zoom_smoothing: 75,
            position_difference_x: 0,
            position_difference_y: 0,
            middle_mouse_start_x: 0,
            middle_mouse_start_y: 0,
            target_position_x: 0,
            target_position_y: 0,
            desired_scale: 1000,
            is_going_to_target_position: false,
        }
    }
}

/// What camera setup does once the camera exists: the zoom target
/// starts at the configured scale multiplier.
pub fn camera_setup(camera_settings: &mut CameraSettings)
    requires
        old(camera_settings).wf(),
    ensures
        *final(camera_settings) == (CameraSettings {
            target_scale: old(camera_settings).scale_multiplier,
            ..*old(camera_settings)
        }),
        final(camera_settings).wf(),
{
    camera_settings.target_scale = camera_settings.scale_multiplier;
}

/// Reset the controller and send the camera flying to a world position,
/// optionally at a chosen zoom (scaled by the configured multiplier);
/// without one, the reset tuning's target scale takes its place.
pub fn go_to_target_position(
    target_x: i64,
    target_y: i64,
    camera_settings: &mut CameraSettings,
    desired_scale: Option<i64>,
)
    requires
        -POS_LIMIT <= target_x <= POS_LIMIT,
        -POS_LIMIT <= target_y <= POS_LIMIT,
        desired_scale is Some ==> 1 <= desired_scale->Some_0 <= 1_000_000,
    ensures
        ({
            let base = CameraSettings::spec_default();
            let want = (match desired_scale {
                Option::Some(v) => tdiv(v as int * base.scale_multiplier, 1000),
                Option::None => tdiv(base.target_scale * base.scale_multiplier, 1000),
            });
            &&& final(camera_settings).is_going_to_target_position
            &&& final(camera_settings).target_position_x == target_x
            &&& final(camera_settings).target_position_y == target_y
            &&& final(camera_settings).desired_scale == want
            &&& final(camera_settings).target_scale == (if desired_scale is Some {
                want
            } else {
                base.target_scale as int
            })
            &&& final(camera_settings).speed == base.speed
            &&& final(camera_settings).scale_speed == base.scale_speed
            &&& final(camera_settings).scale_multiplier == base.scale_multiplier
            &&& final(camera_settings).zoom_smoothing == base.zoom_smoothing
            &&& final(camera_settings).position_difference_x == 0
            &&& final(camera_settings).position_difference_y == 0
            &&& final(camera_settings).wf()
        }),
{
    *camera_settings = CameraSettings::default();
    camera_settings.is_going_to_target_position = true;
    camera_settings.target_position_x = target_x;
    camera_settings.target_position_y = target_y;
    match desired_scale {
        Some(value) => {
            camera_settings.desired_scale = mul_div(value, camera_settings.scale_multiplier, 1000);
            camera_settings.target_scale = camera_settings.desired_scale;
        },
        None => {
            camera_settings.desired_scale = mul_div(
                camera_settings.target_scale,
                camera_settings.scale_multiplier,
                1000,
            );
        },
    }
}

/// One smoothing step toward a target: the value loses `dt / divisor`
/// of its distance to the target (thousandth-second over thousandths).
pub open spec fn approach_model(value: int, target: int, dt: int, divisor: int) -> int {
    value - tdiv((value - target) * dt, divisor)
}

/// Executable form of `approach_model`.
pub fn approach(value: i64, target: i64, dt: i64, divisor: i64) -> (r: i64)
    requires
        1 <= divisor <= 2_000_000,
        0 <= dt <= DT_LIMIT,
        -SCALE_CAP <= value <= SCALE_CAP,
        -SCALE_CAP <= target <= SCALE_CAP,
    ensures
        r == approach_model(value as int, target as int, dt as int, divisor as int),
        -21_000_000_000_000_000 <= r <= 21_000_000_000_000_000,
{
    let diff: i64 = value - target;
    assert(-20_000_000_000_000_000 <= diff * dt <= 20_000_000_000_000_000) by (nonlinear_arith)
        requires
            -2 * SCALE_CAP <= diff <= 2 * SCALE_CAP,
            0 <= dt <= DT_LIMIT,
    ;
    let step: i64 = mul_div(diff, dt, divisor);
    proof {
        crate::fixed::lemma_tdiv_abs_bound(
            diff as int * dt as int,
            divisor as int,
            20_000_000_000_000_000,
        );
    }
    value - step
}

/// One drain step of the accumulated zoom displacement: how much moves
/// into the camera this frame, and what remains banked.
pub fn drain_step(pd: i64, dt: i64, smoothing: i64) -> (r: (i64, i64))
    requires
        1 <= smoothing <= 1_000_000,
        0 <= dt <= DT_LIMIT,
        -POS_LIMIT <= pd <= POS_LIMIT,
    ensures
        r.0 == tdiv(pd * dt, smoothing as int),
        r.1 == pd - r.0,
        -10_000_000_000_000 <= r.0 <= 10_000_000_000_000,
{
    assert(-10_000_000_000_000 <= pd * dt <= 10_000_000_000_000) by (nonlinear_arith)
        requires
            -POS_LIMIT <= pd <= POS_LIMIT,
            0 <= dt <= DT_LIMIT,
    ;
    let moved: i64 = mul_div(pd, dt, smoothing);
    proof {
        crate::fixed::lemma_tdiv_abs_bound(
            pd as int * dt as int,
            smoothing as int,
            10_000_000_000_000,
        );
    }
    (moved, pd - moved)
}

/// Half the way back from the cursor to where a middle-mouse drag began.
pub fn mid_drag_delta(start: i64, current: i64) -> (r: i64)
    requires
        -POS_LIMIT <= start <= POS_LIMIT,
        -POS_LIMIT <= current <= POS_LIMIT,
    ensures
        r == tdiv(start - current, 2),
{
    let d: i64 = start - current;
    if d < 0 {
        -((-d) / 2)
    } else {
        d / 2
    }
}

/// A zoom ratio raised to a whole power, in thousandths, saturating at
/// `SCALE_CAP`.
pub open spec fn powm(base: int, n: nat) -> int
    decreases n,
{
    if n == 0 {
        1000
    } else {
        let p = tdiv(powm(base, (n - 1) as nat) * base, 1000);
        if p > SCALE_CAP {
            SCALE_CAP as int
        } else {
            p
        }
    }
}

/// Executable form of `powm`, for ratios of at least one.
pub fn pow_milli(base: i64, n: i64) -> (r: i64)
    requires
        1000 <= base <= 100_000,
        0 <= n <= 64,
    ensures
        r == powm(base as int, n as nat),
        1000 <= r <= SCALE_CAP,
{
    let mut acc: i64 = 1000;
    let mut i: i64 = 0;
    while i < n
        invariant
            0 <= i <= n <= 64,
            1000 <= base <= 100_000,
            acc == powm(base as int, i as nat),
            1000 <= acc <= SCALE_CAP,
        decreases n - i,
    {
        assert(1000 * 1000 <= acc * base <= SCALE_CAP * 100_000) by (nonlinear_arith)
            requires
                1000 <= acc <= SCALE_CAP,
                1000 <= base <= 100_000,
        ;
        let p: i64 = mul_div(acc, base, 1000);
        proof {
            vstd::arithmetic::div_mod::lemma_div_is_ordered(1_000_000, acc as int * base, 1000);
        }
        acc = if p > SCALE_CAP {
            SCALE_CAP
        } else {
            p
        };
        i = i + 1;
    }
    acc
}

/// Scrolling the zoom target one notch: the target scale moves one
/// ratio step (clamped to the configured zoom range and to
/// `[1, SCALE_CAP]`), and the displacement that keeps the point under
/// the cursor still is banked (clamped to the coordinate bound; the
/// ratio saturates at a thousandfold, so the products stay exact).
pub open spec fn zoom_model(c: CameraSettings, scroll: int, wdx: int, wdy: int) -> CameraSettings {
    if scroll == 0 {
        c
    } else {
        let ts1 = if scroll > 0 {
            tdiv(c.target_scale * 1000, c.scale_speed as int)
        } else {
            tdiv(c.target_scale * c.scale_speed, 1000)
        };
        let lower = tdiv(c.scale_multiplier * 1000, powm(c.scale_speed as int, c.max_zoom as nat));
        let upper = tdiv(powm(c.scale_speed as int, c.min_zoom as nat) * c.scale_multiplier, 1000);
        let raised = if ts1 > lower {
            ts1
        } else {
            lower
        };
        let bounded = if raised < upper {
            raised
        } else {
            upper
        };
        let ts2 = clamp(bounded, 1, SCALE_CAP as int);
        let sd = clamp(tdiv(ts2 * 1000, c.target_scale as int), 0, 1_000_000);
        CameraSettings {
            target_scale: ts2 as i64,
            position_difference_x: clamp(
                c.position_difference_x + (wdx - tdiv(wdx * sd, 1000)),
                -POS_LIMIT as int,
                POS_LIMIT as int,
            ) as i64,
            position_difference_y: clamp(
                c.position_difference_y + (wdy - tdiv(wdy * sd, 1000)),
                -POS_LIMIT as int,
                POS_LIMIT as int,
            ) as i64,
            ..c
        }
    }
}

/// Executable form of `zoom_model`. `wdx`/`wdy` is the cursor's world
/// offset from the camera.
pub fn zoom_target_step(cs: &mut CameraSettings, scroll: i64, wdx: i64, wdy: i64)
    requires
        old(cs).wf(),
        -1 <= scroll <= 1,
        -2_100_000_000 <= wdx <= 2_100_000_000,
        -2_100_000_000 <= wdy <= 2_100_000_000,
    ensures
        final(cs).wf(),
        *final(cs) == zoom_model(*old(cs), scroll as int, wdx as int, wdy as int),
{
    if scroll == 0 {
        return;
    }
    let old_ts: i64 = cs.target_scale;
    assert(0 <= old_ts * cs.scale_speed <= 10_000_000_000_000_000) by (nonlinear_arith)
        requires
            1 <= old_ts <= SCALE_CAP,
            1000 <= cs.scale_speed <= 10_000,
    ;
    let ts1: i64 = if scroll > 0 {
        mul_div(old_ts, 1000, cs.scale_speed)
    } else {
        mul_div(old_ts, cs.scale_speed, 1000)
    };
    let pmax: i64 = pow_milli(cs.scale_speed, cs.max_zoom);
    let pmin: i64 = pow_milli(cs.scale_speed, cs.min_zoom);
    let lower: i64 = mul_div(cs.scale_multiplier, 1000, pmax);
    assert(0 <= pmin * cs.scale_multiplier <= 1_000_000_000_000_000_000) by (nonlinear_arith)
        requires
            1000 <= pmin <= SCALE_CAP,
            1000 <= cs.scale_multiplier <= 1_000_000,
    ;
    let upper: i64 = mul_div(pmin, cs.scale_multiplier, 1000);
    let raised: i64 = if ts1 > lower {
        ts1
    } else {
        lower
    };
    let bounded: i64 = if raised < upper {
        raised
    } else {
        upper
    };
    let ts2: i64 = clamp_i64(bounded, 1, SCALE_CAP);
    cs.target_scale = ts2;
    let sd: i64 = clamp_i64(mul_div(ts2, 1000, old_ts), 0, 1_000_000);
    assert(-2_100_000_000_000_000 <= wdx * sd <= 2_100_000_000_000_000
        && -2_100_000_000_000_000 <= wdy * sd <= 2_100_000_000_000_000) by (nonlinear_arith)
        requires
            -2_100_000_000 <= wdx <= 2_100_000_000,
            -2_100_000_000 <= wdy <= 2_100_000_000,
            0 <= sd <= 1_000_000,
    ;
    let xd: i64 = wdx - mul_div(wdx, sd, 1000);
    let yd: i64 = wdy - mul_div(wdy, sd, 1000);
    proof {
        crate::fixed::lemma_tdiv_abs_bound(wdx as int * sd as int, 1000, 2_100_000_000_000);
        crate::fixed::lemma_tdiv_abs_bound(wdy as int * sd as int, 1000, 2_100_000_000_000);
    }
    cs.position_difference_x = clamp_i64(cs.position_difference_x + xd, -POS_LIMIT, POS_LIMIT);
    cs.position_difference_y = clamp_i64(cs.position_difference_y + yd, -POS_LIMIT, POS_LIMIT);
}

/// Keyboard panning for one frame along one axis: the axis input times
/// the pan speed, the frame time, the shift boost, and the zoom scale,
/// each in thousandths and in that order.
pub fn keyboard_pan_delta(axis: i64, dt: i64, speed: i64, boost: bool, scale: i64) -> (r: i64)
    requires
        -1000 <= axis <= 1000,
        0 <= dt <= DT_LIMIT,
        0 <= speed <= 100_000_000,
        -1_000_000_000 <= scale <= 1_000_000_000,
    ensures
        ({
            let b = (if boost {
                5000int
            } else {
                1000int
            });
            r == tdiv(tdiv(tdiv(tdiv(axis * speed, 1000) * dt, 1000) * b, 1000) * scale, 1000)
        }),
        -5_000_000_000_000_000 <= r <= 5_000_000_000_000_000,
{
    assert(-100_000_000_000 <= axis * speed <= 100_000_000_000) by (nonlinear_arith)
        requires
            -1000 <= axis <= 1000,
            0 <= speed <= 100_000_000,
    ;
    let t1: i64 = mul_div(axis, speed, 1000);
    proof {
        crate::fixed::lemma_tdiv_abs_bound(axis as int * speed as int, 1000, 100_000_000);
    }
    assert(-1_000_000_000_000 <= t1 * dt <= 1_000_000_000_000) by (nonlinear_arith)
        requires
            -100_000_000 <= t1 <= 100_000_000,
            0 <= dt <= DT_LIMIT,
    ;
    let t2: i64 = mul_div(t1, dt, 1000);
    proof {
        crate::fixed::lemma_tdiv_abs_bound(t1 as int * dt as int, 1000, 1_000_000_000);
    }
    let b: i64 = if boost {
        5000
    } else {
        1000
    };
    assert(-5_000_000_000_000 <= t2 * b <= 5_000_000_000_000) by (nonlinear_arith)
        requires
            -1_000_000_000 <= t2 <= 1_000_000_000,
            0 <= b <= 5000,
    ;
    let t3: i64 = mul_div(t2, b, 1000);
    proof {
        crate::fixed::lemma_tdiv_abs_bound(t2 as int * b as int, 1000, 5_000_000_000);
    }
    assert(-5_000_000_000_000_000_000 <= t3 * scale <= 5_000_000_000_000_000_000)
        by (nonlinear_arith)
        requires
            -5_000_000_000 <= t3 <= 5_000_000_000,
            -1_000_000_000 <= scale <= 1_000_000_000,
    ;
    let r: i64 = mul_div(t3, scale, 1000);
    proof {
        crate::fixed::lemma_tdiv_abs_bound(
            t3 as int * scale as int,
            1000,
            5_000_000_000_000_000,
        );
    }
    r
}

/// Whether the fly-to-target mode has arrived: the scale within a tenth
/// of the desired one and the camera within ten units of the target
/// (by integer square root of the squared distance).
pub open spec fn arrived(c: CameraSettings, cam_x: int, cam_y: int, cam_scale: int) -> bool {
    let dx = cam_x - c.target_position_x;
    let dy = cam_y - c.target_position_y;
    abs(cam_scale - c.desired_scale) <= 100 && sqrt_floor(dx * dx + dy * dy) <= 10_000
}

/// Executable form of `arrived`.
pub fn target_arrived(cs: &CameraSettings, cam_x: i64, cam_y: i64, cam_scale: i64) -> (r: bool)
    requires
        cs.wf(),
        -POS_LIMIT <= cam_x <= POS_LIMIT,
        -POS_LIMIT <= cam_y <= POS_LIMIT,
        -SCALE_CAP <= cam_scale <= SCALE_CAP,
    ensures
        r == arrived(*cs, cam_x as int, cam_y as int, cam_scale as int),
{
    let sdiff: i64 = cam_scale - cs.desired_scale;
    let sclose: bool = -100 <= sdiff && sdiff <= 100;
    let dx: i64 = cam_x - cs.target_position_x;
    let dy: i64 = cam_y - cs.target_position_y;
    assert(0 <= dx * dx <= 4_100_000_000_000_000_000 && 0 <= dy * dy <= 4_100_000_000_000_000_000)
        by (nonlinear_arith)
        requires
            -2_000_000_001 <= dx <= 2_000_000_001,
            -2_000_000_001 <= dy <= 2_000_000_001,
    ;
    let dsq: i64 = dx * dx + dy * dy;
    let dist: u64 = isqrt64(dsq as u64);
    sclose && dist <= 10_000
}

/// The camera transform as the controller sees it.
#[derive(Clone, Copy)]
pub struct CameraState {
    pub x: i64,
    pub y: i64,
    pub scale: i64,
}

/// What one camera frame reads from the host's input layer.
#[derive(Clone, Copy)]
pub struct CameraInput {
    pub scroll: i64,
    pub cursor: CursorWorldPosition,
    pub middle_just_pressed: bool,
    pub middle_pressed: bool,
    pub x_axis: i64,
    pub y_axis: i64,
    pub boost: bool,
}

/// The whole per-frame camera rule: while flying to a target and not
/// yet arrived, only smooth toward it; otherwise clear the flag, handle
/// the wheel, drain the banked displacement into the camera, smooth the
/// scale toward its target, and finish with either a middle-mouse drag
/// (which ends the frame) or keyboard panning. Positions saturate at
/// the coordinate bound, the scale at `SCALE_CAP`, and the pan step
/// reads the scale through a billionth-cap, so the products stay exact.
pub open spec fn camera_movement_model(
    c: CameraSettings,
    cam: CameraState,
    input: CameraInput,
    dt: int,
) -> (CameraSettings, CameraState) {
    if c.is_going_to_target_position && !arrived(c, cam.x as int, cam.y as int, cam.scale as int) {
        let ns = CameraState {
            x: clamp(
                approach_model(cam.x as int, c.target_position_x as int, dt, 100),
                -POS_LIMIT as int,
                POS_LIMIT as int,
            ) as i64,
            y: clamp(
                approach_model(cam.y as int, c.target_position_y as int, dt, 100),
                -POS_LIMIT as int,
                POS_LIMIT as int,
            ) as i64,
            scale: clamp(
                approach_model(cam.scale as int, c.desired_scale as int, dt, 2 * c.zoom_smoothing),
                -SCALE_CAP as int,
                SCALE_CAP as int,
            ) as i64,
        };
        (c, ns)
    } else {
        let c0 = CameraSettings { is_going_to_target_position: false, ..c };
        let c1 = zoom_model(c0, input.scroll as int, input.cursor.x - cam.x, input.cursor.y - cam.y);
        let mx = tdiv(c1.position_difference_x * dt, c1.zoom_smoothing as int);
        let my = tdiv(c1.position_difference_y * dt, c1.zoom_smoothing as int);
        let x1 = cam.x + mx;
        let y1 = cam.y + my;
        let scale1 = clamp(
            approach_model(cam.scale as int, c1.target_scale as int, dt, c1.zoom_smoothing as int),
            -SCALE_CAP as int,
            SCALE_CAP as int,
        );
        let c2 = CameraSettings {
            position_difference_x: clamp(
                c1.position_difference_x - mx,
                -POS_LIMIT as int,
                POS_LIMIT as int,
            ) as i64,
            position_difference_y: clamp(
                c1.position_difference_y - my,
                -POS_LIMIT as int,
                POS_LIMIT as int,
            ) as i64,
            ..c1
        };
        let c3 = if input.middle_just_pressed {
            CameraSettings {
                middle_mouse_start_x: input.cursor.x,
                middle_mouse_start_y: input.cursor.y,
                ..c2
            }
        } else {
            c2
        };
        if input.middle_pressed {
            let ns = CameraState {
                x: clamp(
                    x1 + tdiv(c3.middle_mouse_start_x - input.cursor.x, 2),
                    -POS_LIMIT as int,
                    POS_LIMIT as int,
                ) as i64,
                y: clamp(
                    y1 + tdiv(c3.middle_mouse_start_y - input.cursor.y, 2),
                    -POS_LIMIT as int,
                    POS_LIMIT as int,
                ) as i64,
                scale: scale1 as i64,
            };
            (c3, ns)
        } else {
            let b = (if input.boost {
                5000int
            } else {
                1000int
            });
            let ps = clamp(scale1, -1_000_000_000, 1_000_000_000);
            let px = tdiv(
                tdiv(tdiv(tdiv(input.x_axis * c3.speed, 1000) * dt, 1000) * b, 1000) * ps,
                1000,
            );
            let py = tdiv(
                tdiv(tdiv(tdiv(input.y_axis * c3.speed, 1000) * dt, 1000) * b, 1000) * ps,
                1000,
            );
            let ns = CameraState {
                x: clamp(x1 + px, -POS_LIMIT as int, POS_LIMIT as int) as i64,
                y: clamp(y1 + py, -POS_LIMIT as int, POS_LIMIT as int) as i64,
                scale: scale1 as i64,
            };
            (c3, ns)
        }
    }
}

/// Executable form of `camera_movement_model`, exactly.
pub fn camera_movement(cs: &mut CameraSettings, cam: &mut CameraState, input: CameraInput, dt: i64)
    requires
        old(cs).wf(),
        0 <= dt <= DT_LIMIT,
        -1 <= input.scroll <= 1,
        -1000 <= input.x_axis <= 1000,
        -1000 <= input.y_axis <= 1000,
        -POS_LIMIT <= input.cursor.x <= POS_LIMIT,
        -POS_LIMIT <= input.cursor.y <= POS_LIMIT,
        -POS_LIMIT <= old(cam).x <= POS_LIMIT,
        -POS_LIMIT <= old(cam).y <= POS_LIMIT,
        -SCALE_CAP <= old(cam).scale <= SCALE_CAP,
    ensures
        (*final(cs), *final(cam)) == camera_movement_model(*old(cs), *old(cam), input, dt as int),
        final(cs).wf(),
        -POS_LIMIT <= final(cam).x <= POS_LIMIT,
        -POS_LIMIT <= final(cam).y <= POS_LIMIT,
        -SCALE_CAP <= final(cam).scale <= SCALE_CAP,
{
    if cs.is_going_to_target_position {
        if !target_arrived(cs, cam.x, cam.y, cam.scale) {
            let nx: i64 = approach(cam.x, cs.target_position_x, dt, 100);
            let ny: i64 = approach(cam.y, cs.target_position_y, dt, 100);
            let smooth2: i64 = 2 * cs.zoom_smoothing;
            let nsc: i64 = approach(cam.scale, cs.desired_scale, dt, smooth2);
            cam.x = clamp_i64(nx, -POS_LIMIT, POS_LIMIT);
            cam.y = clamp_i64(ny, -POS_LIMIT, POS_LIMIT);
            cam.scale = clamp_i64(nsc, -SCALE_CAP, SCALE_CAP);
            return;
        }
    }
    cs.is_going_to_target_position = false;
    let wdx: i64 = input.cursor.x - cam.x;
    let wdy: i64 = input.cursor.y - cam.y;
    zoom_target_step(cs, input.scroll, wdx, wdy);
    let (mx, rx): (i64, i64) = drain_step(cs.position_difference_x, dt, cs.zoom_smoothing);
    let (my, ry): (i64, i64) = drain_step(cs.position_difference_y, dt, cs.zoom_smoothing);
    let x1: i64 = cam.x + mx;
    let y1: i64 = cam.y + my;
    let scale1: i64 = clamp_i64(
        approach(cam.scale, cs.target_scale, dt, cs.zoom_smoothing),
        -SCALE_CAP,
        SCALE_CAP,
    );
    cs.position_difference_x = clamp_i64(rx, -POS_LIMIT, POS_LIMIT);
    cs.position_difference_y = clamp_i64(ry, -POS_LIMIT, POS_LIMIT);
    if input.middle_just_pressed {
        cs.middle_mouse_start_x = input.cursor.x;
        cs.middle_mouse_start_y = input.cursor.y;
    }
    if input.middle_pressed {
        let ddx: i64 = mid_drag_delta(cs.middle_mouse_start_x, input.cursor.x);
        let ddy: i64 = mid_drag_delta(cs.middle_mouse_start_y, input.cursor.y);
        cam.x = clamp_i64(x1 + ddx, -POS_LIMIT, POS_LIMIT);
        cam.y = clamp_i64(y1 + ddy, -POS_LIMIT, POS_LIMIT);
        cam.scale = scale1;
        return;
    }
    let ps: i64 = clamp_i64(scale1, -1_000_000_000, 1_000_000_000);
    let px: i64 = keyboard_pan_delta(input.x_axis, dt, cs.speed, input.boost, ps);
    let py: i64 = keyboard_pan_delta(input.y_axis, dt, cs.speed, input.boost, ps);
    cam.x = clamp_i64(x1 + px, -POS_LIMIT, POS_LIMIT);
    cam.y = clamp_i64(y1 + py, -POS_LIMIT, POS_LIMIT);
    cam.scale = scale1;
}

} // verus!
