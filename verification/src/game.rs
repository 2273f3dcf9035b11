//! The shared data model of the Pong simulation: tunable settings, the
//! frame-global game state, and the identities of the two players.
//!
//! Every scalar is a fixed-point `i64` counting thousandths (milli-pixels,
//! milli-pixels per second, or milliseconds), so that the per-frame update
//! rules can be stated and checked exactly.

use vstd::prelude::*;

verus! {

/// Longest accepted frame time, in milliseconds.
pub const DT_LIMIT: i64 = 10_000;

/// Hard bound on any velocity component (milli-pixels per second). The
/// update rules saturate here so that every product stays exact in an `i64`.
pub const SPEED_LIMIT: i64 = 20_000_000;

/// Cap on the ball speed a paddle hit can set. Reflection spreads that
/// speed over two components, each below `SPEED_LIMIT`.
pub const SPEED_CAP: i64 = 10_000_000;

/// Hard bound on any coordinate (milli-pixels).
pub const POS_LIMIT: i64 = 1_000_000_000;

/// Largest accepted speed multiplier (a hundredfold, in thousandths).
pub const MULT_LIMIT: i64 = 100_000;

/// Largest accepted play-area dimension or paddle size (milli-pixels).
pub const DIM_LIMIT: i64 = 100_000_000;

/// Largest accepted acceleration or friction (milli-pixels per second²).
pub const ACCEL_LIMIT: i64 = 100_000_000;

/// Which side a paddle, a score, or a mouse pointer belongs to.
#[derive(Clone, Copy, Debug, PartialEq, Eq, Structural)]
pub enum Player {
    Left,
    Right,
}

/// How the window is turned relative to the play area.
#[derive(Clone, Copy, Debug, PartialEq, Eq, Structural)]
pub enum Orientation {
    Landscape,
    Portrait,
}

/// Immutable-during-frame tunables of the simulation.
#[derive(Clone, Copy)]
pub struct Settings {
    pub fullscreen: bool,
    pub max_paddle_speed: i64,
    pub paddle_acceleration: i64,
    pub friction: i64,
    pub paddle_size_x: i64,
    pub paddle_size_y: i64,
    pub paddle_x: i64,
    pub orientation: Orientation,
    pub ball_size: i64,
    pub min_spawn_speed_x: i64,
    pub min_spawn_speed_y: i64,
    pub max_spawn_speed_x: i64,
    pub max_spawn_speed_y: i64,
    pub score_spacing: i64,
    pub speed_multiplier: i64,
    pub mouse_area_x: i64,
    pub mouse_area_y: i64,
    pub play_width: i64,
    pub play_height: i64,
}

impl Settings {
    /// Bounds under which every step of the update rules fits in an `i64`.
    pub open spec fn wf(self) -> bool {
        &&& 0 < self.max_paddle_speed <= SPEED_CAP
        &&& 0 <= self.paddle_acceleration <= ACCEL_LIMIT
        &&& 0 <= self.friction <= ACCEL_LIMIT
        &&& 0 < self.paddle_size_x <= DIM_LIMIT
        &&& 0 < self.paddle_size_y <= DIM_LIMIT
        &&& 0 <= self.paddle_x <= DIM_LIMIT
        &&& 0 < self.ball_size <= DIM_LIMIT
        &&& 0 <= self.min_spawn_speed_x < self.max_spawn_speed_x <= SPEED_CAP
        &&& 0 <= self.min_spawn_speed_y < self.max_spawn_speed_y <= SPEED_CAP
        &&& 0 <= self.score_spacing <= DIM_LIMIT
        &&& 1000 <= self.speed_multiplier <= MULT_LIMIT
        &&& 0 < self.mouse_area_x <= DIM_LIMIT
        &&& 0 < self.mouse_area_y <= DIM_LIMIT
        &&& 0 < self.play_width <= DIM_LIMIT
        &&& 0 < self.play_height <= DIM_LIMIT
        &&& self.paddle_size_y < self.play_height
        &&& self.ball_size * 2 < self.play_height / 2
    }

    /// Flip between windowed and fullscreen; the host applies the mode.
    pub fn toggle_fullscreen(&mut self)
        ensures
            final(self).fullscreen == !old(self).fullscreen,
            *final(self) == (Settings { fullscreen: !old(self).fullscreen, ..*old(self) }),
    {
        self.fullscreen = !self.fullscreen;
    }

    /// Adopt the orientation the window fit chose; reports whether it
    /// changed, so the host knows to re-turn the score sprites.
    pub fn apply_orientation(&mut self, o: Orientation) -> (changed: bool)
        ensures
            final(self).orientation == o,
            *final(self) == (Settings { orientation: o, ..*old(self) }),
            changed == (old(self).orientation != o),
    {
        let changed: bool = self.orientation != o;
        self.orientation = o;
        changed
    }

    /// The tuning the game ships with, in thousandths.
    pub open spec fn spec_default() -> Settings {
        Settings {
            fullscreen: false,
            max_paddle_speed: 500_000,
            paddle_acceleration: 3_000_000,
            friction: 700_000,
            paddle_size_x: 10_000,
            paddle_size_y: 50_000,
            paddle_x: 350_000,
            orientation: Orientation::Landscape,
            ball_size: 10_000,
            min_spawn_speed_x: 200_000,
            min_spawn_speed_y: 0,
            max_spawn_speed_x: 300_000,
            max_spawn_speed_y: 300_000,
            score_spacing: 20_000,
            speed_multiplier: 1_100,
            mouse_area_x: 30_000,
            mouse_area_y: 20_000,
            play_width: 800_000,
            play_height: 436_000,
        }
    }
}

impl Default for Settings {
    fn default() -> (r: Settings)
        ensures
            r == Settings::spec_default(),
            r.wf(),
    {
        Settings {
            fullscreen: false,
            max_paddle_speed: 500_000,
            paddle_acceleration: 3_000_000,
            friction: 700_000,
            paddle_size_x: 10_000,
            paddle_size_y: 50_000,
            paddle_x: 350_000,
            orientation: Orientation::Landscape,
            ball_size: 10_000,
            min_spawn_speed_x: 200_000,
            min_spawn_speed_y: 0,
            max_spawn_speed_x: 300_000,
            max_spawn_speed_y: 300_000,
            score_spacing: 20_000,
            speed_multiplier: 1_100,
            mouse_area_x: 30_000,
            mouse_area_y: 20_000,
            play_width: 800_000,
            play_height: 436_000,
        }
    }
}

/// Frame-global state shared by the paddle controller and the ball
/// simulator: input directions, mirrored paddle heights, and the score.
pub struct GameData {
    pub left_dir: i64,
    pub right_dir: i64,
    pub left_y: i64,
    pub right_y: i64,
    pub left_score: u32,
    pub right_score: u32,
    pub should_update_scores: bool,
    pub player_controlled_by_mouse: Option<Player>,
}

impl GameData {
    /// Directions are unit fractions in thousandths; mirrored paddle
    /// heights stay within the hard coordinate bound.
    pub open spec fn wf(self) -> bool {
        &&& -1000 <= self.left_dir <= 1000
        &&& -1000 <= self.right_dir <= 1000
        &&& -POS_LIMIT <= self.left_y <= POS_LIMIT
        &&& -POS_LIMIT <= self.right_y <= POS_LIMIT
    }

    pub open spec fn spec_default() -> GameData {
        GameData {
            left_dir: 0,
            right_dir: 0,
            left_y: 0,
            right_y: 0,
            left_score: 0,
            right_score: 0,
            should_update_scores: false,
            player_controlled_by_mouse: None,
        }
    }
}

impl Default for GameData {
    fn default() -> (r: GameData)
        ensures
            r == GameData::spec_default(),
            r.wf(),
    {
        GameData {
            left_dir: 0,
            right_dir: 0,
            left_y: 0,
            right_y: 0,
            left_score: 0,
            right_score: 0,
            should_update_scores: false,
            player_controlled_by_mouse: None,
        }
    }
}

} // verus!
