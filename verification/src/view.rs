//! Window-fitting and background layout: which way the play area is
//! turned inside the window, how far the camera zooms out to fit it,
//! and where the centre-line dashes sit.

use vstd::prelude::*;

use crate::fixed::tdiv;
use crate::game::{Orientation, DIM_LIMIT};

verus! {

/// How the play area meets the window: the two fit ratios (window edge
/// over play-area edge, in thousandths), the camera scale that fits the
/// tighter one, and which way the field is turned.
pub struct ViewScale {
    pub ratio1: i64,
    pub ratio2: i64,
    pub scale: i64,
    pub orientation: Orientation,
}

/// A window narrower than tall turns the field sideways.
pub open spec fn fitted_portrait(win_w: int, win_h: int) -> bool {
    win_w < win_h
}

/// The camera scale that exactly undoes a fit ratio; a degenerate ratio
/// of zero (a window under a thousandth of the play area) saturates to
/// the deepest zoom instead of dividing by zero.
pub open spec fn inverse_scale(ratio: int) -> int {
    if ratio == 0 {
        1_000_000_000
    } else {
        tdiv(1_000_000, ratio)
    }
}

/// Fit the play area into a window: the field turns sideways in a
/// window narrower than tall, each ratio compares a window edge to the
/// play-area edge laid along it, and the scale undoes the smaller ratio.
pub fn compute_scale(win_w: i64, win_h: i64, play_w: i64, play_h: i64) -> (r: ViewScale)
    requires
        1 <= win_w <= DIM_LIMIT,
        1 <= win_h <= DIM_LIMIT,
        0 < play_w <= DIM_LIMIT,
        0 < play_h <= DIM_LIMIT,
    ensures
        r.orientation == (if fitted_portrait(win_w as int, win_h as int) {
            Orientation::Portrait
        } else {
            Orientation::Landscape
        }),
        r.ratio1 == tdiv(win_w * 1000, if fitted_portrait(win_w as int, win_h as int) {
            play_h as int
        } else {
            play_w as int
        }),
        r.ratio2 == tdiv(win_h * 1000, if fitted_portrait(win_w as int, win_h as int) {
            play_w as int
        } else {
            play_h as int
        }),
        r.scale == inverse_scale(if r.ratio1 < r.ratio2 {
            r.ratio1 as int
        } else {
            r.ratio2 as int
        }),
        r.ratio1 >= 0,
        r.ratio2 >= 0,
{
    let portrait: bool = win_w < win_h;
    let (d1, d2): (i64, i64) = if portrait {
        (play_h, play_w)
    } else {
        (play_w, play_h)
    };
    let ratio1: i64 = (win_w * 1000) / d1;
    let ratio2: i64 = (win_h * 1000) / d2;
    let smaller: i64 = if ratio1 < ratio2 {
        ratio1
    } else {
        ratio2
    };
    let scale: i64 = if smaller == 0 {
        1_000_000_000
    } else {
        1_000_000 / smaller
    };
    ViewScale {
        ratio1,
        ratio2,
        scale,
        orientation: if portrait {
            Orientation::Portrait
        } else {
            Orientation::Landscape
        },
    }
}

/// The centre line is dashed: thirty sections, each dash five sevenths
/// of its section, a seventh as wide as tall, walking down from the top.
pub fn background_lines(play_h: i64) -> (r: (i64, i64, Vec<i64>))
    requires
        0 < play_h <= DIM_LIMIT,
    ensures
        ({
            let section = play_h / 30;
            let line_h = tdiv(section * 5, 7);
            &&& r.1 == line_h
            &&& r.0 == tdiv(line_h as int, 7)
            &&& r.2@.len() == 30
            &&& forall|i: int|
                0 <= i < 30 ==> #[trigger] r.2@[i] == play_h / 2 - line_h / 2 - i * section
        }),
{
    let section: i64 = play_h / 30;
    let line_h: i64 = section * 5 / 7;
    let line_w: i64 = line_h / 7;
    let top: i64 = play_h / 2 - line_h / 2;
    let mut positions: Vec<i64> = Vec::new();
    let mut current: i64 = top;
    let mut idx: u64 = 0;
    while idx < 30
        invariant
            0 <= idx <= 30,
            positions@.len() == idx,
            0 < play_h <= DIM_LIMIT,
            section == play_h / 30,
            line_h == tdiv(section * 5, 7),
            0 <= section <= DIM_LIMIT,
            0 <= line_h <= DIM_LIMIT,
            top == play_h / 2 - line_h / 2,
            current == top - idx * section,
            forall|i: int|
                0 <= i < idx ==> #[trigger] positions@[i] == play_h / 2 - line_h / 2 - i
                    * section,
        decreases 30 - idx,
    {
        positions.push(current);
        assert(0 <= idx * section <= 30 * DIM_LIMIT && (idx + 1) * section == idx * section
            + section) by (nonlinear_arith)
            requires
                0 <= idx <= 30,
                0 <= section <= DIM_LIMIT,
        ;
        current = current - section;
        idx = idx + 1;
    }
    (line_w, line_h, positions)
}

} // verus!
