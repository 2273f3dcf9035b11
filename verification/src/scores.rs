//! Score bookkeeping: the base-ten digits of a score, and the plan for
//! laying its digit sprites out (spawning a new sprite and shifting the
//! old ones when the score grows a digit).

use vstd::prelude::*;

use crate::game::{GameData, Player, DIM_LIMIT};

verus! {

/// A score sprite's identity: which player's score it shows.
pub struct Score {
    pub player: Player,
}

/// How many base-ten digits a number has.
pub open spec fn n_digits(n: nat) -> nat
    decreases n,
{
    if n < 10 {
        1
    } else {
        1 + n_digits(n / 10)
    }
}

/// The base-ten digits of a number, most significant first.
pub open spec fn digits_of(n: nat) -> Seq<usize>
    decreases n,
{
    if n < 10 {
        seq![n as usize]
    } else {
        digits_of(n / 10).push((n % 10) as usize)
    }
}

/// The number a digit sequence denotes.
pub open spec fn digits_value(s: Seq<usize>) -> int
    decreases s.len(),
{
    if s.len() == 0 {
        0
    } else {
        digits_value(s.drop_last()) * 10 + s.last()
    }
}

/// The digits of a number denote the number back: the two spec functions
/// are inverse, and every digit is below ten.
pub proof fn lemma_digits_roundtrip(n: nat)
    ensures
        digits_value(digits_of(n)) == n,
        digits_of(n).len() == n_digits(n),
        forall|i: int| 0 <= i < digits_of(n).len() ==> (#[trigger] digits_of(n)[i]) < 10,
    decreases n,
{
    if n < 10 {
        let s = digits_of(n);
        assert(s =~= seq![n as usize]);
        assert(s.drop_last() =~= Seq::<usize>::empty());
        assert(digits_value(Seq::<usize>::empty()) == 0);
        assert(digits_value(s) == digits_value(s.drop_last()) * 10 + s.last());
    } else {
        lemma_digits_roundtrip(n / 10);
        let s = digits_of(n);
        assert(s.drop_last() =~= digits_of(n / 10));
        assert(s.last() == (n % 10) as usize);
        assert(n / 10 * 10 + n % 10 == n) by {
            vstd::arithmetic::div_mod::lemma_fundamental_div_mod(n as int, 10);
        };
        assert forall|i: int| 0 <= i < s.len() implies (#[trigger] s[i]) < 10 by {
            if i < s.len() - 1 {
                assert(s[i] == digits_of(n / 10)[i]);
            }
        };
    }
}

/// The number of base-ten digits of a score.
pub fn num_length(num: u32) -> (r: u32)
    ensures
        r == n_digits(num as nat),
        1 <= r <= 10,
{
    proof {
        reveal_with_fuel(n_digits, 12);
    }
    if num < 10 {
        1
    } else if num < 100 {
        2
    } else if num < 1_000 {
        3
    } else if num < 10_000 {
        4
    } else if num < 100_000 {
        5
    } else if num < 1_000_000 {
        6
    } else if num < 10_000_000 {
        7
    } else if num < 100_000_000 {
        8
    } else if num < 1_000_000_000 {
        9
    } else {
        10
    }
}

/// Append the digits of `n` after what `xs` already holds.
fn digits_into(n: usize, xs: &mut Vec<usize>)
    ensures
        final(xs)@ == old(xs)@ + digits_of(n as nat),
    decreases n,
{
    if n >= 10 {
        digits_into(n / 10, xs);
        let d: usize = n % 10;
        xs.push(d);
        proof {
            assert(xs@ =~= old(xs)@ + digits_of(n as nat));
        }
    } else {
        xs.push(n);
        proof {
            assert(digits_of(n as nat) =~= seq![n]);
            assert(xs@ =~= old(xs)@ + digits_of(n as nat));
        }
    }
}

/// The base-ten digits of a number, most significant first.
pub fn get_digits(n: usize) -> (r: Vec<usize>)
    ensures
        r@ == digits_of(n as nat),
        r@.len() == n_digits(n as nat),
        forall|i: int| 0 <= i < r@.len() ==> (#[trigger] r@[i]) < 10,
{
    let mut xs: Vec<usize> = Vec::new();
    digits_into(n, &mut xs);
    proof {
        assert(xs@ =~= digits_of(n as nat));
        lemma_digits_roundtrip(n as nat);
    }
    xs
}

/// What the renderer must do to one player's digit sprites.
pub struct ScorePlan {
    /// The digit (sprite index) each existing sprite must now show,
    /// most significant first.
    pub digits: Vec<usize>,
    /// A new sprite to add, as (position from the anchor, digit shown),
    /// present exactly when the score outgrew its sprites.
    pub spawn: Option<(u32, usize)>,
}

/// Plan one player's digit-sprite update for a score currently shown by
/// `existing` sprites: every sprite shows its digit, and a new sprite
/// appears (with the least significant digit, the anchor sliding over)
/// exactly when the score has more digits than sprites.
pub fn score_digit_plan(score: u32, existing: usize) -> (r: ScorePlan)
    ensures
        r.digits@ == digits_of(score as nat),
        r.spawn is Some <==> n_digits(score as nat) > existing,
        r.spawn is Some ==> {
            &&& r.spawn->Some_0.0 == n_digits(score as nat) - 1
            &&& r.spawn->Some_0.1 == digits_of(score as nat).last()
        },
{
    let len: u32 = num_length(score);
    let digits: Vec<usize> = get_digits(score as usize);
    proof {
        assert(score as usize as nat == score as nat);
    }
    let spawn: Option<(u32, usize)> = if len as usize > existing {
        let last: usize = digits[digits.len() - 1];
        Some((len - 1, last))
    } else {
        None
    };
    ScorePlan { digits, spawn }
}

/// Both players' plans for one frame, produced only when a score changed
/// this frame; consuming them clears the changed flag.
pub fn update_scores(
    data: &mut GameData,
    left_existing: usize,
    right_existing: usize,
) -> (r: Option<(ScorePlan, ScorePlan)>)
    ensures
        !old(data).should_update_scores ==> r is None && *final(data) == *old(data),
        old(data).should_update_scores ==> {
            &&& r is Some
            &&& !final(data).should_update_scores
            &&& r->Some_0.0.digits@ == digits_of(old(data).left_score as nat)
            &&& r->Some_0.1.digits@ == digits_of(old(data).right_score as nat)
            &&& (r->Some_0.0.spawn is Some <==> n_digits(old(data).left_score as nat)
                > left_existing)
            &&& (r->Some_0.1.spawn is Some <==> n_digits(old(data).right_score as nat)
                > right_existing)
        },
        final(data).left_score == old(data).left_score,
        final(data).right_score == old(data).right_score,
        final(data).left_dir == old(data).left_dir,
        final(data).right_dir == old(data).right_dir,
        final(data).left_y == old(data).left_y,
        final(data).right_y == old(data).right_y,
        final(data).player_controlled_by_mouse == old(data).player_controlled_by_mouse,
{
    if !data.should_update_scores {
        return None;
    }
    data.should_update_scores = false;
    let left = score_digit_plan(data.left_score, left_existing);
    let right = score_digit_plan(data.right_score, right_existing);
    Some((left, right))
}

/// Where a digit sprite sits: each side's column grows outward from its
/// anchor by one spacing per position.
pub fn score_digit_x(player: Player, position: u32, spacing: i64) -> (r: i64)
    requires
        position <= 10,
        0 <= spacing <= DIM_LIMIT,
    ensures
        r == (if player is Left {
            -200_000
        } else {
            200_000
        }) + position * spacing,
{
    assert(0 <= (position as i64) * spacing <= 10 * DIM_LIMIT) by (nonlinear_arith)
        requires
            0 <= position <= 10,
            0 <= spacing <= DIM_LIMIT,
    ;
    let offset: i64 = (position as i64) * spacing;
    match player {
        Player::Left => -200_000 + offset,
        Player::Right => 200_000 + offset,
    }
}

} // verus!
