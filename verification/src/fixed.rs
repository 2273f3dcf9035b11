//! Fixed-point arithmetic: division toward zero, clamping, and integer
//! square roots. Every game quantity is an `i64` number of thousandths,
//! and the update rules below are stated over these helpers.

use vstd::prelude::*;

verus! {

/// Division rounding toward zero, as Rust's `/` does on machine integers.
/// In specifications `/` is Euclidean, so the two differ on negative
/// numerators; the game model uses this symmetric form throughout.
pub open spec fn tdiv(n: int, d: int) -> int {
    if n >= 0 {
        n / d
    } else {
        -((-n) / d)
    }
}

/// The absolute value.
pub open spec fn abs(x: int) -> int {
    if x < 0 {
        -x
    } else {
        x
    }
}

/// `x` forced into `[lo, hi]`.
pub open spec fn clamp(x: int, lo: int, hi: int) -> int {
    if x < lo {
        lo
    } else if x > hi {
        hi
    } else {
        x
    }
}

/// Executable clamp.
pub fn clamp_i64(x: i64, lo: i64, hi: i64) -> (r: i64)
    requires
        lo <= hi,
    ensures
        r == clamp(x as int, lo as int, hi as int),
{
    if x < lo {
        lo
    } else if x > hi {
        hi
    } else {
        x
    }
}

/// `a * b / d` rounded toward zero, computed on magnitudes so that the
/// machine division never sees a negative operand.
pub fn mul_div(a: i64, b: i64, d: i64) -> (r: i64)
    requires
        d >= 1,
        a > i64::MIN,
        b > i64::MIN,
        -0x7fff_ffff_ffff_ffff <= a * b <= 0x7fff_ffff_ffff_ffff,
    ensures
        r == tdiv(a * b, d as int),
{
    let neg: bool = (a < 0) != (b < 0);
    let ma: i64 = if a < 0 {
        -a
    } else {
        a
    };
    let mb: i64 = if b < 0 {
        -b
    } else {
        b
    };
    assert(ma * mb == abs(a * b) && 0 <= ma * mb <= 0x7fff_ffff_ffff_ffff && (((a < 0) != (b < 0))
        ==> a * b <= 0) && (!((a < 0) != (b < 0)) ==> a * b >= 0)) by (nonlinear_arith)
        requires
            ma == abs(a as int),
            mb == abs(b as int),
            -0x7fff_ffff_ffff_ffff <= a * b <= 0x7fff_ffff_ffff_ffff,
    ;
    let p: i64 = ma * mb;
    let q: i64 = p / d;
    if neg {
        assert(-q == tdiv(a * b, d as int));
        -q
    } else {
        assert(q == tdiv(a * b, d as int));
        q
    }
}

/// A quotient is no larger than any bound whose multiple covers the
/// numerator: `|n| <= b * d` gives `|tdiv(n, d)| <= b`.
pub proof fn lemma_tdiv_abs_bound(n: int, d: int, b: int)
    requires
        d >= 1,
        0 <= b,
        abs(n) <= b * d,
    ensures
        abs(tdiv(n, d)) <= b,
        tdiv(n, d) <= b,
        -b <= tdiv(n, d),
{
    vstd::arithmetic::div_mod::lemma_div_is_ordered(abs(n), b * d, d);
    vstd::arithmetic::div_mod::lemma_div_multiples_vanish(b, d);
    vstd::arithmetic::div_mod::lemma_div_pos_is_pos(abs(n), d);
    assert(b * d == d * b) by (nonlinear_arith);
}

/// Holds when `r` is the integer square root of `n`.
pub open spec fn is_sqrt(n: int, r: int) -> bool {
    &&& 0 <= r
    &&& r * r <= n
    &&& n < (r + 1) * (r + 1)
}

/// The integer square root as a specification-level value.
pub open spec fn sqrt_floor(n: int) -> int {
    choose|r: int| is_sqrt(n, r)
}

/// The integer square root is unique, so `sqrt_floor` names the witness.
pub proof fn lemma_sqrt_floor(n: int, r: int)
    requires
        is_sqrt(n, r),
    ensures
        sqrt_floor(n) == r,
{
    let s = choose|x: int| is_sqrt(n, x);
    assert(is_sqrt(n, s));
    assert(s == r) by (nonlinear_arith)
        requires
            is_sqrt(n, s),
            is_sqrt(n, r),
    ;
}

/// Squaring is monotonic on the nonnegatives; bounds on a root follow.
pub proof fn lemma_sqrt_bound(n: int, b: int)
    requires
        0 <= n,
        0 <= b,
        n <= b * b,
    ensures
        sqrt_floor(n) <= b,
        is_sqrt(n, sqrt_floor(n)),
{
    let r = sqrt_witness(n);
    lemma_sqrt_floor(n, r);
    assert(r <= b) by (nonlinear_arith)
        requires
            is_sqrt(n, r),
            0 <= b,
            n <= b * b,
    ;
}

/// Every nonnegative integer has a square root: build it by descent.
proof fn sqrt_witness(n: int) -> (r: int)
    requires
        0 <= n,
    ensures
        is_sqrt(n, r),
    decreases n,
{
    if n == 0 {
        0
    } else {
        let s = sqrt_witness(n - 1);
        if (s + 1) * (s + 1) <= n {
            assert(is_sqrt(n, s + 1)) by (nonlinear_arith)
                requires
                    is_sqrt(n - 1, s),
                    (s + 1) * (s + 1) <= n,
            ;
            s + 1
        } else {
            s
        }
    }
}

/// The integer square root, by binary search over the 32-bit result range.
pub fn isqrt64(n: u64) -> (r: u64)
    ensures
        is_sqrt(n as int, r as int),
        r == sqrt_floor(n as int),
        r <= 0xffff_ffffu64,
{
    let mut lo: u64 = 0;
    let mut hi: u64 = 0xffff_ffff;
    while lo < hi
        invariant
            lo <= hi <= 0xffff_ffff,
            lo * lo <= n,
            n < (hi + 1) * (hi + 1),
        decreases hi - lo,
    {
        let gap: u64 = hi - lo;
        let mid: u64 = lo + (gap + 1) / 2;
        assert(lo < mid <= hi);
        assert(mid * mid <= 0xffff_ffff * 0xffff_ffff) by (nonlinear_arith)
            requires
                mid <= 0xffff_ffffu64,
        ;
        let sq: u64 = mid * mid;
        if sq <= n {
            lo = mid;
        } else {
            hi = mid - 1;
        }
    }
    proof {
        lemma_sqrt_floor(n as int, lo as int);
    }
    lo
}

} // verus!
