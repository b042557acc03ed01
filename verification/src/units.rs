//! Fixed-point units shared by every subsystem.
//!
//! Lengths and positions are measured in milli-units: one thousandth of
//! a world unit (one pixel of the viewport). Dimensionless
//! factors (scroll ratios, scale factors, fractions of the viewport,
//! animation progress, alpha) are measured in per-mille, so `1000`
//! stands for the factor `1.0` and `1200` for `1.2`.

use vstd::arithmetic::div_mod::{
    lemma_div_is_ordered, lemma_div_multiples_vanish, lemma_div_nonincreasing,
    lemma_div_pos_is_pos,
};
use vstd::prelude::*;

verus! {

/// Per-mille denominator: fixed-point values carry 1000 steps per unit.
pub const MILLI: i64 = 1000;

/// Magnitude bound on lengths and positions, in milli-units.
pub const MAX_COORD: i64 = 0x4000_0000;

/// Magnitude bound on per-mille factors.
pub const MAX_FACTOR: i64 = 0x10_0000;

/// Magnitude bound on anything `scale_milli` can return when its
/// arguments are in range: `MAX_COORD * MAX_FACTOR` before the
/// division, and the division only shrinks it.
pub const MAX_SCALED: i64 = 0x4_0000_0000_0000;

/// `a` scaled by the per-mille factor `f`, rounded toward zero.
pub open spec fn spec_scale_milli(a: int, f: int) -> int {
    if a * f >= 0 {
        (a * f) / (MILLI as int)
    } else {
        -((-(a * f)) / (MILLI as int))
    }
}

/// A coordinate within the world bound.
pub open spec fn coord_in_range(a: int) -> bool {
    -MAX_COORD <= a <= MAX_COORD
}

/// A per-mille factor within the factor bound.
pub open spec fn factor_in_range(f: int) -> bool {
    -MAX_FACTOR <= f <= MAX_FACTOR
}

/// On in-range arguments the scaled value keeps a comfortable margin
/// below the machine range.
pub proof fn lemma_scale_milli_abs_bound(a: int, f: int)
    requires
        coord_in_range(a),
        factor_in_range(f),
    ensures
        -MAX_SCALED <= spec_scale_milli(a, f) <= MAX_SCALED,
{
    assert(-(MAX_SCALED as int) <= a * f <= MAX_SCALED as int) by (nonlinear_arith)
        requires
            -MAX_COORD <= a <= MAX_COORD,
            -MAX_FACTOR <= f <= MAX_FACTOR,
    ;
    if a * f >= 0 {
        lemma_div_pos_is_pos(a * f, MILLI as int);
        lemma_div_nonincreasing(a * f, MILLI as int);
    } else {
        lemma_div_pos_is_pos(-(a * f), MILLI as int);
        lemma_div_nonincreasing(-(a * f), MILLI as int);
    }
}

/// Scaling keeps the sign: two non-negative operands give a
/// non-negative result.
pub proof fn lemma_scale_milli_nonneg(a: int, f: int)
    requires
        0 <= a,
        0 <= f,
    ensures
        0 <= spec_scale_milli(a, f),
{
    assert(0 <= a * f) by (nonlinear_arith)
        requires
            0 <= a,
            0 <= f,
    ;
    lemma_div_pos_is_pos(a * f, MILLI as int);
}

/// Scaling by a proper fraction (a factor between zero and one whole
/// unit) interpolates: the result lies between zero and `a`.
pub proof fn lemma_scale_milli_within(a: int, t: int)
    requires
        0 <= t <= MILLI,
    ensures
        a >= 0 ==> 0 <= spec_scale_milli(a, t) <= a,
        a < 0 ==> a <= spec_scale_milli(a, t) <= 0,
{
    if a >= 0 {
        assert(0 <= a * t <= (MILLI as int) * a) by (nonlinear_arith)
            requires
                0 <= t <= MILLI,
                0 <= a,
        ;
        lemma_div_pos_is_pos(a * t, MILLI as int);
        lemma_div_is_ordered(a * t, (MILLI as int) * a, MILLI as int);
        lemma_div_multiples_vanish(a, MILLI as int);
    } else {
        assert(0 <= -(a * t) <= (MILLI as int) * (-a)) by (nonlinear_arith)
            requires
                0 <= t <= MILLI,
                a < 0,
        ;
        lemma_div_pos_is_pos(-(a * t), MILLI as int);
        lemma_div_is_ordered(-(a * t), (MILLI as int) * (-a), MILLI as int);
        lemma_div_multiples_vanish(-a, MILLI as int);
    }
}

/// Scales `a` by the per-mille factor `f`: the fixed-point counterpart
/// of multiplying a length by a fractional factor.
pub fn scale_milli(a: i64, f: i64) -> (r: i64)
    requires
        coord_in_range(a as int),
        factor_in_range(f as int),
    ensures
        r == spec_scale_milli(a as int, f as int),
        -MAX_SCALED <= r <= MAX_SCALED,
{
    proof {
        assert(-(MAX_SCALED as int) <= a as int * f as int <= MAX_SCALED as int)
            by (nonlinear_arith)
            requires
                -MAX_COORD <= a as int <= MAX_COORD,
                -MAX_FACTOR <= f as int <= MAX_FACTOR,
        ;
        lemma_scale_milli_abs_bound(a as int, f as int);
    }
    let p: i64 = a * f;
    if p >= 0 {
        proof {
            lemma_div_pos_is_pos(p as int, MILLI as int);
            lemma_div_nonincreasing(p as int, MILLI as int);
        }
        ((p as u64) / 1000) as i64
    } else {
        proof {
            lemma_div_pos_is_pos(-(p as int), MILLI as int);
            lemma_div_nonincreasing(-(p as int), MILLI as int);
        }
        let m: u64 = (-p) as u64;
        -((m / 1000) as i64)
    }
}

/// A 2D point or vector in milli-units. The depth coordinate used only
/// for draw ordering is kept separately where it matters.
#[derive(Clone, Copy, Debug, PartialEq, Eq, Structural)]
pub struct Position {
    pub x: i64,
    pub y: i64,
}

/// Both components of `p` lie within the world bound.
pub open spec fn position_in_range(p: Position) -> bool {
    coord_in_range(p.x as int) && coord_in_range(p.y as int)
}

} // verus!
