use vstd::prelude::*;
use vstd::arithmetic::div_mod::{
    lemma_div_is_ordered, lemma_div_multiples_vanish, lemma_mod_multiples_vanish,
    lemma_small_mod,
};

verus! {

/// Milli-units per screen unit: every position and velocity is held in
/// thousandths of a pixel, so the whole simulation is exact integer
/// arithmetic.
pub const SCALE: i64 = 1000;

/// Largest magnitude a velocity component may have (50 px per frame).
pub const VEL_MAX: i64 = 50_000;

/// Largest magnitude a hull offset component may have (25 px).
pub const OFF_MAX: i64 = 25_000;

/// Smallest viewport extent the simulation accepts (300 px).
pub const DIM_MIN: i64 = 300_000;

/// Largest viewport extent the simulation accepts (one million px).
pub const DIM_MAX: i64 = 1_000_000_000;

/// Loose magnitude bound under which the entity-level arithmetic cannot
/// overflow an `i64`.
pub const ARITH_MAX: i64 = 8_000_000_000;

/// A point or displacement of the play field, in milli-units.
#[derive(Clone, Copy, Debug, PartialEq, Eq, Structural)]
pub struct Vec2 {
    pub x: i64,
    pub y: i64,
}

/// Division by `SCALE` that truncates toward zero, the rounding the
/// simulation uses when it scales a product of milli-unit quantities
/// back down.
pub open spec fn mdiv(p: int) -> int {
    if p >= 0 {
        p / 1000
    } else {
        -((-p) / 1000)
    }
}

/// Truncating toward zero never grows a magnitude: a product bounded by
/// `b * SCALE` scales down to a value bounded by `b`.
pub proof fn lemma_mdiv_bound(p: int, b: int)
    requires
        0 <= b,
        -(b * 1000) <= p <= b * 1000,
    ensures
        -b <= mdiv(p) <= b,
{
    if p >= 0 {
        lemma_div_is_ordered(0, p, 1000);
        lemma_div_is_ordered(p, b * 1000, 1000);
        lemma_div_multiples_vanish(b, 1000);
        assert(1000 * b == b * 1000) by (nonlinear_arith);
    } else {
        lemma_div_is_ordered(0, -p, 1000);
        lemma_div_is_ordered(-p, b * 1000, 1000);
        lemma_div_multiples_vanish(b, 1000);
        assert(1000 * b == b * 1000) by (nonlinear_arith);
    }
}

/// Exact scaling-down of a milli-unit product.
pub fn mdiv_exec(p: i64) -> (r: i64)
    requires
        -4_000_000_000_000 <= p <= 4_000_000_000_000,
    ensures
        r as int == mdiv(p as int),
{
    if p >= 0 {
        let q: u64 = (p as u64) / 1000u64;
        q as i64
    } else {
        let n: i64 = -p;
        let q: u64 = (n as u64) / 1000u64;
        proof {
            lemma_div_is_ordered(n as int, 4_000_000_000_000, 1000);
        }
        -(q as i64)
    }
}

/// A velocity component times a milli-scaled trigonometric factor, scaled
/// back down: the per-axis displacement the entities move by.
pub fn smul(a: i64, c: i64) -> (r: i64)
    requires
        -2_000_000_000 <= a <= 2_000_000_000,
        -1000 <= c <= 1000,
    ensures
        r as int == mdiv(a * c),
        -2_000_000_000 <= r <= 2_000_000_000,
        a >= 0 ==> -a <= r <= a,
        a < 0 ==> a <= r <= -a,
{
    proof {
        assert(-2_000_000_000_000 <= a * c <= 2_000_000_000_000) by (nonlinear_arith)
            requires
                -2_000_000_000 <= a <= 2_000_000_000,
                -1000 <= c <= 1000,
        ;
        if a >= 0 {
            assert(-(a * 1000) <= a * c <= a * 1000) by (nonlinear_arith)
                requires
                    a >= 0,
                    -1000 <= c <= 1000,
            ;
            lemma_mdiv_bound(a * c, a as int);
        } else {
            assert(-((-a) * 1000) <= a * c <= (-a) * 1000) by (nonlinear_arith)
                requires
                    a < 0,
                    -1000 <= c <= 1000,
            ;
            lemma_mdiv_bound(a * c, -(a as int));
        }
    }
    let p: i64 = a * c;
    mdiv_exec(p)
}

/// A value already reduced modulo 360 is its own remainder, and reducing
/// after one extra full turn strips exactly that turn.
pub proof fn lemma_mod360_small(t: int)
    requires
        0 <= t < 720,
    ensures
        t % 360 == if t < 360 {
            t
        } else {
            t - 360
        },
{
    if t < 360 {
        lemma_small_mod(t as nat, 360nat);
    } else {
        lemma_mod_multiples_vanish(1, t - 360, 360);
        lemma_small_mod((t - 360) as nat, 360nat);
    }
}

} // verus!
