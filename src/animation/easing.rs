//! Easing curves: each maps linear progress in `[0, ONE]` to eased progress.
use vstd::prelude::*;
use vstd::string::*;
use crate::error::PigletError;
use crate::utils::fixed::{
    div_floor, exp2_neg, exp2_neg_fixed, lemma_div_bounds, sin_turns, sine, ONE,
};
use crate::utils::text::str_eq;

verus! {

/// Overshoot constant of the "back" curves (1.70158).
pub const C1: i64 = 17016;

/// Overshoot constant of the symmetric "back" curve (1.70158 * 1.525).
pub const C2: i64 = 25949;

/// `C1 + ONE`.
pub const C3: i64 = 27016;

/// Lowest value any curve reaches.
pub const EASED_MIN: i64 = -2 * ONE;

/// Highest value any curve reaches.
pub const EASED_MAX: i64 = 3 * ONE;

/// `t²`.
pub open spec fn quad_in(t: int) -> int {
    t * t / ONE as int
}

/// `t (2 - t)`.
pub open spec fn quad_out(t: int) -> int {
    t * (2 * ONE - t) / ONE as int
}

/// `2t²` on the first half, `-1 + (4 - 2t) t` on the second.
pub open spec fn quad_in_out(t: int) -> int {
    if 2 * t < ONE {
        2 * t * t / ONE as int
    } else {
        (4 * ONE - 2 * t) * t / ONE as int - ONE
    }
}

/// `t³`.
pub open spec fn cubic_in(t: int) -> int {
    t * t * t / (ONE * ONE) as int
}

/// `1 - (1 - t)³`.
pub open spec fn cubic_out(t: int) -> int {
    ONE - (ONE - t) * (ONE - t) * (ONE - t) / (ONE * ONE) as int
}

/// `4t³` on the first half, `1 - (2 - 2t)³ / 2` on the second.
pub open spec fn cubic_in_out(t: int) -> int {
    if 2 * t < ONE {
        4 * t * t * t / (ONE * ONE) as int
    } else {
        ONE - (2 * ONE - 2 * t) * (2 * ONE - 2 * t) * (2 * ONE - 2 * t) / (2 * ONE * ONE) as int
    }
}

/// `C3 t³ - C1 t²`: dips below 0 before rising.
pub open spec fn back_in(t: int) -> int {
    (t * t) * (C3 * t - C1 * ONE) / (ONE * ONE * ONE) as int
}

/// `1 + C3 (t - 1)³ + C1 (t - 1)²`: overshoots 1 before settling.
pub open spec fn back_out(t: int) -> int {
    let u = t - ONE;
    ONE + (C3 * (u * u * u) + C1 * ONE * (u * u)) / (ONE * ONE * ONE) as int
}

/// The symmetric back curve with overshoot `C2`.
pub open spec fn back_in_out(t: int) -> int {
    if 2 * t < ONE {
        let v = 2 * t;
        (v * v) * ((C2 + ONE) * v - C2 * ONE) / (2 * ONE * ONE * ONE) as int
    } else {
        let v = 2 * t - 2 * ONE;
        ((v * v) * ((C2 + ONE) * v + C2 * ONE) + 2 * ONE * ONE * ONE * ONE) / (2 * ONE * ONE
            * ONE) as int
    }
}

/// `-2^(10t - 10) sin((10t - 10.75) / 3 turns)`, exactly 0 and 1 at the ends.
pub open spec fn elastic_in(t: int) -> int {
    if t == 0 {
        0
    } else if t == ONE {
        ONE as int
    } else {
        -(exp2_neg(10 * (ONE - t)) * sine((10 * t - 107500) / 3)) / ONE as int
    }
}

/// `2^(-10t) sin((10t - 0.75) / 3 turns) + 1`, exactly 0 and 1 at the ends.
pub open spec fn elastic_out(t: int) -> int {
    if t == 0 {
        0
    } else if t == ONE {
        ONE as int
    } else {
        exp2_neg(10 * t) * sine((10 * t - 7500) / 3) / ONE as int + ONE
    }
}

/// The symmetric elastic curve, exactly 0 and 1 at the ends.
pub open spec fn elastic_in_out(t: int) -> int {
    if t == 0 {
        0
    } else if t == ONE {
        ONE as int
    } else if 2 * t < ONE {
        -(exp2_neg(10 * ONE - 20 * t) * sine((20 * t - 111250) * 2 / 9)) / (2 * ONE) as int
    } else {
        exp2_neg(20 * t - 10 * ONE) * sine((20 * t - 111250) * 2 / 9) / (2 * ONE) as int + ONE
    }
}

/// The bouncing curve: four parabolic arcs meeting at 4/11, 8/11 and 10/11 (the
/// thresholds 1/2.75, 2/2.75, 2.5/2.75).
pub open spec fn bounce_out(t: int) -> int {
    if 11 * t < 4 * ONE {
        (22 * t) * (22 * t) / (64 * ONE) as int
    } else if 11 * t < 8 * ONE {
        ((22 * t - 12 * ONE) * (22 * t - 12 * ONE) + 48 * ONE * ONE) / (64 * ONE) as int
    } else if 11 * t < 10 * ONE {
        ((22 * t - 18 * ONE) * (22 * t - 18 * ONE) + 60 * ONE * ONE) / (64 * ONE) as int
    } else {
        ((22 * t - 21 * ONE) * (22 * t - 21 * ONE) + 63 * ONE * ONE) / (64 * ONE) as int
    }
}

/// `1 - bounce_out(1 - t)`.
pub open spec fn bounce_in(t: int) -> int {
    ONE - bounce_out(ONE - t)
}

/// `bounce_in` on the first half and `bounce_out` on the second, each squeezed into half the range.
pub open spec fn bounce_in_out(t: int) -> int {
    if 2 * t < ONE {
        (ONE - bounce_out(ONE - 2 * t)) / 2
    } else {
        (ONE + bounce_out(2 * t - ONE)) / 2
    }
}

/// A value of linear progress.
pub open spec fn unit(t: int) -> bool {
    0 <= t <= ONE
}

/// A value an easing curve may produce.
pub open spec fn eased_range(p: int) -> bool {
    EASED_MIN <= p <= EASED_MAX
}

proof fn lemma_bounce_out(t: int)
    requires
        unit(t),
    ensures
        0 <= bounce_out(t) <= ONE,
{
    let d = 64 * ONE;
    if 11 * t < 4 * ONE {
        let u = 22 * t;
        assert(0 <= u * u <= 64 * ONE * ONE) by (nonlinear_arith)
            requires
                0 <= u < 8 * ONE,
        ;
        lemma_div_bounds(u * u, d, 0, ONE as int);
    } else if 11 * t < 8 * ONE {
        let u = 22 * t - 12 * ONE;
        assert(0 <= u * u <= 16 * ONE * ONE) by (nonlinear_arith)
            requires
                -4 * ONE <= u < 4 * ONE,
        ;
        lemma_div_bounds(u * u + 48 * ONE * ONE, d, 0, ONE as int);
    } else if 11 * t < 10 * ONE {
        let u = 22 * t - 18 * ONE;
        assert(0 <= u * u <= 4 * ONE * ONE) by (nonlinear_arith)
            requires
                -2 * ONE <= u < 2 * ONE,
        ;
        lemma_div_bounds(u * u + 60 * ONE * ONE, d, 0, ONE as int);
    } else {
        let u = 22 * t - 21 * ONE;
        assert(0 <= u * u <= ONE * ONE) by (nonlinear_arith)
            requires
                -ONE <= u <= ONE,
        ;
        lemma_div_bounds(u * u + 63 * ONE * ONE, d, 0, ONE as int);
    }
}

fn bounce_out_exec(t: i64) -> (r: i64)
    requires
        unit(t as int),
    ensures
        r == bounce_out(t as int),
        0 <= r <= ONE,
{
    proof {
        lemma_bounce_out(t as int);
    }
    let (u, a): (i64, i64) = if 11 * t < 4 * ONE {
        (22 * t, 0)
    } else if 11 * t < 8 * ONE {
        (22 * t - 12 * ONE, 48)
    } else if 11 * t < 10 * ONE {
        (22 * t - 18 * ONE, 60)
    } else {
        (22 * t - 21 * ONE, 63)
    };
    proof {
        assert(0 <= u * u <= 22 * ONE * 22 * ONE) by (nonlinear_arith)
            requires
                -22 * ONE <= u <= 22 * ONE,
        ;
    }
    (u * u + a * ONE * ONE) / (64 * ONE)
}

fn quad_in_out_exec(t: i64) -> (r: i64)
    requires
        unit(t as int),
    ensures
        r == quad_in_out(t as int),
        eased_range(r as int),
{
    if 2 * t < ONE {
        proof {
            assert(0 <= 2 * t * t <= 2 * ONE * ONE) by (nonlinear_arith)
                requires
                    unit(t as int),
            ;
            lemma_div_bounds(2 * t * t, ONE as int, 0, 2 * ONE);
        }
        2 * t * t / ONE
    } else {
        proof {
            assert(0 <= (4 * ONE - 2 * t) * t <= 4 * ONE * ONE) by (nonlinear_arith)
                requires
                    unit(t as int),
            ;
            lemma_div_bounds((4 * ONE - 2 * t) * t, ONE as int, 0, 4 * ONE);
        }
        (4 * ONE - 2 * t) * t / ONE - ONE
    }
}

/// The `linear` curve.
pub struct Linear;

impl Linear {
    /// Eased progress at linear progress `t`.
    pub fn ease(&self, t: i64) -> (r: i64)
        requires
            unit(t as int),
        ensures
            r == t as int,
            eased_range(r as int),
    {
        t
    }

    /// The curve's name.
    pub fn name(&self) -> (r: &'static str)
        ensures
            r@ == "linear"@,
    {
        "linear"
    }
}

/// The `ease-in` curve.
pub struct EaseIn;

impl EaseIn {
    /// Eased progress at linear progress `t`.
    pub fn ease(&self, t: i64) -> (r: i64)
        requires
            unit(t as int),
        ensures
            r == quad_in(t as int),
            eased_range(r as int),
    {
        proof {
            assert(0 <= t * t <= ONE * ONE) by (nonlinear_arith)
                requires
                    unit(t as int),
            ;
            lemma_div_bounds(t * t, ONE as int, 0, ONE as int);
        }
        t * t / ONE
    }

    /// The curve's name.
    pub fn name(&self) -> (r: &'static str)
        ensures
            r@ == "ease-in"@,
    {
        "ease-in"
    }
}

/// The `ease-out` curve.
pub struct EaseOut;

impl EaseOut {
    /// Eased progress at linear progress `t`.
    pub fn ease(&self, t: i64) -> (r: i64)
        requires
            unit(t as int),
        ensures
            r == quad_out(t as int),
            eased_range(r as int),
    {
        proof {
            assert(0 <= t * (2 * ONE - t) <= ONE * ONE) by (nonlinear_arith)
                requires
                    unit(t as int),
            ;
            lemma_div_bounds(t * (2 * ONE - t), ONE as int, 0, ONE as int);
        }
        t * (2 * ONE - t) / ONE
    }

    /// The curve's name.
    pub fn name(&self) -> (r: &'static str)
        ensures
            r@ == "ease-out"@,
    {
        "ease-out"
    }
}

/// The `ease-in-out` curve.
pub struct EaseInOut;

impl EaseInOut {
    /// Eased progress at linear progress `t`.
    pub fn ease(&self, t: i64) -> (r: i64)
        requires
            unit(t as int),
        ensures
            r == quad_in_out(t as int),
            eased_range(r as int),
    {
        quad_in_out_exec(t)
    }

    /// The curve's name.
    pub fn name(&self) -> (r: &'static str)
        ensures
            r@ == "ease-in-out"@,
    {
        "ease-in-out"
    }
}

/// The `ease-in-quad` curve.
pub struct EaseInQuad;

impl EaseInQuad {
    /// Eased progress at linear progress `t`.
    pub fn ease(&self, t: i64) -> (r: i64)
        requires
            unit(t as int),
        ensures
            r == quad_in(t as int),
            eased_range(r as int),
    {
        EaseIn.ease(t)
    }

    /// The curve's name.
    pub fn name(&self) -> (r: &'static str)
        ensures
            r@ == "ease-in-quad"@,
    {
        "ease-in-quad"
    }
}

/// The `ease-out-quad` curve.
pub struct EaseOutQuad;

impl EaseOutQuad {
    /// Eased progress at linear progress `t`.
    pub fn ease(&self, t: i64) -> (r: i64)
        requires
            unit(t as int),
        ensures
            r == quad_out(t as int),
            eased_range(r as int),
    {
        EaseOut.ease(t)
    }

    /// The curve's name.
    pub fn name(&self) -> (r: &'static str)
        ensures
            r@ == "ease-out-quad"@,
    {
        "ease-out-quad"
    }
}

/// The `ease-in-out-quad` curve.
pub struct EaseInOutQuad;

impl EaseInOutQuad {
    /// Eased progress at linear progress `t`.
    pub fn ease(&self, t: i64) -> (r: i64)
        requires
            unit(t as int),
        ensures
            r == quad_in_out(t as int),
            eased_range(r as int),
    {
        quad_in_out_exec(t)
    }

    /// The curve's name.
    pub fn name(&self) -> (r: &'static str)
        ensures
            r@ == "ease-in-out-quad"@,
    {
        "ease-in-out-quad"
    }
}

/// The `ease-in-cubic` curve.
pub struct EaseInCubic;

impl EaseInCubic {
    /// Eased progress at linear progress `t`.
    pub fn ease(&self, t: i64) -> (r: i64)
        requires
            unit(t as int),
        ensures
            r == cubic_in(t as int),
            eased_range(r as int),
    {
        proof {
            assert(0 <= t * t <= ONE * ONE) by (nonlinear_arith)
                requires
                    unit(t as int),
            ;
            assert(0 <= t * t * t <= ONE * ONE * ONE) by (nonlinear_arith)
                requires
                    unit(t as int),
                    0 <= t * t <= ONE * ONE,
            ;
            lemma_div_bounds(t * t * t, ONE * ONE, 0, ONE as int);
        }
        t * t * t / (ONE * ONE)
    }

    /// The curve's name.
    pub fn name(&self) -> (r: &'static str)
        ensures
            r@ == "ease-in-cubic"@,
    {
        "ease-in-cubic"
    }
}

/// The `ease-out-cubic` curve.
pub struct EaseOutCubic;

impl EaseOutCubic {
    /// Eased progress at linear progress `t`.
    pub fn ease(&self, t: i64) -> (r: i64)
        requires
            unit(t as int),
        ensures
            r == cubic_out(t as int),
            eased_range(r as int),
    {
        let u = ONE - t;
        proof {
            assert(0 <= u * u <= ONE * ONE) by (nonlinear_arith)
                requires
                    0 <= u <= ONE,
            ;
            assert(0 <= u * u * u <= ONE * ONE * ONE) by (nonlinear_arith)
                requires
                    0 <= u <= ONE,
                    0 <= u * u <= ONE * ONE,
            ;
            lemma_div_bounds(u * u * u, ONE * ONE, 0, ONE as int);
        }
        ONE - u * u * u / (ONE * ONE)
    }

    /// The curve's name.
    pub fn name(&self) -> (r: &'static str)
        ensures
            r@ == "ease-out-cubic"@,
    {
        "ease-out-cubic"
    }
}

/// The `ease-in-out-cubic` curve.
pub struct EaseInOutCubic;

impl EaseInOutCubic {
    /// Eased progress at linear progress `t`.
    pub fn ease(&self, t: i64) -> (r: i64)
        requires
            unit(t as int),
        ensures
            r == cubic_in_out(t as int),
            eased_range(r as int),
    {
        if 2 * t < ONE {
            proof {
                assert(0 <= 4 * t * t <= ONE * ONE) by (nonlinear_arith)
                    requires
                        0 <= t,
                        2 * t < ONE,
                ;
                assert(0 <= 4 * t * t * t <= ONE * ONE * ONE) by (nonlinear_arith)
                    requires
                        0 <= t,
                        2 * t < ONE,
                        0 <= 4 * t * t <= ONE * ONE,
                ;
                lemma_div_bounds(4 * t * t * t, ONE * ONE, 0, ONE as int);
            }
            4 * t * t * t / (ONE * ONE)
        } else {
            let v = 2 * ONE - 2 * t;
            proof {
                assert(0 <= v * v <= ONE * ONE) by (nonlinear_arith)
                    requires
                        0 <= v <= ONE,
                ;
                assert(0 <= v * v * v <= ONE * ONE * ONE) by (nonlinear_arith)
                    requires
                        0 <= v <= ONE,
                        0 <= v * v <= ONE * ONE,
                ;
                lemma_div_bounds(v * v * v, 2 * ONE * ONE, 0, ONE as int);
            }
            ONE - v * v * v / (2 * ONE * ONE)
        }
    }

    /// The curve's name.
    pub fn name(&self) -> (r: &'static str)
        ensures
            r@ == "ease-in-out-cubic"@,
    {
        "ease-in-out-cubic"
    }
}

/// The `ease-in-back` curve.
pub struct EaseInBack;

impl EaseInBack {
    /// Eased progress at linear progress `t`.
    pub fn ease(&self, t: i64) -> (r: i64)
        requires
            unit(t as int),
        ensures
            r == back_in(t as int),
            eased_range(r as int),
    {
        let w = C3 * t - C1 * ONE;
        proof {
            assert(0 <= t * t <= ONE * ONE) by (nonlinear_arith)
                requires
                    0 <= t <= ONE,
            ;
        }
        let t2 = t * t;
        proof {
            assert(0 <= t2 <= ONE * ONE) by (nonlinear_arith)
                requires
                    unit(t as int),
                    t2 == t * t,
            ;
            assert(-C1 * ONE * ONE * ONE <= t2 * w <= C3 * ONE * ONE * ONE) by (nonlinear_arith)
                requires
                    0 <= t2 <= ONE * ONE,
                    -C1 * ONE <= w <= C3 * ONE,
            ;
            lemma_div_bounds(t2 * w, ONE * ONE * ONE, -2 * ONE, 3 * ONE);
        }
        div_floor(t2 * w, ONE * ONE * ONE)
    }

    /// The curve's name.
    pub fn name(&self) -> (r: &'static str)
        ensures
            r@ == "ease-in-back"@,
    {
        "ease-in-back"
    }
}

/// The `ease-out-back` curve.
pub struct EaseOutBack;

impl EaseOutBack {
    /// Eased progress at linear progress `t`.
    pub fn ease(&self, t: i64) -> (r: i64)
        requires
            unit(t as int),
        ensures
            r == back_out(t as int),
            eased_range(r as int),
    {
        let u = t - ONE;
        proof {
            assert(0 <= u * u <= ONE * ONE) by (nonlinear_arith)
                requires
                    -ONE <= u <= 0,
            ;
        }
        let u2 = u * u;
        proof {
            assert(0 <= u2 <= ONE * ONE) by (nonlinear_arith)
                requires
                    -ONE <= u <= 0,
                    u2 == u * u,
            ;
            assert(-ONE * ONE * ONE <= u2 * u <= 0) by (nonlinear_arith)
                requires
                    -ONE <= u <= 0,
                    0 <= u2 <= ONE * ONE,
            ;
        }
        let u3 = u2 * u;
        proof {
            assert(0 <= C1 * ONE * u2 <= C1 * ONE * (ONE * ONE)) by (nonlinear_arith)
                requires
                    0 <= u2 <= ONE * ONE,
            ;
            assert(-C3 * (ONE * ONE * ONE) <= C3 * u3 <= 0) by (nonlinear_arith)
                requires
                    -ONE * ONE * ONE <= u3 <= 0,
            ;
        }
        let num = C3 * u3 + C1 * ONE * u2;
        proof {
            lemma_div_bounds(num as int, ONE * ONE * ONE, -3 * ONE, 2 * ONE);
        }
        ONE + div_floor(num, ONE * ONE * ONE)
    }

    /// The curve's name.
    pub fn name(&self) -> (r: &'static str)
        ensures
            r@ == "ease-out-back"@,
    {
        "ease-out-back"
    }
}

/// The `ease-in-out-back` curve.
pub struct EaseInOutBack;

impl EaseInOutBack {
    /// Eased progress at linear progress `t`.
    pub fn ease(&self, t: i64) -> (r: i64)
        requires
            unit(t as int),
        ensures
            r == back_in_out(t as int),
            eased_range(r as int),
    {
        if 2 * t < ONE {
            let v = 2 * t;
            let w = (C2 + ONE) * v - C2 * ONE;
            proof {
                assert(0 <= v * v <= ONE * ONE) by (nonlinear_arith)
                    requires
                        0 <= v <= ONE,
                ;
            }
            let v2 = v * v;
            proof {
                assert(0 <= v2 <= ONE * ONE) by (nonlinear_arith)
                    requires
                        0 <= v <= ONE,
                        v2 == v * v,
                ;
                assert(-C2 * ONE * ONE * ONE <= v2 * w <= ONE * ONE * ONE * ONE) by (
                nonlinear_arith)
                    requires
                        0 <= v2 <= ONE * ONE,
                        -C2 * ONE <= w <= ONE * ONE,
                ;
                lemma_div_bounds(v2 * w, 2 * ONE * ONE * ONE, -2 * ONE, ONE as int);
            }
            div_floor(v2 * w, 2 * ONE * ONE * ONE)
        } else {
            let v = 2 * t - 2 * ONE;
            let w = (C2 + ONE) * v + C2 * ONE;
            proof {
                assert(0 <= v * v <= ONE * ONE) by (nonlinear_arith)
                    requires
                        -ONE <= v <= 0,
                ;
            }
            let v2 = v * v;
            proof {
                assert(0 <= v2 <= ONE * ONE) by (nonlinear_arith)
                    requires
                        -ONE <= v <= 0,
                        v2 == v * v,
                ;
                assert(-ONE * ONE * ONE * ONE <= v2 * w <= C2 * ONE * ONE * ONE) by (
                nonlinear_arith)
                    requires
                        0 <= v2 <= ONE * ONE,
                        -ONE * ONE <= w <= C2 * ONE,
                ;
                lemma_div_bounds(
                    v2 * w + 2 * ONE * ONE * ONE * ONE,
                    2 * ONE * ONE * ONE,
                    0,
                    3 * ONE,
                );
            }
            div_floor(v2 * w + 2 * ONE * ONE * ONE * ONE, 2 * ONE * ONE * ONE)
        }
    }

    /// The curve's name.
    pub fn name(&self) -> (r: &'static str)
        ensures
            r@ == "ease-in-out-back"@,
    {
        "ease-in-out-back"
    }
}

/// The `ease-in-elastic` curve.
pub struct EaseInElastic;

impl EaseInElastic {
    /// Eased progress at linear progress `t`.
    pub fn ease(&self, t: i64) -> (r: i64)
        requires
            unit(t as int),
        ensures
            r == elastic_in(t as int),
            eased_range(r as int),
    {
        if t == 0 {
            return 0;
        }
        if t == ONE {
            return ONE;
        }
        let e = exp2_neg_fixed(10 * (ONE - t));
        let a = div_floor(10 * t - 107500, 3);
        proof {
            lemma_div_bounds(10 * t - 107500, 3, -40000, 0);
        }
        let s = sin_turns(a);
        proof {
            assert(-ONE * ONE <= e * s <= ONE * ONE) by (nonlinear_arith)
                requires
                    0 <= e <= ONE,
                    -ONE <= s <= ONE,
            ;
            lemma_div_bounds(-(e * s), ONE as int, -ONE, ONE as int);
        }
        div_floor(-(e * s), ONE)
    }

    /// The curve's name.
    pub fn name(&self) -> (r: &'static str)
        ensures
            r@ == "ease-in-elastic"@,
    {
        "ease-in-elastic"
    }
}

/// The `ease-out-elastic` curve.
pub struct EaseOutElastic;

impl EaseOutElastic {
    /// Eased progress at linear progress `t`.
    pub fn ease(&self, t: i64) -> (r: i64)
        requires
            unit(t as int),
        ensures
            r == elastic_out(t as int),
            eased_range(r as int),
    {
        if t == 0 {
            return 0;
        }
        if t == ONE {
            return ONE;
        }
        let e = exp2_neg_fixed(10 * t);
        let a = div_floor(10 * t - 7500, 3);
        proof {
            lemma_div_bounds(10 * t - 7500, 3, -3000, 40000);
        }
        let s = sin_turns(a);
        proof {
            assert(-ONE * ONE <= e * s <= ONE * ONE) by (nonlinear_arith)
                requires
                    0 <= e <= ONE,
                    -ONE <= s <= ONE,
            ;
            lemma_div_bounds(e * s, ONE as int, -ONE, ONE as int);
        }
        div_floor(e * s, ONE) + ONE
    }

    /// The curve's name.
    pub fn name(&self) -> (r: &'static str)
        ensures
            r@ == "ease-out-elastic"@,
    {
        "ease-out-elastic"
    }
}

/// The `ease-in-out-elastic` curve.
pub struct EaseInOutElastic;

impl EaseInOutElastic {
    /// Eased progress at linear progress `t`.
    pub fn ease(&self, t: i64) -> (r: i64)
        requires
            unit(t as int),
        ensures
            r == elastic_in_out(t as int),
            eased_range(r as int),
    {
        if t == 0 {
            return 0;
        }
        if t == ONE {
            return ONE;
        }
        let a = div_floor((20 * t - 111250) * 2, 9);
        proof {
            lemma_div_bounds((20 * t - 111250) * 2, 9, -30000, 30000);
        }
        let s = sin_turns(a);
        if 2 * t < ONE {
            let e = exp2_neg_fixed(10 * ONE - 20 * t);
            proof {
                assert(-ONE * ONE <= e * s <= ONE * ONE) by (nonlinear_arith)
                    requires
                        0 <= e <= ONE,
                        -ONE <= s <= ONE,
                ;
                lemma_div_bounds(-(e * s), 2 * ONE, -ONE, ONE as int);
            }
            div_floor(-(e * s), 2 * ONE)
        } else {
            let e = exp2_neg_fixed(20 * t - 10 * ONE);
            proof {
                assert(-ONE * ONE <= e * s <= ONE * ONE) by (nonlinear_arith)
                    requires
                        0 <= e <= ONE,
                        -ONE <= s <= ONE,
                ;
                lemma_div_bounds(e * s, 2 * ONE, -ONE, ONE as int);
            }
            div_floor(e * s, 2 * ONE) + ONE
        }
    }

    /// The curve's name.
    pub fn name(&self) -> (r: &'static str)
        ensures
            r@ == "ease-in-out-elastic"@,
    {
        "ease-in-out-elastic"
    }
}

/// The `ease-in-bounce` curve.
pub struct EaseInBounce;

impl EaseInBounce {
    /// Eased progress at linear progress `t`.
    pub fn ease(&self, t: i64) -> (r: i64)
        requires
            unit(t as int),
        ensures
            r == bounce_in(t as int),
            eased_range(r as int),
            0 <= r <= ONE,
    {
        ONE - bounce_out_exec(ONE - t)
    }

    /// The curve's name.
    pub fn name(&self) -> (r: &'static str)
        ensures
            r@ == "ease-in-bounce"@,
    {
        "ease-in-bounce"
    }
}

/// The `ease-out-bounce` curve.
pub struct EaseOutBounce;

impl EaseOutBounce {
    /// Eased progress at linear progress `t`.
    pub fn ease(&self, t: i64) -> (r: i64)
        requires
            unit(t as int),
        ensures
            r == bounce_out(t as int),
            eased_range(r as int),
            0 <= r <= ONE,
    {
        bounce_out_exec(t)
    }

    /// The curve's name.
    pub fn name(&self) -> (r: &'static str)
        ensures
            r@ == "ease-out-bounce"@,
    {
        "ease-out-bounce"
    }
}

/// The `ease-in-out-bounce` curve.
pub struct EaseInOutBounce;

impl EaseInOutBounce {
    /// Eased progress at linear progress `t`.
    pub fn ease(&self, t: i64) -> (r: i64)
        requires
            unit(t as int),
        ensures
            r == bounce_in_out(t as int),
            eased_range(r as int),
            0 <= r <= ONE,
    {
        if 2 * t < ONE {
            (ONE - bounce_out_exec(ONE - 2 * t)) / 2
        } else {
            (ONE + bounce_out_exec(2 * t - ONE)) / 2
        }
    }

    /// The curve's name.
    pub fn name(&self) -> (r: &'static str)
        ensures
            r@ == "ease-in-out-bounce"@,
    {
        "ease-in-out-bounce"
    }
}

/// The easing curves, by kind.
#[derive(Clone, Copy, Debug, PartialEq, Eq, Structural)]
pub enum EasingKind {
    Linear,
    EaseIn,
    EaseOut,
    EaseInOut,
    EaseInQuad,
    EaseOutQuad,
    EaseInOutQuad,
    EaseInCubic,
    EaseOutCubic,
    EaseInOutCubic,
    EaseInBack,
    EaseOutBack,
    EaseInOutBack,
    EaseInElastic,
    EaseOutElastic,
    EaseInOutElastic,
    EaseInBounce,
    EaseOutBounce,
    EaseInOutBounce,
}

/// The curve a kind stands for.
pub open spec fn curve(kind: EasingKind, t: int) -> int {
    match kind {
        EasingKind::Linear => t,
        EasingKind::EaseIn => quad_in(t),
        EasingKind::EaseOut => quad_out(t),
        EasingKind::EaseInOut => quad_in_out(t),
        EasingKind::EaseInQuad => quad_in(t),
        EasingKind::EaseOutQuad => quad_out(t),
        EasingKind::EaseInOutQuad => quad_in_out(t),
        EasingKind::EaseInCubic => cubic_in(t),
        EasingKind::EaseOutCubic => cubic_out(t),
        EasingKind::EaseInOutCubic => cubic_in_out(t),
        EasingKind::EaseInBack => back_in(t),
        EasingKind::EaseOutBack => back_out(t),
        EasingKind::EaseInOutBack => back_in_out(t),
        EasingKind::EaseInElastic => elastic_in(t),
        EasingKind::EaseOutElastic => elastic_out(t),
        EasingKind::EaseInOutElastic => elastic_in_out(t),
        EasingKind::EaseInBounce => bounce_in(t),
        EasingKind::EaseOutBounce => bounce_out(t),
        EasingKind::EaseInOutBounce => bounce_in_out(t),
    }
}

/// The name of a kind.
pub open spec fn easing_name(kind: EasingKind) -> Seq<char> {
    match kind {
        EasingKind::Linear => "linear"@,
        EasingKind::EaseIn => "ease-in"@,
        EasingKind::EaseOut => "ease-out"@,
        EasingKind::EaseInOut => "ease-in-out"@,
        EasingKind::EaseInQuad => "ease-in-quad"@,
        EasingKind::EaseOutQuad => "ease-out-quad"@,
        EasingKind::EaseInOutQuad => "ease-in-out-quad"@,
        EasingKind::EaseInCubic => "ease-in-cubic"@,
        EasingKind::EaseOutCubic => "ease-out-cubic"@,
        EasingKind::EaseInOutCubic => "ease-in-out-cubic"@,
        EasingKind::EaseInBack => "ease-in-back"@,
        EasingKind::EaseOutBack => "ease-out-back"@,
        EasingKind::EaseInOutBack => "ease-in-out-back"@,
        EasingKind::EaseInElastic => "ease-in-elastic"@,
        EasingKind::EaseOutElastic => "ease-out-elastic"@,
        EasingKind::EaseInOutElastic => "ease-in-out-elastic"@,
        EasingKind::EaseInBounce => "ease-in-bounce"@,
        EasingKind::EaseOutBounce => "ease-out-bounce"@,
        EasingKind::EaseInOutBounce => "ease-in-out-bounce"@,
    }
}

/// The kind whose name is `name`, if any.
pub open spec fn easing_named(name: Seq<char>) -> Option<EasingKind> {
    if name == "linear"@ {
        Some(EasingKind::Linear)
    } else if name == "ease-in"@ {
        Some(EasingKind::EaseIn)
    } else if name == "ease-out"@ {
        Some(EasingKind::EaseOut)
    } else if name == "ease-in-out"@ {
        Some(EasingKind::EaseInOut)
    } else if name == "ease-in-quad"@ {
        Some(EasingKind::EaseInQuad)
    } else if name == "ease-out-quad"@ {
        Some(EasingKind::EaseOutQuad)
    } else if name == "ease-in-out-quad"@ {
        Some(EasingKind::EaseInOutQuad)
    } else if name == "ease-in-cubic"@ {
        Some(EasingKind::EaseInCubic)
    } else if name == "ease-out-cubic"@ {
        Some(EasingKind::EaseOutCubic)
    } else if name == "ease-in-out-cubic"@ {
        Some(EasingKind::EaseInOutCubic)
    } else if name == "ease-in-back"@ {
        Some(EasingKind::EaseInBack)
    } else if name == "ease-out-back"@ {
        Some(EasingKind::EaseOutBack)
    } else if name == "ease-in-out-back"@ {
        Some(EasingKind::EaseInOutBack)
    } else if name == "ease-in-elastic"@ {
        Some(EasingKind::EaseInElastic)
    } else if name == "ease-out-elastic"@ {
        Some(EasingKind::EaseOutElastic)
    } else if name == "ease-in-out-elastic"@ {
        Some(EasingKind::EaseInOutElastic)
    } else if name == "ease-in-bounce"@ {
        Some(EasingKind::EaseInBounce)
    } else if name == "ease-out-bounce"@ {
        Some(EasingKind::EaseOutBounce)
    } else if name == "ease-in-out-bounce"@ {
        Some(EasingKind::EaseInOutBounce)
    } else {
        None
    }
}

impl EasingKind {
    /// Eased progress at linear progress `t`.
    pub fn ease(&self, t: i64) -> (r: i64)
        requires
            unit(t as int),
        ensures
            r == curve(*self, t as int),
            eased_range(r as int),
    {
        match self {
            EasingKind::Linear => Linear.ease(t),
            EasingKind::EaseIn => EaseIn.ease(t),
            EasingKind::EaseOut => EaseOut.ease(t),
            EasingKind::EaseInOut => EaseInOut.ease(t),
            EasingKind::EaseInQuad => EaseInQuad.ease(t),
            EasingKind::EaseOutQuad => EaseOutQuad.ease(t),
            EasingKind::EaseInOutQuad => EaseInOutQuad.ease(t),
            EasingKind::EaseInCubic => EaseInCubic.ease(t),
            EasingKind::EaseOutCubic => EaseOutCubic.ease(t),
            EasingKind::EaseInOutCubic => EaseInOutCubic.ease(t),
            EasingKind::EaseInBack => EaseInBack.ease(t),
            EasingKind::EaseOutBack => EaseOutBack.ease(t),
            EasingKind::EaseInOutBack => EaseInOutBack.ease(t),
            EasingKind::EaseInElastic => EaseInElastic.ease(t),
            EasingKind::EaseOutElastic => EaseOutElastic.ease(t),
            EasingKind::EaseInOutElastic => EaseInOutElastic.ease(t),
            EasingKind::EaseInBounce => EaseInBounce.ease(t),
            EasingKind::EaseOutBounce => EaseOutBounce.ease(t),
            EasingKind::EaseInOutBounce => EaseInOutBounce.ease(t),
        }
    }

    /// The curve's name.
    pub fn name(&self) -> (r: &'static str)
        ensures
            r@ == easing_name(*self),
    {
        match self {
            EasingKind::Linear => Linear.name(),
            EasingKind::EaseIn => EaseIn.name(),
            EasingKind::EaseOut => EaseOut.name(),
            EasingKind::EaseInOut => EaseInOut.name(),
            EasingKind::EaseInQuad => EaseInQuad.name(),
            EasingKind::EaseOutQuad => EaseOutQuad.name(),
            EasingKind::EaseInOutQuad => EaseInOutQuad.name(),
            EasingKind::EaseInCubic => EaseInCubic.name(),
            EasingKind::EaseOutCubic => EaseOutCubic.name(),
            EasingKind::EaseInOutCubic => EaseInOutCubic.name(),
            EasingKind::EaseInBack => EaseInBack.name(),
            EasingKind::EaseOutBack => EaseOutBack.name(),
            EasingKind::EaseInOutBack => EaseInOutBack.name(),
            EasingKind::EaseInElastic => EaseInElastic.name(),
            EasingKind::EaseOutElastic => EaseOutElastic.name(),
            EasingKind::EaseInOutElastic => EaseInOutElastic.name(),
            EasingKind::EaseInBounce => EaseInBounce.name(),
            EasingKind::EaseOutBounce => EaseOutBounce.name(),
            EasingKind::EaseInOutBounce => EaseInOutBounce.name(),
        }
    }
}

/// The curve named `name`; an unknown name is an error that carries it.
pub fn get_easing_function(name: &str) -> (r: Result<EasingKind, PigletError>)
    ensures
        match easing_named(name@) {
            Some(k) => r == Ok::<EasingKind, PigletError>(k),
            None => r matches Err(PigletError::UnknownEasing(s)) && s@ == name@,
        },
{
    if str_eq(name, "linear") {
        Ok(EasingKind::Linear)
    } else if str_eq(name, "ease-in") {
        Ok(EasingKind::EaseIn)
    } else if str_eq(name, "ease-out") {
        Ok(EasingKind::EaseOut)
    } else if str_eq(name, "ease-in-out") {
        Ok(EasingKind::EaseInOut)
    } else if str_eq(name, "ease-in-quad") {
        Ok(EasingKind::EaseInQuad)
    } else if str_eq(name, "ease-out-quad") {
        Ok(EasingKind::EaseOutQuad)
    } else if str_eq(name, "ease-in-out-quad") {
        Ok(EasingKind::EaseInOutQuad)
    } else if str_eq(name, "ease-in-cubic") {
        Ok(EasingKind::EaseInCubic)
    } else if str_eq(name, "ease-out-cubic") {
        Ok(EasingKind::EaseOutCubic)
    } else if str_eq(name, "ease-in-out-cubic") {
        Ok(EasingKind::EaseInOutCubic)
    } else if str_eq(name, "ease-in-back") {
        Ok(EasingKind::EaseInBack)
    } else if str_eq(name, "ease-out-back") {
        Ok(EasingKind::EaseOutBack)
    } else if str_eq(name, "ease-in-out-back") {
        Ok(EasingKind::EaseInOutBack)
    } else if str_eq(name, "ease-in-elastic") {
        Ok(EasingKind::EaseInElastic)
    } else if str_eq(name, "ease-out-elastic") {
        Ok(EasingKind::EaseOutElastic)
    } else if str_eq(name, "ease-in-out-elastic") {
        Ok(EasingKind::EaseInOutElastic)
    } else if str_eq(name, "ease-in-bounce") {
        Ok(EasingKind::EaseInBounce)
    } else if str_eq(name, "ease-out-bounce") {
        Ok(EasingKind::EaseOutBounce)
    } else if str_eq(name, "ease-in-out-bounce") {
        Ok(EasingKind::EaseInOutBounce)
    } else {
        Err(PigletError::UnknownEasing(String::from_str(name)))
    }
}

/// The linear curve is the identity on `[0, ONE]`, and the three bounce curves stay
/// within `[0, ONE]`: they neither overshoot nor dip below zero.
pub proof fn lemma_easing_bounds(kind: EasingKind, t: int)
    requires
        unit(t),
    ensures
        kind == EasingKind::Linear ==> curve(kind, t) == t,
        kind == EasingKind::EaseInBounce || kind == EasingKind::EaseOutBounce || kind
            == EasingKind::EaseInOutBounce ==> 0 <= curve(kind, t) <= ONE,
{
    lemma_bounce_out(t);
    lemma_bounce_out(ONE - t);
    if 2 * t < ONE {
        lemma_bounce_out(ONE - 2 * t);
    } else {
        lemma_bounce_out(2 * t - ONE);
    }
}

} // verus!
