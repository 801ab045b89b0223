//! Fixed-point arithmetic: fractions are integers in units of `1 / ONE`, and
//! angles are fractions of a full turn in the same units.
use vstd::prelude::*;

verus! {

/// The fixed-point unit: `ONE` stands for 1.0.
pub const ONE: i64 = 10000;

/// Half of the fixed-point unit, as a fraction of a turn: half a turn.
pub const HALF: i64 = 5000;

/// Largest magnitude accepted for an angle, in fixed-point turns.
pub const ANGLE_BOUND: i64 = 1_000_000;

/// Floor division by a positive divisor.
pub fn div_floor(a: i64, b: i64) -> (r: i64)
    requires
        b > 0,
    ensures
        r == a / b,
{
    if a >= 0 {
        a / b
    } else {
        let n = -(a + 1);
        let q = n / b;
        proof {
            assert(n == (-(a as int) - 1));
            lemma_neg_floor(a as int, b as int, q as int);
        }
        -q - 1
    }
}

proof fn lemma_neg_floor(a: int, b: int, q: int)
    requires
        a < 0,
        b > 0,
        q == (-a - 1) / b,
    ensures
        a / b == -q - 1,
{
    let n = -a - 1;
    vstd::arithmetic::div_mod::lemma_fundamental_div_mod(n, b);
    let rem = n % b;
    assert(n == b * q + rem);
    assert(0 <= rem < b);
    assert(a == (-q - 1) * b + (b - 1 - rem)) by (nonlinear_arith)
        requires
            n == b * q + rem,
            n == -a - 1,
    ;
    vstd::arithmetic::div_mod::lemma_fundamental_div_mod_converse(a, b, -q - 1, b - 1 - rem);
}

/// A quotient lies between the bounds that scale its numerator.
pub proof fn lemma_div_bounds(a: int, b: int, lo: int, hi: int)
    requires
        b > 0,
        lo * b <= a <= hi * b,
    ensures
        lo <= a / b <= hi,
{
    vstd::arithmetic::div_mod::lemma_fundamental_div_mod(a, b);
    vstd::arithmetic::div_mod::lemma_mod_bound(a, b);
    let q = a / b;
    let r = a % b;
    assert(a == b * q + r);
    if q < lo {
        assert(b * q + r < lo * b) by (nonlinear_arith)
            requires
                q < lo,
                r < b,
                b > 0,
        ;
    }
    if q > hi {
        assert(b * q + r > hi * b) by (nonlinear_arith)
            requires
                q > hi,
                r >= 0,
                b > 0,
        ;
    }
}

/// Sine of half a turn's worth of angle `q` (Bhaskara's rational form), in fixed point.
pub open spec fn half_wave(q: int) -> int {
    (ONE * 16 * q * (HALF - q)) / (5 * HALF * HALF - 4 * q * (HALF - q))
}

/// The sine of the angle `p` (fixed-point turns): Bhaskara's approximation on each
/// half turn, odd about the half turn and periodic with period one turn.
pub open spec fn sine(p: int) -> int {
    let q = p % (ONE as int);
    if q < HALF {
        half_wave(q)
    } else {
        -half_wave(q - HALF)
    }
}

/// The cosine of the angle `p` (fixed-point turns): the sine a quarter turn later.
pub open spec fn cosine(p: int) -> int {
    sine(p + ONE / 4)
}

proof fn lemma_half_wave(q: int)
    requires
        0 <= q <= HALF,
    ensures
        0 <= half_wave(q) <= ONE,
{
    let x = q * (HALF - q);
    assert(0 <= x) by (nonlinear_arith)
        requires
            0 <= q <= HALF,
            x == q * (HALF - q),
    ;
    assert(4 * x <= HALF * HALF) by (nonlinear_arith)
        requires
            x == q * (HALF - q),
    ;
    let num = ONE * 16 * q * (HALF - q);
    let den = 5 * HALF * HALF - 4 * q * (HALF - q);
    assert(num == ONE * 16 * x) by (nonlinear_arith)
        requires
            x == q * (HALF - q),
            num == ONE * 16 * q * (HALF - q),
    ;
    assert(den == 5 * HALF * HALF - 4 * x) by (nonlinear_arith)
        requires
            x == q * (HALF - q),
            den == 5 * HALF * HALF - 4 * q * (HALF - q),
    ;
    assert(den > 0);
    assert(num <= ONE * den) by (nonlinear_arith)
        requires
            num == ONE * 16 * x,
            den == 5 * HALF * HALF - 4 * x,
            4 * x <= HALF * HALF,
    ;
    vstd::arithmetic::div_mod::lemma_div_pos_is_pos(num, den);
    vstd::arithmetic::div_mod::lemma_div_is_ordered(num, ONE * den, den);
    vstd::arithmetic::div_mod::lemma_div_by_multiple(ONE as int, den);
}

fn half_wave_exec(q: i64) -> (r: i64)
    requires
        0 <= q <= HALF,
    ensures
        r == half_wave(q as int),
        0 <= r <= ONE,
{
    proof {
        lemma_half_wave(q as int);
        assert(0 <= q * (HALF - q) <= HALF * HALF) by (nonlinear_arith)
            requires
                0 <= q <= HALF,
        ;
    }
    let x = q * (HALF - q);
    proof {
        assert(ONE * 16 * x == ONE * 16 * q * (HALF - q)) by (nonlinear_arith)
            requires
                x == q * (HALF - q),
        ;
        assert(4 * x == 4 * q * (HALF - q)) by (nonlinear_arith)
            requires
                x == q * (HALF - q),
        ;
    }
    (ONE * 16 * x) / (5 * HALF * HALF - 4 * x)
}

/// Sine of an angle given in fixed-point turns.
pub fn sin_turns(p: i64) -> (r: i64)
    requires
        -ANGLE_BOUND <= p <= ANGLE_BOUND,
    ensures
        r == sine(p as int),
        -ONE <= r <= ONE,
{
    let shifted = p + ANGLE_BOUND;
    let q = shifted % ONE;
    proof {
        assert(ANGLE_BOUND == ONE * 100);
        vstd::arithmetic::div_mod::lemma_mod_multiples_vanish(100, p as int, ONE as int);
        assert(q == (p as int) % (ONE as int));
    }
    if q < HALF {
        half_wave_exec(q)
    } else {
        -half_wave_exec(q - HALF)
    }
}

/// Cosine of an angle given in fixed-point turns.
pub fn cos_turns(p: i64) -> (r: i64)
    requires
        -ANGLE_BOUND + ONE <= p <= ANGLE_BOUND - ONE,
    ensures
        r == cosine(p as int),
        -ONE <= r <= ONE,
{
    sin_turns(p + ONE / 4)
}

/// `x` halved `k` times, rounding down each time.
pub open spec fn halved(x: int, k: nat) -> int
    decreases k,
{
    if k == 0 {
        x
    } else {
        halved(x / 2, (k - 1) as nat)
    }
}

proof fn lemma_halved_bound(x: int, k: nat)
    requires
        x >= 0,
    ensures
        0 <= halved(x, k) <= x,
    decreases k,
{
    if k > 0 {
        lemma_halved_bound(x / 2, (k - 1) as nat);
    }
}

/// `2^(-e)` in fixed point for an exponent `e >= 0` in fixed point: exact at whole
/// exponents (up to rounding) and linear between them.
pub open spec fn exp2_neg(e: int) -> int {
    let base = halved(ONE as int, (e / ONE as int) as nat);
    base - base * (e % ONE as int) / (2 * ONE)
}

/// Fixed-point `2^(-e)`, for `0 <= e <= 20` (in fixed point).
pub fn exp2_neg_fixed(e: i64) -> (r: i64)
    requires
        0 <= e <= 20 * ONE,
    ensures
        r == exp2_neg(e as int),
        0 <= r <= ONE,
{
    let k = e / ONE;
    let f = e % ONE;
    let mut base: i64 = ONE;
    let mut i: i64 = 0;
    while i < k
        invariant
            0 <= i <= k,
            k == e / ONE,
            halved(base as int, (k - i) as nat) == halved(ONE as int, k as nat),
            0 <= base <= ONE,
        decreases k - i,
    {
        base = base / 2;
        i = i + 1;
    }
    proof {
        lemma_halved_bound(ONE as int, k as nat);
        assert(0 <= base * f <= ONE * ONE) by (nonlinear_arith)
            requires
                0 <= base <= ONE,
                0 <= f < ONE,
        ;
        assert(base * f <= base * (2 * ONE)) by (nonlinear_arith)
            requires
                0 <= base,
                0 <= f < ONE,
        ;
        vstd::arithmetic::div_mod::lemma_div_is_ordered(base * f, base * (2 * ONE), 2 * ONE);
        vstd::arithmetic::div_mod::lemma_div_by_multiple(base as int, 2 * ONE);
        vstd::arithmetic::div_mod::lemma_div_pos_is_pos(base * f, 2 * ONE);
    }
    base - base * f / (2 * ONE)
}

/// `r` is the integer square root of `n`.
pub open spec fn is_root(n: int, r: int) -> bool {
    0 <= r && r * r <= n < (r + 1) * (r + 1)
}

/// The integer square root: the largest `r >= 0` with `r * r <= n`.
pub open spec fn sqrt_floor(n: int) -> int {
    choose|r: int| is_root(n, r)
}

proof fn lemma_sqrt_unique(n: int, r: int, s: int)
    requires
        0 <= r && r * r <= n < (r + 1) * (r + 1),
        0 <= s && s * s <= n < (s + 1) * (s + 1),
    ensures
        r == s,
{
    if r < s {
        assert((r + 1) * (r + 1) <= s * s) by (nonlinear_arith)
            requires
                0 <= r < s,
        ;
    }
    if s < r {
        assert((s + 1) * (s + 1) <= r * r) by (nonlinear_arith)
            requires
                0 <= s < r,
        ;
    }
}

/// Integer square root of `n`.
pub fn isqrt(n: i64) -> (r: i64)
    requires
        0 <= n <= 1_000_000_000,
    ensures
        r == sqrt_floor(n as int),
        0 <= r <= 31623,
{
    let mut r: i64 = 0;
    while (r + 1) * (r + 1) <= n
        invariant
            0 <= r <= 31622,
            r * r <= n,
            n <= 1_000_000_000,
            (r + 1) * (r + 1) <= 31623 * 31623,
        decreases n - r * r,
    {
        proof {
            assert((r + 1) <= 31622) by (nonlinear_arith)
                requires
                    (r + 1) * (r + 1) <= n <= 1_000_000_000,
                    r >= 0,
            ;
            assert(r * r < (r + 1) * (r + 1)) by (nonlinear_arith)
                requires
                    r >= 0,
            ;
        }
        r = r + 1;
        proof {
            assert((r + 1) * (r + 1) <= 31623 * 31623) by (nonlinear_arith)
                requires
                    0 <= r <= 31622,
            ;
        }
    }
    proof {
        assert(0 <= r && r * r <= n < (r + 1) * (r + 1));
        assert(is_root(n as int, r as int));
        let s = sqrt_floor(n as int);
        assert(is_root(n as int, s));
        lemma_sqrt_unique(n as int, r as int, s);
    }
    r
}

} // verus!
