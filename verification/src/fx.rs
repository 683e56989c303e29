//! Scalar fixed-point arithmetic.
//!
//! A scalar is an `i64` number of `UNIT`ths of the real value 1.0.
//! Multiplication and division round to nearest (ties away from zero) and
//! saturate at `LIMIT`, so the operations are total on well-formed inputs
//! and every contract states the exact result.

use vstd::prelude::*;

use crate::EPSILON;
use crate::LIMIT;
use crate::UNIT;

verus! {

/// A scalar is well formed when it lies in the saturation range.
pub open spec fn fx_ok(x: int) -> bool {
    -LIMIT <= x <= LIMIT
}

/// Saturate an exact result into the representable range.
pub open spec fn clamp_spec(x: int) -> int {
    if x > LIMIT {
        LIMIT as int
    } else if x < -LIMIT {
        -(LIMIT as int)
    } else {
        x
    }
}

pub open spec fn abs_spec(x: int) -> int {
    if x >= 0 {
        x
    } else {
        -x
    }
}

pub open spec fn sign_spec(x: int) -> int {
    if x > 0 {
        1int
    } else if x < 0 {
        -1int
    } else {
        0int
    }
}

/// Round `n / d` (for d > 0) to the nearest integer, ties away from zero.
pub open spec fn round_div(n: int, d: int) -> int {
    if n >= 0 {
        (n + d / 2) / d
    } else {
        -((-n + d / 2) / d)
    }
}

/// Quotient of `p` (a value scaled by UNIT * UNIT) rounded to the nearest
/// multiple of UNIT, ties away from zero.
pub open spec fn round_unit(p: int) -> int {
    round_div(p, UNIT as int)
}

/// Exact value of fixed-point multiplication, saturation included.
pub open spec fn mul_spec(a: int, b: int) -> int {
    clamp_spec(round_unit(a * b))
}

/// Exact value of fixed-point division, saturation included.
pub open spec fn div_spec(a: int, b: int) -> int {
    clamp_spec(round_div(a * (UNIT as int) * sign_spec(b), abs_spec(b)))
}

/// Exact value of saturating addition.
pub open spec fn add_spec(a: int, b: int) -> int {
    clamp_spec(a + b)
}

/// Exact value of saturating subtraction.
pub open spec fn sub_spec(a: int, b: int) -> int {
    clamp_spec(a - b)
}

/// `r` is the floor square root of `a * UNIT`, which makes it the
/// fixed-point square root of the scalar `a`.
pub open spec fn is_sqrt(a: int, r: int) -> bool {
    0 <= r && r * r <= a * UNIT < (r + 1) * (r + 1)
}

/// The fixed-point square root as a function, pinned by `is_sqrt`.
pub open spec fn sqrt_spec(a: int) -> int {
    choose|r: int| is_sqrt(a, r)
}

/// Exact value of the fixed-point power with a natural exponent.
pub open spec fn pow_spec(b: int, n: nat) -> int
    decreases n,
{
    if n == 0 {
        UNIT as int
    } else {
        mul_spec(b, pow_spec(b, (n - 1) as nat))
    }
}

/// Floor of the real value represented by `x`, as a plain integer count.
pub open spec fn floor_spec(x: int) -> int {
    x / (UNIT as int)
}

/// The two floor square roots of `a * UNIT` coincide.
proof fn lemma_sqrt_unique(a: int, r1: int, r2: int)
    requires
        is_sqrt(a, r1),
        is_sqrt(a, r2),
    ensures
        r1 == r2,
{
    if r1 < r2 {
        assert((r1 + 1) * (r1 + 1) <= r2 * r2) by (nonlinear_arith)
            requires
                0 <= r1,
                r1 + 1 <= r2,
        ;
    }
    if r2 < r1 {
        assert((r2 + 1) * (r2 + 1) <= r1 * r1) by (nonlinear_arith)
            requires
                0 <= r2,
                r2 + 1 <= r1,
        ;
    }
}

/// Rounding down to units is monotone.
pub proof fn lemma_round_unit_mono(p: int, q: int)
    requires
        0 <= p <= q,
    ensures
        0 <= round_unit(p) <= round_unit(q),
{
    vstd::arithmetic::div_mod::lemma_div_is_ordered(
        p + (UNIT as int) / 2,
        q + (UNIT as int) / 2,
        UNIT as int,
    );
    vstd::arithmetic::div_mod::lemma_div_is_ordered(0, p + (UNIT as int) / 2, UNIT as int);
}

/// The rounded product of two scalars in [0, 1] stays in [0, 1].
pub proof fn lemma_mul_range01(a: int, b: int)
    requires
        0 <= a <= UNIT,
        0 <= b <= UNIT,
    ensures
        0 <= mul_spec(a, b) <= UNIT,
{
    assert(0 <= a * b <= (UNIT as int) * (UNIT as int)) by (nonlinear_arith)
        requires
            0 <= a <= UNIT,
            0 <= b <= UNIT,
    ;
    lemma_round_unit_mono(a * b, (UNIT as int) * (UNIT as int));
    assert(round_unit((UNIT as int) * (UNIT as int)) == UNIT);
}

/// The rounded product of non-negative scalars is non-negative.
pub proof fn lemma_mul_nonneg(a: int, b: int)
    requires
        0 <= a,
        0 <= b,
    ensures
        0 <= mul_spec(a, b),
{
    assert(0 <= a * b) by (nonlinear_arith)
        requires
            0 <= a,
            0 <= b,
    ;
    lemma_round_unit_mono(0, a * b);
}

/// The rounded square of a scalar within [-1, 1] lies in [0, 1].
pub proof fn lemma_square_range01(x: int)
    requires
        abs_spec(x) <= UNIT,
    ensures
        0 <= mul_spec(x, x) <= UNIT,
{
    assert(x * x == abs_spec(x) * abs_spec(x)) by (nonlinear_arith);
    lemma_mul_range01(abs_spec(x), abs_spec(x));
}

/// A power of a scalar in [0, 1] stays in [0, 1].
pub proof fn lemma_pow_range01(b: int, n: nat)
    requires
        0 <= b <= UNIT,
    ensures
        0 <= pow_spec(b, n) <= UNIT,
    decreases n,
{
    if n == 0 {
    } else {
        lemma_pow_range01(b, (n - 1) as nat);
        lemma_mul_range01(b, pow_spec(b, (n - 1) as nat));
    }
}

/// Division of a non-negative scalar by a positive one is non-negative.
pub proof fn lemma_div_nonneg(a: int, b: int)
    requires
        0 <= a,
        1 <= b,
    ensures
        0 <= div_spec(a, b),
{
    vstd::arithmetic::div_mod::lemma_div_is_ordered(0, a * (UNIT as int) + b / 2, b);
    assert(a * (UNIT as int) >= 0) by (nonlinear_arith)
        requires
            0 <= a,
    ;
}

/// A quotient whose numerator is no larger in magnitude than its positive
/// denominator lies within [-1, 1].
pub proof fn lemma_div_abs_le_unit(a: int, d: int)
    requires
        abs_spec(a) <= d,
        1 <= d,
    ensures
        abs_spec(div_spec(a, d)) <= UNIT,
{
    let m = abs_spec(a);
    assert((m * (UNIT as int) + d / 2) / d <= UNIT) by (nonlinear_arith)
        requires
            0 <= m <= d,
            1 <= d,
            UNIT == 10_000_000i64,
    ;
    assert(0 <= (m * (UNIT as int) + d / 2) / d) by (nonlinear_arith)
        requires
            0 <= m,
            1 <= d,
            UNIT == 10_000_000i64,
    ;
    if a >= 0 {
        assert(div_spec(a, d) == clamp_spec((m * (UNIT as int) + d / 2) / d));
    } else {
        assert(a * (UNIT as int) * sign_spec(d) == -(m * (UNIT as int))) by (nonlinear_arith)
            requires
                a < 0,
                1 <= d,
                m == -a,
                UNIT == 10_000_000i64,
        ;
    }
}

/// Rounding to the nearest unit moves a non-negative value by at most
/// half a unit.
pub proof fn lemma_round_near(p: int)
    requires
        p >= 0,
    ensures
        2 * (round_unit(p) * (UNIT as int) - p) <= UNIT,
        -(UNIT as int) < 2 * (round_unit(p) * (UNIT as int) - p),
{
    let u = UNIT as int;
    vstd::arithmetic::div_mod::lemma_fundamental_div_mod(p + u / 2, u);
    vstd::arithmetic::div_mod::lemma_mod_bound(p + u / 2, u);
}

/// Rounding a quotient to the nearest integer moves the scaled value by
/// at most half the divisor.
pub proof fn lemma_round_div_near(n: int, d: int)
    requires
        d >= 1,
    ensures
        2 * abs_spec(round_div(n, d) * d - n) <= d,
{
    vstd::arithmetic::div_mod::lemma_fundamental_div_mod(d, 2);
    vstd::arithmetic::div_mod::lemma_mod_bound(d, 2);
    if n >= 0 {
        vstd::arithmetic::div_mod::lemma_fundamental_div_mod(n + d / 2, d);
        vstd::arithmetic::div_mod::lemma_mod_bound(n + d / 2, d);
        assert(((n + d / 2) / d) * d == d * ((n + d / 2) / d)) by (nonlinear_arith);
    } else {
        vstd::arithmetic::div_mod::lemma_fundamental_div_mod(-n + d / 2, d);
        vstd::arithmetic::div_mod::lemma_mod_bound(-n + d / 2, d);
        assert((-((-n + d / 2) / d)) * d == -(d * ((-n + d / 2) / d))) by (nonlinear_arith);
    }
}

/// Search upward for the floor square root, establishing that one exists.
proof fn lemma_sqrt_search(n: int, r: int)
    requires
        0 <= r,
        r * r <= n,
    ensures
        exists|s: int| 0 <= s && #[trigger] (s * s) <= n < (s + 1) * (s + 1),
    decreases n - r * r,
{
    if (r + 1) * (r + 1) > n {
        assert(0 <= r && r * r <= n < (r + 1) * (r + 1));
    } else {
        assert(n - (r + 1) * (r + 1) < n - r * r) by (nonlinear_arith)
            requires
                0 <= r,
        ;
        lemma_sqrt_search(n, r + 1);
    }
}

/// The chosen floor square root is a genuine one for any non-negative
/// scalar.
pub proof fn lemma_sqrt_exists(a: int)
    requires
        0 <= a,
    ensures
        is_sqrt(a, sqrt_spec(a)),
{
    assert(0 * 0 <= a * UNIT) by (nonlinear_arith)
        requires
            0 <= a,
            UNIT == 10_000_000i64,
    ;
    lemma_sqrt_search(a * (UNIT as int), 0);
    let s = choose|s: int| 0 <= s && #[trigger] (s * s) <= a * (UNIT as int) < (s + 1) * (s + 1);
    assert(is_sqrt(a, s));
    assert(is_sqrt(a, sqrt_spec(a)));
}

/// The floor square root of a scalar no larger than 1 is at most 1.
pub proof fn lemma_sqrt_le_unit(a: int, r: int)
    requires
        is_sqrt(a, r),
        a <= UNIT,
    ensures
        r <= UNIT,
{
    if r > UNIT {
        assert(r * r > (UNIT as int) * (UNIT as int)) by (nonlinear_arith)
            requires
                r > UNIT,
                UNIT == 10_000_000i64,
        ;
        assert(a * (UNIT as int) <= (UNIT as int) * (UNIT as int)) by (nonlinear_arith)
            requires
                a <= UNIT,
                UNIT == 10_000_000i64,
        ;
    }
}

/// Saturate a wide intermediate into the scalar range.
fn clamp_wide(q: i128) -> (r: i64)
    ensures
        r == clamp_spec(q as int),
{
    if q > LIMIT as i128 {
        LIMIT
    } else if q < -(LIMIT as i128) {
        -LIMIT
    } else {
        q as i64
    }
}

/// Divide a non-negative wide value by a positive one, rounding to nearest
/// with ties rounded up.
fn div_round_nonneg(n: u128, d: u128) -> (r: u128)
    requires
        d > 0,
        n + d / 2 <= u128::MAX,
    ensures
        r == round_div(n as int, d as int),
{
    (n + d / 2) / d
}

/// Product of two scalars at full width, with its exact value and bound.
pub fn wide_mul(a: i64, b: i64) -> (r: i128)
    requires
        fx_ok(a as int),
        fx_ok(b as int),
    ensures
        r == a * b,
        -(LIMIT as int) * (LIMIT as int) <= r <= (LIMIT as int) * (LIMIT as int),
{
    proof {
        assert(-(LIMIT as int) * (LIMIT as int) <= a * b <= (LIMIT as int) * (LIMIT as int))
            by (nonlinear_arith)
            requires
                -LIMIT <= a <= LIMIT,
                -LIMIT <= b <= LIMIT,
        ;
    }
    (a as i128) * (b as i128)
}

/// Scale a wide value (in UNIT * UNIT) back down to a scalar: round to
/// nearest, then saturate.
pub fn fx_from_wide(p: i128) -> (r: i64)
    requires
        -0x400000000000000000000000000000 <= p <= 0x400000000000000000000000000000,
    ensures
        r == clamp_spec(round_unit(p as int)),
        fx_ok(r as int),
{
    let m: u128 = if p >= 0 {
        p as u128
    } else {
        (-p) as u128
    };
    let q: u128 = div_round_nonneg(m, UNIT as u128);
    let signed: i128 = if p >= 0 {
        q as i128
    } else {
        -(q as i128)
    };
    proof {
        assert(signed == round_unit(p as int));
    }
    clamp_wide(signed)
}

/// Fixed-point multiplication: rounds to nearest, saturates at LIMIT.
pub fn fx_mul(a: i64, b: i64) -> (r: i64)
    requires
        fx_ok(a as int),
        fx_ok(b as int),
    ensures
        r == mul_spec(a as int, b as int),
        fx_ok(r as int),
{
    fx_from_wide(wide_mul(a, b))
}

/// Fixed-point division: rounds to nearest, saturates at LIMIT.
pub fn fx_div(a: i64, b: i64) -> (r: i64)
    requires
        fx_ok(a as int),
        fx_ok(b as int),
        b != 0,
    ensures
        r == div_spec(a as int, b as int),
        fx_ok(r as int),
{
    let m: u128 = if a >= 0 {
        (a as i128) as u128
    } else {
        (-(a as i128)) as u128
    } * (UNIT as u128);
    let d: u128 = if b >= 0 {
        (b as i128) as u128
    } else {
        (-(b as i128)) as u128
    };
    let q: u128 = div_round_nonneg(m, d);
    let same_sign: bool = (a >= 0) == (b >= 0);
    let signed: i128 = if a == 0 {
        0
    } else if same_sign {
        q as i128
    } else {
        -(q as i128)
    };
    proof {
        let n: int = a * (UNIT as int) * sign_spec(b as int);
        if a == 0 {
            assert(q == round_div(0int, d as int));
            assert(((d as int) / 2) / (d as int) == 0) by (nonlinear_arith)
                requires
                    d as int >= 1,
            ;
            assert(q == 0);
        } else if a > 0 && b > 0 {
            assert(n == m);
        } else if a < 0 && b < 0 {
            assert(n == m) by (nonlinear_arith)
                requires
                    a < 0,
                    b < 0,
                    n == a * (UNIT as int) * sign_spec(b as int),
                    m == (-(a as int)) * (UNIT as int),
            ;
        } else if a > 0 && b < 0 {
            assert(n == -(m as int)) by (nonlinear_arith)
                requires
                    a > 0,
                    b < 0,
                    n == a * (UNIT as int) * sign_spec(b as int),
                    m == (a as int) * (UNIT as int),
            ;
        } else {
            assert(n == -(m as int)) by (nonlinear_arith)
                requires
                    a < 0,
                    b > 0,
                    n == a * (UNIT as int) * sign_spec(b as int),
                    m == (-(a as int)) * (UNIT as int),
            ;
        }
        assert(signed == round_div(n, d as int));
    }
    clamp_wide(signed)
}

/// Saturating addition of two scalars.
pub fn fx_add(a: i64, b: i64) -> (r: i64)
    requires
        fx_ok(a as int),
        fx_ok(b as int),
    ensures
        r == add_spec(a as int, b as int),
        fx_ok(r as int),
{
    clamp_wide((a as i128) + (b as i128))
}

/// Saturating subtraction of two scalars.
pub fn fx_sub(a: i64, b: i64) -> (r: i64)
    requires
        fx_ok(a as int),
        fx_ok(b as int),
    ensures
        r == sub_spec(a as int, b as int),
        fx_ok(r as int),
{
    clamp_wide((a as i128) - (b as i128))
}

/// Floor square root in fixed point: the result `r` is the largest scalar
/// with `r * r <= a * UNIT`.
pub fn fx_sqrt(a: i64) -> (r: i64)
    requires
        0 <= a <= LIMIT,
    ensures
        is_sqrt(a as int, r as int),
        r == sqrt_spec(a as int),
        0 <= r <= LIMIT,
{
    proof {
        assert(UNIT == 10_000_000i64);
        assert(LIMIT == 1_099_511_627_776i64);
        assert((a as int) * 10_000_000int <= 10_995_116_277_760_000_000int) by (nonlinear_arith)
            requires
                0 <= a as int <= 1_099_511_627_776int,
        ;
    }
    let n: u128 = (a as u128) * (UNIT as u128);
    let mut lo: u128 = 0;
    let mut hi: u128 = 4_294_967_296;
    proof {
        assert(UNIT == 10_000_000i64);
        assert(LIMIT == 1_099_511_627_776i64);
        assert((hi as int) * (hi as int) > (a as int) * 10_000_000int) by (nonlinear_arith)
            requires
                hi == 4_294_967_296u128,
                0 <= a as int <= 1_099_511_627_776int,
        ;
    }
    while lo + 1 < hi
        invariant
            0 <= lo < hi <= 4_294_967_296,
            (lo as int) * (lo as int) <= n as int,
            (hi as int) * (hi as int) > n as int,
            n == (a as int) * (UNIT as int),
        decreases hi - lo,
    {
        let mid: u128 = lo + (hi - lo) / 2;
        proof {
            assert((mid as int) * (mid as int) <= 4_294_967_296int * 4_294_967_296int)
                by (nonlinear_arith)
                requires
                    0 <= mid as int <= 4_294_967_296int,
            ;
        }
        if mid * mid <= n {
            lo = mid;
        } else {
            hi = mid;
        }
    }
    proof {
        assert(is_sqrt(a as int, lo as int));
        lemma_sqrt_unique(a as int, lo as int, sqrt_spec(a as int));
    }
    lo as i64
}

/// Fixed-point power by repeated multiplication.
pub fn fx_pow(b: i64, n: u32) -> (r: i64)
    requires
        fx_ok(b as int),
    ensures
        r == pow_spec(b as int, n as nat),
        fx_ok(r as int),
{
    let mut acc: i64 = UNIT;
    let mut i: u32 = 0;
    while i < n
        invariant
            0 <= i <= n,
            fx_ok(b as int),
            fx_ok(acc as int),
            acc == pow_spec(b as int, i as nat),
        decreases n - i,
    {
        acc = fx_mul(b, acc);
        proof {
            assert(pow_spec(b as int, (i + 1) as nat) == mul_spec(
                b as int,
                pow_spec(b as int, i as nat),
            ));
        }
        i = i + 1;
    }
    acc
}

/// Absolute value of a scalar.
pub fn fx_abs(a: i64) -> (r: i64)
    requires
        fx_ok(a as int),
    ensures
        r == abs_spec(a as int),
        fx_ok(r as int),
{
    if a >= 0 {
        a
    } else {
        -a
    }
}

/// Approximate equality: the two scalars differ by less than EPSILON.
pub fn approx_eq(a: i64, b: i64) -> (r: bool)
    requires
        fx_ok(a as int),
        fx_ok(b as int),
    ensures
        r == (abs_spec(a - b) < EPSILON),
{
    let d: i64 = if a >= b {
        a - b
    } else {
        b - a
    };
    d < EPSILON
}

/// Floor of the real value represented by `x`, as a plain integer count.
pub fn fx_floor(x: i64) -> (r: i64)
    requires
        fx_ok(x as int),
    ensures
        r == floor_spec(x as int),
{
    if x >= 0 {
        x / UNIT
    } else {
        let m: i64 = -x;
        let up: i64 = (m + UNIT - 1) / UNIT;
        proof {
            assert(-up == x as int / (UNIT as int)) by (nonlinear_arith)
                requires
                    x < 0,
                    m == -(x as int),
                    UNIT == 10_000_000i64,
                    up == (m + UNIT - 1) as int / (UNIT as int),
            ;
        }
        -up
    }
}

/// Parity of an integer count: true when it is even.
pub fn count_is_even(k: i64) -> (r: bool)
    requires
        i64::MIN < k,
    ensures
        r == (abs_spec(k as int) % 2 == 0),
{
    let m: i64 = if k >= 0 {
        k
    } else {
        -k
    };
    m % 2 == 0
}

} // verus!
