//! Fixed-point arithmetic over `i64` values scaled by one million, with
//! truncating (round-toward-zero) division, angle wrapping, and polynomial
//! approximations of sine and cosine.

use vstd::arithmetic::div_mod::{
    lemma_div_is_ordered, lemma_div_is_ordered_by_denominator, lemma_div_multiples_vanish,
    lemma_div_nonincreasing, lemma_div_of0, lemma_div_pos_is_pos, lemma_fundamental_div_mod,
    lemma_fundamental_div_mod_converse, lemma_fundamental_div_mod_converse_mod,
    lemma_mod_division_less_than_divisor,
};
use vstd::prelude::*;

verus! {

/// One distance unit (or one radian) counts this many raw fixed-point steps.
pub const SCALE: i64 = 1_000_000;

/// Half a turn (pi radians) in raw angle steps.
pub const HALF_TURN: i64 = 3_141_593;

/// One full turn (two pi radians) in raw angle steps.
pub const FULL_TURN: i64 = 2 * HALF_TURN;

/// Magnitude of an integer.
pub open spec fn mag(x: int) -> int {
    if x < 0 {
        -x
    } else {
        x
    }
}

/// Truncating division: the quotient rounded toward zero, as Rust's `/`
/// computes it on machine integers.
pub open spec fn tdiv(x: int, d: int) -> int
    recommends
        d != 0,
{
    if x == 0 {
        0
    } else if x > 0 && d > 0 {
        x / d
    } else if x < 0 && d < 0 {
        (x * -1) / (d * -1)
    } else if x < 0 {
        ((x * -1) / d) * -1
    } else {
        (x / (d * -1)) * -1
    }
}

/// The product of two scaled values, scaled back down (truncating).
pub open spec fn scaled_mul(a: int, b: int) -> int {
    tdiv(a * b, SCALE as int)
}

/// An angle wrapped into the range `[-HALF_TURN, HALF_TURN)`.
pub open spec fn wrap_angle_spec(a: int) -> int {
    (a + HALF_TURN) % (FULL_TURN as int) - HALF_TURN
}

/// Degree-seven polynomial approximation of sine on `[-HALF_TURN, HALF_TURN)`,
/// evaluated in fixed point exactly as the executable code evaluates it.
pub open spec fn sin_poly(x: int) -> int {
    let x2 = scaled_mul(x, x);
    let x3 = scaled_mul(x2, x);
    let x5 = scaled_mul(x3, x2);
    let x7 = scaled_mul(x5, x2);
    x - tdiv(x3, 6) + tdiv(x5, 120) - tdiv(x7, 5040)
}

/// Degree-six polynomial approximation of cosine on `[-HALF_TURN, HALF_TURN)`.
pub open spec fn cos_poly(x: int) -> int {
    let x2 = scaled_mul(x, x);
    let x4 = scaled_mul(x2, x2);
    let x6 = scaled_mul(x4, x2);
    SCALE - tdiv(x2, 2) + tdiv(x4, 24) - tdiv(x6, 720)
}

/// Sine of an arbitrary angle: wrap, then evaluate the polynomial.
pub open spec fn sin_spec(a: int) -> int {
    sin_poly(wrap_angle_spec(a))
}

/// Cosine of an arbitrary angle: wrap, then evaluate the polynomial.
pub open spec fn cos_spec(a: int) -> int {
    cos_poly(wrap_angle_spec(a))
}

/// Largest magnitude `sin_spec` can return.
pub const SIN_MAX: i64 = 12_000_000;

/// Largest magnitude `cos_spec` can return.
pub const COS_MAX: i64 = 12_000_000;

/// The magnitude of a truncating quotient is the quotient of the magnitudes.
pub proof fn lemma_tdiv_mag(x: int, d: int)
    requires
        d != 0,
    ensures
        mag(tdiv(x, d)) == mag(x) / mag(d),
        mag(tdiv(x, d)) <= mag(x),
{
    if x == 0 {
        assert(0int / mag(d) == 0) by {
            lemma_div_pos_is_pos(0, mag(d));
            lemma_div_nonincreasing(0, mag(d));
        }
    } else {
        assert(x * -1 == -x);
        assert(d * -1 == -d);
        lemma_div_pos_is_pos(mag(x), mag(d));
        lemma_div_nonincreasing(mag(x), mag(d));
    }
}

/// A bound on the dividend and a floor on the divisor bound the quotient.
pub proof fn lemma_tdiv_bound(x: int, d: int, c: int, dmin: int)
    requires
        d >= dmin,
        dmin >= 1,
        mag(x) <= c,
    ensures
        mag(tdiv(x, d)) <= c / dmin,
        c / dmin <= c,
{
    lemma_tdiv_mag(x, d);
    lemma_div_is_ordered_by_denominator(mag(x), dmin, d);
    lemma_div_is_ordered(mag(x), c, dmin);
    lemma_div_nonincreasing(c, dmin);
}

/// Truncating division recovers the factor of an exact multiple.
pub proof fn lemma_tdiv_multiple(m: int, k: int)
    requires
        k >= 1,
    ensures
        tdiv(m * k, k) == m,
{
    lemma_div_multiples_vanish(m, k);
    assert(k * m == m * k) by (nonlinear_arith);
    if m * k < 0 {
        assert((m * k) * -1 == (-m) * k) by (nonlinear_arith);
        lemma_div_multiples_vanish(-m, k);
        assert(k * (-m) == (-m) * k) by (nonlinear_arith);
    }
}

/// Doubling the dividend doubles a truncating quotient to within one step:
/// the remainder the first division discards may carry into the second.
pub proof fn lemma_tdiv_double(x: int, k: int)
    requires
        k >= 1,
    ensures
        mag(tdiv(2 * x, k) - 2 * tdiv(x, k)) <= 1,
{
    let y = mag(x);
    let q = y / k;
    let r0 = y % k;
    lemma_div_of0(k);
    lemma_fundamental_div_mod(y, k);
    lemma_mod_division_less_than_divisor(y, k);
    assert(2 * y == (2 * q) * k + 2 * r0) by (nonlinear_arith)
        requires
            y == k * q + r0,
    ;
    if 2 * r0 < k {
        lemma_fundamental_div_mod_converse(2 * y, k, 2 * q, 2 * r0);
    } else {
        assert(2 * y == (2 * q + 1) * k + (2 * r0 - k)) by (nonlinear_arith)
            requires
                2 * y == (2 * q) * k + 2 * r0,
        ;
        lemma_fundamental_div_mod_converse(2 * y, k, 2 * q + 1, 2 * r0 - k);
    }
    if x >= 0 {
        assert(tdiv(x, k) == q);
        assert(tdiv(2 * x, k) == (2 * y) / k);
    } else {
        assert(x * -1 == y);
        assert((2 * x) * -1 == 2 * y);
        assert(tdiv(x, k) == -q);
        assert(tdiv(2 * x, k) == -((2 * y) / k));
    }
}

/// A wrapped angle lies in `[-HALF_TURN, HALF_TURN)`.
pub proof fn lemma_wrap_bound(a: int)
    ensures
        -HALF_TURN <= wrap_angle_spec(a) < HALF_TURN,
{
    lemma_mod_division_less_than_divisor(a + HALF_TURN, FULL_TURN as int);
}

/// The magnitude of a product is bounded by the product of magnitude bounds.
pub proof fn lemma_mul_mag_bound(a: int, b: int, ca: int, cb: int)
    requires
        mag(a) <= ca,
        mag(b) <= cb,
    ensures
        mag(a * b) <= ca * cb,
{
    assert(mag(a * b) <= ca * cb) by (nonlinear_arith)
        requires
            mag(a) <= ca,
            mag(b) <= cb,
    ;
}

/// Truncating division of `a` by nonzero `d`, on `i128` operands.
pub fn div_trunc(a: i128, d: i128) -> (q: i128)
    requires
        d != 0,
        a != i128::MIN,
    ensures
        q as int == tdiv(a as int, d as int),
        mag(q as int) <= mag(a as int),
{
    proof {
        lemma_tdiv_mag(a as int, d as int);
    }
    // The quotient's magnitude is at most `a`'s, so the division cannot
    // overflow `i128`; the checked form documents that reasoning to Verus.
    match a.checked_div(d) {
        Some(q) => q,
        None => {
            proof {
                assert(false);
            }
            0
        },
    }
}

/// The truncating quotient of two `i64` values; the divisor must be positive.
pub fn div_trunc_64(a: i64, d: i64) -> (q: i64)
    requires
        d >= 1,
        a != i64::MIN,
    ensures
        q as int == tdiv(a as int, d as int),
        mag(q as int) <= mag(a as int),
{
    let q = div_trunc(a as i128, d as i128);
    q as i64
}

/// The product of two scaled `i64` values, scaled back down (truncating).
pub fn mul_scaled(a: i64, b: i64) -> (r: i64)
    requires
        -(i64::MAX as int) <= scaled_mul(a as int, b as int) <= i64::MAX as int,
    ensures
        r as int == scaled_mul(a as int, b as int),
{
    proof {
        assert((a as int) * (b as int) < i128::MAX && (a as int) * (b as int) > i128::MIN)
            by (nonlinear_arith)
            requires
                i64::MIN <= a <= i64::MAX,
                i64::MIN <= b <= i64::MAX,
        ;
    }
    let p: i128 = a as i128 * b as i128;
    let q = div_trunc(p, SCALE as i128);
    q as i64
}

/// The angle `a` wrapped into `[-HALF_TURN, HALF_TURN)`.
pub fn wrap_angle(a: i64) -> (w: i64)
    ensures
        w as int == wrap_angle_spec(a as int),
        -HALF_TURN <= w < HALF_TURN,
{
    let s: i128 = a as i128 + HALF_TURN as i128;
    let m: i128 = FULL_TURN as i128;
    let q = div_trunc(s, m);
    let r0: i128 = s - q * m;
    proof {
        lemma_mod_division_less_than_divisor(s as int, m as int);
        if s >= 0 {
            lemma_fundamental_div_mod(s as int, m as int);
            assert(r0 as int == (s as int) % (m as int));
        } else {
            let n = -(s as int);
            lemma_fundamental_div_mod(n, m as int);
            assert(q as int == -(n / (m as int)));
            assert(r0 as int == -(n % (m as int)));
            lemma_mod_division_less_than_divisor(n, m as int);
            if r0 as int == 0 {
                lemma_fundamental_div_mod_converse_mod(s as int, m as int, -(n / (m as int)), 0);
            } else {
                lemma_fundamental_div_mod_converse_mod(
                    s as int,
                    m as int,
                    -(n / (m as int)) - 1,
                    r0 as int + m as int,
                );
            }
        }
    }
    let r: i128 = if r0 < 0 {
        r0 + m
    } else {
        r0
    };
    (r - HALF_TURN as i128) as i64
}

/// Fixed-point sine: wrap the angle, then evaluate the Taylor polynomial.
pub fn sin_fx(a: i64) -> (s: i64)
    ensures
        s as int == sin_spec(a as int),
        mag(s as int) <= SIN_MAX as int,
{
    let w = wrap_angle(a);
    proof {
        lemma_mul_mag_bound(w as int, w as int, HALF_TURN as int, HALF_TURN as int);
        lemma_tdiv_bound(
            (w as int) * (w as int),
            SCALE as int,
            HALF_TURN as int * HALF_TURN as int,
            SCALE as int,
        );
    }
    let x2 = mul_scaled(w, w);
    proof {
        lemma_mul_mag_bound(x2 as int, w as int, 9_869_607, HALF_TURN as int);
        lemma_tdiv_bound(
            (x2 as int) * (w as int),
            SCALE as int,
            9_869_607int * (HALF_TURN as int),
            SCALE as int,
        );
    }
    let x3 = mul_scaled(x2, w);
    proof {
        lemma_mul_mag_bound(x3 as int, x2 as int, 31_007_000, 9_869_607);
        lemma_tdiv_bound((x3 as int) * (x2 as int), SCALE as int, 31_007_000int * 9_869_607int, SCALE as int);
    }
    let x5 = mul_scaled(x3, x2);
    proof {
        lemma_mul_mag_bound(x5 as int, x2 as int, 306_100_000, 9_869_607);
        lemma_tdiv_bound(
            (x5 as int) * (x2 as int),
            SCALE as int,
            306_100_000int * 9_869_607int,
            SCALE as int,
        );
    }
    let x7 = mul_scaled(x5, x2);
    proof {
        lemma_tdiv_bound(x3 as int, 6, 31_007_000, 6);
        lemma_tdiv_bound(x5 as int, 120, 306_100_000, 120);
        lemma_tdiv_bound(x7 as int, 5040, 3_021_090_000, 5040);
    }
    let t3 = div_trunc_64(x3, 6);
    let t5 = div_trunc_64(x5, 120);
    let t7 = div_trunc_64(x7, 5040);
    w - t3 + t5 - t7
}

/// Fixed-point cosine: wrap the angle, then evaluate the Taylor polynomial.
pub fn cos_fx(a: i64) -> (c: i64)
    ensures
        c as int == cos_spec(a as int),
        mag(c as int) <= COS_MAX as int,
{
    let w = wrap_angle(a);
    proof {
        lemma_mul_mag_bound(w as int, w as int, HALF_TURN as int, HALF_TURN as int);
        lemma_tdiv_bound(
            (w as int) * (w as int),
            SCALE as int,
            HALF_TURN as int * HALF_TURN as int,
            SCALE as int,
        );
    }
    let x2 = mul_scaled(w, w);
    proof {
        lemma_mul_mag_bound(x2 as int, x2 as int, 9_869_607, 9_869_607);
        lemma_tdiv_bound(
            (x2 as int) * (x2 as int),
            SCALE as int,
            9_869_607int * 9_869_607int,
            SCALE as int,
        );
    }
    let x4 = mul_scaled(x2, x2);
    proof {
        lemma_mul_mag_bound(x4 as int, x2 as int, 97_410_000, 9_869_607);
        lemma_tdiv_bound((x4 as int) * (x2 as int), SCALE as int, 97_410_000int * 9_869_607int, SCALE as int);
    }
    let x6 = mul_scaled(x4, x2);
    proof {
        lemma_tdiv_bound(x2 as int, 2, 9_869_607, 2);
        lemma_tdiv_bound(x4 as int, 24, 97_410_000, 24);
        lemma_tdiv_bound(x6 as int, 720, 961_398_419_000, 720);
    }
    let t2 = div_trunc_64(x2, 2);
    let t4 = div_trunc_64(x4, 24);
    let t6 = div_trunc_64(x6, 720);
    SCALE - t2 + t4 - t6
}

} // verus!
