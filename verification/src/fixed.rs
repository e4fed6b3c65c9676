//! Exact fixed-point scalar arithmetic.
//!
//! A scalar is an `i64` holding `value * SCALE`, i.e. nine decimal digits of
//! fraction. Every operation saturates at `FP_MAX` instead of wrapping, and
//! division truncates toward zero, so each operation is a total, deterministic
//! function of its operands with an exact specification mirror.

use vstd::prelude::*;

verus! {

/// Number of fixed-point units in 1.0.
pub const SCALE: i64 = 1_000_000_000;

/// Largest magnitude a fixed-point scalar can hold; also stands in for an
/// infinite result (a ray that never crosses the axis, a division by zero).
pub const FP_MAX: i64 = 4_000_000_000_000_000_000;

/// 1.0 in fixed-point units.
pub const FP_ONE: i64 = 1_000_000_000;

/// 0.5 in fixed-point units.
pub const FP_HALF: i64 = 500_000_000;

/// 2.0 in fixed-point units.
pub const FP_TWO: i64 = 2_000_000_000;

/// 4.0 in fixed-point units.
pub const FP_FOUR: i64 = 4_000_000_000;

/// 0.001 in fixed-point units (millimeter records are scaled by this).
pub const FP_MILLI: i64 = 1_000_000;

pub open spec fn fp_in_range(x: int) -> bool {
    -(FP_MAX as int) <= x <= FP_MAX as int
}

pub open spec fn fp_clip(x: int) -> int {
    if x > FP_MAX as int {
        FP_MAX as int
    } else if x < -(FP_MAX as int) {
        -(FP_MAX as int)
    } else {
        x
    }
}

pub open spec fn fp_abs(x: int) -> int {
    if x < 0 {
        -x
    } else {
        x
    }
}

/// Division truncated toward zero, as the executable code computes it.
pub open spec fn div_trunc(a: int, b: int) -> int
    recommends
        b != 0,
{
    if (a < 0) == (b < 0) {
        fp_abs(a) / fp_abs(b)
    } else {
        -(fp_abs(a) / fp_abs(b))
    }
}

pub open spec fn fp_add(a: int, b: int) -> int {
    fp_clip(a + b)
}

pub open spec fn fp_sub(a: int, b: int) -> int {
    fp_clip(a - b)
}

pub open spec fn fp_neg(a: int) -> int {
    fp_clip(-a)
}

pub open spec fn fp_mul(a: int, b: int) -> int {
    fp_clip(div_trunc(a * b, SCALE as int))
}

/// Division; a zero divisor yields a saturated value with the sign of the
/// dividend, standing in for the infinity that real arithmetic would give.
pub open spec fn fp_div(a: int, b: int) -> int {
    if b == 0 {
        if a > 0 {
            FP_MAX as int
        } else if a < 0 {
            -(FP_MAX as int)
        } else {
            0
        }
    } else {
        fp_clip(div_trunc(a * SCALE, b))
    }
}

/// Floor of the square root of a non-negative integer.
pub open spec fn sqrt_floor(n: int) -> int
    decreases n,
{
    if n <= 0 {
        0
    } else {
        let r = sqrt_floor(n - 1);
        if (r + 1) * (r + 1) <= n {
            r + 1
        } else {
            r
        }
    }
}

/// A small integer (a sample count, a loop index) as a fixed-point value.
pub open spec fn fp_of_int(i: int) -> int {
    fp_clip(i * SCALE)
}

/// Fixed-point square root: the floor of `sqrt(a)` in fixed-point units.
/// Negative inputs (which exact arithmetic would reject) give zero.
pub open spec fn fp_sqrt(a: int) -> int {
    if a <= 0 {
        0
    } else {
        sqrt_floor(a * SCALE)
    }
}

pub proof fn lemma_sqrt_floor_bounds(n: int)
    requires
        n >= 0,
    ensures
        0 <= sqrt_floor(n),
        sqrt_floor(n) * sqrt_floor(n) <= n,
        n < (sqrt_floor(n) + 1) * (sqrt_floor(n) + 1),
    decreases n,
{
    if n == 0 {
        assert(sqrt_floor(0) == 0);
    } else {
        lemma_sqrt_floor_bounds(n - 1);
        let r = sqrt_floor(n - 1);
        if (r + 1) * (r + 1) <= n {
            assert(n <= (r + 1) * (r + 1));
            assert((r + 1) * (r + 1) < (r + 2) * (r + 2)) by (nonlinear_arith)
                requires
                    r >= 0,
            ;
        }
    }
}

pub proof fn lemma_sqrt_floor_unique(n: int, r: int)
    requires
        n >= 0,
        r >= 0,
        r * r <= n,
        n < (r + 1) * (r + 1),
    ensures
        r == sqrt_floor(n),
{
    let s = sqrt_floor(n);
    lemma_sqrt_floor_bounds(n);
    if r < s {
        assert((r + 1) * (r + 1) <= s * s) by (nonlinear_arith)
            requires
                0 <= r,
                r < s,
        ;
    }
    if s < r {
        assert((s + 1) * (s + 1) <= r * r) by (nonlinear_arith)
            requires
                0 <= s,
                s < r,
        ;
    }
}

/// Magnitude of an `i64` as a `u128`.
fn mag64(a: i64) -> (m: u128)
    ensures
        m as int == fp_abs(a as int),
        m <= 0x8000_0000_0000_0000u128,
{
    if a >= 0 {
        a as u128
    } else {
        (-(a as i128)) as u128
    }
}

/// Clips a signed magnitude into the fixed-point range.
fn clip_mag(neg: bool, m: u128) -> (r: i64)
    ensures
        r as int == fp_clip(
            if neg {
                -(m as int)
            } else {
                m as int
            },
        ),
{
    let mm: u128 = if m > FP_MAX as u128 {
        FP_MAX as u128
    } else {
        m
    };
    if neg {
        -(mm as i64)
    } else {
        mm as i64
    }
}

fn clip128(x: i128) -> (r: i64)
    ensures
        r as int == fp_clip(x as int),
{
    if x > FP_MAX as i128 {
        FP_MAX
    } else if x < -(FP_MAX as i128) {
        -FP_MAX
    } else {
        x as i64
    }
}

pub fn add_fp(a: i64, b: i64) -> (r: i64)
    ensures
        r as int == fp_add(a as int, b as int),
{
    clip128(a as i128 + b as i128)
}

pub fn sub_fp(a: i64, b: i64) -> (r: i64)
    ensures
        r as int == fp_sub(a as int, b as int),
{
    clip128(a as i128 - b as i128)
}

pub fn neg_fp(a: i64) -> (r: i64)
    ensures
        r as int == fp_neg(a as int),
{
    clip128(-(a as i128))
}

proof fn lemma_mul_sign_abs(a: int, b: int)
    by (nonlinear_arith)
    ensures
        fp_abs(a * b) == fp_abs(a) * fp_abs(b),
        ((a < 0) != (b < 0)) ==> a * b <= 0,
        ((a < 0) == (b < 0)) ==> a * b >= 0,
{
}

pub fn mul_fp(a: i64, b: i64) -> (r: i64)
    ensures
        r as int == fp_mul(a as int, b as int),
{
    let neg: bool = (a < 0) != (b < 0);
    let ma: u128 = mag64(a);
    let mb: u128 = mag64(b);
    proof {
        lemma_mul_sign_abs(a as int, b as int);
        assert(ma as int * mb as int <= 0x8000_0000_0000_0000 * 0x8000_0000_0000_0000)
            by (nonlinear_arith)
            requires
                ma <= 0x8000_0000_0000_0000u128,
                mb <= 0x8000_0000_0000_0000u128,
        ;
    }
    let p: u128 = ma * mb;
    let q: u128 = p / (SCALE as u128);
    clip_mag(neg, q)
}

pub fn div_fp(a: i64, b: i64) -> (r: i64)
    ensures
        r as int == fp_div(a as int, b as int),
{
    if b == 0 {
        if a > 0 {
            FP_MAX
        } else if a < 0 {
            -FP_MAX
        } else {
            0
        }
    } else {
        let neg: bool = (a < 0) != (b < 0);
        let ma: u128 = mag64(a);
        let mb: u128 = mag64(b);
        let p: u128 = ma * (SCALE as u128);
        let q: u128 = p / mb;
        proof {
            assert(fp_abs(a as int * SCALE as int) == fp_abs(a as int) * SCALE as int);
            assert(((a as int * SCALE as int) < 0) <==> ((a as int) < 0));
        }
        clip_mag(neg, q)
    }
}

/// Converts a small integer (a sample count, a loop index) to fixed point.
pub fn of_int_fp(i: i64) -> (r: i64)
    ensures
        r as int == fp_of_int(i as int),
{
    clip128(i as i128 * 1_000_000_000i128)
}

fn isqrt(n: u128) -> (r: u128)
    requires
        n < 19_807_040_628_566_084_398_385_987_584u128,  // 2^94
    ensures
        r as int == sqrt_floor(n as int),
{
    let mut lo: u128 = 0;
    let mut hi: u128 = 140_737_488_355_328;  // 2^47
    proof {
        assert(140_737_488_355_328int * 140_737_488_355_328int
            == 19_807_040_628_566_084_398_385_987_584int);
    }
    while lo + 1 < hi
        invariant
            lo < hi,
            hi <= 140_737_488_355_328u128,
            lo as int * lo as int <= n as int,
            (n as int) < hi as int * hi as int,
        decreases hi - lo,
    {
        let mid: u128 = lo + (hi - lo) / 2;
        proof {
            assert((mid as int) * (mid as int) < 19_807_040_628_566_084_398_385_987_584int)
                by (nonlinear_arith)
                requires
                    mid < 140_737_488_355_328u128,
            ;
        }
        if mid * mid <= n {
            lo = mid;
        } else {
            hi = mid;
        }
    }
    proof {
        assert((lo as int + 1) * (lo as int + 1) >= hi as int * hi as int) by (nonlinear_arith)
            requires
                0 <= hi as int,
                hi as int <= lo as int + 1,
        ;
        lemma_sqrt_floor_unique(n as int, lo as int);
    }
    lo
}

pub fn sqrt_fp(a: i64) -> (r: i64)
    ensures
        r as int == fp_sqrt(a as int),
{
    if a <= 0 {
        0
    } else {
        let n: u128 = (a as u128) * 1_000_000_000u128;
        let r: u128 = isqrt(n);
        proof {
            lemma_sqrt_floor_bounds(n as int);
            assert(r as int <= 140_737_488_355_328int) by (nonlinear_arith)
                requires
                    r as int >= 0,
                    r as int * r as int <= n as int,
                    (n as int) < 19_807_040_628_566_084_398_385_987_584int,
            ;
        }
        r as i64
    }
}

// Sign symmetry of the scalar operations: negating an operand that is within
// the representable range negates the result. These feed the meridional
// mirror-symmetry law of the lens tracer.

pub proof fn lemma_div_trunc_odd(a: int, b: int)
    requires
        b != 0,
    ensures
        div_trunc(-a, b) == -div_trunc(a, b),
{
    assert(fp_abs(-a) == fp_abs(a));
}

pub proof fn lemma_fp_add_odd(a: int, b: int)
    requires
        fp_in_range(a),
        fp_in_range(b),
    ensures
        fp_add(fp_neg(a), fp_neg(b)) == fp_neg(fp_add(a, b)),
{
}

pub proof fn lemma_fp_sub_odd(a: int, b: int)
    requires
        fp_in_range(a),
        fp_in_range(b),
    ensures
        fp_sub(fp_neg(a), fp_neg(b)) == fp_neg(fp_sub(a, b)),
{
}

pub proof fn lemma_fp_mul_odd_left(a: int, b: int)
    requires
        fp_in_range(a),
    ensures
        fp_mul(fp_neg(a), b) == fp_neg(fp_mul(a, b)),
{
    assert((-a) * b == -(a * b)) by (nonlinear_arith);
    lemma_div_trunc_odd(a * b, SCALE as int);
}

pub proof fn lemma_fp_mul_odd_both(a: int, b: int)
    requires
        fp_in_range(a),
        fp_in_range(b),
    ensures
        fp_mul(fp_neg(a), fp_neg(b)) == fp_mul(a, b),
{
    assert((-a) * (-b) == a * b) by (nonlinear_arith);
}

pub proof fn lemma_fp_div_odd_left(a: int, b: int)
    requires
        fp_in_range(a),
    ensures
        fp_div(fp_neg(a), b) == fp_neg(fp_div(a, b)),
{
    if b != 0 {
        assert((-a) * SCALE as int == -(a * SCALE as int)) by (nonlinear_arith);
        lemma_div_trunc_odd(a * SCALE as int, b);
    }
}

} // verus!
