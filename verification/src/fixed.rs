//! Fixed-point scalar arithmetic.
//!
//! A real number is stored as an `i64` holding the value times [`SCALE`].
//! Every operation is total: results saturate at the `i64` range and a
//! division by zero yields zero, so no input can make the library panic.

use vstd::prelude::*;
use vstd::arithmetic::div_mod::{lemma_div_pos_is_pos, lemma_div_nonincreasing,
    lemma_div_multiples_vanish, lemma_div_is_ordered, lemma_fundamental_div_mod};

verus! {

/// Number of fractional units in one: a fixed-point value `x` stands for
/// the real number `x / SCALE`.
pub const SCALE: i64 = 1_000_000_000;

/// The scalar one half.
pub const HALF_FX: i64 = 500_000_000;

/// The scalar 2.
pub const TWO_FX: i64 = 2_000_000_000;

/// The scalar 3.
pub const THREE_FX: i64 = 3_000_000_000;

/// The scalar 5.
pub const FIVE_FX: i64 = 5_000_000_000;

/// The scalar 6.
pub const SIX_FX: i64 = 6_000_000_000;

/// The scalar 1000.
pub const THOUSAND_FX: i64 = 1_000_000_000_000;

/// Saturate a mathematical integer into the `i64` range.
pub open spec fn sat64(x: int) -> int {
    if x > i64::MAX {
        i64::MAX as int
    } else if x < i64::MIN {
        i64::MIN as int
    } else {
        x
    }
}

/// Truncating (round-toward-zero) division, total: division by zero
/// yields zero.  This is the quotient Rust's `/` computes on integers.
pub open spec fn tdiv(a: int, b: int) -> int {
    if b == 0 {
        0
    } else if a == 0 {
        0
    } else if a > 0 && b > 0 {
        a / b
    } else if a < 0 && b < 0 {
        (a * -1) / (b * -1)
    } else if a < 0 {
        ((a * -1) / b) * -1
    } else {
        (a / (b * -1)) * -1
    }
}

/// Truncating remainder, total: a zero divisor yields zero.  This is the
/// remainder Rust's `%` computes on integers (sign of the dividend).
pub open spec fn tmod(a: int, b: int) -> int {
    if b == 0 {
        0
    } else if a == 0 {
        0
    } else if a > 0 && b > 0 {
        a % b
    } else if a < 0 && b < 0 {
        ((a * -1) % (b * -1)) * -1
    } else if a < 0 {
        ((a * -1) % b) * -1
    } else {
        a % (b * -1)
    }
}

/// Saturating fixed-point sum.
pub open spec fn sadd(a: int, b: int) -> int {
    sat64(a + b)
}

/// Saturating fixed-point difference.
pub open spec fn ssub(a: int, b: int) -> int {
    sat64(a - b)
}

/// Saturating fixed-point product: `a * b / SCALE`, truncated.
pub open spec fn smul(a: int, b: int) -> int {
    sat64(tdiv(a * b, SCALE as int))
}

/// Saturating fixed-point quotient: `a * SCALE / b`, truncated;
/// zero when `b` is zero.
pub open spec fn sdiv(a: int, b: int) -> int {
    sat64(tdiv(a * SCALE, b))
}

/// The product of two `i64` values stays well inside the `i128` range.
proof fn lemma_i64_prod_range(a: int, b: int)
    requires
        i64::MIN <= a <= i64::MAX,
        i64::MIN <= b <= i64::MAX,
    ensures
        i128::MIN < a * b,
        a * b <= i128::MAX,
{
    assert(i128::MIN < a * b && a * b <= i128::MAX) by (nonlinear_arith)
        requires
            i64::MIN <= a <= i64::MAX,
            i64::MIN <= b <= i64::MAX,
    {
    }
}

/// Saturate an `i128` into the `i64` range.
fn clamp128(s: i128) -> (r: i64)
    ensures
        r == sat64(s as int),
{
    if s > i64::MAX as i128 {
        i64::MAX
    } else if s < i64::MIN as i128 {
        i64::MIN
    } else {
        s as i64
    }
}

/// Truncating `i128` division, total (zero divisor yields zero).
fn div128(a: i128, b: i128) -> (r: i128)
    requires
        a > i128::MIN,
    ensures
        r == tdiv(a as int, b as int),
{
    match a.checked_div(b) {
        Some(q) => q,
        None => 0,
    }
}

/// Fixed-point sum, saturating.
pub fn fx_add(a: i64, b: i64) -> (r: i64)
    ensures
        r == sadd(a as int, b as int),
{
    clamp128((a as i128) + (b as i128))
}

/// Fixed-point difference, saturating.
pub fn fx_sub(a: i64, b: i64) -> (r: i64)
    ensures
        r == ssub(a as int, b as int),
{
    clamp128((a as i128) - (b as i128))
}

/// Fixed-point product, saturating.
pub fn fx_mul(a: i64, b: i64) -> (r: i64)
    ensures
        r == smul(a as int, b as int),
{
    proof {
        lemma_i64_prod_range(a as int, b as int);
    }
    let p: i128 = (a as i128) * (b as i128);
    let q = div128(p, SCALE as i128);
    clamp128(q)
}

/// Fixed-point quotient, saturating; zero when the divisor is zero.
pub fn fx_div(a: i64, b: i64) -> (r: i64)
    ensures
        r == sdiv(a as int, b as int),
{
    proof {
        lemma_i64_prod_range(a as int, SCALE as int);
    }
    let n: i128 = (a as i128) * (SCALE as i128);
    let q = div128(n, b as i128);
    clamp128(q)
}

/// Floor of the square root of a natural number.
pub open spec fn isqrt(n: nat) -> nat
    decreases n,
{
    if n == 0 {
        0
    } else {
        let r = isqrt((n - 1) as nat);
        if (r + 1) * (r + 1) <= n {
            r + 1
        } else {
            r
        }
    }
}

/// `isqrt(n)` is the floor of the square root: it brackets `n` between
/// consecutive squares.
pub proof fn lemma_isqrt_bounds(n: nat)
    ensures
        isqrt(n) * isqrt(n) <= n,
        n < (isqrt(n) + 1) * (isqrt(n) + 1),
    decreases n,
{
    if n == 0 {
        assert((isqrt(n) + 1) * (isqrt(n) + 1) == 1) by (nonlinear_arith)
            requires
                isqrt(n) == 0,
        {
        }
    } else {
        lemma_isqrt_bounds((n - 1) as nat);
        let r = isqrt((n - 1) as nat);
        if (r + 1) * (r + 1) <= n {
            assert(isqrt(n) == r + 1);
            assert((r + 1) * (r + 1) < (r + 2) * (r + 2)) by (nonlinear_arith);
        } else {
            assert(isqrt(n) == r);
        }
    }
}

/// The bracketing between consecutive squares pins the root down.
pub proof fn lemma_isqrt_unique(n: nat, r: nat)
    requires
        r * r <= n,
        n < (r + 1) * (r + 1),
    ensures
        r == isqrt(n),
{
    lemma_isqrt_bounds(n);
    let s = isqrt(n);
    if r < s {
        assert((r + 1) * (r + 1) <= s * s) by (nonlinear_arith)
            requires
                r + 1 <= s,
        {
        }
    }
    if s < r {
        assert((s + 1) * (s + 1) <= r * r) by (nonlinear_arith)
            requires
                s + 1 <= r,
        {
        }
    }
}

/// Fixed-point square root: the floor of the root of a non-negative
/// value; zero for a negative one.
pub open spec fn ssqrt(x: int) -> int {
    if x <= 0 {
        0
    } else {
        isqrt((x * SCALE) as nat) as int
    }
}

/// Floor square root of a wide unsigned integer, by bisection.
pub fn isqrt_u128(n: u128) -> (r: u128)
    ensures
        r == isqrt(n as nat),
{
    let mut lo: u128 = 0;
    let mut hi: u128 = 0x1_0000_0000_0000_0000;
    proof {
        assert((n as int) < 0x1_0000_0000_0000_0000int * 0x1_0000_0000_0000_0000int)
            by (nonlinear_arith)
            requires
                n <= u128::MAX,
        {
        }
    }
    while lo + 1 < hi
        invariant
            lo < hi <= 0x1_0000_0000_0000_0000,
            (lo as int) * (lo as int) <= n as int,
            (n as int) < (hi as int) * (hi as int),
        decreases hi - lo,
    {
        let mid = lo + (hi - lo) / 2;
        proof {
            assert((mid as int) * (mid as int) < 0x1_0000_0000_0000_0000int
                * 0x1_0000_0000_0000_0000int) by (nonlinear_arith)
                requires
                    0 <= mid < 0x1_0000_0000_0000_0000u128,
            {
            }
        }
        if mid * mid <= n {
            lo = mid;
        } else {
            hi = mid;
        }
    }
    proof {
        lemma_isqrt_unique(n as nat, lo as nat);
    }
    lo
}

/// Fixed-point square root.
pub fn fx_sqrt(x: i64) -> (r: i64)
    ensures
        r == ssqrt(x as int),
        0 <= r,
{
    if x <= 0 {
        return 0;
    }
    proof {
        assert((x as int) * (SCALE as int) < 0x8000_0000_0000int * 0x8000_0000_0000int)
            by (nonlinear_arith)
            requires
                0 < x <= i64::MAX,
        {
        }
    }
    let n: u128 = (x as u128) * (SCALE as u128);
    let r = isqrt_u128(n);
    proof {
        lemma_isqrt_bounds(n as nat);
        assert(r < 0x8000_0000_0000_0000u128) by (nonlinear_arith)
            requires
                (r as int) * (r as int) <= n as int,
                (n as int) < 0x8000_0000_0000int * 0x8000_0000_0000int,
        {
        }
    }
    r as i64
}

/// Truncating division is exact on whole multiples of the divisor.
pub proof fn lemma_tdiv_exact(c: int, s: int)
    requires
        s > 0,
    ensures
        tdiv(c * s, s) == c,
{
    if c == 0 {
        assert(c * s == 0) by (nonlinear_arith)
            requires
                c == 0,
        {
        }
    } else if c > 0 {
        assert(c * s > 0 && c * s == s * c) by (nonlinear_arith)
            requires
                c > 0 && s > 0,
        {
        }
        lemma_div_multiples_vanish(c, s);
    } else {
        assert(c * s < 0 && (c * s) * -1 == s * (-c)) by (nonlinear_arith)
            requires
                c < 0 && s > 0,
        {
        }
        lemma_div_multiples_vanish(-c, s);
    }
}

/// A fixed-point quotient of a non-negative value by one at least as
/// large lies between zero and one.
pub proof fn lemma_sdiv_unit(a: int, b: int)
    requires
        0 <= a <= b,
        0 < b,
    ensures
        0 <= sdiv(a, b) <= SCALE,
{
    if a == 0 {
        assert(a * SCALE == 0);
    } else {
        assert(a * SCALE > 0 && a * SCALE <= b * SCALE && b * SCALE == SCALE * b)
            by (nonlinear_arith)
            requires
                0 < a <= b && SCALE > 0,
        {
        }
        lemma_div_pos_is_pos(a * SCALE, b);
        lemma_div_is_ordered(a * SCALE, b * SCALE, b);
        lemma_div_multiples_vanish(SCALE as int, b);
        assert(tdiv(a * SCALE, b) == (a * SCALE) / b);
    }
}

/// Absolute value.
pub open spec fn sabs(x: int) -> int {
    if x < 0 {
        -x
    } else {
        x
    }
}

/// The truncating quotient, scaled back up by the divisor, never
/// exceeds the dividend in magnitude.
pub proof fn lemma_tdiv_scaled_abs(x: int, s: int)
    requires
        s > 0,
    ensures
        sabs(tdiv(x, s)) * s <= sabs(x),
{
    if x == 0 {
        assert(sabs(tdiv(x, s)) * s == 0) by (nonlinear_arith)
            requires
                sabs(tdiv(x, s)) == 0,
        {
        }
    } else if x > 0 {
        lemma_div_pos_is_pos(x, s);
        lemma_fundamental_div_mod(x, s);
        assert(x % s >= 0);
        assert(sabs(tdiv(x, s)) == x / s);
        assert((x / s) * s <= x) by (nonlinear_arith)
            requires
                x == s * (x / s) + (x % s) && x % s >= 0,
        {
        }
    } else {
        assert(x * -1 == -x);
        lemma_div_pos_is_pos(-x, s);
        lemma_fundamental_div_mod(-x, s);
        assert((-x) % s >= 0);
        assert(sabs(tdiv(x, s)) == (-x) / s);
        assert(((-x) / s) * s <= -x) by (nonlinear_arith)
            requires
                -x == s * ((-x) / s) + ((-x) % s) && (-x) % s >= 0,
        {
        }
    }
}

/// A fixed-point product with a non-negative factor never exceeds, in
/// magnitude, the exact scaled product.
pub proof fn lemma_smul_scaled_abs(a: int, q: int)
    requires
        0 <= q,
    ensures
        sabs(smul(a, q)) * SCALE <= sabs(a) * q,
{
    lemma_tdiv_scaled_abs(a * q, SCALE as int);
    assert(sabs(a * q) == sabs(a) * q) by (nonlinear_arith)
        requires
            q >= 0,
    {
    }
    let v = tdiv(a * q, SCALE as int);
    assert(sabs(sat64(v)) <= sabs(v));
    assert(sabs(sat64(v)) * SCALE <= sabs(v) * SCALE) by (nonlinear_arith)
        requires
            sabs(sat64(v)) <= sabs(v) && SCALE > 0,
    {
    }
}

/// Scaling by a factor between zero and one never flips a value's sign
/// and never grows its magnitude.
pub proof fn lemma_smul_attenuates(a: int, q: int)
    requires
        0 <= q <= SCALE,
    ensures
        a >= 0 ==> 0 <= smul(a, q) <= a,
        a < 0 ==> a <= smul(a, q) <= 0,
{
    if a == 0 {
        assert(a * q == 0);
    } else if a > 0 {
        if q == 0 {
            assert(a * q == 0) by (nonlinear_arith)
                requires
                    q == 0,
            {
            }
        } else {
            assert(a * q > 0 && a * q <= a * SCALE && a * SCALE == SCALE * a)
                by (nonlinear_arith)
                requires
                    a > 0 && 0 < q <= SCALE,
            {
            }
            lemma_div_pos_is_pos(a * q, SCALE as int);
            lemma_div_is_ordered(a * q, a * SCALE, SCALE as int);
            lemma_div_multiples_vanish(a, SCALE as int);
        }
    } else {
        if q == 0 {
            assert(a * q == 0) by (nonlinear_arith)
                requires
                    q == 0,
            {
            }
        } else {
            assert(a * q < 0 && (a * q) * -1 <= (-a) * SCALE && (-a) * SCALE == SCALE * (-a)
                && (a * q) * -1 > 0) by (nonlinear_arith)
                requires
                    a < 0 && 0 < q <= SCALE,
            {
            }
            lemma_div_pos_is_pos((a * q) * -1, SCALE as int);
            lemma_div_is_ordered((a * q) * -1, (-a) * SCALE, SCALE as int);
            lemma_div_multiples_vanish(-a, SCALE as int);
        }
    }
}

/// Truncating division of a fixed-point value by a plain positive
/// integer (a division of the real value by that integer).
pub fn int_div(a: i64, d: i64) -> (r: i64)
    requires
        d > 0,
    ensures
        r == tdiv(a as int, d as int),
{
    proof {
        if a > 0 {
            lemma_div_pos_is_pos(a as int, d as int);
            lemma_div_nonincreasing(a as int, d as int);
        }
        if a < 0 {
            lemma_div_pos_is_pos(-(a as int), d as int);
            lemma_div_nonincreasing(-(a as int), d as int);
        }
    }
    match a.checked_div(d) {
        Some(q) => q,
        None => 0,
    }
}

/// Fixed-point negation, saturating.
pub fn fx_neg(a: i64) -> (r: i64)
    ensures
        r == sat64(-(a as int)),
{
    clamp128(-(a as i128))
}

} // verus!
