//! Integer arithmetic on values scaled by a power of two: products and
//! quotients rounded toward zero, and square roots rounded to the nearest
//! integer. The fixed-point types of both widths compute with these.

use vstd::arithmetic::div_mod::{
    lemma_basic_div, lemma_div_by_multiple, lemma_div_is_ordered,
    lemma_div_is_ordered_by_denominator, lemma_fundamental_div_mod,
    lemma_fundamental_div_mod_converse, lemma_mod_bound, lemma_remainder_upper,
};
use vstd::arithmetic::mul::{
    lemma_mul_inequality, lemma_mul_is_commutative, lemma_mul_nonnegative,
    lemma_mul_strict_upper_bound, lemma_mul_upper_bound,
};
use vstd::arithmetic::power2::{
    lemma2_to64, lemma_pow2_pos, lemma_pow2_strictly_increases, lemma_pow2_unfold, pow2,
};
use vstd::prelude::*;

verus! {

/// The absolute value of `x`.
pub open spec fn magnitude(x: int) -> int {
    if x < 0 {
        -x
    } else {
        x
    }
}

/// The quotient of `n` by `d`, rounded toward zero.
pub open spec fn div_toward_zero(n: int, d: int) -> int {
    if (n < 0) == (d < 0) {
        magnitude(n) / magnitude(d)
    } else {
        -(magnitude(n) / magnitude(d))
    }
}

/// Dividing by a negative number negates the quotient by its magnitude.
proof fn lemma_div_negative_divisor(x: int, d: int)
    by (nonlinear_arith)
    requires
        d < 0,
    ensures
        x / d == -(x / (-d)),
{
}

/// Dividing by one changes nothing.
proof fn lemma_div_by_one(x: int)
    by (nonlinear_arith)
    ensures
        x / 1 == x,
{
}

/// What signed machine division computes, as the specification of the
/// integer types states it, is the quotient rounded toward zero; and
/// dividing by minus one negates.
pub proof fn lemma_machine_division(a: int, b: int)
    requires
        b != 0,
    ensures
        (if a >= 0 {
            a / b
        } else {
            -((-a) / b)
        }) == div_toward_zero(a, b),
        b == -1 ==> div_toward_zero(a, b) == -a,
{
    if b < 0 {
        lemma_div_negative_divisor(a, b);
        lemma_div_negative_divisor(-a, b);
    }
    if b == -1 {
        lemma_div_by_one(magnitude(a));
    }
}

/// A multiple of a positive divisor divides back exactly.
pub proof fn lemma_div_exact(m: int, d: int)
    requires
        d > 0,
    ensures
        div_toward_zero(m * d, d) == m,
{
    lemma_product_sign(m, d);
    lemma_div_by_multiple(magnitude(m), d);
}

/// Scaling `c` up by `s` and down by `m` gives `c` back exactly where `c` is
/// zero, or `m` is no more than `s` and so near to it that `c` does not move
/// by a whole unit.
pub proof fn lemma_rescale_unchanged(c: int, s: int, m: int)
    requires
        s > 0,
        m > 0,
    ensures
        div_toward_zero(c * s, m) == c <==> (c == 0 || (m <= s && magnitude(c) * (s - m) < m)),
{
    let a = magnitude(c);
    lemma_product_sign(c, s);
    lemma_fundamental_div_mod(a * s, m);
    lemma_remainder_upper(a * s, m);
    lemma_mul_nonnegative(a, s);
    let q = (a * s) / m;
    let r = (a * s) % m;
    assert(0 <= r < m) by {
        lemma_mod_bound(a * s, m);
    }
    if c == 0 {
        lemma_basic_div(0, m);
    } else {
        assert(a * s - a * m == a * (s - m)) by (nonlinear_arith);
        if m <= s && a * (s - m) < m {
            lemma_mul_nonnegative(a, s - m);
            lemma_fundamental_div_mod_converse(a * s, m, a, a * (s - m));
        }
        if q == a {
            assert(m * q == a * m) by (nonlinear_arith)
                requires
                    q == a,
            ;
            assert(m <= s) by (nonlinear_arith)
                requires
                    a * (s - m) >= 0,
                    a > 0,
            ;
        }
    }
}

/// Whether `v` can be stored in 64 bits with a sign.
pub open spec fn fits_i64(v: int) -> bool {
    i64::MIN <= v <= i64::MAX
}

/// `2^shift` as an integer.
pub open spec fn scale_of(shift: u32) -> int {
    pow2(shift as nat) as int
}

/// Shifting one to the left by less than 128 places gives that power of two.
proof fn lemma_one_shl(shift: u32)
    requires
        shift < 128,
    ensures
        (1u128 << shift) == pow2(shift as nat),
    decreases shift,
{
    if shift == 0 {
        assert(1u128 << 0u32 == 1u128) by (bit_vector);
        lemma2_to64();
    } else {
        let prev: u32 = (shift - 1) as u32;
        lemma_one_shl(prev);
        assert((1u128 << shift) == 2 * (1u128 << prev)) by (bit_vector)
            requires
                0 < shift < 128,
                prev == shift - 1,
        ;
        lemma_pow2_unfold(shift as nat);
    }
}

/// `2^shift` in 128 bits.
pub fn pow2_u128(shift: u32) -> (p: u128)
    requires
        shift < 128,
    ensures
        p == pow2(shift as nat),
        p > 0,
{
    proof {
        lemma_one_shl(shift);
        lemma_pow2_pos(shift as nat);
    }
    1u128 << shift
}

/// The absolute value of a 64-bit integer, which always fits in 128 bits.
pub fn magnitude_of(a: i64) -> (m: u128)
    ensures
        m == magnitude(a as int),
        m <= 0x8000_0000_0000_0000,
{
    if a < 0 {
        let wide: i128 = a as i128;
        (-wide) as u128
    } else {
        a as u128
    }
}

/// `v` as a 64-bit integer, where it fits.
pub open spec fn narrow_i64(v: int) -> Option<i64> {
    if fits_i64(v) {
        Some(v as i64)
    } else {
        None
    }
}

/// The integer of magnitude `q` that is negative where `negative` is set.
pub open spec fn signed(q: int, negative: bool) -> int {
    if negative {
        -q
    } else {
        q
    }
}

/// Gives a magnitude its sign and narrows the result to 64 bits.
fn with_sign(q: u128, negative: bool) -> (r: Option<i64>)
    ensures
        r == narrow_i64(signed(q as int, negative)),
{
    if negative {
        if q > 0x8000_0000_0000_0000 {
            None
        } else {
            let wide: i128 = q as i128;
            Some((-wide) as i64)
        }
    } else {
        if q > 0x7fff_ffff_ffff_ffff {
            None
        } else {
            Some(q as i64)
        }
    }
}

/// A product has the magnitude of its factors' magnitudes, and is negative
/// exactly where the factors are nonzero and differ in sign.
proof fn lemma_product_sign(a: int, b: int)
    ensures
        magnitude(a * b) == magnitude(a) * magnitude(b),
        (a * b < 0) == ((a < 0) != (b < 0) && a != 0 && b != 0),
        (a * b == 0) == (a == 0 || b == 0),
{
    assert(magnitude(a * b) == magnitude(a) * magnitude(b)) by (nonlinear_arith);
    assert((a * b < 0) == ((a < 0) != (b < 0) && a != 0 && b != 0)) by (nonlinear_arith);
    assert((a * b == 0) == (a == 0 || b == 0)) by (nonlinear_arith);
}

/// The values of the two largest powers of two that the proofs here meet.
proof fn lemma_pow2_high()
    ensures
        pow2(63) == 0x8000_0000_0000_0000,
        pow2(126) == 0x4000_0000_0000_0000_0000_0000_0000_0000,
        pow2(127) == 0x8000_0000_0000_0000_0000_0000_0000_0000,
{
    lemma_one_shl(63);
    lemma_one_shl(126);
    lemma_one_shl(127);
    assert(1u128 << 63u32 == 0x8000_0000_0000_0000u128) by (bit_vector);
    assert(1u128 << 126u32 == 0x4000_0000_0000_0000_0000_0000_0000_0000u128) by (bit_vector);
    assert(1u128 << 127u32 == 0x8000_0000_0000_0000_0000_0000_0000_0000u128) by (bit_vector);
}

/// `a * b / 2^shift`, rounded toward zero, where that fits in 64 bits.
///
/// The product is formed in 128 bits, so no intermediate value overflows.
pub fn scaled_product(a: i64, b: i64, shift: u32) -> (r: Option<i64>)
    ensures
        r == narrow_i64(div_toward_zero(a * b, scale_of(shift))),
{
    let ma = magnitude_of(a);
    let mb = magnitude_of(b);
    let negative = (a < 0) != (b < 0);
    proof {
        lemma_product_sign(a as int, b as int);
        lemma_mul_upper_bound(ma as int, 0x8000_0000_0000_0000, mb as int, 0x8000_0000_0000_0000);
        lemma_mul_nonnegative(ma as int, mb as int);
        lemma_pow2_pos(shift as nat);
        lemma_pow2_high();
    }
    let p: u128 = ma * mb;
    let q: u128 = if shift >= 128 {
        proof {
            lemma_pow2_strictly_increases(127, shift as nat);
            lemma_basic_div(p as int, scale_of(shift));
        }
        0
    } else {
        p / pow2_u128(shift)
    };
    with_sign(q, negative)
}

/// A dividend of 128 bits or more, divided by a magnitude of 64-bit
/// storage, gives a quotient that no 64-bit integer holds.
proof fn lemma_quotient_too_large(n: int, d: int)
    requires
        n >= 0x8000_0000_0000_0000_0000_0000_0000_0000,
        0 < d <= 0x8000_0000_0000_0000,
    ensures
        n / d >= 0x1_0000_0000_0000_0000,
{
    let top: int = 0x8000_0000_0000_0000_0000_0000_0000_0000;
    lemma_div_is_ordered(top, n, d);
    lemma_div_is_ordered_by_denominator(top, d, 0x8000_0000_0000_0000);
}

/// `a * 2^shift / b`, rounded toward zero, where that fits in 64 bits.
///
/// The dividend is formed in 128 bits; where it is too large for that, the
/// quotient is too large for 64 bits.
pub fn scaled_quotient(a: i64, b: i64, shift: u32) -> (r: Option<i64>)
    requires
        b != 0,
    ensures
        r == narrow_i64(div_toward_zero(a * scale_of(shift), b as int)),
{
    let ma = magnitude_of(a);
    let mb = magnitude_of(b);
    let negative = (a < 0) != (b < 0);
    let ghost dividend: int = ma * scale_of(shift);
    proof {
        lemma_product_sign(a as int, scale_of(shift));
        lemma_pow2_pos(shift as nat);
        lemma_pow2_high();
        lemma_mul_nonnegative(ma as int, scale_of(shift));
    }
    if ma == 0 {
        proof {
            lemma_basic_div(0, mb as int);
        }
        return Some(0);
    }
    if shift >= 128 {
        proof {
            lemma_pow2_strictly_increases(127, shift as nat);
            lemma_mul_inequality(1, ma as int, scale_of(shift));
            lemma_quotient_too_large(dividend, mb as int);
        }
        return None;
    }
    let scale = pow2_u128(shift);
    let limit = u128::MAX / scale;
    proof {
        lemma_fundamental_div_mod(u128::MAX as int, scale as int);
        lemma_remainder_upper(u128::MAX as int, scale as int);
    }
    if ma > limit {
        proof {
            lemma_mul_inequality(limit + 1, ma as int, scale as int);
            assert((limit + 1) * scale == scale * limit + scale) by (nonlinear_arith);
            lemma_quotient_too_large(dividend, mb as int);
        }
        return None;
    }
    proof {
        lemma_mul_inequality(ma as int, limit as int, scale as int);
        lemma_mul_is_commutative(limit as int, scale as int);
    }
    let n: u128 = ma * scale;
    let q: u128 = n / mb;
    with_sign(q, negative)
}

/// Whether `r` is the integer nearest to the square root of `n`: the one
/// with `r - 1/2 <= sqrt(n) < r + 1/2`. Below zero the root counts as zero.
pub open spec fn is_nearest_root(n: int, r: int) -> bool {
    &&& 0 <= r
    &&& n <= r * r + r
    &&& r == 0 || r * r - r < n
}

/// The integer nearest to the square root of `n`.
pub open spec fn nearest_root(n: int) -> int {
    choose|r: int| is_nearest_root(n, r)
}

/// No number has two nearest roots.
pub proof fn lemma_nearest_root_unique(n: int, r1: int, r2: int)
    requires
        is_nearest_root(n, r1),
        is_nearest_root(n, r2),
    ensures
        r1 == r2,
{
    if r1 < r2 {
        assert(r2 * r2 - r2 >= r1 * r1 + r1) by (nonlinear_arith)
            requires
                0 <= r1,
                r1 + 1 <= r2,
        ;
    } else if r2 < r1 {
        assert(r1 * r1 - r1 >= r2 * r2 + r2) by (nonlinear_arith)
            requires
                0 <= r2,
                r2 + 1 <= r1,
        ;
    }
}

/// The nearest root of `n` is `r` as soon as `r` meets the definition.
pub proof fn lemma_nearest_root_is(n: int, r: int)
    requires
        is_nearest_root(n, r),
    ensures
        nearest_root(n) == r,
{
    lemma_nearest_root_unique(n, r, nearest_root(n));
}

/// Every number has a nearest root.
pub proof fn lemma_nearest_root_exists(n: int)
    ensures
        is_nearest_root(n, nearest_root(n)),
    decreases n,
{
    if n <= 0 {
        assert(is_nearest_root(n, 0));
    } else {
        lemma_nearest_root_exists(n - 1);
        let r = nearest_root(n - 1);
        if n <= r * r + r {
            assert(is_nearest_root(n, r));
        } else {
            assert(is_nearest_root(n, r + 1)) by (nonlinear_arith)
                requires
                    0 <= r,
                    n == r * r + r + 1,
            ;
        }
    }
}

/// The integer nearest to the square root of `n`, found by bisection.
pub fn nearest_root_u128(n: u128) -> (r: u128)
    requires
        n < 0x4000_0000_0000_0000_0000_0000_0000_0000,
    ensures
        r == nearest_root(n as int),
        is_nearest_root(n as int, r as int),
        r <= 0x8000_0000_0000_0000,
{
    let mut lo: u128 = 0;
    let mut hi: u128 = 0x8000_0000_0000_0000;
    while hi - lo > 1
        invariant
            lo < hi <= 0x8000_0000_0000_0000,
            lo * lo <= n < hi * hi,
        decreases hi - lo,
    {
        let mid: u128 = lo + (hi - lo) / 2;
        proof {
            lemma_mul_strict_upper_bound(
                mid as int,
                0x8000_0000_0000_0000,
                mid as int,
                0x8000_0000_0000_0000,
            );
        }
        if mid * mid <= n {
            lo = mid;
        } else {
            hi = mid;
        }
    }
    let r: u128 = if n - lo * lo > lo {
        lo + 1
    } else {
        lo
    };
    proof {
        assert(is_nearest_root(n as int, r as int)) by (nonlinear_arith)
            requires
                hi == lo + 1,
                lo * lo <= n < hi * hi,
                r == (if n - lo * lo > lo { lo + 1 } else { lo as int }),
        ;
        lemma_nearest_root_is(n as int, r as int);
    }
    r
}

/// The nearest root of a number is no greater than `m` where the number is
/// no greater than `m * m + m`.
pub proof fn lemma_nearest_root_bound(n: int, r: int, m: int)
    requires
        is_nearest_root(n, r),
        0 <= m,
        n <= m * m + m,
    ensures
        r <= m,
{
    if r > m {
        assert(r * r - r >= m * m + m) by (nonlinear_arith)
            requires
                0 <= m,
                m + 1 <= r,
        ;
    }
}

/// The integer nearest to the square root of `raw * 2^shift`.
///
/// Where `raw` is the stored integer of a fixed-point number of scale
/// `2^shift`, this is the stored integer of its square root.
pub fn scaled_root(raw: i64, shift: u32) -> (r: i64)
    requires
        raw >= 0,
        raw * scale_of(shift) <= i64::MAX * i64::MAX + i64::MAX,
    ensures
        r == nearest_root(raw * scale_of(shift)),
        is_nearest_root(raw * scale_of(shift), r as int),
{
    if raw == 0 {
        proof {
            assert(0 * scale_of(shift) == 0) by (nonlinear_arith);
            lemma_nearest_root_is(0, 0);
        }
        return 0;
    }
    proof {
        lemma_pow2_pos(shift as nat);
        lemma_pow2_high();
        lemma_mul_inequality(1, raw as int, scale_of(shift));
        if shift > 126 {
            lemma_pow2_strictly_increases(126, shift as nat);
        }
    }
    let scale = pow2_u128(shift);
    let n: u128 = (raw as u128) * scale;
    let root = nearest_root_u128(n);
    proof {
        lemma_nearest_root_bound(n as int, root as int, i64::MAX as int);
    }
    root as i64
}

} // verus!
