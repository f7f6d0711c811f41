//! Fixed-point arithmetic shared by the control blocks: widening multiplies
//! that shift back to a Q format, saturating sums, and the clamps every loop
//! state passes through. Nothing here panics for any input.

use vstd::arithmetic::div_mod::lemma_fundamental_div_mod_converse;
use vstd::arithmetic::power2::{lemma2_to64, lemma_pow2_pos, pow2};
use vstd::bits::lemma_u64_shr_is_div;
use vstd::prelude::*;

verus! {

/// One whole unit of a Q16 quantity.
pub const ONE_Q16: i32 = 65_536;

/// `x` is an `i32` value.
pub open spec fn fits32(x: int) -> bool {
    i32::MIN <= x <= i32::MAX
}

/// The `i32` whose low 32 bits are those of `x`.
pub open spec fn wrap32(x: int) -> int {
    (x + 0x8000_0000) % 0x1_0000_0000 - 0x8000_0000
}

/// `x` limited to `lo..=hi`.
pub open spec fn bound(x: int, lo: int, hi: int) -> int {
    if x < lo {
        lo
    } else if x > hi {
        hi
    } else {
        x
    }
}

/// `x` limited to the `i32` range.
pub open spec fn sat32(x: int) -> int {
    bound(x, i32::MIN as int, i32::MAX as int)
}

/// `x` limited to the `i16` range.
pub open spec fn sat16(x: int) -> int {
    bound(x, i16::MIN as int, i16::MAX as int)
}

pub open spec fn abs(x: int) -> int {
    if x < 0 {
        -x
    } else {
        x
    }
}

pub open spec fn least(a: int, b: int) -> int {
    if a <= b {
        a
    } else {
        b
    }
}

pub open spec fn greatest(a: int, b: int) -> int {
    if a >= b {
        a
    } else {
        b
    }
}

/// `x` divided by `d`, rounding toward zero.
pub open spec fn quotient(x: int, d: int) -> int {
    if x < 0 {
        -((-x) / d)
    } else {
        x / d
    }
}

/// `a * b` shifted right by `k`, rounding toward minus infinity.
pub open spec fn q_product(a: int, b: int, k: nat) -> int {
    (a * b) / (pow2(k) as int)
}

/// A value that fits is its own wrap.
pub proof fn lemma_wrap32_fits(x: int)
    requires
        fits32(x),
    ensures
        wrap32(x) == x,
{
}

proof fn lemma_truncate(x: i64)
    ensures
        (#[verifier::truncate] (x as i32)) == wrap32(x as int),
{
    assert(x == (x as i32) + 0x1_0000_0000 * (x >> 32u32) || x == (x as i32) + 0x1_0000_0000 * ((x
        >> 32u32) + 1)) by (bit_vector);
}

proof fn lemma_shift_right(x: i64, k: u32)
    requires
        k < 64,
    ensures
        (x >> k) == x as int / (pow2(k as nat) as int),
{
    let p = pow2(k as nat) as int;
    lemma_pow2_pos(k as nat);
    if x >= 0 {
        assert(x >= 0 ==> (x >> k) >= 0 && (x >> k) as u64 == (x as u64) >> k) by (bit_vector)
            requires
                k < 64,
        ;
        lemma_u64_shr_is_div(x as u64, k as u64);
        assert((x as u64) >> k == (x as u64) >> (k as u64)) by (bit_vector)
            requires
                k < 64,
        ;
    } else {
        let y = (-1 - x) as i64;
        assert(x < 0 ==> (x >> k) == -1 - (((-1 - x) as i64) >> k)) by (bit_vector)
            requires
                k < 64,
        ;
        assert(y >= 0 ==> (y >> k) >= 0 && (y >> k) as u64 == (y as u64) >> k) by (bit_vector)
            requires
                k < 64,
        ;
        lemma_u64_shr_is_div(y as u64, k as u64);
        assert((y as u64) >> k == (y as u64) >> (k as u64)) by (bit_vector)
            requires
                k < 64,
        ;
        let q = y as int / p;
        let r = y as int % p;
        vstd::arithmetic::div_mod::lemma_fundamental_div_mod(y as int, p);
        assert(x as int == (-1 - q) * p + (p - 1 - r)) by (nonlinear_arith)
            requires
                y as int == p * q + r,
                y as int == -1 - x as int,
        ;
        lemma_fundamental_div_mod_converse(x as int, p, -1 - q, p - 1 - r);
    }
}

proof fn lemma_product_range(a: i32, b: i32)
    ensures
        i64::MIN <= a * b <= i64::MAX,
{
    assert(-0x4000_0000_0000_0000 <= a * b <= 0x4000_0000_0000_0000) by (nonlinear_arith)
        requires
            -0x8000_0000 <= a <= 0x7fff_ffff,
            -0x8000_0000 <= b <= 0x7fff_ffff,
    ;
}

/// Fixed-point multiply: the 64-bit product, arithmetic-shifted right by `k`,
/// truncated to 32 bits.
pub fn q_mul(a: i32, b: i32, k: u32) -> (r: i32)
    requires
        k < 64,
    ensures
        r == wrap32(q_product(a as int, b as int, k as nat)),
{
    proof {
        lemma_product_range(a, b);
    }
    let wide: i64 = a as i64 * b as i64;
    let shifted: i64 = wide >> k;
    proof {
        lemma_shift_right(wide, k);
        lemma_truncate(shifted);
    }
    #[verifier::truncate]
    (shifted as i32)
}

/// The low 32 bits of a product.
pub fn wrap_mul(a: i32, b: i32) -> (r: i32)
    ensures
        r == wrap32(a * b),
{
    proof {
        lemma_product_range(a, b);
    }
    let wide: i64 = a as i64 * b as i64;
    proof {
        lemma_truncate(wide);
    }
    #[verifier::truncate]
    (wide as i32)
}

/// Unsigned fixed-point multiply: the 64-bit product shifted right by `k`,
/// truncated to 32 bits.
pub fn q_mul_u(a: u32, b: u32, k: u32) -> (r: u32)
    requires
        k < 64,
    ensures
        r as int == q_product(a as int, b as int, k as nat) % 0x1_0000_0000,
{
    assert(0 <= a * b <= u64::MAX) by (nonlinear_arith)
        requires
            0 <= a <= 0xffff_ffff,
            0 <= b <= 0xffff_ffff,
    ;
    let wide: u64 = a as u64 * b as u64;
    let shifted: u64 = wide >> k;
    proof {
        lemma_u64_shr_is_div(wide, k as u64);
        assert(wide >> k == wide >> (k as u64)) by (bit_vector)
            requires
                k < 64,
        ;
        assert(shifted as u32 == shifted % 0x1_0000_0000) by (bit_vector);
    }
    #[verifier::truncate]
    (shifted as u32)
}

/// `a * b >= c * d` without overflow.
pub fn wide_ge(a: u32, b: u32, c: u32, d: u32) -> (r: bool)
    ensures
        r == (a * b >= c * d),
{
    assert(0 <= a * b <= u64::MAX && 0 <= c * d <= u64::MAX) by (nonlinear_arith)
        requires
            0 <= a <= 0xffff_ffff,
            0 <= b <= 0xffff_ffff,
            0 <= c <= 0xffff_ffff,
            0 <= d <= 0xffff_ffff,
    ;
    a as u64 * b as u64 >= c as u64 * d as u64
}

pub fn clamp32(x: i32, lo: i32, hi: i32) -> (r: i32)
    requires
        lo <= hi,
    ensures
        r == bound(x as int, lo as int, hi as int),
{
    if x < lo {
        lo
    } else if x > hi {
        hi
    } else {
        x
    }
}

/// Saturating `i16` cast.
pub fn clamp_i16(x: i32) -> (r: i16)
    ensures
        r == sat16(x as int),
{
    clamp32(x, i16::MIN as i32, i16::MAX as i32) as i16
}

fn clamp64(x: i64) -> (r: i32)
    ensures
        r == sat32(x as int),
{
    if x < i32::MIN as i64 {
        i32::MIN
    } else if x > i32::MAX as i64 {
        i32::MAX
    } else {
        x as i32
    }
}

pub fn sat_add(a: i32, b: i32) -> (r: i32)
    ensures
        r == sat32(a + b),
{
    clamp64(a as i64 + b as i64)
}

pub fn sat_sub(a: i32, b: i32) -> (r: i32)
    ensures
        r == sat32(a - b),
{
    clamp64(a as i64 - b as i64)
}

pub fn sat_neg(a: i32) -> (r: i32)
    ensures
        r == sat32(-a),
{
    clamp64(-(a as i64))
}

pub fn sat_mul(a: i32, b: i32) -> (r: i32)
    ensures
        r == sat32(a * b),
{
    proof {
        lemma_product_range(a, b);
    }
    clamp64(a as i64 * b as i64)
}

pub fn magnitude(x: i32) -> (r: u32)
    ensures
        r == abs(x as int),
{
    if x < 0 {
        (-(x as i64)) as u32
    } else {
        x as u32
    }
}

pub fn min32(a: i32, b: i32) -> (r: i32)
    ensures
        r == least(a as int, b as int),
{
    if a <= b {
        a
    } else {
        b
    }
}

pub fn max32(a: i32, b: i32) -> (r: i32)
    ensures
        r == greatest(a as int, b as int),
{
    if a >= b {
        a
    } else {
        b
    }
}

pub fn min_u16(a: u16, b: u16) -> (r: u16)
    ensures
        r == least(a as int, b as int),
{
    if a <= b {
        a
    } else {
        b
    }
}

/// Whole units of a Q16 quantity, rounding toward minus infinity.
pub fn whole_q16(x: i32) -> (r: i32)
    ensures
        r == x as int / 65_536,
        -32_768 <= r <= 32_767,
{
    proof {
        assert(65_536 * (x >> 16u32) <= x && x < 65_536 * (x >> 16u32) + 65_536) by (bit_vector);
    }
    x >> 16u32
}

/// A raw count as a Q16 quantity; counts past 32767 wrap into the sign bit.
pub open spec fn count_q16(n: u16) -> int {
    wrap32(n * 65_536)
}

pub fn from_count(n: u16) -> (r: i32)
    ensures
        r == count_q16(n),
{
    let wide: i64 = n as i64 * 65_536;
    proof {
        lemma_truncate(wide);
    }
    #[verifier::truncate]
    (wide as i32)
}

/// The `i32` with the bits of `x`.
pub fn reinterpret(x: u32) -> (r: i32)
    ensures
        r == wrap32(x as int),
{
    let wide: i64 = x as i64;
    proof {
        lemma_truncate(wide);
    }
    #[verifier::truncate]
    (wide as i32)
}

/// The bits of an `i32`.
pub fn raw_bits(x: i32) -> (r: u32)
    ensures
        r == x as int % 0x1_0000_0000,
{
    if x >= 0 {
        x as u32
    } else {
        (x as i64 + 0x1_0000_0000) as u32
    }
}

/// Integer division, rounding toward zero.
pub fn divide(x: i32, d: i32) -> (r: i32)
    requires
        d > 0,
    ensures
        r == quotient(x as int, d as int),
        abs(r as int) <= abs(x as int),
{
    let n: u32 = magnitude(x);
    let q: u32 = n / (d as u32);
    proof {
        assert(0 <= n / d as u32 <= n) by (nonlinear_arith)
            requires
                n >= 0,
                d > 0,
        ;
    }
    if x < 0 {
        (-(q as i64)) as i32
    } else {
        q as i32
    }
}

/// The shift amounts the control blocks use, as divisors.
pub proof fn lemma_q_scales()
    ensures
        pow2(0) == 1,
        pow2(8) == 256,
        pow2(16) == 65_536,
        pow2(32) == 0x1_0000_0000,
{
    lemma2_to64();
}

/// A limit keeps what lies inside it, and otherwise gives the nearer end.
pub proof fn law_limit(x: int, lo: int, hi: int)
    requires
        lo <= hi,
    ensures
        lo <= bound(x, lo, hi) <= hi,
        lo <= x && x <= hi ==> bound(x, lo, hi) == x,
        x < lo ==> bound(x, lo, hi) == lo,
        x > hi ==> bound(x, lo, hi) == hi,
{
}

/// Saturation keeps what fits, and otherwise gives the end of the range on the
/// same side.
pub proof fn law_saturation(x: int)
    ensures
        -2_147_483_648 <= x && x <= 2_147_483_647 ==> sat32(x) == x,
        x > 2_147_483_647 ==> sat32(x) == 2_147_483_647,
        x < -2_147_483_648 ==> sat32(x) == -2_147_483_648,
        -32_768 <= x && x <= 32_767 ==> sat16(x) == x,
        x > 32_767 ==> sat16(x) == 32_767,
        x < -32_768 ==> sat16(x) == -32_768,
{
}

/// A magnitude is one of the value and its negation, and neither is above it.
pub proof fn law_magnitude(x: int)
    ensures
        abs(x) == x || abs(x) == -x,
        x <= abs(x),
        -x <= abs(x),
        abs(-x) == abs(x),
{
}

/// The lesser and the greater of two are the two, in order.
pub proof fn law_extremes_of_two(a: int, b: int)
    ensures
        least(a, b) <= greatest(a, b),
        least(a, b) + greatest(a, b) == a + b,
        least(a, b) == a || least(a, b) == b,
        greatest(a, b) == a || greatest(a, b) == b,
{
}

/// Wrapping stays in the 32-bit range and moves by whole turns of it.
pub proof fn law_wrap(x: int)
    ensures
        -2_147_483_648 <= wrap32(x) <= 2_147_483_647,
        (x - wrap32(x)) % 4_294_967_296 == 0,
{
    let y = x + 0x8000_0000;
    let q = y / 0x1_0000_0000;
    assert(y == 0x1_0000_0000 * q + y % 0x1_0000_0000);
    assert(x - wrap32(x) == 0x1_0000_0000 * q);
    assert((0x1_0000_0000 * q) % 0x1_0000_0000 == 0);
}

/// Division rounds toward zero: what is left over is smaller than the divisor
/// and has the sign of the dividend.
pub proof fn law_division(x: int, d: int)
    requires
        d > 0,
    ensures
        x >= 0 ==> 0 <= x - quotient(x, d) * d < d,
        x <= 0 ==> -d < x - quotient(x, d) * d <= 0,
        quotient(-x, d) == -quotient(x, d),
{
    let m = abs(x);
    vstd::arithmetic::div_mod::lemma_fundamental_div_mod(m, d);
    let q = m / d;
    assert(q * d == d * q && (-q) * d == -(d * q)) by (nonlinear_arith);
    assert(0 <= m % d < d) by {
        vstd::arithmetic::div_mod::lemma_mod_bound(m, d);
    }
    if x == 0 {
        assert(0int / d == 0) by {
            vstd::arithmetic::div_mod::lemma_div_basics(d);
        }
    }
}

/// A fixed-point product is the exact one rounded down to the scale.
pub proof fn law_fixed_product(a: int, b: int, k: nat)
    ensures
        ({
            let one = pow2(k) as int;
            let r = q_product(a, b, k);
            &&& one * r <= a * b
            &&& a * b < one * r + one
        }),
{
    lemma_pow2_pos(k);
    let one = pow2(k) as int;
    vstd::arithmetic::div_mod::lemma_fundamental_div_mod(a * b, one);
    vstd::arithmetic::div_mod::lemma_mod_bound(a * b, one);
}

/// A count in Q16 is 65536 times the count, where that fits the sign.
pub proof fn law_count_scale(n: u16)
    ensures
        n < 32_768 ==> count_q16(n) == 65_536 * n,
        n >= 32_768 ==> count_q16(n) == 65_536 * n - 4_294_967_296,
{
}

} // verus!
