//! Fixed-width 32-bit signed arithmetic, stated over mathematical integers.
use vstd::prelude::*;
use vstd::arithmetic::div_mod::{lemma_fundamental_div_mod, lemma_small_mod, lemma_div_basics};

verus! {

proof fn lemma_mod_bound(x: int, d: int)
    requires
        x >= 0,
        d > 0,
    ensures
        0 <= x % d < d,
{
}

/// The two's-complement 32-bit value congruent to `v` modulo 2^32.
pub open spec fn wrap_i32(v: int) -> i32 {
    let m = v % 0x1_0000_0000;
    if m > i32::MAX as int {
        (m - 0x1_0000_0000) as i32
    } else {
        m as i32
    }
}

/// Absolute value on mathematical integers.
pub open spec fn abs_int(v: int) -> int {
    if v < 0 {
        -v
    } else {
        v
    }
}

/// Division rounding toward zero.
pub open spec fn trunc_div(x: int, d: int) -> int {
    let q = abs_int(x) / abs_int(d);
    if (x < 0) != (d < 0) {
        -q
    } else {
        q
    }
}

/// The remainder that goes with `trunc_div`: its sign follows the dividend.
pub open spec fn trunc_rem(x: int, d: int) -> int {
    x - d * trunc_div(x, d)
}

/// Wrapping addition is the wrapped mathematical sum.
pub fn add_wrapping(a: i32, b: i32) -> (r: i32)
    ensures
        r == wrap_i32(a + b),
{
    a.wrapping_add(b)
}

/// Wrapping subtraction is the wrapped mathematical difference.
pub fn sub_wrapping(a: i32, b: i32) -> (r: i32)
    ensures
        r == wrap_i32(a - b),
{
    a.wrapping_sub(b)
}

/// Wrapping multiplication is the wrapped mathematical product.
pub fn mul_wrapping(a: i32, b: i32) -> (r: i32)
    ensures
        r == wrap_i32(a * b),
{
    a.wrapping_mul(b)
}

/// Negation that wraps `i32::MIN` to itself.
pub fn neg_wrapping(a: i32) -> (r: i32)
    ensures
        r == wrap_i32(-a),
{
    0i32.wrapping_sub(a)
}

/// Absolute value that wraps `i32::MIN` to itself.
pub fn abs_wrapping(a: i32) -> (r: i32)
    ensures
        r == wrap_i32(abs_int(a as int)),
{
    if a < 0 {
        neg_wrapping(a)
    } else {
        a
    }
}

/// Truncating division; the one overflowing quotient (`i32::MIN / -1`) wraps.
pub fn div_wrapping(a: i32, b: i32) -> (r: i32)
    requires
        b != 0,
    ensures
        r == wrap_i32(trunc_div(a as int, b as int)),
{
    match a.checked_div(b) {
        Some(q) => q,
        None => i32::MIN,
    }
}

/// Truncating remainder; its sign follows the dividend.
pub fn rem_wrapping(a: i32, b: i32) -> (r: i32)
    requires
        b != 0,
    ensures
        r == wrap_i32(trunc_rem(a as int, b as int)),
{
    proof {
        lemma_trunc_rem(a as int, b as int);
    }
    match a.checked_rem(b) {
        Some(m) => m,
        None => 0,
    }
}

/// The truncating remainder is the remainder of the magnitudes, signed like
/// the dividend, and smaller in magnitude than the divisor.
pub proof fn lemma_trunc_rem(x: int, d: int)
    requires
        d != 0,
    ensures
        trunc_rem(x, d) == (if x < 0 {
            -(abs_int(x) % abs_int(d))
        } else {
            abs_int(x) % abs_int(d)
        }),
        abs_int(trunc_rem(x, d)) < abs_int(d),
{
    let ax = abs_int(x);
    let ad = abs_int(d);
    lemma_fundamental_div_mod(ax, ad);
    lemma_mod_bound(ax, ad);
    if x == 0 {
        lemma_small_mod(0, ad as nat);
        lemma_div_basics(ad);
    }
    assert(d * trunc_div(x, d) == (if x < 0 { -(ad * (ax / ad)) } else { ad * (ax / ad) })) by (nonlinear_arith)
        requires
            ad == abs_int(d),
            ax == abs_int(x),
            d != 0,
    {
    }
}

} // verus!
