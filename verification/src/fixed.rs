//! Fixed-point scalars.
//!
//! Every scalar of the library is a signed 64-bit raw value standing for
//! `raw / SCALE` units, so that matrix arithmetic is exact and free of
//! floating point. Products are rescaled by `SCALE` with rounding toward
//! zero.

use vstd::prelude::*;

verus! {

use vstd::arithmetic::div_mod::lemma_div_is_ordered;
use vstd::arithmetic::div_mod::lemma_div_multiples_vanish;

/// Number of raw steps per unit: a raw value `r` stands for `r / SCALE`.
pub const SCALE: i64 = 65536;

/// Largest magnitude allowed for the exact product (or sum of products)
/// that a single rescaling step takes.
pub const RESCALE_MAX: i64 = 0x4000_0000_0000_0000;

/// `p / SCALE`, rounded toward zero.
pub open spec fn scale_down(p: int) -> int {
    if p >= 0 {
        p / (SCALE as int)
    } else {
        -((-p) / (SCALE as int))
    }
}

/// The fixed-point product of two raw values: `(a * b) / SCALE`,
/// rounded toward zero.
pub open spec fn fx_mul_spec(a: int, b: int) -> int {
    scale_down(a * b)
}

/// The fixed-point dot product of two rows of four raw values: the raw
/// products are summed exactly, then rescaled once.
pub open spec fn fx_dot4_spec(
    a0: int, a1: int, a2: int, a3: int,
    b0: int, b1: int, b2: int, b3: int,
) -> int {
    scale_down(a0 * b0 + a1 * b1 + a2 * b2 + a3 * b3)
}

/// Rescaling a value that is an exact multiple of `SCALE` is lossless.
pub proof fn lemma_scale_down_exact(x: int)
    ensures
        scale_down(65536 * x) == x,
{
    if 65536 * x >= 0 {
        lemma_div_multiples_vanish(x, 65536);
    } else {
        assert(-(65536 * x) == 65536 * (-x));
        lemma_div_multiples_vanish(-x, 65536);
    }
}

/// Rescaling keeps a magnitude bound: `|p| <= m` gives
/// `|scale_down(p)| <= m / SCALE`.
pub proof fn lemma_scale_down_bound(p: int, m: int)
    requires
        0 <= m,
        -m <= p <= m,
    ensures
        -(m / (SCALE as int)) <= scale_down(p) <= m / (SCALE as int),
{
    if p >= 0 {
        lemma_div_is_ordered(0, p, 65536);
        lemma_div_is_ordered(p, m, 65536);
    } else {
        lemma_div_is_ordered(0, -p, 65536);
        lemma_div_is_ordered(-p, m, 65536);
    }
}

/// Divides a bounded product by `SCALE`, rounding toward zero.
fn rescale(p: i128) -> (r: i64)
    requires
        -(RESCALE_MAX as int) <= p <= RESCALE_MAX as int,
    ensures
        r as int == scale_down(p as int),
{
    proof {
        lemma_scale_down_bound(p as int, RESCALE_MAX as int);
    }
    if p >= 0 {
        let q: u128 = (p as u128) / 65536;
        q as i64
    } else {
        let q: u128 = ((-p) as u128) / 65536;
        -(q as i64)
    }
}

/// The fixed-point product of two raw values.
pub fn fx_mul(a: i64, b: i64) -> (r: i64)
    requires
        -(RESCALE_MAX as int) <= a * b <= RESCALE_MAX as int,
    ensures
        r as int == fx_mul_spec(a as int, b as int),
{
    let p: i128 = (a as i128) * (b as i128);
    rescale(p)
}

/// The fixed-point dot product of two rows of four raw values, with the
/// operands bounded by `bound_a` and `bound_b` so that no step overflows.
pub fn fx_dot4(
    a0: i64, a1: i64, a2: i64, a3: i64,
    b0: i64, b1: i64, b2: i64, b3: i64,
    Ghost(bound_a): Ghost<int>, Ghost(bound_b): Ghost<int>,
) -> (r: i64)
    requires
        0 <= bound_a,
        0 <= bound_b,
        -bound_a <= a0 <= bound_a,
        -bound_a <= a1 <= bound_a,
        -bound_a <= a2 <= bound_a,
        -bound_a <= a3 <= bound_a,
        -bound_b <= b0 <= bound_b,
        -bound_b <= b1 <= bound_b,
        -bound_b <= b2 <= bound_b,
        -bound_b <= b3 <= bound_b,
        4 * bound_a * bound_b <= RESCALE_MAX as int,
    ensures
        r as int == fx_dot4_spec(
            a0 as int, a1 as int, a2 as int, a3 as int,
            b0 as int, b1 as int, b2 as int, b3 as int,
        ),
        -((4 * bound_a * bound_b) / (SCALE as int)) <= r as int
            <= (4 * bound_a * bound_b) / (SCALE as int),
{
    proof {
        assert(4 * (bound_a * bound_b) == 4 * bound_a * bound_b) by (nonlinear_arith);
        lemma_product_bound(a0 as int, b0 as int, bound_a, bound_b);
        lemma_product_bound(a1 as int, b1 as int, bound_a, bound_b);
        lemma_product_bound(a2 as int, b2 as int, bound_a, bound_b);
        lemma_product_bound(a3 as int, b3 as int, bound_a, bound_b);
    }
    let p: i128 = (a0 as i128) * (b0 as i128) + (a1 as i128) * (b1 as i128)
        + (a2 as i128) * (b2 as i128) + (a3 as i128) * (b3 as i128);
    proof {
        lemma_scale_down_bound(p as int, 4 * bound_a * bound_b);
        lemma_div_is_ordered(4 * bound_a * bound_b, RESCALE_MAX as int, 65536);
    }
    rescale(p)
}

/// Two factors bounded in magnitude give a product bounded by the product
/// of the bounds.
pub proof fn lemma_product_bound(x: int, y: int, bx: int, by: int)
    by (nonlinear_arith)
    requires
        0 <= bx,
        0 <= by,
        -bx <= x <= bx,
        -by <= y <= by,
    ensures
        -(bx * by) <= x * y <= bx * by,
{
}

} // verus!
