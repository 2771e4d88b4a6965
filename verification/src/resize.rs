//! The resize policy: which size a raster is scaled to before it is re-encoded.

use vstd::prelude::*;

verus! {

/// `length * bound / basis` rounded to the nearest whole number, halves upwards.
///
/// A basis of zero stands for an unbounded scale: the result is then as large
/// as a dimension can be, unless there is nothing to scale.
pub open spec fn nearest_scaled(length: u32, bound: u32, basis: u32) -> int {
    if basis == 0 {
        if length > 0 && bound > 0 {
            u32::MAX as int
        } else {
            0
        }
    } else {
        (2 * length * bound + basis) / (2 * basis)
    }
}

/// `nearest_scaled`, held to the largest dimension a raster can have.
pub open spec fn scaled(length: u32, bound: u32, basis: u32) -> u32 {
    let exact = nearest_scaled(length, bound, basis);
    if exact > u32::MAX {
        u32::MAX
    } else {
        exact as u32
    }
}

/// The size to resize to, or `None` where the raster keeps its size.
///
/// With both bounds the raster takes exactly that size. With one bound the
/// other dimension follows in proportion.
pub open spec fn target_size(
    max_width: Option<u32>,
    max_height: Option<u32>,
    width: u32,
    height: u32,
) -> Option<(u32, u32)> {
    match (max_width, max_height) {
        (Some(w), Some(h)) => Some((w, h)),
        (Some(w), None) => Some((w, scaled(height, w, width))),
        (None, Some(h)) => Some((scaled(width, h, height), h)),
        (None, None) => None,
    }
}

/// Scales `length` by `bound / basis`.
pub fn scale_dimension(length: u32, bound: u32, basis: u32) -> (r: u32)
    ensures
        r == scaled(length, bound, basis),
{
    if basis == 0 {
        if length > 0 && bound > 0 {
            u32::MAX
        } else {
            0
        }
    } else {
        assert(2 * length * bound + basis <= u128::MAX) by (nonlinear_arith)
            requires
                length <= u32::MAX,
                bound <= u32::MAX,
                basis <= u32::MAX,
        ;
        assert(2 * length * bound <= u128::MAX) by (nonlinear_arith)
            requires
                length <= u32::MAX,
                bound <= u32::MAX,
        ;
        assert(2 * length <= u128::MAX);
        let doubled: u128 = 2 * (length as u128) * (bound as u128) + (basis as u128);
        let exact: u128 = doubled / (2 * (basis as u128));
        if exact > u32::MAX as u128 {
            u32::MAX
        } else {
            exact as u32
        }
    }
}

/// Decides the size a `width` by `height` raster is resized to.
pub fn plan_resize(
    max_width: Option<u32>,
    max_height: Option<u32>,
    width: u32,
    height: u32,
) -> (t: Option<(u32, u32)>)
    ensures
        t == target_size(max_width, max_height, width, height),
{
    match (max_width, max_height) {
        (Some(w), Some(h)) => Some((w, h)),
        (Some(w), None) => Some((w, scale_dimension(height, w, width))),
        (None, Some(h)) => Some((scale_dimension(width, h, height), h)),
        (None, None) => None,
    }
}

/// A scaled dimension is the whole number nearest to the exact quotient: it
/// misses `length * bound / basis` by at most one half.
pub proof fn lemma_scaled_is_nearest(length: u32, bound: u32, basis: u32)
    requires
        basis > 0,
        nearest_scaled(length, bound, basis) <= u32::MAX,
    ensures
        -basis < 2 * (scaled(length, bound, basis) * basis - length * bound) <= basis,
{
    let x: int = 2 * length * bound + basis;
    let d: int = 2 * basis;
    let q: int = x / d;
    assert(0 <= 2 * length * bound) by (nonlinear_arith)
        requires
            length >= 0,
            bound >= 0,
    ;
    assert(d * q <= x < d * q + d) by (nonlinear_arith)
        requires
            d > 0,
            x >= 0,
            q == x / d,
    ;
    assert(q >= 0) by (nonlinear_arith)
        requires
            d > 0,
            x >= 0,
            q == x / d,
    ;
    assert(scaled(length, bound, basis) == q);
    assert(d * q == 2 * (q * basis)) by (nonlinear_arith)
        requires
            d == 2 * basis,
    ;
    assert(2 * (q * basis - length * bound) == 2 * (q * basis) - 2 * length * bound)
        by (nonlinear_arith);
}

/// With only a width bound the raster takes that width, and its height is the
/// original height times `max_width / width`, to the nearest pixel.
pub proof fn lemma_width_bound_keeps_proportion(max_width: u32, width: u32, height: u32)
    requires
        width > 0,
        nearest_scaled(height, max_width, width) <= u32::MAX,
    ensures
        target_size(Some(max_width), None, width, height) matches Some((w, h)) && w == max_width
            && -width < 2 * (h * width - height * max_width) <= width,
{
    lemma_scaled_is_nearest(height, max_width, width);
}

} // verus!
