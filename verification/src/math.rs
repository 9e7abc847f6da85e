//! Scalar helpers.

use vstd::prelude::*;

verus! {

/// The mathematical clamp of `x` to the bounds `min` and `max`: `min` when `x`
/// lies below it, otherwise `max` when `x` lies above it, otherwise `x` itself.
///
/// The lower bound is consulted first, so for crossed bounds (`min > max`) the
/// value is `min` when `x < min` and `max` otherwise.
pub open spec fn clamped(x: int, min: int, max: int) -> int {
    if x < min {
        min
    } else if x > max {
        max
    } else {
        x
    }
}

/// Clamps `x` to the closed interval `[min, max]`.
///
/// For ordered bounds the result always lies inside the interval, and it is `x`
/// itself whenever `x` already does. Crossed bounds are tolerated and resolved
/// as `clamped` describes.
pub fn cmid(x: i32, min: i32, max: i32) -> (r: i32)
    ensures
        r == clamped(x as int, min as int, max as int),
        min <= max ==> min <= r <= max,
        min <= x <= max ==> r == x,
{
    if x < min {
        min
    } else if x > max {
        max
    } else {
        x
    }
}

} // verus!
