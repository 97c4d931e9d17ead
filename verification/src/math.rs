//! Screen-space vectors and rectangles.
//!
//! Positions are `bevy::math::Vec2` values and rectangles are `bevy::math::Rect`
//! values. Both are opaque to the verifier: every operation on them is a call
//! into the math crate, and each contract names the result of that call.

use bevy::math::{IVec2, Rect, Vec2};
use vstd::prelude::*;

verus! {

/// `Vec2`, a pair of floats, is opaque here.
#[verifier::external_type_specification]
#[verifier::external_body]
pub struct ExVec2(bevy::math::Vec2);

/// `Rect`, an axis-aligned rectangle given by two corners, is opaque here.
#[verifier::external_type_specification]
#[verifier::external_body]
pub struct ExRect(bevy::math::Rect);

/// The vector that `IVec2::as_vec2` gives for the integer components `x` and `y`.
pub uninterp spec fn lattice_point(x: int, y: int) -> Vec2;

/// The component-wise sum `a + b`.
pub uninterp spec fn vec2_sum(a: Vec2, b: Vec2) -> Vec2;

/// The component-wise difference `a - b`.
pub uninterp spec fn vec2_difference(a: Vec2, b: Vec2) -> Vec2;

/// The component-wise product `a * b`.
pub uninterp spec fn vec2_product(a: Vec2, b: Vec2) -> Vec2;

/// The component-wise quotient `a / b`.
pub uninterp spec fn vec2_quotient(a: Vec2, b: Vec2) -> Vec2;

/// `v` with each component clamped between the integers `lo` and `hi`.
pub uninterp spec fn vec2_clamped(v: Vec2, lo: int, hi: int) -> Vec2;

/// Whether `a != b` holds as the math crate compares vectors.
pub uninterp spec fn vec2_differs(a: Vec2, b: Vec2) -> bool;

/// Whether `point` lies within `rect`, edges included.
pub uninterp spec fn rect_holds(rect: Rect, point: Vec2) -> bool;

/// Half of the width and height of `rect`.
pub uninterp spec fn rect_half_extent(rect: Rect) -> Vec2;

/// The zero vector.
pub open spec fn origin() -> Vec2 {
    lattice_point(0, 0)
}

/// Calls `IVec2::new(x, y).as_vec2()`, which converts each integer component
/// to a float. The result is named, nothing else is claimed of it.
#[verifier::external_body]
pub(crate) fn vec2_from_ints(x: i32, y: i32) -> (v: Vec2)
    ensures
        v == lattice_point(x as int, y as int),
{
    IVec2::new(x, y).as_vec2()
}

/// Calls `Vec2`'s `+`, which adds component by component.
#[verifier::external_body]
pub(crate) fn vec2_add(a: Vec2, b: Vec2) -> (v: Vec2)
    ensures
        v == vec2_sum(a, b),
{
    a + b
}

/// Calls `Vec2`'s `-`, which subtracts component by component.
#[verifier::external_body]
pub(crate) fn vec2_sub(a: Vec2, b: Vec2) -> (v: Vec2)
    ensures
        v == vec2_difference(a, b),
{
    a - b
}

/// Calls `Vec2`'s `*` with a vector on the right, which multiplies component
/// by component.
#[verifier::external_body]
pub(crate) fn vec2_mul(a: Vec2, b: Vec2) -> (v: Vec2)
    ensures
        v == vec2_product(a, b),
{
    a * b
}

/// Calls `Vec2`'s `/` with a vector on the right, which divides component by
/// component. Float division does not panic on a zero divisor.
#[verifier::external_body]
pub(crate) fn vec2_div(a: Vec2, b: Vec2) -> (v: Vec2)
    ensures
        v == vec2_quotient(a, b),
{
    a / b
}

/// Calls `Vec2::clamp` with both bounds splat from integers. `Vec2::clamp`
/// may assert that the lower bound does not exceed the upper one, which
/// `lo <= hi` guarantees.
#[verifier::external_body]
pub(crate) fn vec2_clamp(v: Vec2, lo: i32, hi: i32) -> (r: Vec2)
    requires
        lo <= hi,
    ensures
        r == vec2_clamped(v, lo as int, hi as int),
{
    v.clamp(IVec2::splat(lo).as_vec2(), IVec2::splat(hi).as_vec2())
}

/// Calls `Vec2`'s `!=`, the derived comparison of both components.
#[verifier::external_body]
pub(crate) fn vec2_ne(a: Vec2, b: Vec2) -> (r: bool)
    ensures
        r == vec2_differs(a, b),
{
    a != b
}

/// Calls `Rect::contains`, the inclusive test of a point against both corners.
#[verifier::external_body]
pub(crate) fn rect_contains(rect: &Rect, point: Vec2) -> (r: bool)
    ensures
        r == rect_holds(*rect, point),
{
    rect.contains(point)
}

/// Calls `Rect::half_size`.
#[verifier::external_body]
pub(crate) fn rect_half_size(rect: &Rect) -> (v: Vec2)
    ensures
        v == rect_half_extent(*rect),
{
    rect.half_size()
}

} // verus!
