//! Trusted boundary to the `glam` vector-math crate.
//!
//! Coordinates are floating-point values, which the verified core never
//! inspects: every scalar computation happens inside `glam` behind one of the
//! wrappers below, each of which makes exactly one `glam` call. Each result
//! is a pure function of the wrapper's arguments alone (deterministic
//! componentwise float math), so it is given a name — an uninterpreted spec
//! function — and the wrapper's contract says the result is that name applied
//! to the arguments. The core's contracts then pin every buffer it builds
//! over these names, while the float values themselves stay opaque.

use vstd::prelude::*;

verus! {

#[verifier::external_type_specification]
#[verifier::external_body]
pub struct ExVec2(glam::Vec2);

#[verifier::external_type_specification]
#[verifier::external_body]
pub struct ExVec3(glam::Vec3);

pub uninterp spec fn plane_of(p: glam::Vec2) -> glam::Vec3;

pub uninterp spec fn add_of(a: glam::Vec3, b: glam::Vec3) -> glam::Vec3;

pub uninterp spec fn sub_of(a: glam::Vec3, b: glam::Vec3) -> glam::Vec3;

pub uninterp spec fn cross_of(a: glam::Vec3, b: glam::Vec3) -> glam::Vec3;

pub uninterp spec fn pos_mask_of(v: glam::Vec3) -> (bool, bool, bool);

pub uninterp spec fn neg_mask_of(v: glam::Vec3) -> (bool, bool, bool);

pub uninterp spec fn zero_mask_of(v: glam::Vec3) -> (bool, bool, bool);

pub uninterp spec fn min_of(a: glam::Vec3, b: glam::Vec3) -> glam::Vec3;

pub uninterp spec fn max_of(a: glam::Vec3, b: glam::Vec3) -> glam::Vec3;

pub uninterp spec fn midpoint_of(a: glam::Vec3, b: glam::Vec3) -> glam::Vec3;

pub uninterp spec fn limit_max_of(unit: ()) -> glam::Vec3;

pub uninterp spec fn limit_min_of(unit: ()) -> glam::Vec3;

pub uninterp spec fn unit_y_of(unit: ()) -> glam::Vec3;

pub uninterp spec fn neg_unit_y_of(unit: ()) -> glam::Vec3;

pub uninterp spec fn xz_of(v: glam::Vec3) -> glam::Vec2;

pub uninterp spec fn sub2_of(a: glam::Vec2, b: glam::Vec2) -> glam::Vec2;

pub uninterp spec fn div2_of(a: glam::Vec2, b: glam::Vec2) -> glam::Vec2;

/// Relies on glam's `Vec3::new`: places a planar point `(x, y)` into the
/// ground plane of the mesh as `(x, 0, y)`; the zero comes from `Vec3::ZERO`.
#[verifier::external_body]
pub(crate) fn vec2_to_plane(p: glam::Vec2) -> (r: glam::Vec3)
    ensures
        r == plane_of(p),
{
    glam::Vec3::new(p.x, glam::Vec3::ZERO.y, p.y)
}

/// Relies on glam's componentwise `Add` for `Vec3`.
#[verifier::external_body]
pub(crate) fn vec3_add(a: glam::Vec3, b: glam::Vec3) -> (r: glam::Vec3)
    ensures
        r == add_of(a, b),
{
    a + b
}

/// Relies on glam's componentwise `Sub` for `Vec3`.
#[verifier::external_body]
pub(crate) fn vec3_sub(a: glam::Vec3, b: glam::Vec3) -> (r: glam::Vec3)
    ensures
        r == sub_of(a, b),
{
    a - b
}

/// Relies on glam's `Vec3::cross`: the cross product of the two arguments.
#[verifier::external_body]
pub(crate) fn vec3_cross(a: glam::Vec3, b: glam::Vec3) -> (r: glam::Vec3)
    ensures
        r == cross_of(a, b),
{
    a.cross(b)
}

/// Relies on glam's `Vec3::cmpgt` against `Vec3::ZERO`: for each axis, whether
/// the component is strictly positive.
#[verifier::external_body]
pub(crate) fn vec3_pos_mask(v: glam::Vec3) -> (r: (bool, bool, bool))
    ensures
        r == pos_mask_of(v),
{
    let m = v.cmpgt(glam::Vec3::ZERO);
    (m.x, m.y, m.z)
}

/// Relies on glam's `Vec3::cmplt` against `Vec3::ZERO`: for each axis, whether
/// the component is strictly negative.
#[verifier::external_body]
pub(crate) fn vec3_neg_mask(v: glam::Vec3) -> (r: (bool, bool, bool))
    ensures
        r == neg_mask_of(v),
{
    let m = v.cmplt(glam::Vec3::ZERO);
    (m.x, m.y, m.z)
}

/// Relies on glam's `Vec3::cmpeq` against `Vec3::ZERO`: for each axis, whether
/// the component compares equal to zero.
#[verifier::external_body]
pub(crate) fn vec3_zero_mask(v: glam::Vec3) -> (r: (bool, bool, bool))
    ensures
        r == zero_mask_of(v),
{
    let m = v.cmpeq(glam::Vec3::ZERO);
    (m.x, m.y, m.z)
}

/// Relies on glam's `Vec3::min`: componentwise minimum.
#[verifier::external_body]
pub(crate) fn vec3_min(a: glam::Vec3, b: glam::Vec3) -> (r: glam::Vec3)
    ensures
        r == min_of(a, b),
{
    a.min(b)
}

/// Relies on glam's `Vec3::max`: componentwise maximum.
#[verifier::external_body]
pub(crate) fn vec3_max(a: glam::Vec3, b: glam::Vec3) -> (r: glam::Vec3)
    ensures
        r == max_of(a, b),
{
    a.max(b)
}

/// Relies on glam's `Vec3::midpoint`: the point halfway between the arguments.
#[verifier::external_body]
pub(crate) fn vec3_midpoint(a: glam::Vec3, b: glam::Vec3) -> (r: glam::Vec3)
    ensures
        r == midpoint_of(a, b),
{
    a.midpoint(b)
}

/// Relies on glam's `Vec3::MAX` constant: the largest finite value on every axis.
#[verifier::external_body]
pub(crate) fn vec3_limit_max() -> (r: glam::Vec3)
    ensures
        r == limit_max_of(()),
{
    glam::Vec3::MAX
}

/// Relies on glam's `Vec3::MIN` constant: the smallest finite value on every axis.
#[verifier::external_body]
pub(crate) fn vec3_limit_min() -> (r: glam::Vec3)
    ensures
        r == limit_min_of(()),
{
    glam::Vec3::MIN
}

/// Relies on glam's `Vec3::Y` constant: the upward unit vector `(0, 1, 0)`.
#[verifier::external_body]
pub(crate) fn vec3_unit_y() -> (r: glam::Vec3)
    ensures
        r == unit_y_of(()),
{
    glam::Vec3::Y
}

/// Relies on glam's `Vec3::NEG_Y` constant: the downward unit vector `(0, -1, 0)`.
#[verifier::external_body]
pub(crate) fn vec3_neg_unit_y() -> (r: glam::Vec3)
    ensures
        r == neg_unit_y_of(()),
{
    glam::Vec3::NEG_Y
}

/// Relies on glam's `Vec2::new`: reads the `x` and `z` components of a point
/// in the ground plane back out as a planar point.
#[verifier::external_body]
pub(crate) fn vec3_xz(v: glam::Vec3) -> (r: glam::Vec2)
    ensures
        r == xz_of(v),
{
    glam::Vec2::new(v.x, v.z)
}

/// Relies on glam's componentwise `Sub` for `Vec2`.
#[verifier::external_body]
pub(crate) fn vec2_sub(a: glam::Vec2, b: glam::Vec2) -> (r: glam::Vec2)
    ensures
        r == sub2_of(a, b),
{
    a - b
}

/// Relies on glam's componentwise `Div` for `Vec2`.
#[verifier::external_body]
pub(crate) fn vec2_div(a: glam::Vec2, b: glam::Vec2) -> (r: glam::Vec2)
    ensures
        r == div2_of(a, b),
{
    a / b
}

} // verus!
