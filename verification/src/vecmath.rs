//! Vectors and rotations, carried opaquely.
//!
//! World-space positions, axes and orientations are `glam` values. The
//! library never reads their components: every operation the interpreter
//! needs goes through a trusted wrapper whose result is pinned by an
//! uninterpreted spec function of the arguments alone. All of these
//! operations are deterministic functions of their operands, bit for bit.

use vstd::prelude::*;
use glam::Quat;
use glam::Vec3;
use crate::scalar::Scalar;

verus! {

#[verifier::external_type_specification]
#[verifier::external_body]
pub struct ExVec3(Vec3);

#[verifier::external_type_specification]
#[verifier::external_body]
pub struct ExQuat(Quat);

/// The vector built from three scalar components.
pub uninterp spec fn vec3_of(x: Scalar, y: Scalar, z: Scalar) -> Vec3;

/// The componentwise sum of two vectors.
pub uninterp spec fn vec_sum_of(a: Vec3, b: Vec3) -> Vec3;

/// The componentwise difference of two vectors.
pub uninterp spec fn vec_diff_of(a: Vec3, b: Vec3) -> Vec3;

/// A vector multiplied by a scalar.
pub uninterp spec fn vec_scale_of(v: Vec3, s: Scalar) -> Vec3;

/// The quaternion built from four scalar components.
pub uninterp spec fn quat_of(x: Scalar, y: Scalar, z: Scalar, w: Scalar) -> Quat;

/// The Hamilton product of two quaternions.
pub uninterp spec fn quat_prod_of(a: Quat, b: Quat) -> Quat;

/// The inverse of a quaternion.
pub uninterp spec fn quat_inv_of(q: Quat) -> Quat;

/// A vector rotated by a quaternion.
pub uninterp spec fn rot_apply_of(q: Quat, v: Vec3) -> Vec3;

/// The quaternion of a rotation by an angle about an axis.
pub uninterp spec fn axis_angle_of(axis: Vec3, angle: Scalar) -> Quat;

/// The unit vector along the local X axis.
pub open spec fn unit_x() -> Vec3 {
    vec3_of(crate::scalar::sc_int_of(1), crate::scalar::sc_int_of(0), crate::scalar::sc_int_of(0))
}

/// The unit vector along the local Y axis.
pub open spec fn unit_y() -> Vec3 {
    vec3_of(crate::scalar::sc_int_of(0), crate::scalar::sc_int_of(1), crate::scalar::sc_int_of(0))
}

/// The unit vector along the local Z axis.
pub open spec fn unit_z() -> Vec3 {
    vec3_of(crate::scalar::sc_int_of(0), crate::scalar::sc_int_of(0), crate::scalar::sc_int_of(1))
}

/// The zero vector.
pub open spec fn vec3_zero() -> Vec3 {
    vec3_of(crate::scalar::sc_int_of(0), crate::scalar::sc_int_of(0), crate::scalar::sc_int_of(0))
}

/// The identity rotation.
pub open spec fn quat_identity() -> Quat {
    quat_of(
        crate::scalar::sc_int_of(0),
        crate::scalar::sc_int_of(0),
        crate::scalar::sc_int_of(0),
        crate::scalar::sc_int_of(1),
    )
}

/// Relies on `glam`'s `Vec3::new`.
#[verifier::external_body]
pub(crate) fn vec3_new(x: Scalar, y: Scalar, z: Scalar) -> (r: Vec3)
    ensures
        r == vec3_of(x, y, z),
{
    Vec3::new(x.radius, y.radius, z.radius)
}

/// Relies on `glam`'s componentwise `+` for `Vec3`.
#[verifier::external_body]
pub(crate) fn vec_sum(a: Vec3, b: Vec3) -> (r: Vec3)
    ensures
        r == vec_sum_of(a, b),
{
    a + b
}

/// Relies on `glam`'s componentwise `-` for `Vec3`.
#[verifier::external_body]
pub(crate) fn vec_diff(a: Vec3, b: Vec3) -> (r: Vec3)
    ensures
        r == vec_diff_of(a, b),
{
    a - b
}

/// Relies on `glam`'s `*` of a `Vec3` by a scalar.
#[verifier::external_body]
pub(crate) fn vec_scale(v: Vec3, s: Scalar) -> (r: Vec3)
    ensures
        r == vec_scale_of(v, s),
{
    v * s.radius
}

/// Relies on `glam`'s `Quat::from_xyzw`.
#[verifier::external_body]
pub(crate) fn quat_new(x: Scalar, y: Scalar, z: Scalar, w: Scalar) -> (r: Quat)
    ensures
        r == quat_of(x, y, z, w),
{
    Quat::from_xyzw(x.radius, y.radius, z.radius, w.radius)
}

/// Relies on `glam`'s `*` for quaternions (Hamilton product).
#[verifier::external_body]
pub(crate) fn quat_prod(a: Quat, b: Quat) -> (r: Quat)
    ensures
        r == quat_prod_of(a, b),
{
    a * b
}

/// Relies on `glam`'s `Quat::inverse`.
#[verifier::external_body]
pub(crate) fn quat_inv(q: Quat) -> (r: Quat)
    ensures
        r == quat_inv_of(q),
{
    q.inverse()
}

/// Relies on `glam`'s `*` of a quaternion by a `Vec3` (rotation).
#[verifier::external_body]
pub(crate) fn rot_apply(q: Quat, v: Vec3) -> (r: Vec3)
    ensures
        r == rot_apply_of(q, v),
{
    q * v
}

/// Relies on `glam`'s `Quat::from_axis_angle`.
#[verifier::external_body]
pub(crate) fn axis_angle(axis: Vec3, angle: Scalar) -> (r: Quat)
    ensures
        r == axis_angle_of(axis, angle),
{
    Quat::from_axis_angle(axis, angle.radius)
}

/// The X axis as `glam` documents `Vec3::X`: the vector `(1, 0, 0)`.
pub(crate) fn unit_x_vec() -> (r: Vec3)
    ensures
        r == unit_x(),
{
    vec3_new(crate::scalar::sc_from_int(1), crate::scalar::sc_from_int(0), crate::scalar::sc_from_int(0))
}

/// The Y axis, the vector `(0, 1, 0)`.
pub(crate) fn unit_y_vec() -> (r: Vec3)
    ensures
        r == unit_y(),
{
    vec3_new(crate::scalar::sc_from_int(0), crate::scalar::sc_from_int(1), crate::scalar::sc_from_int(0))
}

/// The Z axis, the vector `(0, 0, 1)`.
pub(crate) fn unit_z_vec() -> (r: Vec3)
    ensures
        r == unit_z(),
{
    vec3_new(crate::scalar::sc_from_int(0), crate::scalar::sc_from_int(0), crate::scalar::sc_from_int(1))
}

/// The zero vector, as `glam` documents `Vec3::ZERO`.
pub(crate) fn zero_vec() -> (r: Vec3)
    ensures
        r == vec3_zero(),
{
    vec3_new(crate::scalar::sc_from_int(0), crate::scalar::sc_from_int(0), crate::scalar::sc_from_int(0))
}

/// The identity rotation, as `glam` documents `Quat::IDENTITY`:
/// `from_xyzw(0, 0, 0, 1)`.
pub(crate) fn identity_quat() -> (r: Quat)
    ensures
        r == quat_identity(),
{
    quat_new(
        crate::scalar::sc_from_int(0),
        crate::scalar::sc_from_int(0),
        crate::scalar::sc_from_int(0),
        crate::scalar::sc_from_int(1),
    )
}

} // verus!
