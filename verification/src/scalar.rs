//! The scalar carrier used throughout the library.
//!
//! Every physical quantity (a length, an angle in radians, a density, a mass)
//! is a single-precision value. The library never inspects such a value
//! itself: it carries each one inside a [`bevy_math::primitives::Circle`],
//! whose only field is that value, and hands all arithmetic to the host
//! libraries through the trusted wrappers below. Each wrapper's result is
//! pinned by an uninterpreted spec function of the arguments alone, which is
//! sound because every operation used here is a deterministic function of its
//! operands, bit for bit, on every machine.

use vstd::prelude::*;
use bevy_math::primitives::Circle;
use bevy_math::primitives::Measured2d;

verus! {

#[verifier::external_type_specification]
#[verifier::external_body]
pub struct ExCircle(Circle);

/// A single-precision scalar, carried opaquely.
pub type Scalar = Circle;

/// The scalar that a small signed integer converts to.
pub uninterp spec fn sc_int_of(n: i16) -> Scalar;

/// The product of two scalars.
pub uninterp spec fn sc_mul_of(a: Scalar, b: Scalar) -> Scalar;

/// The quotient of two scalars.
pub uninterp spec fn sc_div_of(a: Scalar, b: Scalar) -> Scalar;

/// The negation of a scalar.
pub uninterp spec fn sc_neg_of(a: Scalar) -> Scalar;

/// The absolute value of a scalar.
pub uninterp spec fn sc_abs_of(a: Scalar) -> Scalar;

/// A scalar in degrees converted to radians.
pub uninterp spec fn sc_radians_of(a: Scalar) -> Scalar;

/// A scalar in radians converted to degrees.
pub uninterp spec fn sc_degrees_of(a: Scalar) -> Scalar;

/// The `<=` comparison of two scalars.
pub uninterp spec fn sc_le_of(a: Scalar, b: Scalar) -> bool;

/// A scalar saturated and truncated to a byte.
pub uninterp spec fn sc_byte_of(a: Scalar) -> u8;

/// The area of a disk of the given radius.
pub uninterp spec fn disk_area_of(r: Scalar) -> Scalar;

/// The scalar closest to the circle constant: the area of the unit disk.
pub open spec fn sc_pi() -> Scalar {
    disk_area_of(sc_int_of(1))
}

/// Half of a scalar, as the interpreter computes it.
pub open spec fn sc_half_of(a: Scalar) -> Scalar {
    sc_div_of(a, sc_int_of(2))
}

/// Relies on the standard conversion of `i16` into single precision,
/// which is exact for every 16-bit integer.
#[verifier::external_body]
pub(crate) fn sc_from_int(n: i16) -> (r: Scalar)
    ensures
        r == sc_int_of(n),
{
    Circle::new(n.into())
}

/// Relies on the standard `*` of two single-precision values.
#[verifier::external_body]
pub(crate) fn sc_mul(a: Scalar, b: Scalar) -> (r: Scalar)
    ensures
        r == sc_mul_of(a, b),
{
    Circle::new(a.radius * b.radius)
}

/// Relies on the standard `/` of two single-precision values.
#[verifier::external_body]
pub(crate) fn sc_div(a: Scalar, b: Scalar) -> (r: Scalar)
    ensures
        r == sc_div_of(a, b),
{
    Circle::new(a.radius / b.radius)
}

/// Relies on the standard unary `-` of a single-precision value.
#[verifier::external_body]
pub(crate) fn sc_neg(a: Scalar) -> (r: Scalar)
    ensures
        r == sc_neg_of(a),
{
    Circle::new(-a.radius)
}

/// Relies on the standard `abs` of a single-precision value.
#[verifier::external_body]
pub(crate) fn sc_abs(a: Scalar) -> (r: Scalar)
    ensures
        r == sc_abs_of(a),
{
    Circle::new(a.radius.abs())
}

/// Relies on the standard `to_radians` of a single-precision value.
#[verifier::external_body]
pub(crate) fn sc_to_radians(a: Scalar) -> (r: Scalar)
    ensures
        r == sc_radians_of(a),
{
    Circle::new(a.radius.to_radians())
}

/// Relies on the standard `to_degrees` of a single-precision value.
#[verifier::external_body]
pub(crate) fn sc_to_degrees(a: Scalar) -> (r: Scalar)
    ensures
        r == sc_degrees_of(a),
{
    Circle::new(a.radius.to_degrees())
}

/// Relies on the standard `<=` of two single-precision values.
#[verifier::external_body]
pub(crate) fn sc_le(a: Scalar, b: Scalar) -> (r: bool)
    ensures
        r == sc_le_of(a, b),
{
    a.radius <= b.radius
}

/// Relies on the standard saturating `as` cast of a single-precision
/// value to `u8`.
#[verifier::external_body]
pub(crate) fn sc_to_byte(a: Scalar) -> (r: u8)
    ensures
        r == sc_byte_of(a),
{
    a.radius as u8
}

/// Relies on `bevy_math`'s `Circle::area`: the area of a disk, which for a
/// unit radius is exactly the library's circle constant.
#[verifier::external_body]
pub(crate) fn disk_area(r: Scalar) -> (a: Scalar)
    ensures
        a == disk_area_of(r),
{
    Circle::new(r.area())
}

/// The circle constant as the interpreter obtains it.
pub(crate) fn sc_pi_exec() -> (r: Scalar)
    ensures
        r == sc_pi(),
{
    disk_area(sc_from_int(1))
}

} // verus!
