use vstd::prelude::*;

verus! {

// A position, normal or direction is a `glam::Vec3`: three `f32` components.
// Verified code treats a `Vec3` as an opaque value. Every arithmetic step on
// one goes through a trusted wrapper below, and each wrapper's result is
// pinned to a spec-level name, so that contracts can say exactly which
// composition of the floating-point operations produced each vertex. The
// named operations are pure functions of their arguments: glam computes them
// componentwise with IEEE arithmetic, reading nothing but the operands.
#[verifier::external_type_specification]
#[verifier::external_body]
pub struct ExVec3(glam::Vec3);

/// The vector whose components are the three integers, cast to `f32`.
pub uninterp spec fn vec3_of_ints(x: int, y: int, z: int) -> glam::Vec3;

/// Componentwise sum, as glam's `impl Add<Vec3> for Vec3` computes it.
pub uninterp spec fn vec_sum(a: glam::Vec3, b: glam::Vec3) -> glam::Vec3;

/// Componentwise product, as glam's `impl Mul<Vec3> for Vec3` computes it.
/// Multiplying by a splat vector scales every component by one scalar.
pub uninterp spec fn vec_prod(a: glam::Vec3, b: glam::Vec3) -> glam::Vec3;

/// The argument rescaled to unit length, as `glam::Vec3::normalize` computes
/// it (the vector times the reciprocal of its length).
pub uninterp spec fn unit_of(v: glam::Vec3) -> glam::Vec3;

/// Componentwise absolute value, as `glam::Vec3::abs` computes it.
pub uninterp spec fn vec_abs_of(v: glam::Vec3) -> glam::Vec3;

/// Relies on `glam::IVec3::new` and `glam::IVec3::as_vec3`: builds the vector
/// `(x, y, z)` with each component cast to `f32`.
#[verifier::external_body]
pub(crate) fn vec3i(x: i32, y: i32, z: i32) -> (r: glam::Vec3)
    ensures
        r == vec3_of_ints(x as int, y as int, z as int),
{
    glam::IVec3::new(x, y, z).as_vec3()
}

/// Relies on glam's `impl Add<Vec3> for Vec3`: componentwise IEEE sum of the
/// two arguments, reading nothing else.
#[verifier::external_body]
pub(crate) fn vec_add(a: glam::Vec3, b: glam::Vec3) -> (r: glam::Vec3)
    ensures
        r == vec_sum(a, b),
{
    a + b
}

/// Relies on glam's `impl Mul<Vec3> for Vec3`: componentwise IEEE product of
/// the two arguments, reading nothing else.
#[verifier::external_body]
pub(crate) fn vec_mul(a: glam::Vec3, b: glam::Vec3) -> (r: glam::Vec3)
    ensures
        r == vec_prod(a, b),
{
    a * b
}

/// Relies on `glam::Vec3::normalize`: the argument times the reciprocal of
/// its length. With glam's default features the call never panics; for a
/// zero-length or non-finite argument it returns a non-finite vector.
#[verifier::external_body]
pub(crate) fn vec_normalize(v: glam::Vec3) -> (r: glam::Vec3)
    ensures
        r == unit_of(v),
{
    v.normalize()
}

/// Relies on `glam::Vec3::abs`: componentwise absolute value.
#[verifier::external_body]
pub(crate) fn vec_abs(v: glam::Vec3) -> (r: glam::Vec3)
    ensures
        r == vec_abs_of(v),
{
    v.abs()
}

} // verus!
