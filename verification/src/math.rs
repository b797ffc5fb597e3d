//! The linear algebra that the batcher borrows from `glam`.
//!
//! Vectors, quaternions and matrices are carried through as opaque values.
//! Nothing in this module is proved: each item states what `glam` is taken
//! to do.

use vstd::prelude::*;

verus! {

#[verifier::external_type_specification]
#[verifier::external_body]
pub struct ExVec3(glam::Vec3);

#[verifier::external_type_specification]
#[verifier::external_body]
pub struct ExQuat(glam::Quat);

#[verifier::external_type_specification]
#[verifier::external_body]
pub struct ExMat4(glam::Mat4);

/// The matrix that `glam::Mat4::from_scale_rotation_translation` returns:
/// scale first, then rotation, then translation.
pub uninterp spec fn model_matrix(
    scale: glam::Vec3,
    rotation: glam::Quat,
    translation: glam::Vec3,
) -> glam::Mat4;

/// The point that `glam::Mat4::transform_point3` returns: the first three
/// components of `m` times `(p, 1)`.
pub uninterp spec fn transformed_point(m: glam::Mat4, p: glam::Vec3) -> glam::Vec3;

/// The IEEE-754 bit patterns of the `x`, `y` and `z` components of `v`.
pub uninterp spec fn component_bits(v: glam::Vec3) -> (u32, u32, u32);

/// The IEEE-754 bit patterns of the `x`, `y`, `z` and `w` components of `q`.
pub uninterp spec fn rotation_bits(q: glam::Quat) -> (u32, u32, u32, u32);

/// The bit pattern of the single-precision number one.
pub const ONE_BITS: u32 = 0x3f80_0000;

/// The bit pattern of the single-precision number minus one.
pub const NEG_ONE_BITS: u32 = 0xbf80_0000;

/// Calls `glam::Mat4::from_scale_rotation_translation`. The contract only
/// names the result; with `glam`'s assertions switched off, as they are by
/// default, the call accepts every rotation.
#[verifier::external_body]
pub(crate) fn compose(scale: glam::Vec3, rotation: glam::Quat, translation: glam::Vec3) -> (m:
    glam::Mat4)
    ensures
        m == model_matrix(scale, rotation, translation),
{
    glam::Mat4::from_scale_rotation_translation(scale, rotation, translation)
}

/// Calls `glam::Mat4::transform_point3`, which multiplies `p`, extended by a
/// fourth component of one, by `m` and drops the fourth component of the
/// product. The contract only names the result.
#[verifier::external_body]
pub(crate) fn transform_point(m: &glam::Mat4, p: glam::Vec3) -> (q: glam::Vec3)
    ensures
        q == transformed_point(*m, p),
{
    m.transform_point3(p)
}

/// Reads the three components of a `glam::Vec3` and turns each into its bit
/// pattern with `to_bits`.
#[verifier::external_body]
pub(crate) fn to_bits(v: glam::Vec3) -> (bits: (u32, u32, u32))
    ensures
        bits == component_bits(v),
{
    (v.x.to_bits(), v.y.to_bits(), v.z.to_bits())
}

/// Reads `glam::Vec3::ZERO`, all of whose components are positive zero.
#[verifier::external_body]
pub(crate) fn zero_vector() -> (v: glam::Vec3)
    ensures
        component_bits(v) == (0u32, 0u32, 0u32),
{
    glam::Vec3::ZERO
}

/// Reads `glam::Vec3::ONE`, all of whose components are one.
#[verifier::external_body]
pub(crate) fn one_vector() -> (v: glam::Vec3)
    ensures
        component_bits(v) == (ONE_BITS, ONE_BITS, ONE_BITS),
{
    glam::Vec3::ONE
}

/// Reads `glam::Quat::IDENTITY`, the quaternion `(0, 0, 0, 1)`.
#[verifier::external_body]
pub(crate) fn identity_rotation() -> (q: glam::Quat)
    ensures
        rotation_bits(q) == (0u32, 0u32, 0u32, ONE_BITS),
{
    glam::Quat::IDENTITY
}

/// Whether `product` is what `glam::Quat::mul_quat` returns for `lhs` and
/// `rhs`: the rotation `rhs` followed by `lhs`. This is a relation and not a
/// function of `lhs` and `rhs`, because `glam` sums the terms of the product
/// in another order on processors with SSE2 than elsewhere, and so rounds
/// differently.
pub uninterp spec fn is_rotation_product(
    lhs: glam::Quat,
    rhs: glam::Quat,
    product: glam::Quat,
) -> bool;

/// Calls `glam::Quat::mul_quat`. The contract says only that the result is
/// the product as `glam` computes it here; with `glam`'s assertions switched
/// off, as they are by default, the call accepts every pair of quaternions.
#[verifier::external_body]
pub(crate) fn compose_rotations(lhs: glam::Quat, rhs: glam::Quat) -> (product: glam::Quat)
    ensures
        is_rotation_product(lhs, rhs, product),
{
    lhs.mul_quat(rhs)
}

} // verus!
