//! Column-major 4x4 matrices and small vectors, carried as IEEE-754 bit
//! patterns.
//!
//! The render core never does floating-point arithmetic itself: a matrix is
//! sixteen `u32` words (the little-endian bit patterns of the `f32` entries,
//! column-major), and the two operations the scene loader needs — composing
//! two transforms and building a matrix from a scale/rotation/translation
//! triple — are delegated to `glam` behind trusted wrappers. Negating an
//! entry, which the loader uses to flip handedness, is a sign-bit flip on
//! the bit pattern and is implemented and verified here directly.

use vstd::prelude::*;

verus! {

/// Bit pattern of the `f32` value `1.0`.
pub const F32_ONE_BITS: u32 = 0x3F80_0000;

/// Mask of the IEEE-754 single-precision sign bit.
pub const F32_SIGN_BIT: u32 = 0x8000_0000;

/// A 4x4 matrix of `f32` bit patterns, column-major as in `glam::Mat4`.
#[derive(Clone, Copy, Debug)]
pub struct Mat4 {
    pub e: [u32; 16],
}

/// Two `f32` bit patterns.
#[derive(Clone, Copy, PartialEq, Eq, Structural, Debug)]
pub struct Vec2 {
    pub x: u32,
    pub y: u32,
}

/// Three `f32` bit patterns.
#[derive(Clone, Copy, PartialEq, Eq, Structural, Debug)]
pub struct Vec3 {
    pub x: u32,
    pub y: u32,
    pub z: u32,
}

/// Four `f32` bit patterns.
#[derive(Clone, Copy, PartialEq, Eq, Structural, Debug)]
pub struct Vec4 {
    pub x: u32,
    pub y: u32,
    pub z: u32,
    pub w: u32,
}

/// A quaternion's `f32` bit patterns, `(x, y, z, w)` as in `glam::Quat`.
#[derive(Clone, Copy, PartialEq, Eq, Structural, Debug)]
pub struct Quat {
    pub x: u32,
    pub y: u32,
    pub z: u32,
    pub w: u32,
}

/// What `glam::Mat4` multiplication returns, named but not spelled out:
/// the product is a pure function of the two operands' bit patterns.
pub uninterp spec fn spec_mat4_mul(a: Mat4, b: Mat4) -> Mat4;

/// What `glam::Mat4::from_scale_rotation_translation` returns for the given
/// scale, quaternion and translation bit patterns.
pub uninterp spec fn spec_mat4_srt(scale: Vec3, rotation: Quat, translation: Vec3) -> Mat4;

/// The identity matrix: ones on the diagonal, zeroes elsewhere.
pub open spec fn spec_mat4_identity() -> Mat4 {
    Mat4 {
        e: [
            F32_ONE_BITS, 0, 0, 0,
            0, F32_ONE_BITS, 0, 0,
            0, 0, F32_ONE_BITS, 0,
            0, 0, 0, F32_ONE_BITS,
        ],
    }
}

pub fn mat4_identity() -> (m: Mat4)
    ensures
        m == spec_mat4_identity(),
{
    Mat4 {
        e: [
            F32_ONE_BITS, 0, 0, 0,
            0, F32_ONE_BITS, 0, 0,
            0, 0, F32_ONE_BITS, 0,
            0, 0, 0, F32_ONE_BITS,
        ],
    }
}

/// Negation of an IEEE-754 single: the sign bit flips and nothing else moves.
pub open spec fn spec_flip_sign(x: u32) -> u32 {
    x ^ F32_SIGN_BIT
}

/// Flip the sign bit of an `f32` bit pattern, i.e. negate the encoded value.
pub fn flip_sign(x: u32) -> (r: u32)
    ensures
        r == spec_flip_sign(x),
{
    x ^ F32_SIGN_BIT
}

/// Compose two transforms.
///
/// Relies on `glam::Mat4`'s `Mul` impl (`Mat4::mul_mat4`): the product
/// depends on the operand matrices alone. `bytemuck::cast` reinterprets the
/// bit-pattern words as `f32` entries and back.
#[verifier::external_body]
pub fn mat4_mul(a: &Mat4, b: &Mat4) -> (r: Mat4)
    ensures
        r == spec_mat4_mul(*a, *b),
{
    let fa = glam::Mat4::from_cols_array(bytemuck::cast_ref(&a.e));
    let fb = glam::Mat4::from_cols_array(bytemuck::cast_ref(&b.e));
    Mat4 { e: bytemuck::cast((fa * fb).to_cols_array()) }
}

/// Build a node's local transform from its decomposed scale, rotation
/// quaternion (x, y, z, w) and translation.
///
/// Relies on `glam::Mat4::from_scale_rotation_translation`: the result
/// depends on the three operands alone. `bytemuck::cast` reinterprets the
/// bit-pattern words as `f32` entries and back.
#[verifier::external_body]
pub fn mat4_from_scale_rotation_translation(scale: Vec3, rotation: Quat, translation: Vec3) -> (r:
    Mat4)
    ensures
        r == spec_mat4_srt(scale, rotation, translation),
{
    let m = glam::Mat4::from_scale_rotation_translation(
        glam::Vec3::from_array(bytemuck::cast([scale.x, scale.y, scale.z])),
        glam::Quat::from_array(bytemuck::cast([rotation.x, rotation.y, rotation.z, rotation.w])),
        glam::Vec3::from_array(bytemuck::cast([translation.x, translation.y, translation.z])),
    );
    Mat4 { e: bytemuck::cast(m.to_cols_array()) }
}

} // verus!
