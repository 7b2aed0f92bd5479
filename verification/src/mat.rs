//! Vectors, quaternions and column-major 4x4 matrices of `f32` bit patterns.
//!
//! The library never computes with floating-point values itself: every
//! scalar is carried as the `u32` bit pattern of an `f32`, and the matrix
//! arithmetic is delegated to `glam` behind trusted wrappers.  Each
//! wrapper's result is described by an uninterpreted spec function of the
//! argument bits, so that callers' contracts can name results exactly.
use vstd::prelude::*;

verus! {

/// Bit pattern of the `f32` value `1.0`.
pub const ONE_BITS: u32 = 0x3F80_0000;
/// Bit pattern of the `f32` value `0.5`.
pub const HALF_BITS: u32 = 0x3F00_0000;

/// A 3-component vector of `f32` bit patterns.
#[derive(Clone, Copy, Debug, PartialEq, Eq, Structural)]
pub struct Vec3Bits {
    pub x: u32,
    pub y: u32,
    pub z: u32,
}

/// A quaternion of `f32` bit patterns.
#[derive(Clone, Copy, Debug, PartialEq, Eq, Structural)]
pub struct QuatBits {
    pub x: u32,
    pub y: u32,
    pub z: u32,
    pub w: u32,
}

impl Vec3Bits {
    /// The components as a sequence, in `x`, `y`, `z` order.
    pub open spec fn bits(self) -> Seq<u32> {
        seq![self.x, self.y, self.z]
    }

    pub fn new(x: u32, y: u32, z: u32) -> (r: Vec3Bits)
        ensures
            r == (Vec3Bits { x, y, z }),
    {
        Vec3Bits { x, y, z }
    }

    /// The zero vector.
    pub fn zero() -> (r: Vec3Bits)
        ensures
            r == (Vec3Bits { x: 0u32, y: 0u32, z: 0u32 }),
    {
        Vec3Bits { x: 0, y: 0, z: 0 }
    }

    /// The all-ones vector.
    pub fn one() -> (r: Vec3Bits)
        ensures
            r == (Vec3Bits { x: ONE_BITS, y: ONE_BITS, z: ONE_BITS }),
    {
        Vec3Bits { x: ONE_BITS, y: ONE_BITS, z: ONE_BITS }
    }
}

impl QuatBits {
    /// The components as a sequence, in `x`, `y`, `z`, `w` order.
    pub open spec fn bits(self) -> Seq<u32> {
        seq![self.x, self.y, self.z, self.w]
    }

    /// The identity rotation.
    pub fn identity() -> (r: QuatBits)
        ensures
            r == (QuatBits { x: 0u32, y: 0u32, z: 0u32, w: ONE_BITS }),
    {
        QuatBits { x: 0, y: 0, z: 0, w: ONE_BITS }
    }
}

/// A 4x4 matrix of `f32` entries, stored column-major as bit patterns.
///
/// The memory order matches `glam::Mat4`: entry (row `r`, column `c`)
/// sits at index `c * 4 + r`.
#[derive(Clone, Copy, Debug)]
pub struct Mat4Bits {
    pub cols: [u32; 16],
}

/// The identity matrix, as column-major bit patterns.
pub open spec fn identity_bits() -> Seq<u32> {
    seq![
        ONE_BITS, 0, 0, 0,
        0, ONE_BITS, 0, 0,
        0, 0, ONE_BITS, 0,
        0, 0, 0, ONE_BITS,
    ]
}

/// The fixed depth-correction matrix, as column-major bit patterns.
///
/// Its rows are the identity on X and Y, `[0, 0, 0.5, 0.5]` on Z and
/// `[0, 0, 0, 1]` on W: applied after a projection with the [-1, 1] clip
/// depth convention, it remaps depth into the [0, 1] range the target
/// graphics API expects.
pub open spec fn depth_correction_bits() -> Seq<u32> {
    seq![
        ONE_BITS, 0, 0, 0,
        0, ONE_BITS, 0, 0,
        0, 0, HALF_BITS, 0,
        0, 0, HALF_BITS, ONE_BITS,
    ]
}

impl Mat4Bits {
    /// The identity matrix.
    pub fn identity() -> (r: Mat4Bits)
        ensures
            r.cols@ == identity_bits(),
    {
        let r = Mat4Bits {
            cols: [
                ONE_BITS, 0, 0, 0,
                0, ONE_BITS, 0, 0,
                0, 0, ONE_BITS, 0,
                0, 0, 0, ONE_BITS,
            ],
        };
        proof {
            assert(r.cols@ =~= identity_bits());
        }
        r
    }

    /// The fixed depth-correction matrix that remaps clip-space depth
    /// from [-1, 1] to [0, 1].
    pub fn depth_correction() -> (r: Mat4Bits)
        ensures
            r.cols@ == depth_correction_bits(),
    {
        let r = Mat4Bits {
            cols: [
                ONE_BITS, 0, 0, 0,
                0, ONE_BITS, 0, 0,
                0, 0, HALF_BITS, 0,
                0, 0, HALF_BITS, ONE_BITS,
            ],
        };
        proof {
            assert(r.cols@ =~= depth_correction_bits());
        }
        r
    }
}

/// The matrix product `a * b`, on column-major bit patterns.
pub uninterp spec fn mat_mul_bits(a: Seq<u32>, b: Seq<u32>) -> Seq<u32>;

/// The scale-rotate-translate composition, on component bit patterns.
pub uninterp spec fn srt_bits(scale: Seq<u32>, rotation: Seq<u32>, translation: Seq<u32>) -> Seq<u32>;

/// The right-handed look-at view matrix, on component bit patterns.
pub uninterp spec fn look_at_bits(eye: Seq<u32>, center: Seq<u32>, up: Seq<u32>) -> Seq<u32>;

/// The right-handed perspective projection with the [-1, 1] clip depth
/// convention, on parameter bit patterns.
pub uninterp spec fn perspective_bits(fovy: u32, aspect: u32, znear: u32, zfar: u32) -> Seq<u32>;

/// The quaternion for a rotation of `angle` radians about the Z axis,
/// on the angle's bit pattern.
pub uninterp spec fn rot_z_bits(angle: u32) -> Seq<u32>;

/// Relies on `glam::Mat4`'s `Mul` impl: the matrix product, computed from
/// the entries of the two arguments alone.  `bytemuck::cast` only
/// reinterprets the bit patterns as `f32` entries and back.
#[verifier::external_body]
pub(crate) fn mat4_mul(a: &Mat4Bits, b: &Mat4Bits) -> (r: Mat4Bits)
    ensures
        r.cols@ == mat_mul_bits(a.cols@, b.cols@),
        r.cols@.len() == 16,
{
    let am: glam::Mat4 = bytemuck::cast(a.cols);
    let bm: glam::Mat4 = bytemuck::cast(b.cols);
    Mat4Bits { cols: bytemuck::cast(am * bm) }
}

/// Relies on `glam::Mat4::from_scale_rotation_translation`: the affine
/// transform that scales, then rotates, then translates, computed from
/// the component bits alone.  `bytemuck::cast` only reinterprets bits.
#[verifier::external_body]
pub(crate) fn mat4_srt(scale: &Vec3Bits, rotation: &QuatBits, translation: &Vec3Bits) -> (r: Mat4Bits)
    ensures
        r.cols@ == srt_bits(scale.bits(), rotation.bits(), translation.bits()),
        r.cols@.len() == 16,
{
    let s: glam::Vec3 = bytemuck::cast([scale.x, scale.y, scale.z]);
    let q: glam::Quat = bytemuck::cast([rotation.x, rotation.y, rotation.z, rotation.w]);
    let t: glam::Vec3 = bytemuck::cast([translation.x, translation.y, translation.z]);
    Mat4Bits { cols: bytemuck::cast(glam::Mat4::from_scale_rotation_translation(s, q, t)) }
}

/// Relies on `glam::camera::rh::view::look_at_mat4`: the right-handed
/// view matrix from eye, focal point and up, computed from the component
/// bits alone.  `bytemuck::cast` only reinterprets bits.
#[verifier::external_body]
pub(crate) fn mat4_look_at(eye: &Vec3Bits, center: &Vec3Bits, up: &Vec3Bits) -> (r: Mat4Bits)
    ensures
        r.cols@ == look_at_bits(eye.bits(), center.bits(), up.bits()),
        r.cols@.len() == 16,
{
    let e: glam::Vec3 = bytemuck::cast([eye.x, eye.y, eye.z]);
    let c: glam::Vec3 = bytemuck::cast([center.x, center.y, center.z]);
    let u: glam::Vec3 = bytemuck::cast([up.x, up.y, up.z]);
    Mat4Bits { cols: bytemuck::cast(glam::camera::rh::view::look_at_mat4(e, c, u)) }
}

/// Relies on `glam::camera::rh::proj::opengl::perspective`: the
/// right-handed perspective projection with depth in [-1, 1], computed
/// from the parameter bits alone.  `bytemuck::cast` only reinterprets bits.
#[verifier::external_body]
pub(crate) fn mat4_perspective(fovy: u32, aspect: u32, znear: u32, zfar: u32) -> (r: Mat4Bits)
    ensures
        r.cols@ == perspective_bits(fovy, aspect, znear, zfar),
        r.cols@.len() == 16,
{
    let m = glam::camera::rh::proj::opengl::perspective(
        bytemuck::cast(fovy),
        bytemuck::cast(aspect),
        bytemuck::cast(znear),
        bytemuck::cast(zfar),
    );
    Mat4Bits { cols: bytemuck::cast(m) }
}

/// Relies on `glam::Quat::from_axis_angle` applied to `glam::Vec3::Z`:
/// the quaternion for a rotation about the fixed Z axis, computed from
/// the angle bits alone.  `bytemuck::cast` only reinterprets bits.
#[verifier::external_body]
pub(crate) fn quat_rot_z(angle: u32) -> (r: QuatBits)
    ensures
        r.bits() == rot_z_bits(angle),
{
    let q: [u32; 4] = bytemuck::cast(glam::Quat::from_axis_angle(glam::Vec3::Z, bytemuck::cast(angle)));
    QuatBits { x: q[0], y: q[1], z: q[2], w: q[3] }
}

} // verus!
