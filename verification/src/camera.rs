//! Camera state and the view / projection matrices derived from it.
use crate::mat::{
    depth_correction_bits, look_at_bits, mat4_look_at, mat4_mul, mat4_perspective, mat_mul_bits,
    perspective_bits, Mat4Bits, Vec3Bits, ONE_BITS,
};
use vstd::prelude::*;

verus! {

/// Bit pattern of the default vertical field of view, 45 degrees in
/// radians (`0.7853982` as an `f32`).
pub const FOVY_45_DEG_BITS: u32 = 0x3F49_0FDB;
/// Bit pattern of the default near clip distance, `0.1`.
pub const ZNEAR_DEFAULT_BITS: u32 = 0x3DCC_CCCD;
/// Bit pattern of the default far clip distance, `10.0`.
pub const ZFAR_DEFAULT_BITS: u32 = 0x4120_0000;
/// Bit pattern of the `f32` value `2.0`.
pub const TWO_BITS: u32 = 0x4000_0000;

/// An eye / target / up view triple and the perspective parameters,
/// each scalar the bit pattern of an `f32`.
#[derive(Clone, Copy, Debug, PartialEq, Eq, Structural)]
pub struct Camera {
    pub eye: Vec3Bits,
    pub target: Vec3Bits,
    pub up: Vec3Bits,
    pub fovy: u32,
    pub aspect: u32,
    pub znear: u32,
    pub zfar: u32,
}

impl Camera {
    /// The example camera's value: eye at `(0, 2, 2)` looking at the
    /// origin with Z up, a 45-degree vertical field of view, square
    /// aspect, and clip distances `0.1` to `10.0`.
    pub open spec fn default_spec() -> Camera {
        Camera {
            eye: Vec3Bits { x: 0u32, y: TWO_BITS, z: TWO_BITS },
            target: Vec3Bits { x: 0u32, y: 0u32, z: 0u32 },
            up: Vec3Bits { x: 0u32, y: 0u32, z: ONE_BITS },
            fovy: FOVY_45_DEG_BITS,
            aspect: ONE_BITS,
            znear: ZNEAR_DEFAULT_BITS,
            zfar: ZFAR_DEFAULT_BITS,
        }
    }

    /// The right-handed look-at view matrix from eye toward target.
    pub fn get_view(&self) -> (r: Mat4Bits)
        ensures
            r.cols@ == look_at_bits(self.eye.bits(), self.target.bits(), self.up.bits()),
            r.cols@.len() == 16,
    {
        mat4_look_at(&self.eye, &self.target, &self.up)
    }

    /// The projection matrix: a right-handed perspective projection with
    /// the [-1, 1] clip depth convention, composed with the fixed
    /// depth-correction matrix that remaps depth into [0, 1].
    pub fn get_proj(&self) -> (r: Mat4Bits)
        ensures
            r.cols@ == mat_mul_bits(
                depth_correction_bits(),
                perspective_bits(self.fovy, self.aspect, self.znear, self.zfar),
            ),
            r.cols@.len() == 16,
    {
        let correction = Mat4Bits::depth_correction();
        let persp = mat4_perspective(self.fovy, self.aspect, self.znear, self.zfar);
        mat4_mul(&correction, &persp)
    }

    /// Stores a new aspect ratio.  The caller derives it from the
    /// current surface size as `width / height`.
    pub fn set_aspect(&mut self, aspect: u32)
        ensures
            *final(self) == (Camera { aspect, ..*old(self) }),
    {
        self.aspect = aspect;
    }
}

impl Default for Camera {
    /// The example camera: eye at `(0, 2, 2)` looking at the origin with
    /// Z up, a 45-degree vertical field of view, square aspect, and
    /// clip distances `0.1` to `10.0`.
    fn default() -> (r: Self)
        ensures
            r == Camera::default_spec(),
    {
        Camera {
            eye: Vec3Bits { x: 0, y: TWO_BITS, z: TWO_BITS },
            target: Vec3Bits { x: 0, y: 0, z: 0 },
            up: Vec3Bits { x: 0, y: 0, z: ONE_BITS },
            fovy: FOVY_45_DEG_BITS,
            aspect: ONE_BITS,
            znear: ZNEAR_DEFAULT_BITS,
            zfar: ZFAR_DEFAULT_BITS,
        }
    }
}

} // verus!
