//! CPU-side mesh geometry and its model transform.
use crate::mat::{mat4_srt, srt_bits, Mat4Bits, QuatBits, Vec3Bits, ONE_BITS};
use crate::vertex::{VertexAux, VertexCore};
use vstd::prelude::*;

verus! {

/// Why a mesh was rejected.
#[derive(Clone, Copy, Debug, PartialEq, Eq, Structural)]
pub enum MeshError {
    /// The color stream is not index-aligned with the position stream.
    ColorCountMismatch,
    /// An index refers past the end of the attribute arrays.
    IndexOutOfBounds,
}

/// A mesh: index-aligned position and color streams, triangle-list
/// indices into them, and a scale / rotation / translation transform.
///
/// The geometry is immutable once built; only the transform is animated.
pub struct Mesh {
    pub xs: Vec<VertexCore>,
    pub colors: Vec<VertexAux>,
    pub inds: Vec<u32>,
    pub shift: Vec3Bits,
    pub rot: QuatBits,
    pub scale: Vec3Bits,
}

/// The geometry invariant: one color per position, and every index in
/// range.
pub open spec fn streams_well_formed(xs: Seq<VertexCore>, colors: Seq<VertexAux>, inds: Seq<u32>) -> bool {
    &&& colors.len() == xs.len()
    &&& forall|i: int| 0 <= i < inds.len() ==> (inds[i] as int) < xs.len()
}

impl Mesh {
    /// The geometry invariant, on this mesh's own streams.
    pub open spec fn well_formed(self) -> bool {
        streams_well_formed(self.xs@, self.colors@, self.inds@)
    }

    /// The identity transform: zero translation, identity rotation,
    /// unit scale.
    pub open spec fn transform_is_default(self) -> bool {
        &&& self.shift == (Vec3Bits { x: 0u32, y: 0u32, z: 0u32 })
        &&& self.rot == (QuatBits { x: 0u32, y: 0u32, z: 0u32, w: ONE_BITS })
        &&& self.scale == (Vec3Bits { x: ONE_BITS, y: ONE_BITS, z: ONE_BITS })
    }

    /// Builds a mesh with the identity transform, rejecting geometry
    /// that breaks the invariant before anything can be uploaded.
    ///
    /// Fails with `ColorCountMismatch` when the two attribute streams
    /// differ in length, and otherwise with `IndexOutOfBounds` when some
    /// index is not below the attribute count.
    pub fn new(xs: Vec<VertexCore>, colors: Vec<VertexAux>, inds: Vec<u32>) -> (r: Result<Mesh, MeshError>)
        ensures
            r is Ok <==> streams_well_formed(xs@, colors@, inds@),
            r matches Ok(m) ==> {
                &&& m.xs@ == xs@
                &&& m.colors@ == colors@
                &&& m.inds@ == inds@
                &&& m.transform_is_default()
                &&& m.well_formed()
            },
            r matches Err(e) ==> (e == MeshError::ColorCountMismatch <==> colors@.len() != xs@.len()),
            r matches Err(e) ==> (e == MeshError::IndexOutOfBounds <==> colors@.len() == xs@.len()
                && exists|i: int| 0 <= i < inds@.len() && (inds@[i] as int) >= xs@.len()),
    {
        if colors.len() != xs.len() {
            return Err(MeshError::ColorCountMismatch);
        }
        let n = xs.len();
        let mut i: usize = 0;
        while i < inds.len()
            invariant
                0 <= i <= inds@.len(),
                n == xs@.len(),
                colors@.len() == xs@.len(),
                forall|j: int| 0 <= j < i ==> (inds@[j] as int) < n,
            decreases inds@.len() - i,
        {
            if inds[i] as usize >= n {
                proof {
                    assert(0 <= i < inds@.len() && (inds@[i as int] as int) >= xs@.len());
                }
                return Err(MeshError::IndexOutOfBounds);
            }
            i = i + 1;
        }
        Ok(Mesh {
            xs,
            colors,
            inds,
            shift: Vec3Bits::zero(),
            rot: QuatBits::identity(),
            scale: Vec3Bits::one(),
        })
    }

    /// Whether the geometry invariant holds, decided at run time.
    pub fn is_well_formed(&self) -> (r: bool)
        ensures
            r == self.well_formed(),
    {
        if self.colors.len() != self.xs.len() {
            return false;
        }
        let n = self.xs.len();
        let mut i: usize = 0;
        while i < self.inds.len()
            invariant
                0 <= i <= self.inds@.len(),
                n == self.xs@.len(),
                forall|j: int| 0 <= j < i ==> (self.inds@[j] as int) < n,
            decreases self.inds@.len() - i,
        {
            if self.inds[i] as usize >= n {
                return false;
            }
            i = i + 1;
        }
        true
    }

    /// The index format: every index is one unsigned 32-bit value, so
    /// this returns its width in bits.
    pub fn inds_format() -> (r: u32)
        ensures
            r == 32u32,
    {
        32
    }

    /// The model matrix: scale, then rotation, then translation,
    /// composed into one transform.
    pub fn get_transform(&self) -> (r: Mat4Bits)
        ensures
            r.cols@ == srt_bits(self.scale.bits(), self.rot.bits(), self.shift.bits()),
            r.cols@.len() == 16,
    {
        mat4_srt(&self.scale, &self.rot, &self.shift)
    }
}

impl Default for Mesh {
    /// An empty mesh with the identity transform.
    fn default() -> (r: Self)
        ensures
            r.xs@ == Seq::<VertexCore>::empty(),
            r.colors@ == Seq::<VertexAux>::empty(),
            r.inds@ == Seq::<u32>::empty(),
            r.transform_is_default(),
            r.well_formed(),
    {
        Mesh {
            xs: Vec::new(),
            colors: Vec::new(),
            inds: Vec::new(),
            shift: Vec3Bits::zero(),
            rot: QuatBits::identity(),
            scale: Vec3Bits::one(),
        }
    }
}

} // verus!
