//! Per-vertex attribute records.
//!
//! A vertex carries one 3-component position and one 3-component color,
//! each component the bit pattern of an `f32`.  The two attributes are
//! kept in separate index-aligned streams, bound at fixed vertex-buffer
//! slots.
use vstd::prelude::*;

verus! {

/// The position attribute of one vertex, as `f32` bit patterns.
#[derive(Clone, Copy, Debug)]
pub struct VertexCore {
    pub pos: [u32; 3],
}

impl VertexCore {
    pub fn new(pos: [u32; 3]) -> (r: Self)
        ensures
            r.pos@ == pos@,
    {
        Self { pos }
    }
}

impl From<[u32; 3]> for VertexCore {
    fn from(pos: [u32; 3]) -> (r: Self) {
        Self { pos }
    }
}

impl vstd::std_specs::convert::FromSpecImpl<[u32; 3]> for VertexCore {
    open spec fn obeys_from_spec() -> bool {
        true
    }

    open spec fn from_spec(pos: [u32; 3]) -> Self {
        Self { pos }
    }
}

/// The color attribute of one vertex, as `f32` bit patterns.
#[derive(Clone, Copy, Debug)]
pub struct VertexAux {
    pub color: [u32; 3],
}

impl VertexAux {
    pub fn new(color: [u32; 3]) -> (r: Self)
        ensures
            r.color@ == color@,
    {
        Self { color }
    }
}

} // verus!
