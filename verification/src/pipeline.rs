//! The fixed render pipeline description and the per-draw payload.
//!
//! The pipeline's configuration is static: two per-vertex attribute
//! streams at fixed slots, one vertex-stage constant-push range sized
//! exactly to the per-draw payload, and fixed rasterizer and blend
//! state.  It is described here as plain values with exact contracts;
//! translating the description into the graphics API's descriptor types
//! is left to the unverified shell around the library.
use crate::mat::Mat4Bits;
use vstd::prelude::*;

verus! {

/// Bytes per vertex in each attribute stream: three 32-bit components.
pub const VERTEX_STRIDE_BYTES: u32 = 12;
/// The vertex-buffer slot of the position stream.
pub const POSITION_SLOT: u32 = 0;
/// The vertex-buffer slot of the color stream.
pub const COLOR_SLOT: u32 = 1;
/// Words in the per-draw payload: three 4x4 matrices.
pub const PAYLOAD_WORDS: usize = 48;
/// Bytes in the per-draw payload.
pub const PAYLOAD_BYTES: u32 = 192;
/// The constant-push byte budget requested from the device.
pub const PUSH_CONSTANT_BUDGET: u32 = 256;

/// One per-vertex attribute stream layout.
#[derive(Clone, Copy, Debug, PartialEq, Eq, Structural)]
pub struct VertexLayout {
    /// The fixed vertex-buffer slot the stream is bound at.
    pub slot: u32,
    /// Bytes between consecutive vertices.
    pub stride: u32,
    /// 32-bit components per vertex.
    pub components: u32,
    /// Whether the stream advances per instance rather than per vertex.
    pub step_per_instance: bool,
}

/// The fixed-function state of the single render pipeline.
#[derive(Clone, Copy, Debug, PartialEq, Eq, Structural)]
pub struct PipelineConfig {
    pub position_layout: VertexLayout,
    pub color_layout: VertexLayout,
    /// Offset of the vertex-stage constant-push range.
    pub push_constant_offset: u32,
    /// Size of the vertex-stage constant-push range.
    pub push_constant_bytes: u32,
    /// Triangle-list topology.
    pub triangle_list: bool,
    /// Counter-clockwise front faces.
    pub front_face_ccw: bool,
    /// Back-face culling.
    pub cull_back: bool,
    /// Filled (not wireframe) polygons.
    pub fill_polygons: bool,
    /// Whether a depth/stencil attachment exists.
    pub depth_stencil: bool,
    /// Samples per pixel.
    pub sample_count: u32,
    /// Alpha-replace blending on the single color target.
    pub blend_replace: bool,
}

impl PipelineConfig {
    /// The one configuration this pipeline is ever built with.
    pub fn fixed() -> (c: PipelineConfig)
        ensures
            c.position_layout == (VertexLayout {
                slot: POSITION_SLOT,
                stride: VERTEX_STRIDE_BYTES,
                components: 3u32,
                step_per_instance: false,
            }),
            c.color_layout == (VertexLayout {
                slot: COLOR_SLOT,
                stride: VERTEX_STRIDE_BYTES,
                components: 3u32,
                step_per_instance: false,
            }),
            c.push_constant_offset == 0,
            c.push_constant_bytes == PAYLOAD_BYTES,
            c.push_constant_bytes <= PUSH_CONSTANT_BUDGET,
            c.triangle_list,
            c.front_face_ccw,
            c.cull_back,
            c.fill_polygons,
            !c.depth_stencil,
            c.sample_count == 1,
            c.blend_replace,
    {
        PipelineConfig {
            position_layout: VertexLayout {
                slot: POSITION_SLOT,
                stride: VERTEX_STRIDE_BYTES,
                components: 3,
                step_per_instance: false,
            },
            color_layout: VertexLayout {
                slot: COLOR_SLOT,
                stride: VERTEX_STRIDE_BYTES,
                components: 3,
                step_per_instance: false,
            },
            push_constant_offset: 0,
            push_constant_bytes: PAYLOAD_BYTES,
            triangle_list: true,
            front_face_ccw: true,
            cull_back: true,
            fill_polygons: true,
            depth_stencil: false,
            sample_count: 1,
            blend_replace: true,
        }
    }
}

/// The per-draw payload delivered to the vertex stage: the mesh's model
/// matrix and the camera's shared view and projection matrices.
#[derive(Clone, Copy, Debug)]
pub struct PushPayload {
    pub model: Mat4Bits,
    pub view: Mat4Bits,
    pub proj: Mat4Bits,
}

impl PushPayload {
    /// The payload flattened into the 48 words the vertex stage reads:
    /// the model, view and projection columns in that order.
    pub fn to_words(&self) -> (r: Vec<u32>)
        ensures
            r@ == self.model.cols@ + self.view.cols@ + self.proj.cols@,
            r@.len() == PAYLOAD_WORDS,
    {
        let mut r: Vec<u32> = Vec::new();
        let mut i: usize = 0;
        while i < 16
            invariant
                0 <= i <= 16,
                r@ == self.model.cols@.subrange(0, i as int),
            decreases 16 - i,
        {
            r.push(self.model.cols[i]);
            proof {
                assert(r@ =~= self.model.cols@.subrange(0, i + 1));
            }
            i = i + 1;
        }
        proof {
            assert(r@ =~= self.model.cols@);
        }
        let mut i: usize = 0;
        while i < 16
            invariant
                0 <= i <= 16,
                r@ == self.model.cols@ + self.view.cols@.subrange(0, i as int),
            decreases 16 - i,
        {
            r.push(self.view.cols[i]);
            proof {
                assert(r@ =~= self.model.cols@ + self.view.cols@.subrange(0, i + 1));
            }
            i = i + 1;
        }
        proof {
            assert(r@ =~= self.model.cols@ + self.view.cols@);
        }
        let mut i: usize = 0;
        while i < 16
            invariant
                0 <= i <= 16,
                r@ == self.model.cols@ + self.view.cols@ + self.proj.cols@.subrange(0, i as int),
            decreases 16 - i,
        {
            r.push(self.proj.cols[i]);
            proof {
                assert(r@ =~= self.model.cols@ + self.view.cols@ + self.proj.cols@.subrange(
                    0,
                    i + 1,
                ));
            }
            i = i + 1;
        }
        proof {
            assert(r@ =~= self.model.cols@ + self.view.cols@ + self.proj.cols@);
        }
        r
    }
}

} // verus!
