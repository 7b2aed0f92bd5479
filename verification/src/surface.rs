//! Surface configuration: capability selection and the resize policy.
//!
//! The platform's capability lists are handed in as plain values: for
//! the formats, whether each is sRGB-encoded; for the alpha modes,
//! whether each is the opaque one.  The chosen entries are returned as
//! indices into those lists.
use vstd::prelude::*;

verus! {

/// The number of frames the presentation engine may buffer.
pub const FRAME_LATENCY: u32 = 2;

/// An unrecoverable startup failure.
#[derive(Clone, Copy, Debug, PartialEq, Eq, Structural)]
pub enum FatalError {
    /// No adapter both presents to the surface and offers the required
    /// constant-push capability.
    NoAdapter,
    /// Device and queue creation failed.
    DeviceCreation,
    /// No opaque alpha compositing mode is supported.
    NoOpaqueAlpha,
}

/// The stored presentation configuration.
///
/// `format_index` and `present_mode_index` point into the capability
/// lists the configuration was created from.  The alpha compositing mode
/// is fixed to opaque.  Invariant: `width > 0 && height > 0`.
#[derive(Clone, Copy, Debug, PartialEq, Eq, Structural)]
pub struct SurfaceConfig {
    pub width: u32,
    pub height: u32,
    pub format_index: usize,
    pub format_srgb: bool,
    pub present_mode_index: usize,
    pub frame_latency: u32,
}

/// Whether `r` is the index the format policy picks from `srgb`, where
/// `srgb[i]` says whether format `i` is sRGB-encoded: the first sRGB
/// format if one exists, else the first format.
pub open spec fn format_choice_ok(srgb: Seq<bool>, r: int) -> bool {
    &&& 0 <= r < srgb.len()
    &&& (exists|i: int| 0 <= i < srgb.len() && srgb[i]) ==> (srgb[r] && forall|j: int|
        0 <= j < r ==> !srgb[j])
    &&& !(exists|i: int| 0 <= i < srgb.len() && srgb[i]) ==> r == 0
}

/// Picks the first sRGB-encoded format if one exists, else the first
/// listed format.
pub fn select_format(srgb: &Vec<bool>) -> (r: usize)
    requires
        srgb@.len() > 0,
    ensures
        format_choice_ok(srgb@, r as int),
{
    let mut i: usize = 0;
    while i < srgb.len()
        invariant
            0 <= i <= srgb@.len(),
            forall|j: int| 0 <= j < i ==> !srgb@[j],
        decreases srgb@.len() - i,
    {
        if srgb[i] {
            return i;
        }
        i = i + 1;
    }
    0
}

/// What the startup logic reads of one enumerated adapter: whether it
/// can present to the surface, and whether it offers the constant-push
/// capability with the required byte budget.
#[derive(Clone, Copy, Debug, PartialEq, Eq, Structural)]
pub struct AdapterCaps {
    pub surface_ok: bool,
    pub push_constants: bool,
}

impl AdapterCaps {
    /// Whether this adapter qualifies: it presents to the surface and
    /// offers the constant-push capability.
    pub open spec fn qualifies(self) -> bool {
        self.surface_ok && self.push_constants
    }
}

/// Selects the first enumerated adapter that both presents to the
/// surface and offers the constant-push capability.  With no qualifying
/// adapter, startup is unrecoverable.
pub fn select_adapter(caps: &Vec<AdapterCaps>) -> (r: Result<usize, FatalError>)
    ensures
        r is Ok <==> exists|i: int| 0 <= i < caps@.len() && caps@[i].qualifies(),
        r matches Ok(idx) ==> {
            &&& 0 <= idx < caps@.len()
            &&& caps@[idx as int].qualifies()
            &&& forall|j: int| 0 <= j < idx ==> !caps@[j].qualifies()
        },
        r matches Err(e) ==> e == FatalError::NoAdapter,
{
    let mut i: usize = 0;
    while i < caps.len()
        invariant
            0 <= i <= caps@.len(),
            forall|j: int| 0 <= j < i ==> !caps@[j].qualifies(),
        decreases caps@.len() - i,
    {
        if caps[i].surface_ok && caps[i].push_constants {
            proof {
                assert(0 <= i < caps@.len() && caps@[i as int].qualifies());
            }
            return Ok(i);
        }
        i = i + 1;
    }
    Err(FatalError::NoAdapter)
}

/// Whether any listed alpha compositing mode is the opaque one.
pub fn opaque_alpha_supported(opaque: &Vec<bool>) -> (r: bool)
    ensures
        r == exists|i: int| 0 <= i < opaque@.len() && opaque@[i],
{
    let mut i: usize = 0;
    while i < opaque.len()
        invariant
            0 <= i <= opaque@.len(),
            forall|j: int| 0 <= j < i ==> !opaque@[j],
        decreases opaque@.len() - i,
    {
        if opaque[i] {
            proof {
                assert(0 <= i < opaque@.len() && opaque@[i as int]);
            }
            return true;
        }
        i = i + 1;
    }
    false
}

impl SurfaceConfig {
    /// Builds the initial configuration from the surface capabilities:
    /// the format policy above, the first reported present mode, the
    /// opaque alpha mode, and a frame-latency hint of two.
    ///
    /// Fails with `NoOpaqueAlpha` exactly when no opaque alpha
    /// compositing mode is listed.
    pub fn create(
        width: u32,
        height: u32,
        srgb: &Vec<bool>,
        opaque: &Vec<bool>,
        present_mode_count: usize,
    ) -> (r: Result<SurfaceConfig, FatalError>)
        requires
            width > 0,
            height > 0,
            srgb@.len() > 0,
            present_mode_count > 0,
        ensures
            r is Ok <==> exists|i: int| 0 <= i < opaque@.len() && opaque@[i],
            r matches Err(e) ==> e == FatalError::NoOpaqueAlpha,
            r matches Ok(c) ==> {
                &&& c.width == width
                &&& c.height == height
                &&& format_choice_ok(srgb@, c.format_index as int)
                &&& c.format_srgb == srgb@[c.format_index as int]
                &&& c.present_mode_index == 0
                &&& c.frame_latency == FRAME_LATENCY
            },
    {
        if !opaque_alpha_supported(opaque) {
            return Err(FatalError::NoOpaqueAlpha);
        }
        let format_index = select_format(srgb);
        Ok(SurfaceConfig {
            width,
            height,
            format_index,
            format_srgb: srgb[format_index],
            present_mode_index: 0,
            frame_latency: FRAME_LATENCY,
        })
    }

    /// The resize policy: a request with a zero dimension is ignored,
    /// preserving the last valid configuration; a valid request updates
    /// the stored size exactly and leaves every other choice unchanged.
    /// Returns whether the live surface must be reconfigured.
    pub fn resize(&mut self, width: u32, height: u32) -> (changed: bool)
        ensures
            (width == 0 || height == 0) ==> (*final(self) == *old(self) && !changed),
            (width > 0 && height > 0) ==> (*final(self) == (SurfaceConfig {
                width,
                height,
                ..*old(self)
            }) && changed),
    {
        if width == 0 || height == 0 {
            return false;
        }
        self.width = width;
        self.height = height;
        true
    }
}

} // verus!
