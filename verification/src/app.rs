//! The application driver and the per-frame render state machine.
//!
//! The driver owns the stored surface configuration, the camera and the
//! meshes, and decides, from each windowing notification or frame
//! acquisition outcome, what the unverified shell must do next: draw a
//! planned frame, reconfigure the surface, skip the frame, or exit.
//! The shell performs the GPU and windowing calls and reports their
//! outcomes back as plain values.
use crate::camera::Camera;
use crate::mat::{
    depth_correction_bits, look_at_bits, mat_mul_bits, perspective_bits, quat_rot_z, rot_z_bits,
    srt_bits,
};
use crate::mesh::Mesh;
use crate::pipeline::{PushPayload, COLOR_SLOT, POSITION_SLOT};
use crate::surface::SurfaceConfig;
use vstd::prelude::*;

verus! {

/// Bit pattern of the `f64` value `0.1`: the red, green and blue of the
/// fixed clear color.
pub const CLEAR_GRAY_BITS: u64 = 0x3FB9_9999_9999_999A;
/// Bit pattern of the `f64` value `1.0`: the alpha of the fixed clear
/// color.
pub const CLEAR_ALPHA_BITS: u64 = 0x3FF0_0000_0000_0000;

/// The driver's lifecycle.  The GPU context is created once, on the
/// first activation, and an out-of-memory report ends the run for good.
#[derive(Clone, Copy, Debug, PartialEq, Eq, Structural)]
pub enum Phase {
    Uninitialized,
    Running,
    Terminated,
}

/// The outcome of acquiring the next presentable image, as the shell
/// classified it.
#[derive(Clone, Copy, Debug, PartialEq, Eq, Structural)]
pub enum AcquireOutcome {
    /// An image was acquired; the frame can be drawn.
    Ready,
    /// The surface was lost.
    Lost,
    /// The surface is outdated.
    Outdated,
    /// The GPU is out of memory.
    OutOfMemory,
    /// Any other, transient, acquisition error.
    Other,
}

/// What the shell must do after a render decision.
pub enum FrameAction {
    /// Execute the planned frame: one pass, all draws, submit, present.
    Draw(FramePlan),
    /// Drop the frame and reconfigure the surface at the given size.
    Reconfigure { width: u32, height: u32 },
    /// Stop the event loop; the failure is unrecoverable.
    Exit,
    /// Drop the frame and carry on.
    Skip,
}

/// The fixed clear color of the single render pass, as `f64` bit
/// patterns.
#[derive(Clone, Copy, Debug, PartialEq, Eq, Structural)]
pub struct ClearColor {
    pub r: u64,
    pub g: u64,
    pub b: u64,
    pub a: u64,
}

/// The opaque dark gray every frame is cleared to.
pub open spec fn clear_color_default() -> ClearColor {
    ClearColor { r: CLEAR_GRAY_BITS, g: CLEAR_GRAY_BITS, b: CLEAR_GRAY_BITS, a: CLEAR_ALPHA_BITS }
}

/// One indexed draw: which mesh, the fixed buffer slots, and the
/// payload pushed to the vertex stage.
pub struct DrawCmd {
    pub mesh_index: usize,
    pub position_slot: u32,
    pub color_slot: u32,
    pub index_count: usize,
    pub base_vertex: u32,
    pub instance_count: u32,
    pub payload: PushPayload,
}

/// Everything one frame draws: the clear color and one command per
/// mesh, in insertion order.
pub struct FramePlan {
    pub clear: ClearColor,
    pub draws: Vec<DrawCmd>,
}

/// Whether `d` is the correct draw command for mesh `m` at position `i`
/// under camera `cam`: fixed slots 0 and 1, one instance covering all
/// of the mesh's indices, and a payload of the mesh's model matrix and
/// the camera's view and projection matrices.
pub open spec fn draw_cmd_ok(m: Mesh, cam: Camera, i: int, d: DrawCmd) -> bool {
    &&& d.mesh_index == i
    &&& d.position_slot == POSITION_SLOT
    &&& d.color_slot == COLOR_SLOT
    &&& d.index_count == m.inds@.len()
    &&& d.base_vertex == 0
    &&& d.instance_count == 1
    &&& d.payload.model.cols@ == srt_bits(m.scale.bits(), m.rot.bits(), m.shift.bits())
    &&& d.payload.view.cols@ == look_at_bits(cam.eye.bits(), cam.target.bits(), cam.up.bits())
    &&& d.payload.proj.cols@ == mat_mul_bits(
        depth_correction_bits(),
        perspective_bits(cam.fovy, cam.aspect, cam.znear, cam.zfar),
    )
}

/// Whether `plan` is the correct frame for the given meshes and camera:
/// the fixed clear color and exactly one correct draw per mesh, in
/// insertion order.
pub open spec fn frame_plan_ok(meshes: Seq<Mesh>, cam: Camera, plan: FramePlan) -> bool {
    &&& plan.clear == clear_color_default()
    &&& plan.draws@.len() == meshes.len()
    &&& forall|i: int| 0 <= i < meshes.len() ==> draw_cmd_ok(meshes[i], cam, i, #[trigger] plan.draws@[i])
}

/// A windowing-toolkit notification, reduced to what the driver reads.
#[derive(Clone, Copy, Debug, PartialEq, Eq, Structural)]
pub enum EventKind {
    CloseRequested,
    RedrawRequested,
    Resized { width: u32, height: u32 },
    Other,
}

/// How the shell must react to a notification.
#[derive(Clone, Copy, Debug, PartialEq, Eq, Structural)]
pub enum EventDirective {
    /// Signal event-loop termination.
    ExitLoop,
    /// Request the next redraw, render, and run the animation step.
    RedrawAndUpdate,
    /// Forward the new size to `App::resize`.
    Resize { width: u32, height: u32 },
    /// Nothing to do.
    Ignore,
}

/// Routes one windowing notification to the operation it triggers.
pub fn route_event(event: EventKind) -> (r: EventDirective)
    ensures
        event is CloseRequested ==> r is ExitLoop,
        event is RedrawRequested ==> r is RedrawAndUpdate,
        event matches EventKind::Resized { width, height } ==> r == (EventDirective::Resize {
            width,
            height,
        }),
        event is Other ==> r is Ignore,
{
    match event {
        EventKind::CloseRequested => EventDirective::ExitLoop,
        EventKind::RedrawRequested => EventDirective::RedrawAndUpdate,
        EventKind::Resized { width, height } => EventDirective::Resize { width, height },
        EventKind::Other => EventDirective::Ignore,
    }
}

/// The application driver's verified state: lifecycle phase, stored
/// surface configuration, camera, and meshes in insertion order.
pub struct App {
    pub phase: Phase,
    pub config: Option<SurfaceConfig>,
    pub camera: Camera,
    pub meshes: Vec<Mesh>,
    pub started: bool,
}

impl App {
    /// A configuration is stored from activation on.
    pub open spec fn wf(self) -> bool {
        self.phase is Running ==> self.config is Some
    }

    /// A driver that has not been activated yet: no configuration, the
    /// default camera, no meshes.
    pub fn new() -> (r: App)
        ensures
            r.phase is Uninitialized,
            r.config is None,
            r.camera == Camera::default_spec(),
            r.meshes@.len() == 0,
            !r.started,
            r.wf(),
    {
        App {
            phase: Phase::Uninitialized,
            config: None,
            camera: Camera::default(),
            meshes: Vec::new(),
            started: false,
        }
    }

    /// Marks the animation clock as started; the shell keeps the actual
    /// instant.
    pub fn start(&mut self)
        ensures
            *final(self) == (App { started: true, ..*old(self) }),
    {
        self.started = true;
    }

    /// First activation: stores the configuration built during GPU
    /// bootstrap and adapts the camera to the surface's aspect ratio.
    /// The context is created once; a second activation is excluded.
    pub fn activate(&mut self, config: SurfaceConfig, aspect: u32)
        requires
            old(self).phase is Uninitialized,
        ensures
            *final(self) == (App {
                phase: Phase::Running,
                config: Some(config),
                camera: Camera { aspect, ..old(self).camera },
                ..*old(self)
            }),
            final(self).wf(),
    {
        self.phase = Phase::Running;
        self.config = Some(config);
        self.camera.set_aspect(aspect);
    }

    /// The resize policy.  A request with a zero dimension is ignored,
    /// as is one arriving while no context exists; a valid request
    /// updates the stored size exactly and the camera aspect to the
    /// given ratio (`width / height`, computed by the caller).  Returns
    /// whether the shell must reconfigure the live surface.
    pub fn resize(&mut self, width: u32, height: u32, aspect: u32) -> (reconfigure: bool)
        requires
            old(self).wf(),
        ensures
            final(self).wf(),
            (width == 0 || height == 0) ==> (*final(self) == *old(self) && !reconfigure),
            (width > 0 && height > 0 && !(old(self).phase is Running))
                ==> (*final(self) == *old(self) && !reconfigure),
            (width > 0 && height > 0 && old(self).phase is Running) ==> (*final(self) == (App {
                config: Some(SurfaceConfig { width, height, ..old(self).config.unwrap() }),
                camera: Camera { aspect, ..old(self).camera },
                ..*old(self)
            }) && reconfigure),
    {
        if width == 0 || height == 0 {
            return false;
        }
        match self.phase {
            Phase::Running => {},
            _ => {
                return false;
            },
        }
        let mut reconfigured = false;
        match &mut self.config {
            Some(c) => {
                let changed = c.resize(width, height);
                reconfigured = changed;
            },
            None => {},
        }
        self.camera.set_aspect(aspect);
        reconfigured
    }

    /// How one render decision relates the state before (`pre`) and
    /// after (`post`) and the action returned:
    ///
    /// - before activation or after termination nothing happens;
    /// - on success, the frame is planned: the fixed clear color and,
    ///   per mesh in insertion order, one indexed draw with the mesh's
    ///   buffers at slots 0 and 1 and a fresh payload;
    /// - on a lost or outdated surface the frame is dropped and the
    ///   surface reconfigured at the stored size;
    /// - on out-of-memory the run terminates for good;
    /// - any other error skips just this frame.
    pub open spec fn render_rel(
        pre: App,
        outcome: AcquireOutcome,
        post: App,
        action: FrameAction,
    ) -> bool {
        &&& !(pre.phase is Running) ==> (post == pre && action is Skip)
        &&& (pre.phase is Running && outcome is Ready) ==> (post == pre && (
        action matches FrameAction::Draw(plan) && frame_plan_ok(pre.meshes@, pre.camera, plan)))
        &&& (pre.phase is Running && (outcome is Lost || outcome is Outdated)) ==> (post == pre
            && action == (FrameAction::Reconfigure {
            width: pre.config.unwrap().width,
            height: pre.config.unwrap().height,
        }))
        &&& (pre.phase is Running && outcome is OutOfMemory) ==> (post == (App {
            phase: Phase::Terminated,
            ..pre
        }) && action is Exit)
        &&& (pre.phase is Running && outcome is Other) ==> (post == pre && action is Skip)
    }

    /// One render decision, from the outcome of acquiring the next
    /// presentable image; `render_rel` says exactly what is decided.
    pub fn render(&mut self, outcome: AcquireOutcome) -> (action: FrameAction)
        requires
            old(self).wf(),
        ensures
            final(self).wf(),
            App::render_rel(*old(self), outcome, *final(self), action),
    {
        match self.phase {
            Phase::Running => {},
            _ => {
                return FrameAction::Skip;
            },
        }
        match outcome {
            AcquireOutcome::Ready => {
                let view = self.camera.get_view();
                let proj = self.camera.get_proj();
                let mut draws: Vec<DrawCmd> = Vec::new();
                let mut i: usize = 0;
                while i < self.meshes.len()
                    invariant
                        *self == *old(self),
                        self.phase is Running,
                        0 <= i <= self.meshes@.len(),
                        draws@.len() == i,
                        view.cols@ == look_at_bits(
                            self.camera.eye.bits(),
                            self.camera.target.bits(),
                            self.camera.up.bits(),
                        ),
                        proj.cols@ == mat_mul_bits(
                            depth_correction_bits(),
                            perspective_bits(
                                self.camera.fovy,
                                self.camera.aspect,
                                self.camera.znear,
                                self.camera.zfar,
                            ),
                        ),
                        forall|j: int|
                            0 <= j < i ==> draw_cmd_ok(
                                self.meshes@[j],
                                self.camera,
                                j,
                                #[trigger] draws@[j],
                            ),
                    decreases self.meshes@.len() - i,
                {
                    let model = self.meshes[i].get_transform();
                    let index_count = self.meshes[i].inds.len();
                    draws.push(DrawCmd {
                        mesh_index: i,
                        position_slot: POSITION_SLOT,
                        color_slot: COLOR_SLOT,
                        index_count,
                        base_vertex: 0,
                        instance_count: 1,
                        payload: PushPayload { model, view, proj },
                    });
                    i = i + 1;
                }
                FrameAction::Draw(
                    FramePlan {
                        clear: ClearColor {
                            r: CLEAR_GRAY_BITS,
                            g: CLEAR_GRAY_BITS,
                            b: CLEAR_GRAY_BITS,
                            a: CLEAR_ALPHA_BITS,
                        },
                        draws,
                    },
                )
            },
            AcquireOutcome::Lost | AcquireOutcome::Outdated => {
                let (width, height) = match &self.config {
                    Some(c) => (c.width, c.height),
                    None => (0u32, 0u32),
                };
                FrameAction::Reconfigure { width, height }
            },
            AcquireOutcome::OutOfMemory => {
                self.phase = Phase::Terminated;
                FrameAction::Exit
            },
            AcquireOutcome::Other => FrameAction::Skip,
        }
    }

    /// The example animation step: every mesh's rotation becomes the
    /// fixed-axis Z rotation by `angle` radians (the caller computes the
    /// angle as elapsed seconds times 90 degrees per second).  Geometry,
    /// translation and scale are untouched.
    pub fn update(&mut self, angle: u32)
        requires
            old(self).started,
        ensures
            final(self).phase == old(self).phase,
            final(self).config == old(self).config,
            final(self).camera == old(self).camera,
            final(self).started == old(self).started,
            final(self).wf() == old(self).wf(),
            final(self).meshes@.len() == old(self).meshes@.len(),
            forall|i: int|
                0 <= i < old(self).meshes@.len() ==> #[trigger] final(self).meshes@[i] == (Mesh {
                    rot: final(self).meshes@[i].rot,
                    ..old(self).meshes@[i]
                }),
            forall|i: int|
                0 <= i < old(self).meshes@.len() ==> (#[trigger] final(self).meshes@[i].rot).bits()
                    == rot_z_bits(angle),
    {
        let q = quat_rot_z(angle);
        let mut i: usize = 0;
        while i < self.meshes.len()
            invariant
                self.phase == old(self).phase,
                self.config == old(self).config,
                self.camera == old(self).camera,
                self.started == old(self).started,
                0 <= i <= self.meshes@.len(),
                self.meshes@.len() == old(self).meshes@.len(),
                q.bits() == rot_z_bits(angle),
                forall|j: int|
                    i <= j < self.meshes@.len() ==> #[trigger] self.meshes@[j] == old(
                        self,
                    ).meshes@[j],
                forall|j: int|
                    0 <= j < i ==> #[trigger] self.meshes@[j] == (Mesh {
                        rot: q,
                        ..old(self).meshes@[j]
                    }),
            decreases self.meshes@.len() - i,
        {
            self.meshes[i].rot = q;
            i = i + 1;
        }
    }
}

/// Law: when acquiring the frame's target reports the surface lost or
/// outdated, the one action taken is a single reconfiguration at the
/// stored size; no draw commands are issued for that frame, and the
/// driver's state is untouched.
pub proof fn lemma_lost_surface_reconfigures_without_draws(
    pre: App,
    outcome: AcquireOutcome,
    post: App,
    action: FrameAction,
)
    requires
        pre.phase is Running,
        outcome is Lost || outcome is Outdated,
        App::render_rel(pre, outcome, post, action),
    ensures
        action == (FrameAction::Reconfigure {
            width: pre.config.unwrap().width,
            height: pre.config.unwrap().height,
        }),
        !(action is Draw),
        post == pre,
{
}

/// Law: when acquiring the frame's target reports out-of-memory, the
/// run terminates: the triggering decision exits the loop, and every
/// later render decision leaves the state untouched and draws nothing.
pub proof fn lemma_out_of_memory_terminates(
    pre: App,
    post: App,
    action: FrameAction,
    outcome2: AcquireOutcome,
    post2: App,
    action2: FrameAction,
)
    requires
        pre.phase is Running,
        App::render_rel(pre, AcquireOutcome::OutOfMemory, post, action),
        App::render_rel(post, outcome2, post2, action2),
    ensures
        action is Exit,
        post.phase is Terminated,
        action2 is Skip,
        !(action2 is Draw),
        post2 == post,
{
}

} // verus!
