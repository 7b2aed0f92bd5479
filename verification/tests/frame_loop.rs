use wgpu_triangle::app::{
    route_event, AcquireOutcome, App, EventDirective, EventKind, FrameAction, Phase,
    CLEAR_ALPHA_BITS, CLEAR_GRAY_BITS,
};
use wgpu_triangle::mesh::Mesh;
use wgpu_triangle::pipeline::{
    PipelineConfig, PushPayload, COLOR_SLOT, PAYLOAD_BYTES, PAYLOAD_WORDS, POSITION_SLOT,
    PUSH_CONSTANT_BUDGET, VERTEX_STRIDE_BYTES,
};
use wgpu_triangle::surface::SurfaceConfig;
use wgpu_triangle::vertex::{VertexAux, VertexCore};

fn bits3(v: [f32; 3]) -> [u32; 3] {
    [v[0].to_bits(), v[1].to_bits(), v[2].to_bits()]
}

fn mat_to_bits(m: glam::Mat4) -> [u32; 16] {
    let a = m.to_cols_array();
    let mut r = [0u32; 16];
    for i in 0..16 {
        r[i] = a[i].to_bits();
    }
    r
}

fn quad_mesh() -> Mesh {
    let xs: Vec<VertexCore> = [
        [0.5, -0.5, 0.0],
        [-0.5, 0.5, 0.0],
        [0.5, 0.5, 0.0],
        [-0.5, -0.5, 0.0],
    ]
    .into_iter()
    .map(|p| VertexCore::new(bits3(p)))
    .collect();
    let colors: Vec<VertexAux> = [
        [1.0, 1.0, 1.0],
        [0.0, 1.0, 0.0],
        [0.0, 0.0, 1.0],
        [1.0, 0.0, 0.0],
    ]
    .into_iter()
    .map(|c| VertexAux::new(bits3(c)))
    .collect();
    Mesh::new(xs, colors, vec![1, 0, 2, 0, 1, 3]).unwrap()
}

fn running_app() -> App {
    let config = SurfaceConfig::create(640, 480, &vec![true], &vec![true], 1).unwrap();
    let mut app = App::new();
    app.meshes.push(quad_mesh());
    app.start();
    app.activate(config, (640.0_f32 / 480.0_f32).to_bits());
    app
}

#[test]
fn new_app_is_uninitialized_until_started() {
    let mut app = App::new();
    assert_eq!(app.phase, Phase::Uninitialized);
    assert!(app.config.is_none());
    assert!(app.meshes.is_empty());
    assert!(!app.started);
    app.start();
    assert!(app.started);
    assert_eq!(app.phase, Phase::Uninitialized);
}

#[test]
fn activation_runs_once_and_sets_aspect() {
    let app = running_app();
    assert_eq!(app.phase, Phase::Running);
    assert!(app.started);
    assert_eq!(app.config.unwrap().width, 640);
    assert_eq!(app.camera.aspect, (640.0_f32 / 480.0_f32).to_bits());
}

#[test]
fn quad_frame_plan() {
    let mut app = running_app();
    let action = app.render(AcquireOutcome::Ready);
    let plan = match action {
        FrameAction::Draw(plan) => plan,
        _ => panic!("a ready acquire must draw"),
    };
    assert_eq!(plan.clear.r, 0.1_f64.to_bits());
    assert_eq!(plan.clear.g, CLEAR_GRAY_BITS);
    assert_eq!(plan.clear.b, CLEAR_GRAY_BITS);
    assert_eq!(plan.clear.a, 1.0_f64.to_bits());
    assert_eq!(plan.clear.a, CLEAR_ALPHA_BITS);
    // exactly one draw call covering the quad's six indices
    assert_eq!(plan.draws.len(), 1);
    let d = &plan.draws[0];
    assert_eq!(d.mesh_index, 0);
    assert_eq!(d.position_slot, 0);
    assert_eq!(d.color_slot, 1);
    assert_eq!(d.index_count, 6);
    assert_eq!(d.base_vertex, 0);
    assert_eq!(d.instance_count, 1);
    // at the default transform the pushed model sub-matrix is the identity
    assert_eq!(d.payload.model.cols, mat_to_bits(glam::Mat4::IDENTITY));
    // view and projection come from the camera, not from the mesh
    assert_ne!(d.payload.view.cols, mat_to_bits(glam::Mat4::IDENTITY));
    assert_eq!(d.payload.view.cols, app.camera.get_view().cols);
    assert_eq!(d.payload.proj.cols, app.camera.get_proj().cols);
}

#[test]
fn lost_surface_reconfigures_without_drawing() {
    let mut app = running_app();
    for outcome in [AcquireOutcome::Lost, AcquireOutcome::Outdated] {
        let action = app.render(outcome);
        match action {
            FrameAction::Reconfigure { width, height } => {
                assert_eq!((width, height), (640, 480));
            },
            _ => panic!("a lost surface must reconfigure"),
        }
        assert_eq!(app.phase, Phase::Running);
    }
}

#[test]
fn out_of_memory_exits_and_stops_rendering() {
    let mut app = running_app();
    let action = app.render(AcquireOutcome::OutOfMemory);
    assert!(matches!(action, FrameAction::Exit));
    assert_eq!(app.phase, Phase::Terminated);
    // every later render decision is a no-op
    let after = app.render(AcquireOutcome::Ready);
    assert!(matches!(after, FrameAction::Skip));
    assert_eq!(app.phase, Phase::Terminated);
}

#[test]
fn transient_error_skips_single_frame() {
    let mut app = running_app();
    let action = app.render(AcquireOutcome::Other);
    assert!(matches!(action, FrameAction::Skip));
    assert_eq!(app.phase, Phase::Running);
    // the next frame draws again
    let next = app.render(AcquireOutcome::Ready);
    assert!(matches!(next, FrameAction::Draw(_)));
}

#[test]
fn render_before_activation_skips() {
    let mut app = App::new();
    let action = app.render(AcquireOutcome::Ready);
    assert!(matches!(action, FrameAction::Skip));
    assert_eq!(app.phase, Phase::Uninitialized);
}

#[test]
fn app_resize_zero_is_noop() {
    let mut app = running_app();
    let before_config = app.config.unwrap();
    let before_aspect = app.camera.aspect;
    assert!(!app.resize(0, 600, 123));
    assert!(!app.resize(800, 0, 123));
    assert_eq!(app.config.unwrap(), before_config);
    assert_eq!(app.camera.aspect, before_aspect);
}

#[test]
fn app_resize_valid_updates_config_and_aspect() {
    let mut app = running_app();
    let aspect = (800.0_f32 / 600.0_f32).to_bits();
    assert!(app.resize(800, 600, aspect));
    let c = app.config.unwrap();
    assert_eq!((c.width, c.height), (800, 600));
    assert_eq!(c.frame_latency, 2);
    assert_eq!(app.camera.aspect, aspect);
}

#[test]
fn update_rotates_every_mesh_about_z() {
    let mut app = running_app();
    app.meshes.push(quad_mesh());
    let angle = 0.5_f32;
    app.update(angle.to_bits());
    let expected = glam::Quat::from_axis_angle(glam::Vec3::Z, angle);
    for mesh in &app.meshes {
        assert_eq!(mesh.rot.x, expected.x.to_bits());
        assert_eq!(mesh.rot.y, expected.y.to_bits());
        assert_eq!(mesh.rot.z, expected.z.to_bits());
        assert_eq!(mesh.rot.w, expected.w.to_bits());
    }
    // the rotation is no longer the identity quaternion
    assert_ne!(app.meshes[0].rot.w, 1.0_f32.to_bits());
}

#[test]
fn route_event_maps_notifications() {
    assert_eq!(route_event(EventKind::CloseRequested), EventDirective::ExitLoop);
    assert_eq!(route_event(EventKind::RedrawRequested), EventDirective::RedrawAndUpdate);
    assert_eq!(
        route_event(EventKind::Resized { width: 31, height: 17 }),
        EventDirective::Resize { width: 31, height: 17 }
    );
    assert_eq!(route_event(EventKind::Other), EventDirective::Ignore);
}

#[test]
fn payload_flattens_model_view_proj_in_order() {
    let app = running_app();
    let model = app.meshes[0].get_transform();
    let view = app.camera.get_view();
    let proj = app.camera.get_proj();
    let payload = PushPayload { model, view, proj };
    let words = payload.to_words();
    assert_eq!(words.len(), PAYLOAD_WORDS);
    assert_eq!(words.len() * 4, PAYLOAD_BYTES as usize);
    assert_eq!(&words[0..16], &model.cols);
    assert_eq!(&words[16..32], &view.cols);
    assert_eq!(&words[32..48], &proj.cols);
}

#[test]
fn pipeline_fixed_configuration() {
    let c = PipelineConfig::fixed();
    assert_eq!(c.position_layout.slot, POSITION_SLOT);
    assert_eq!(c.position_layout.slot, 0);
    assert_eq!(c.color_layout.slot, COLOR_SLOT);
    assert_eq!(c.color_layout.slot, 1);
    assert_eq!(c.position_layout.stride, VERTEX_STRIDE_BYTES);
    assert_eq!(c.position_layout.stride, 12);
    assert_eq!(c.position_layout.components, 3);
    assert!(!c.position_layout.step_per_instance);
    assert!(!c.color_layout.step_per_instance);
    assert_eq!(c.push_constant_offset, 0);
    assert_eq!(c.push_constant_bytes, PAYLOAD_BYTES);
    assert_eq!(c.push_constant_bytes, 192);
    assert!(c.push_constant_bytes <= PUSH_CONSTANT_BUDGET);
    assert!(c.triangle_list);
    assert!(c.front_face_ccw);
    assert!(c.cull_back);
    assert!(c.fill_polygons);
    assert!(!c.depth_stencil);
    assert_eq!(c.sample_count, 1);
    assert!(c.blend_replace);
}
