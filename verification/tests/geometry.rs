use wgpu_triangle::mat::{Mat4Bits, ONE_BITS};
use wgpu_triangle::mesh::{Mesh, MeshError};
use wgpu_triangle::vertex::{VertexAux, VertexCore};

fn bits3(v: [f32; 3]) -> [u32; 3] {
    [v[0].to_bits(), v[1].to_bits(), v[2].to_bits()]
}

fn mat_to_bits(m: glam::Mat4) -> [u32; 16] {
    let a = m.to_cols_array();
    let mut r = [0u32; 16];
    for i in 0..16 {
        r[i] = a[i].to_bits();
    }
    r
}

fn quad_positions() -> Vec<VertexCore> {
    [
        [0.5, -0.5, 0.0],
        [-0.5, 0.5, 0.0],
        [0.5, 0.5, 0.0],
        [-0.5, -0.5, 0.0],
    ]
    .into_iter()
    .map(|p| VertexCore::new(bits3(p)))
    .collect()
}

fn quad_colors() -> Vec<VertexAux> {
    [
        [1.0, 1.0, 1.0],
        [0.0, 1.0, 0.0],
        [0.0, 0.0, 1.0],
        [1.0, 0.0, 0.0],
    ]
    .into_iter()
    .map(|c| VertexAux::new(bits3(c)))
    .collect()
}

fn quad_indices() -> Vec<u32> {
    vec![1, 0, 2, 0, 1, 3]
}

#[test]
fn mesh_new_accepts_quad() {
    let mesh = Mesh::new(quad_positions(), quad_colors(), quad_indices()).unwrap();
    assert_eq!(mesh.xs.len(), 4);
    assert_eq!(mesh.colors.len(), 4);
    assert_eq!(mesh.inds, vec![1, 0, 2, 0, 1, 3]);
    assert!(mesh.is_well_formed());
    assert_eq!(mesh.xs[0].pos, bits3([0.5, -0.5, 0.0]));
    assert_eq!(mesh.colors[3].color, bits3([1.0, 0.0, 0.0]));
    // the default transform: zero shift, identity rotation, unit scale
    assert_eq!((mesh.shift.x, mesh.shift.y, mesh.shift.z), (0, 0, 0));
    assert_eq!((mesh.rot.x, mesh.rot.y, mesh.rot.z, mesh.rot.w), (0, 0, 0, ONE_BITS));
    assert_eq!((mesh.scale.x, mesh.scale.y, mesh.scale.z), (ONE_BITS, ONE_BITS, ONE_BITS));
}

#[test]
fn mesh_new_rejects_color_mismatch() {
    let mut colors = quad_colors();
    colors.pop();
    let r = Mesh::new(quad_positions(), colors, quad_indices());
    assert_eq!(r.err(), Some(MeshError::ColorCountMismatch));
}

#[test]
fn mesh_new_rejects_index_out_of_bounds() {
    let mut inds = quad_indices();
    inds.push(4);
    let r = Mesh::new(quad_positions(), quad_colors(), inds);
    assert_eq!(r.err(), Some(MeshError::IndexOutOfBounds));
}

#[test]
fn mesh_is_well_formed_detects_violations() {
    let mut mesh = Mesh::default();
    assert!(mesh.is_well_formed());
    mesh.inds.push(0);
    assert!(!mesh.is_well_formed());
}

#[test]
fn inds_format_is_32_bit() {
    assert_eq!(Mesh::inds_format(), 32);
}

#[test]
fn default_mesh_is_empty_with_identity_transform() {
    let mesh = Mesh::default();
    assert!(mesh.xs.is_empty());
    assert!(mesh.colors.is_empty());
    assert!(mesh.inds.is_empty());
    assert!(mesh.is_well_formed());
    assert_eq!(mesh.get_transform().cols, mat_to_bits(glam::Mat4::IDENTITY));
}

#[test]
fn model_matrix_identity_at_default() {
    let mesh = Mesh::new(quad_positions(), quad_colors(), quad_indices()).unwrap();
    let m = mesh.get_transform();
    assert_eq!(m.cols, mat_to_bits(glam::Mat4::IDENTITY));
    assert_eq!(m.cols, Mat4Bits::identity().cols);
}

#[test]
fn model_matrix_pure_translation() {
    // unit scale and identity rotation leave exactly a translation matrix
    let (tx, ty, tz) = (0.25_f32, -1.5_f32, 3.0_f32);
    let mut mesh = Mesh::new(quad_positions(), quad_colors(), quad_indices()).unwrap();
    mesh.shift.x = tx.to_bits();
    mesh.shift.y = ty.to_bits();
    mesh.shift.z = tz.to_bits();
    let m = mesh.get_transform();
    let expected = glam::Mat4::from_translation(glam::Vec3::new(tx, ty, tz));
    assert_eq!(m.cols, mat_to_bits(expected));
}

#[test]
fn model_matrix_composes_scale_rotate_translate() {
    let scale = glam::Vec3::new(0.5, 2.0, 1.25);
    let rot = glam::Quat::from_axis_angle(glam::Vec3::Z, 0.75);
    let shift = glam::Vec3::new(-1.0, 0.5, 4.0);
    let mut mesh = Mesh::default();
    mesh.scale.x = scale.x.to_bits();
    mesh.scale.y = scale.y.to_bits();
    mesh.scale.z = scale.z.to_bits();
    mesh.rot.x = rot.x.to_bits();
    mesh.rot.y = rot.y.to_bits();
    mesh.rot.z = rot.z.to_bits();
    mesh.rot.w = rot.w.to_bits();
    mesh.shift.x = shift.x.to_bits();
    mesh.shift.y = shift.y.to_bits();
    mesh.shift.z = shift.z.to_bits();
    let m = mesh.get_transform();
    let expected = glam::Mat4::from_scale_rotation_translation(scale, rot, shift);
    assert_eq!(m.cols, mat_to_bits(expected));
    // the transform is not the identity, so the wrapper really computed
    assert_ne!(m.cols, mat_to_bits(glam::Mat4::IDENTITY));
}
