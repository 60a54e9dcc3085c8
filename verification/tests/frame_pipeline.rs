use render_core::flatten::{flatten_models, DrawRange, RenderError};
use render_core::geometry::{Mesh, Model, Vertex};
use render_core::renderer::Instance;

fn vert(x: f32, y: f32, z: f32) -> Vertex {
    Vertex {
        position: [x.to_bits(), y.to_bits(), z.to_bits()],
        tex_coords: [0.0f32.to_bits(), 0.0f32.to_bits()],
        normal: [0.0f32.to_bits(), 1.0f32.to_bits(), 0.0f32.to_bits()],
    }
}

fn mesh_of(vertex_count: usize, indices: Vec<u32>) -> Mesh {
    let mut vertices = Vec::new();
    for i in 0..vertex_count {
        vertices.push(vert(i as f32, 0.0, 0.0));
    }
    Mesh { vertices, indices }
}

fn identity_bits() -> [u32; 16] {
    let mut m = [0u32; 16];
    for i in 0..4 {
        m[5 * i] = 1.0f32.to_bits();
    }
    m
}

#[test]
fn flatten_two_models_scenario() {
    let a = Model { meshes: vec![mesh_of(3, vec![0, 1, 2])] };
    let b = Model { meshes: vec![mesh_of(4, vec![0, 1, 2, 2, 3, 0])] };
    let frame = flatten_models(&[&a, &b]).unwrap();

    assert_eq!(frame.draws.len(), 2);
    assert_eq!(
        frame.draws[0],
        DrawRange { base_vertex: 0, first_index: 0, end_index: 3 }
    );
    assert_eq!(
        frame.draws[1],
        DrawRange { base_vertex: 3, first_index: 3, end_index: 9 }
    );
    assert_eq!(frame.vertices.len(), 7);
    // B's indices are appended unchanged: they stay relative to base_vertex 3.
    assert_eq!(frame.indices, vec![0, 1, 2, 0, 1, 2, 2, 3, 0]);
}

#[test]
fn flatten_empty_model_list() {
    let frame = flatten_models(&[]).unwrap();
    assert!(frame.vertices.is_empty());
    assert!(frame.indices.is_empty());
    assert!(frame.draws.is_empty());
}

#[test]
fn flatten_keeps_mesh_order_within_model() {
    let m = Model {
        meshes: vec![mesh_of(2, vec![0, 1, 0]), mesh_of(5, vec![4, 3, 2]), mesh_of(0, vec![])],
    };
    let frame = flatten_models(&[&m]).unwrap();
    assert_eq!(frame.draws.len(), 3);
    assert_eq!(
        frame.draws[0],
        DrawRange { base_vertex: 0, first_index: 0, end_index: 3 }
    );
    assert_eq!(
        frame.draws[1],
        DrawRange { base_vertex: 2, first_index: 3, end_index: 6 }
    );
    // An empty mesh still gets its (zero-length) draw range.
    assert_eq!(
        frame.draws[2],
        DrawRange { base_vertex: 7, first_index: 6, end_index: 6 }
    );
    assert_eq!(frame.vertices.len(), 7);
    assert_eq!(frame.indices, vec![0, 1, 0, 4, 3, 2]);
}

#[test]
fn render_empty_models_clears_and_draws_nothing() {
    let mut inst = Instance::new([1280, 720]);
    let plan = inst.render(&identity_bits(), &[]).unwrap();
    assert_eq!(plan.draws.len(), 0);
    assert_eq!(plan.vertex_byte_len, 0);
    assert_eq!(plan.index_byte_len, 0);
}

#[test]
fn render_plan_byte_lengths() {
    let mut inst = Instance::new([640, 480]);
    let a = Model { meshes: vec![mesh_of(3, vec![0, 1, 2])] };
    let b = Model { meshes: vec![mesh_of(4, vec![0, 1, 2, 2, 3, 0])] };
    let plan = inst.render(&identity_bits(), &[&a, &b]).unwrap();
    assert_eq!(plan.vertex_byte_len, 7 * 32);
    assert_eq!(plan.index_byte_len, 9 * 4);
    assert_eq!(plan.draws.len(), 2);
    assert_eq!(inst.vertex_buffer.data.len(), 7 * 32);
    assert_eq!(inst.index_buffer.data.len(), 9 * 4);
}

#[test]
fn resize_zero_dimension_is_ignored() {
    let mut inst = Instance::new([1280, 720]);
    inst.resize([0, 500]);
    let d = inst.depth_dimensions();
    assert_eq!((d.width, d.height), (1280, 720));
    inst.resize([800, 600]);
    let d = inst.depth_dimensions();
    assert_eq!((d.width, d.height), (800, 600));
    inst.resize([300, 0]);
    inst.resize([0, 0]);
    let d = inst.depth_dimensions();
    assert_eq!((d.width, d.height), (800, 600));
}

#[test]
fn latest_positive_resize_wins() {
    let mut inst = Instance::new([100, 100]);
    for (w, h) in [(320, 240), (640, 480), (1920, 1080)] {
        inst.resize([w, h]);
    }
    let d = inst.depth_dimensions();
    assert_eq!((d.width, d.height), (1920, 1080));
}

#[test]
fn uniform_round_trip_is_bit_exact() {
    let mut inst = Instance::new([64, 64]);
    let floats: [f32; 16] = [
        1.5, -2.25, 0.1, 0.0, 3.25e7, -0.0, 1e-40, 42.0, -1.0, 0.5, 2.0, -3.5, 7.75, 0.125, -9.0,
        1.0,
    ];
    let mut matrix = [0u32; 16];
    for i in 0..16 {
        matrix[i] = floats[i].to_bits();
    }
    inst.render(&matrix, &[]).unwrap();
    let back = inst.read_back_view_matrix();
    assert_eq!(back.len(), 16);
    for i in 0..16 {
        assert_eq!(back[i], matrix[i]);
        assert_eq!(f32::from_bits(back[i]).to_bits(), floats[i].to_bits());
    }
}

#[test]
fn new_instance_uniform_is_identity() {
    let inst = Instance::new([32, 32]);
    let back = inst.read_back_view_matrix();
    for i in 0..16 {
        let expected = if i % 5 == 0 { 1.0f32.to_bits() } else { 0 };
        assert_eq!(back[i], expected);
    }
}

#[test]
fn oversized_vertex_data_fails_without_upload() {
    let mut inst = Instance::new([800, 600]);
    let small = Model { meshes: vec![mesh_of(3, vec![0, 1, 2])] };
    inst.render(&identity_bits(), &[&small]).unwrap();
    let vertex_before = inst.vertex_buffer.data.clone();
    let index_before = inst.index_buffer.data.clone();
    let uniform_before = inst.uniform_buffer.data.clone();

    // One vertex over the 32,000,000-byte vertex buffer capacity.
    let big = Model {
        meshes: vec![Mesh { vertices: vec![vert(0.0, 0.0, 0.0); 1_000_001], indices: vec![0, 0, 0] }],
    };
    let err = inst.render(&identity_bits(), &[&big]).unwrap_err();
    assert_eq!(err, RenderError::FrameDataTooLarge);
    assert_eq!(inst.vertex_buffer.data, vertex_before);
    assert_eq!(inst.index_buffer.data, index_before);
    assert_eq!(inst.uniform_buffer.data, uniform_before);
}

#[test]
fn oversized_index_data_fails_without_upload() {
    let mut inst = Instance::new([800, 600]);
    // One index over the 32,000,000-byte index buffer capacity.
    let big = Model {
        meshes: vec![Mesh { vertices: vec![vert(0.0, 0.0, 0.0); 3], indices: vec![0u32; 8_000_001] }],
    };
    let err = inst.render(&identity_bits(), &[&big]).unwrap_err();
    assert_eq!(err, RenderError::FrameDataTooLarge);
    assert!(inst.vertex_buffer.data.is_empty());
    assert!(inst.index_buffer.data.is_empty());
}

#[test]
fn repeat_render_leaves_buffers_byte_identical() {
    let mut inst = Instance::new([400, 300]);
    let a = Model { meshes: vec![mesh_of(6, vec![0, 1, 2, 3, 4, 5])] };
    let b = Model { meshes: vec![mesh_of(2, vec![1, 0, 1])] };
    let matrix = identity_bits();

    // First frame is larger, so the second frame overwrites only a prefix.
    inst.render(&matrix, &[&a, &b]).unwrap();
    inst.render(&matrix, &[&b]).unwrap();
    let vertex_first = inst.vertex_buffer.data.clone();
    let index_first = inst.index_buffer.data.clone();
    let uniform_first = inst.uniform_buffer.data.clone();

    inst.render(&matrix, &[&b]).unwrap();
    assert_eq!(inst.vertex_buffer.data, vertex_first);
    assert_eq!(inst.index_buffer.data, index_first);
    assert_eq!(inst.uniform_buffer.data, uniform_first);
}
