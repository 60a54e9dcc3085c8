use render_core::audio;
use render_core::bytes::{matrix_to_le_bytes, words_from_le_bytes, words_to_le_bytes};
use render_core::config::{
    binding_slots, fixed_function_state, vertex_attributes, AttributeFormat, BindingKind,
    StageVisibility, INDEX_BUFFER_SIZE, MAX_FRAME_INDICES, MAX_FRAME_VERTICES,
    UNIFORM_BUFFER_SIZE, VERTEX_BUFFER_SIZE, VERTEX_STRIDE_BYTES,
};
use render_core::geometry::{vertices_to_le_bytes, Mesh, Vertex};

#[test]
fn word_encoding_is_little_endian() {
    let bytes = words_to_le_bytes(&vec![0x04030201u32, 0xfffefdfc]);
    assert_eq!(bytes, vec![0x01, 0x02, 0x03, 0x04, 0xfc, 0xfd, 0xfe, 0xff]);
}

#[test]
fn word_decoding_inverts_encoding() {
    let words = vec![0u32, 1, 0xdeadbeef, u32::MAX, 0x80000000];
    let bytes = words_to_le_bytes(&words);
    assert_eq!(words_from_le_bytes(&bytes), words);
}

#[test]
fn matrix_encoding_is_64_bytes() {
    let mut m = [0u32; 16];
    for i in 0..16 {
        m[i] = (i as u32) * 0x01010101;
    }
    let bytes = matrix_to_le_bytes(&m);
    assert_eq!(bytes.len(), 64);
    assert_eq!(&bytes[0..4], &[0, 0, 0, 0]);
    assert_eq!(&bytes[4..8], &[1, 1, 1, 1]);
    assert_eq!(&bytes[60..64], &[15, 15, 15, 15]);
}

#[test]
fn vertex_bytes_match_field_order() {
    let v = Vertex {
        position: [1.0f32.to_bits(), 2.0f32.to_bits(), 3.0f32.to_bits()],
        tex_coords: [0.25f32.to_bits(), 0.75f32.to_bits()],
        normal: [0.0f32.to_bits(), (-1.0f32).to_bits(), 0.5f32.to_bits()],
    };
    let bytes = vertices_to_le_bytes(&vec![v]);
    assert_eq!(bytes.len(), 32);
    let expected_floats = [1.0f32, 2.0, 3.0, 0.25, 0.75, 0.0, -1.0, 0.5];
    for (i, f) in expected_floats.iter().enumerate() {
        let got = u32::from_le_bytes([
            bytes[4 * i],
            bytes[4 * i + 1],
            bytes[4 * i + 2],
            bytes[4 * i + 3],
        ]);
        assert_eq!(got, f.to_bits());
    }
}

#[test]
fn mesh_from_arrays_zips_vertex_fields() {
    let positions: Vec<u32> = vec![1.0f32, 2.0, 3.0, 4.0, 5.0, 6.0]
        .into_iter()
        .map(f32::to_bits)
        .collect();
    let tex_coords: Vec<u32> = vec![0.1f32, 0.2, 0.3, 0.4].into_iter().map(f32::to_bits).collect();
    let normals: Vec<u32> = vec![0.0f32, 1.0, 0.0, 1.0, 0.0, 0.0]
        .into_iter()
        .map(f32::to_bits)
        .collect();
    let mesh = Mesh::from_arrays(&positions, &tex_coords, &normals, vec![0, 1, 0]);

    assert_eq!(mesh.vertices.len(), 2);
    assert_eq!(mesh.vertices[0].position, [positions[0], positions[1], positions[2]]);
    assert_eq!(mesh.vertices[1].position, [positions[3], positions[4], positions[5]]);
    assert_eq!(mesh.vertices[0].tex_coords, [tex_coords[0], tex_coords[1]]);
    assert_eq!(mesh.vertices[1].tex_coords, [tex_coords[2], tex_coords[3]]);
    assert_eq!(mesh.vertices[0].normal, [normals[0], normals[1], normals[2]]);
    assert_eq!(mesh.vertices[1].normal, [normals[3], normals[4], normals[5]]);
    assert_eq!(mesh.indices, vec![0, 1, 0]);
}

#[test]
fn buffer_capacities_match_fixed_sizing() {
    assert_eq!(VERTEX_BUFFER_SIZE, 32_000_000);
    assert_eq!(INDEX_BUFFER_SIZE, 32_000_000);
    assert_eq!(UNIFORM_BUFFER_SIZE, 64);
    assert_eq!(VERTEX_STRIDE_BYTES, 32);
    assert_eq!(VERTEX_STRIDE_BYTES * MAX_FRAME_VERTICES, VERTEX_BUFFER_SIZE);
    assert_eq!(4 * MAX_FRAME_INDICES, INDEX_BUFFER_SIZE);
}

#[test]
fn vertex_layout_has_three_consecutive_attributes() {
    let attrs = vertex_attributes();
    assert_eq!(attrs.len(), 3);
    assert_eq!(attrs[0].location, 0);
    assert_eq!(attrs[0].byte_offset, 0);
    assert_eq!(attrs[0].format, AttributeFormat::Float32x3);
    assert_eq!(attrs[1].location, 1);
    assert_eq!(attrs[1].byte_offset, 12);
    assert_eq!(attrs[1].format, AttributeFormat::Float32x2);
    assert_eq!(attrs[2].location, 2);
    assert_eq!(attrs[2].byte_offset, 20);
    assert_eq!(attrs[2].format, AttributeFormat::Float32x3);
}

#[test]
fn binding_layout_has_fixed_slots_and_visibility() {
    let slots = binding_slots();
    assert_eq!(slots.len(), 3);
    assert_eq!(slots[0].slot, 0);
    assert_eq!(slots[0].kind, BindingKind::UniformBuffer);
    assert_eq!(slots[0].visibility, StageVisibility::VertexStage);
    assert_eq!(slots[1].slot, 1);
    assert_eq!(slots[1].kind, BindingKind::Texture2d);
    assert_eq!(slots[1].visibility, StageVisibility::FragmentStage);
    assert_eq!(slots[2].slot, 2);
    assert_eq!(slots[2].kind, BindingKind::Sampler);
    assert_eq!(slots[2].visibility, StageVisibility::FragmentStage);
}

#[test]
fn placeholder_texture_is_one_texel_with_fixed_sampler() {
    let t = render_core::config::placeholder_texture();
    assert_eq!((t.width, t.height), (1, 1));
    assert!(t.rgba8_gamma);
    assert!(t.clamp_to_edge);
    assert!(t.mag_filter_nearest);
    assert!(t.min_filter_linear);
    assert!(t.mip_filter_nearest);
}

#[test]
fn fixed_function_state_is_the_documented_bundle() {
    let s = fixed_function_state();
    assert!(s.triangle_list);
    assert!(s.front_face_ccw);
    assert!(s.cull_back_faces);
    assert!(s.fill_polygons);
    assert!(s.depth_test_less);
    assert!(s.depth_write_enabled);
    assert!(!s.stencil_enabled);
    assert_eq!(s.sample_count, 1);
    assert!(s.blend_replace);
}

#[test]
fn clear_color_bits_decode_to_dark_gray() {
    let gray = f64::from_bits(render_core::config::CLEAR_GRAY_F64_BITS);
    let alpha = f64::from_bits(render_core::config::F64_ONE_BITS);
    assert_eq!(gray, 0.1);
    assert_eq!(alpha, 1.0);
    let depth_clear = f32::from_bits(render_core::config::F32_ONE_BITS);
    assert_eq!(depth_clear, 1.0);
}

#[test]
fn sound_keeps_its_bytes_and_sink_calls_are_safe() {
    let audio_instance = audio::Instance::new();
    let sink = audio_instance.create_sink();
    let sound = audio::Sound::new(vec![1, 2, 3, 4]);
    assert_eq!(sound.data, vec![1, 2, 3, 4]);
    sink.queue_sound(&sound);
    sink.stop_sound();
}
