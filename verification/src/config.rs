//! The renderer's fixed configuration: buffer capacities, the vertex input
//! layout, the binding-slot layout and the fixed-function pipeline state.
//!
//! These values never change at runtime; the hosting application translates
//! them into its graphics API's descriptor types when it builds the pipeline
//! and binding objects once at startup.

use vstd::prelude::*;

verus! {

/// Fixed capacity of the vertex buffer, in bytes.
pub const VERTEX_BUFFER_SIZE: usize = 32000000;

/// Fixed capacity of the index buffer, in bytes.
pub const INDEX_BUFFER_SIZE: usize = 32000000;

/// Capacity of the uniform buffer: one 4x4 float matrix.
pub const UNIFORM_BUFFER_SIZE: usize = 64;

/// Bytes of one vertex record: eight 32-bit words.
pub const VERTEX_STRIDE_BYTES: usize = 32;

/// Bytes of one 32-bit index.
pub const INDEX_STRIDE_BYTES: usize = 4;

/// Most vertices one frame's flattened data can hold.
pub const MAX_FRAME_VERTICES: usize = 1000000;

/// Most indices one frame's flattened data can hold.
pub const MAX_FRAME_INDICES: usize = 8000000;

/// IEEE 754 bit pattern of 1.0f32; diagonal entry of the identity matrix the
/// uniform buffer starts out with, and the depth buffer's clear value.
pub const F32_ONE_BITS: u32 = 0x3f800000;

/// IEEE 754 bit pattern of 0.1f64: the red, green and blue components of the
/// dark-gray color the render pass clears to.
pub const CLEAR_GRAY_F64_BITS: u64 = 0x3fb999999999999a;

/// IEEE 754 bit pattern of 1.0f64: the alpha component of the clear color.
pub const F64_ONE_BITS: u64 = 0x3ff0000000000000;

/// Component layout of one vertex attribute.
#[derive(Clone, Copy, Debug, PartialEq, Eq, Structural)]
pub enum AttributeFormat {
    /// Two 32-bit floats.
    Float32x2,
    /// Three 32-bit floats.
    Float32x3,
}

/// One entry of the vertex input layout: shader location, byte offset inside
/// the vertex record, and component format.
#[derive(Clone, Copy, Debug, PartialEq, Eq, Structural)]
pub struct VertexAttribute {
    pub location: u32,
    pub byte_offset: u32,
    pub format: AttributeFormat,
}

/// Which resource a binding slot exposes.
#[derive(Clone, Copy, Debug, PartialEq, Eq, Structural)]
pub enum BindingKind {
    /// The view-matrix uniform buffer.
    UniformBuffer,
    /// The placeholder 1x1 two-dimensional texture.
    Texture2d,
    /// The placeholder texture's sampler.
    Sampler,
}

/// Which shader stage can see a binding slot.
#[derive(Clone, Copy, Debug, PartialEq, Eq, Structural)]
pub enum StageVisibility {
    VertexStage,
    FragmentStage,
}

/// One slot of the fixed binding layout.
#[derive(Clone, Copy, Debug, PartialEq, Eq, Structural)]
pub struct BindingSlot {
    pub slot: u32,
    pub kind: BindingKind,
    pub visibility: StageVisibility,
}

/// The fixed-function pipeline state: triangle-list topology,
/// counter-clockwise front faces with back-face culling, fill mode,
/// depth test "less" against a 32-bit float depth attachment with writes
/// retained, no stencil, no multisampling, and straight-replace blending.
#[derive(Clone, Copy, Debug, PartialEq, Eq, Structural)]
pub struct FixedFunctionState {
    pub triangle_list: bool,
    pub front_face_ccw: bool,
    pub cull_back_faces: bool,
    pub fill_polygons: bool,
    pub depth_test_less: bool,
    pub depth_write_enabled: bool,
    pub stencil_enabled: bool,
    pub sample_count: u32,
    pub blend_replace: bool,
}

/// The placeholder texture binding: a single gamma-encoded RGBA8 texel,
/// never written after creation, with its fixed sampler state.
#[derive(Clone, Copy, Debug, PartialEq, Eq, Structural)]
pub struct PlaceholderTexture {
    pub width: u32,
    pub height: u32,
    pub rgba8_gamma: bool,
    pub clamp_to_edge: bool,
    pub mag_filter_nearest: bool,
    pub min_filter_linear: bool,
    pub mip_filter_nearest: bool,
}

/// The 1x1 placeholder texture and sampler bound at slots 1 and 2: material
/// texturing is not part of this core, but the slots stay present so the
/// fixed pipeline layout never changes.
pub fn placeholder_texture() -> (t: PlaceholderTexture)
    ensures
        t == (PlaceholderTexture {
            width: 1,
            height: 1,
            rgba8_gamma: true,
            clamp_to_edge: true,
            mag_filter_nearest: true,
            min_filter_linear: true,
            mip_filter_nearest: true,
        }),
{
    PlaceholderTexture {
        width: 1,
        height: 1,
        rgba8_gamma: true,
        clamp_to_edge: true,
        mag_filter_nearest: true,
        min_filter_linear: true,
        mip_filter_nearest: true,
    }
}

/// The vertex input layout: one per-vertex stream of stride
/// [`VERTEX_STRIDE_BYTES`], with position, texture coordinate and normal at
/// consecutive locations and byte offsets.
pub fn vertex_attributes() -> (attrs: Vec<VertexAttribute>)
    ensures
        attrs@.len() == 3,
        attrs@[0] == (VertexAttribute {
            location: 0,
            byte_offset: 0,
            format: AttributeFormat::Float32x3,
        }),
        attrs@[1] == (VertexAttribute {
            location: 1,
            byte_offset: 12,
            format: AttributeFormat::Float32x2,
        }),
        attrs@[2] == (VertexAttribute {
            location: 2,
            byte_offset: 20,
            format: AttributeFormat::Float32x3,
        }),
{
    let mut attrs: Vec<VertexAttribute> = Vec::new();
    attrs.push(VertexAttribute { location: 0, byte_offset: 0, format: AttributeFormat::Float32x3 });
    attrs.push(
        VertexAttribute { location: 1, byte_offset: 12, format: AttributeFormat::Float32x2 },
    );
    attrs.push(
        VertexAttribute { location: 2, byte_offset: 20, format: AttributeFormat::Float32x3 },
    );
    attrs
}

/// The binding layout: the uniform buffer at slot 0 visible to the vertex
/// stage only; the placeholder texture and its sampler at slots 1 and 2,
/// visible to the fragment stage only.
pub fn binding_slots() -> (slots: Vec<BindingSlot>)
    ensures
        slots@.len() == 3,
        slots@[0] == (BindingSlot {
            slot: 0,
            kind: BindingKind::UniformBuffer,
            visibility: StageVisibility::VertexStage,
        }),
        slots@[1] == (BindingSlot {
            slot: 1,
            kind: BindingKind::Texture2d,
            visibility: StageVisibility::FragmentStage,
        }),
        slots@[2] == (BindingSlot {
            slot: 2,
            kind: BindingKind::Sampler,
            visibility: StageVisibility::FragmentStage,
        }),
{
    let mut slots: Vec<BindingSlot> = Vec::new();
    slots.push(
        BindingSlot {
            slot: 0,
            kind: BindingKind::UniformBuffer,
            visibility: StageVisibility::VertexStage,
        },
    );
    slots.push(
        BindingSlot {
            slot: 1,
            kind: BindingKind::Texture2d,
            visibility: StageVisibility::FragmentStage,
        },
    );
    slots.push(
        BindingSlot {
            slot: 2,
            kind: BindingKind::Sampler,
            visibility: StageVisibility::FragmentStage,
        },
    );
    slots
}

/// The immutable fixed-function state the pipeline is built with.
pub fn fixed_function_state() -> (s: FixedFunctionState)
    ensures
        s == (FixedFunctionState {
            triangle_list: true,
            front_face_ccw: true,
            cull_back_faces: true,
            fill_polygons: true,
            depth_test_less: true,
            depth_write_enabled: true,
            stencil_enabled: false,
            sample_count: 1,
            blend_replace: true,
        }),
{
    FixedFunctionState {
        triangle_list: true,
        front_face_ccw: true,
        cull_back_faces: true,
        fill_polygons: true,
        depth_test_less: true,
        depth_write_enabled: true,
        stencil_enabled: false,
        sample_count: 1,
        blend_replace: true,
    }
}

} // verus!
