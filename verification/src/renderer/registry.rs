//! What is created once per GPU context: the layouts of the two bind groups
//! and the fixed part of every render pipeline.

use vstd::prelude::*;
use crate::renderer::blend::BlendState;
use crate::renderer::vertex::{
    vertex_attributes, Vertex, VertexBufferLayout, VertexStepMode, VERTEX_SIZE,
};
use crate::Face;

verus! {

/// Options of a GPU context. There are none yet.
#[derive(Clone, Copy, Debug, PartialEq, Eq, Structural)]
pub struct WgpuContexOptions {}

/// Index of the bind group that holds the scene transform.
pub const SCENE_BIND_GROUP: u32 = 0;

/// Index of the bind group that holds the texture of a batch.
pub const TEXTURE_BIND_GROUP: u32 = 1;

/// The shader stage that reads a binding.
#[derive(Clone, Copy, Debug, PartialEq, Eq, Structural)]
pub enum ShaderStage {
    Vertex,
    Fragment,
}

/// What is bound.
#[derive(Clone, Copy, Debug, PartialEq, Eq, Structural)]
pub enum BindingKind {
    /// A uniform buffer at a fixed offset.
    UniformBuffer,
    /// A two-dimensional texture of filterable floats, one sample per texel.
    FilterableTexture2d,
    /// A sampler that filters.
    FilteringSampler,
}

/// One binding of a bind group.
#[derive(Clone, Copy, Debug, PartialEq, Eq, Structural)]
pub struct BindGroupLayoutEntry {
    pub binding: u32,
    pub visibility: ShaderStage,
    pub kind: BindingKind,
}

/// How triangles are assembled and which of them are kept.
#[derive(Clone, Copy, Debug, PartialEq, Eq, Structural)]
pub enum PrimitiveTopology {
    TriangleList,
    TriangleStrip,
}

/// The winding of a front face.
#[derive(Clone, Copy, Debug, PartialEq, Eq, Structural)]
pub enum FrontFace {
    Ccw,
    Cw,
}

/// A render pipeline, but for the objects of the context it refers to.
#[derive(Clone, Debug, PartialEq, Eq)]
pub struct PipelineDesc {
    pub vertex_layout: VertexBufferLayout,
    pub blend: BlendState,
    pub topology: PrimitiveTopology,
    pub front_face: FrontFace,
    pub cull_mode: Option<Face>,
}

/// The bindings of the scene group: the scene transform, read by the vertex
/// stage.
pub open spec fn scene_bindings() -> Seq<BindGroupLayoutEntry> {
    seq![
        BindGroupLayoutEntry {
            binding: 0,
            visibility: ShaderStage::Vertex,
            kind: BindingKind::UniformBuffer,
        },
    ]
}

/// The bindings of the texture group: the texture and then its sampler, both
/// read by the fragment stage.
pub open spec fn texture_bindings() -> Seq<BindGroupLayoutEntry> {
    seq![
        BindGroupLayoutEntry {
            binding: 0,
            visibility: ShaderStage::Fragment,
            kind: BindingKind::FilterableTexture2d,
        },
        BindGroupLayoutEntry {
            binding: 1,
            visibility: ShaderStage::Fragment,
            kind: BindingKind::FilteringSampler,
        },
    ]
}

/// The layout of the scene bind group.
pub fn scene_bind_group_layout() -> (entries: Vec<BindGroupLayoutEntry>)
    ensures
        entries@ == scene_bindings(),
{
    let mut entries: Vec<BindGroupLayoutEntry> = Vec::new();
    entries.push(
        BindGroupLayoutEntry {
            binding: 0,
            visibility: ShaderStage::Vertex,
            kind: BindingKind::UniformBuffer,
        },
    );
    proof {
        assert(entries@ =~= scene_bindings());
    }
    entries
}

/// The layout of the texture bind group.
pub fn texture_bind_group_layout() -> (entries: Vec<BindGroupLayoutEntry>)
    ensures
        entries@ == texture_bindings(),
{
    let mut entries: Vec<BindGroupLayoutEntry> = Vec::new();
    entries.push(
        BindGroupLayoutEntry {
            binding: 0,
            visibility: ShaderStage::Fragment,
            kind: BindingKind::FilterableTexture2d,
        },
    );
    entries.push(
        BindGroupLayoutEntry {
            binding: 1,
            visibility: ShaderStage::Fragment,
            kind: BindingKind::FilteringSampler,
        },
    );
    proof {
        assert(entries@ =~= texture_bindings());
    }
    entries
}

/// In either group the bindings are numbered from zero in the order in which
/// they are listed, so that no two of a group share a number.
pub proof fn lemma_bindings_are_numbered_in_order()
    ensures
        forall|i: int| 0 <= i < scene_bindings().len() ==> (#[trigger] scene_bindings()[i]).binding == i,
        forall|i: int|
            0 <= i < texture_bindings().len() ==> (#[trigger] texture_bindings()[i]).binding == i,
        SCENE_BIND_GROUP != TEXTURE_BIND_GROUP,
{
}

/// The pipeline that draws batches blended by `blend`: a list of triangles
/// wound counter-clockwise, read from one buffer of vertices, with the faces
/// named by `cull_mode` removed.
pub fn pipeline_desc(blend: BlendState, cull_mode: Option<Face>) -> (desc: PipelineDesc)
    ensures
        desc.blend == blend,
        desc.cull_mode == cull_mode,
        desc.topology == PrimitiveTopology::TriangleList,
        desc.front_face == FrontFace::Ccw,
        desc.vertex_layout.array_stride == VERTEX_SIZE,
        desc.vertex_layout.step_mode == VertexStepMode::Vertex,
        desc.vertex_layout.attributes@ == vertex_attributes(),
{
    PipelineDesc {
        vertex_layout: Vertex::wgpu_buffer_layout(),
        blend,
        topology: PrimitiveTopology::TriangleList,
        front_face: FrontFace::Ccw,
        cull_mode,
    }
}

} // verus!
