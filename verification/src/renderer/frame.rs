//! What the renderer does with each batch of a frame, and in which order a
//! widget may be drawn.

use vstd::prelude::*;
use crate::error::ContractViolation;
use crate::renderer::blend::{resolve, BlendState};
use crate::renderer::cache::{
    applied_all, awaits_loading, is_loaded, lemma_loaded_slot_persists, loaded, CacheOp,
    DrawResources, TextureCache, TextureSlot,
};
use crate::renderer::meshes::{Mesh, MeshView, MAX_BATCH_LEN};

verus! {

/// The number by which the count of indices is tested when an index buffer
/// is sized: a count that is no multiple of it gets room for one more index.
/// It is also the number of bytes to a multiple of which the GPU wants its
/// copies sized; `lemma_aligned_index_buffers` says for which counts the
/// size of the index buffer is one.
pub const COPY_BUFFER_ALIGNMENT: u64 = 4;

/// Size in bytes of one index.
pub const INDEX_SIZE: u64 = 2;

/// Bytes of a vertex buffer that holds `vertex_count` vertices.
pub open spec fn vertex_buffer_bytes(vertex_count: nat) -> nat {
    vertex_count * 48
}

/// Number of indices an index buffer makes room for when it has to hold
/// `index_count` of them: one more, unless the count is a multiple of the
/// copy alignment.
pub open spec fn padded_index_count(index_count: nat) -> nat {
    if index_count % 4 == 0 {
        index_count
    } else {
        index_count + 1
    }
}

/// Bytes of an index buffer that holds `index_count` indices.
pub open spec fn index_buffer_bytes(index_count: nat) -> nat {
    padded_index_count(index_count) * 2
}

/// Bytes of a vertex buffer that holds `vertex_count` vertices.
pub fn vertex_buffer_size(vertex_count: usize) -> (size: u64)
    requires
        vertex_count <= MAX_BATCH_LEN,
    ensures
        size == vertex_buffer_bytes(vertex_count as nat),
{
    vertex_count as u64 * 48
}

/// Bytes of an index buffer that holds `index_count` indices.
pub fn padded_index_buffer_size(index_count: usize) -> (size: u64)
    requires
        index_count <= MAX_BATCH_LEN,
    ensures
        size == index_buffer_bytes(index_count as nat),
{
    let padded: u64 = if index_count % 4 == 0 {
        index_count as u64
    } else {
        index_count as u64 + 1
    };
    padded * 2
}

/// A larger batch never asks for a smaller buffer.
pub proof fn lemma_buffer_sizes_are_monotonic(fewer: nat, more: nat)
    requires
        fewer <= more,
    ensures
        vertex_buffer_bytes(fewer) <= vertex_buffer_bytes(more),
        index_buffer_bytes(fewer) <= index_buffer_bytes(more),
{
    if fewer < more && fewer % 4 != 0 && more % 4 == 0 {
        assert(fewer + 1 <= more);
    }
}

/// A buffer has room for what is written to it: forty-eight bytes for each
/// vertex, and two for each index with at most two bytes to spare. A buffer
/// of no bytes is one for no vertices, or for no indices.
pub proof fn lemma_buffers_hold_their_batch(vertex_count: nat, index_count: nat)
    ensures
        vertex_buffer_bytes(vertex_count) == 48 * vertex_count,
        2 * index_count <= index_buffer_bytes(index_count) <= 2 * index_count + 2,
        vertex_count == 0 <==> vertex_buffer_bytes(vertex_count) == 0,
        index_count == 0 <==> index_buffer_bytes(index_count) == 0,
{
}

/// The size of an index buffer is a multiple of the copy alignment for every
/// count of indices but those that leave a remainder of two when divided by
/// four: six indices take fourteen bytes. The size of a vertex buffer always
/// is one.
pub proof fn lemma_aligned_index_buffers(vertex_count: nat, index_count: nat)
    ensures
        index_buffer_bytes(index_count) % 4 == 0 <==> index_count % 4 != 2,
        index_count % 4 == 2 ==> index_buffer_bytes(index_count) % 4 == 2,
        vertex_buffer_bytes(vertex_count) % 4 == 0,
        index_buffer_bytes(6) == 14,
{
}

/// One indexed draw: which slot it binds, how many bytes of vertices and of
/// indices it uploads first, and how many indices it draws.
#[derive(Clone, Copy, Debug, PartialEq, Eq, Structural)]
pub struct DrawCall {
    pub handle: u64,
    pub vertex_buffer_size: u64,
    pub index_buffer_size: u64,
    pub index_count: u32,
}

/// What to do with one batch.
#[derive(Clone, Copy, Debug, PartialEq, Eq, Structural)]
pub enum BatchPlan {
    /// Nothing: no upload, no binding, no draw.
    Skip,
    /// The texture is not on the GPU yet. Load it, build the pipeline with
    /// `blend`, allocate both buffers at the sizes of the draw, and draw.
    Create { draw: DrawCall, blend: BlendState },
    /// The texture is on the GPU. Replace each buffer that is marked as too
    /// small by one of the size of the draw, and draw.
    Draw { draw: DrawCall, grow_vertex_buffer: bool, grow_index_buffer: bool },
}

/// The draw call for a mesh whose texture is in the slot `handle`.
pub open spec fn draw_of(mesh: MeshView, handle: u64) -> DrawCall {
    DrawCall {
        handle,
        vertex_buffer_size: vertex_buffer_bytes(mesh.vertices.len()) as u64,
        index_buffer_size: index_buffer_bytes(mesh.indices.len()) as u64,
        index_count: mesh.indices.len() as u32,
    }
}

/// What becomes of a mesh under the given slots. An empty mesh is skipped
/// before anything else is looked at. Otherwise the attachment is taken from
/// the mesh, which must not have happened before; a mesh without attachment
/// is skipped; and the slot of the attachment, which must exist, decides
/// between creating and drawing.
pub open spec fn planned<P, B, G>(
    slots: Map<u64, TextureSlot<P, B, G>>,
    mesh: MeshView,
) -> Result<BatchPlan, ContractViolation> {
    if mesh.vertices.len() == 0 {
        Ok(BatchPlan::Skip)
    } else if mesh.attachment_borrowed {
        Err(ContractViolation::AttachmentBorrowedTwice)
    } else {
        match mesh.attachment {
            None => Ok(BatchPlan::Skip),
            Some(handle) => if !slots.contains_key(handle) {
                Err(ContractViolation::DisposedTexture)
            } else {
                match slots[handle] {
                    TextureSlot::Loading { .. } => Ok(
                        BatchPlan::Create {
                            draw: draw_of(mesh, handle),
                            blend: resolve(mesh.blend_mode.0, mesh.premultiplied_alpha),
                        },
                    ),
                    TextureSlot::Loaded { vertex_capacity, index_capacity, .. } => Ok(
                        BatchPlan::Draw {
                            draw: draw_of(mesh, handle),
                            grow_vertex_buffer: vertex_capacity < draw_of(
                                mesh,
                                handle,
                            ).vertex_buffer_size,
                            grow_index_buffer: index_capacity < draw_of(
                                mesh,
                                handle,
                            ).index_buffer_size,
                        },
                    ),
                }
            },
        }
    }
}

/// The mesh after it was planned: its attachment counts as taken unless the
/// mesh is empty.
pub open spec fn after_planning(mesh: MeshView) -> MeshView {
    if mesh.vertices.len() == 0 {
        mesh
    } else {
        MeshView { attachment_borrowed: true, ..mesh }
    }
}

/// Decides what to do with one batch of the frame. The cache is only read.
pub fn plan_batch<P, B, G>(cache: &TextureCache<P, B, G>, mesh: &mut Mesh<'_>) -> (plan: Result<
    BatchPlan,
    ContractViolation,
>)
    ensures
        plan == planned(cache@, old(mesh)@),
        final(mesh)@ == after_planning(old(mesh)@),
{
    let vertex_count = mesh.vertices().len();
    if vertex_count == 0 {
        return Ok(BatchPlan::Skip);
    }
    let blend = mesh.blend_mode().into_blend_state(mesh.premultiplied_alpha());
    let index_count = mesh.indices().len();
    let attachment = match mesh.renderer_object() {
        Ok(attachment) => attachment,
        Err(violation) => {
            return Err(violation);
        },
    };
    let handle = match attachment {
        Some(handle) => handle,
        None => {
            return Ok(BatchPlan::Skip);
        },
    };
    let draw = DrawCall {
        handle,
        vertex_buffer_size: vertex_buffer_size(vertex_count),
        index_buffer_size: padded_index_buffer_size(index_count),
        index_count: index_count as u32,
    };
    match cache.fetch(handle) {
        None => Err(ContractViolation::DisposedTexture),
        Some(TextureSlot::Loading { .. }) => Ok(BatchPlan::Create { draw, blend }),
        Some(TextureSlot::Loaded { vertex_capacity, index_capacity, .. }) => Ok(
            BatchPlan::Draw {
                draw,
                grow_vertex_buffer: *vertex_capacity < draw.vertex_buffer_size,
                grow_index_buffer: *index_capacity < draw.index_buffer_size,
            },
        ),
    }
}

/// Concludes a planned creation. Where the resources could be made, the slot
/// of the draw takes them, with buffers of the sizes of the draw, and the
/// batch is drawn. Where they could not, the batch is not drawn and nothing
/// changes: the slot stays loading, and the next batch that names it is
/// planned for creation again. Resources offered for a slot that is not
/// loading are dropped, and the batch is not drawn.
pub fn complete_loading<P, B, G>(
    cache: &mut TextureCache<P, B, G>,
    draw: DrawCall,
    created: Option<DrawResources<P, B, G>>,
) -> (drawn: bool)
    ensures
        match created {
            None => !drawn && final(cache)@ == old(cache)@,
            Some(resources) => {
                &&& drawn == awaits_loading(old(cache)@, draw.handle)
                &&& final(cache)@ == loaded(
                    old(cache)@,
                    draw.handle,
                    resources,
                    draw.vertex_buffer_size,
                    draw.index_buffer_size,
                )
            },
        },
{
    match created {
        None => false,
        Some(resources) => {
            let refused = cache.finish_loading(
                draw.handle,
                resources,
                draw.vertex_buffer_size,
                draw.index_buffer_size,
            );
            refused.is_none()
        },
    }
}

/// A creation that failed is tried again: the batch is not drawn, and the
/// same mesh is planned for creation under the slots as they are left.
pub proof fn lemma_failed_creation_is_retried<P, B, G>(
    slots: Map<u64, TextureSlot<P, B, G>>,
    mesh: MeshView,
    handle: u64,
)
    requires
        drawable(mesh, handle),
        awaits_loading(slots, handle),
    ensures
        planned(slots, mesh) == Ok::<BatchPlan, ContractViolation>(
            BatchPlan::Create {
                draw: draw_of(mesh, handle),
                blend: resolve(mesh.blend_mode.0, mesh.premultiplied_alpha),
            },
        ),
{
}

/// The mesh can be planned: it is well formed and its attachment, the slot
/// `handle`, has not been taken yet.
pub open spec fn drawable(mesh: MeshView, handle: u64) -> bool {
    &&& mesh.wf()
    &&& mesh.vertices.len() > 0
    &&& !mesh.attachment_borrowed
    &&& mesh.attachment == Some(handle)
}

/// An empty batch is skipped, whatever the cache holds and whatever was done
/// with the mesh before, and planning leaves the mesh as it was.
pub proof fn lemma_empty_batch_is_skipped<P, B, G>(
    slots: Map<u64, TextureSlot<P, B, G>>,
    mesh: MeshView,
)
    requires
        mesh.vertices.len() == 0,
    ensures
        planned(slots, mesh) == Ok::<BatchPlan, ContractViolation>(BatchPlan::Skip),
        after_planning(mesh) == mesh,
{
}

/// A draw covers exactly the indices of its batch.
pub proof fn lemma_draw_covers_the_batch<P, B, G>(
    slots: Map<u64, TextureSlot<P, B, G>>,
    mesh: MeshView,
    handle: u64,
)
    requires
        drawable(mesh, handle),
        slots.contains_key(handle),
    ensures
        planned(slots, mesh) is Ok,
        match planned(slots, mesh)->Ok_0 {
            BatchPlan::Skip => false,
            BatchPlan::Create { draw, blend } => {
                &&& draw.index_count == mesh.indices.len()
                &&& draw.vertex_buffer_size == 48 * mesh.vertices.len()
                &&& draw.index_buffer_size >= 2 * mesh.indices.len()
                &&& blend == resolve(mesh.blend_mode.0, mesh.premultiplied_alpha)
            },
            BatchPlan::Draw { draw, .. } => {
                &&& draw.index_count == mesh.indices.len()
                &&& draw.vertex_buffer_size == 48 * mesh.vertices.len()
                &&& draw.index_buffer_size >= 2 * mesh.indices.len()
            },
        },
{
}

/// The texture of an attachment is created at most once. Creation is
/// planned only for a slot that is still loading; once the slot has taken
/// its resources, no batch of this or any later frame is planned for
/// creation again, for as long as the attachment lives.
pub proof fn lemma_creation_happens_once<P, B, G>(
    slots: Map<u64, TextureSlot<P, B, G>>,
    first: MeshView,
    handle: u64,
    resources: DrawResources<P, B, G>,
    later_ops: Seq<CacheOp<P, B, G>>,
    later: MeshView,
)
    requires
        drawable(first, handle),
        drawable(later, handle),
        planned(slots, first) is Ok,
        planned(slots, first)->Ok_0 is Create,
        forall|i: int| 0 <= i < later_ops.len() ==> (#[trigger] later_ops[i]).keeps(handle),
    ensures
        ({
            let draw = planned(slots, first)->Ok_0->Create_draw;
            let filled = loaded(
                slots,
                handle,
                resources,
                draw.vertex_buffer_size,
                draw.index_buffer_size,
            );
            &&& is_loaded(filled, handle)
            &&& planned(filled, first) == Ok::<BatchPlan, ContractViolation>(
                BatchPlan::Draw { draw, grow_vertex_buffer: false, grow_index_buffer: false },
            )
            &&& planned(applied_all(filled, later_ops), later) is Ok
            &&& planned(applied_all(filled, later_ops), later)->Ok_0 is Draw
            &&& applied_all(filled, later_ops)[handle]->resources.pipeline == resources.pipeline
            &&& applied_all(filled, later_ops)[handle]->resources.texture_bind_group
                == resources.texture_bind_group
        }),
{
    let draw = planned(slots, first)->Ok_0->Create_draw;
    let filled = loaded(slots, handle, resources, draw.vertex_buffer_size, draw.index_buffer_size);
    lemma_loaded_slot_persists(filled, later_ops, handle);
}

/// Buffers only grow, and only when they must: once the buffers of a slot
/// hold a batch of `vertex_count` vertices and `index_count` indices, no
/// batch that is at most as large asks for a new buffer, in this or any later
/// frame, for as long as the attachment lives.
pub proof fn lemma_no_regrowth<P, B, G>(
    slots: Map<u64, TextureSlot<P, B, G>>,
    handle: u64,
    vertex_count: nat,
    index_count: nat,
    later_ops: Seq<CacheOp<P, B, G>>,
    later: MeshView,
)
    requires
        is_loaded(slots, handle),
        slots[handle]->vertex_capacity >= vertex_buffer_bytes(vertex_count),
        slots[handle]->index_capacity >= index_buffer_bytes(index_count),
        forall|i: int| 0 <= i < later_ops.len() ==> (#[trigger] later_ops[i]).keeps(handle),
        drawable(later, handle),
    ensures
        planned(applied_all(slots, later_ops), later) is Ok,
        planned(applied_all(slots, later_ops), later)->Ok_0 is Draw,
        later.vertices.len() <= vertex_count ==> !planned(
            applied_all(slots, later_ops),
            later,
        )->Ok_0->grow_vertex_buffer,
        later.indices.len() <= index_count ==> !planned(
            applied_all(slots, later_ops),
            later,
        )->Ok_0->grow_index_buffer,
{
    lemma_loaded_slot_persists(slots, later_ops, handle);
    if later.vertices.len() <= vertex_count {
        lemma_buffer_sizes_are_monotonic(later.vertices.len(), vertex_count);
    }
    if later.indices.len() <= index_count {
        lemma_buffer_sizes_are_monotonic(later.indices.len(), index_count);
    }
}

} // verus!
