//! The texture cache: one slot per attachment, created by the animation
//! engine, filled the first time it is drawn, and disposed of with the
//! attachment.
//!
//! The cache is generic in the GPU objects it keeps (`P` a pipeline, `B` a
//! buffer, `G` a bind group): it decides when they are made and replaced,
//! and never looks inside them.
//!
//! One writer at a time: the slot of an attachment is touched by the render
//! path only, and the engine does not create or dispose of it during a draw.

use std::collections::HashMap;
use vstd::prelude::*;
use crate::renderer::sampler::SamplerDesc;

verus! {

broadcast use vstd::std_specs::hash::group_hash_axioms;

/// What a draw call binds for one attachment.
pub struct DrawResources<P, B, G> {
    pub pipeline: P,
    pub vertex_buffer: B,
    pub index_buffer: B,
    pub texture_bind_group: G,
}

/// The state of one attachment's texture.
pub enum TextureSlot<P, B, G> {
    /// Known by the path of its image, not yet on the GPU.
    Loading { path: String, sampler: SamplerDesc },
    /// On the GPU, with buffers of the stated capacities in bytes.
    Loaded { resources: DrawResources<P, B, G>, vertex_capacity: u64, index_capacity: u64 },
}

/// The slot of `handle` exists and is still loading.
pub open spec fn awaits_loading<P, B, G>(
    slots: Map<u64, TextureSlot<P, B, G>>,
    handle: u64,
) -> bool {
    slots.contains_key(handle) && slots[handle] is Loading
}

/// The slot of `handle` exists and is loaded.
pub open spec fn is_loaded<P, B, G>(slots: Map<u64, TextureSlot<P, B, G>>, handle: u64) -> bool {
    slots.contains_key(handle) && slots[handle] is Loaded
}

/// The slots after the engine created the attachment `handle`.
pub open spec fn created<P, B, G>(
    slots: Map<u64, TextureSlot<P, B, G>>,
    handle: u64,
    path: String,
    sampler: SamplerDesc,
) -> Map<u64, TextureSlot<P, B, G>> {
    slots.insert(handle, TextureSlot::Loading { path, sampler })
}

/// The slots after the engine disposed of the attachment `handle`.
pub open spec fn disposed<P, B, G>(
    slots: Map<u64, TextureSlot<P, B, G>>,
    handle: u64,
) -> Map<u64, TextureSlot<P, B, G>> {
    slots.remove(handle)
}

/// The slots after `resources` were offered for `handle`: a slot that is
/// loading takes them, and nothing changes otherwise.
pub open spec fn loaded<P, B, G>(
    slots: Map<u64, TextureSlot<P, B, G>>,
    handle: u64,
    resources: DrawResources<P, B, G>,
    vertex_capacity: u64,
    index_capacity: u64,
) -> Map<u64, TextureSlot<P, B, G>> {
    if awaits_loading(slots, handle) {
        slots.insert(handle, TextureSlot::Loaded { resources, vertex_capacity, index_capacity })
    } else {
        slots
    }
}

/// A vertex buffer of `capacity` bytes would enlarge the one of `handle`.
pub open spec fn vertex_buffer_grows<P, B, G>(
    slots: Map<u64, TextureSlot<P, B, G>>,
    handle: u64,
    capacity: u64,
) -> bool {
    is_loaded(slots, handle) && capacity > slots[handle]->vertex_capacity
}

/// An index buffer of `capacity` bytes would enlarge the one of `handle`.
pub open spec fn index_buffer_grows<P, B, G>(
    slots: Map<u64, TextureSlot<P, B, G>>,
    handle: u64,
    capacity: u64,
) -> bool {
    is_loaded(slots, handle) && capacity > slots[handle]->index_capacity
}

/// The slots after a vertex buffer of `capacity` bytes was offered for
/// `handle`: it replaces a smaller one, and nothing changes otherwise.
pub open spec fn vertex_buffer_grown<P, B, G>(
    slots: Map<u64, TextureSlot<P, B, G>>,
    handle: u64,
    buffer: B,
    capacity: u64,
) -> Map<u64, TextureSlot<P, B, G>> {
    if vertex_buffer_grows(slots, handle, capacity) {
        slots.insert(
            handle,
            TextureSlot::Loaded {
                resources: DrawResources { vertex_buffer: buffer, ..slots[handle]->resources },
                vertex_capacity: capacity,
                index_capacity: slots[handle]->index_capacity,
            },
        )
    } else {
        slots
    }
}

/// The slots after an index buffer of `capacity` bytes was offered for
/// `handle`: it replaces a smaller one, and nothing changes otherwise.
pub open spec fn index_buffer_grown<P, B, G>(
    slots: Map<u64, TextureSlot<P, B, G>>,
    handle: u64,
    buffer: B,
    capacity: u64,
) -> Map<u64, TextureSlot<P, B, G>> {
    if index_buffer_grows(slots, handle, capacity) {
        slots.insert(
            handle,
            TextureSlot::Loaded {
                resources: DrawResources { index_buffer: buffer, ..slots[handle]->resources },
                vertex_capacity: slots[handle]->vertex_capacity,
                index_capacity: capacity,
            },
        )
    } else {
        slots
    }
}

/// The slots of all live attachments, by attachment handle.
pub struct TextureCache<P, B, G> {
    slots: HashMap<u64, TextureSlot<P, B, G>>,
}

impl<P, B, G> View for TextureCache<P, B, G> {
    type V = Map<u64, TextureSlot<P, B, G>>;

    closed spec fn view(&self) -> Map<u64, TextureSlot<P, B, G>> {
        self.slots@
    }
}

impl<P, B, G> TextureCache<P, B, G> {
    /// A cache without slots.
    pub fn new() -> (cache: Self)
        ensures
            cache@ == Map::<u64, TextureSlot<P, B, G>>::empty(),
    {
        TextureCache { slots: HashMap::new() }
    }

    /// Records a new attachment, whose image is at `path`, as loading.
    /// Returns the slot that `handle` had before, if it had one, so that
    /// nothing it held is lost.
    pub fn create(&mut self, handle: u64, path: String, sampler: SamplerDesc) -> (displaced:
        Option<TextureSlot<P, B, G>>)
        ensures
            final(self)@ == created(old(self)@, handle, path, sampler),
            displaced == if old(self)@.contains_key(handle) {
                Some(old(self)@[handle])
            } else {
                None
            },
    {
        self.slots.insert(handle, TextureSlot::Loading { path, sampler })
    }

    /// Forgets an attachment. Returns its slot, if it had one, for the caller
    /// to release what the slot held.
    pub fn dispose(&mut self, handle: u64) -> (slot: Option<TextureSlot<P, B, G>>)
        ensures
            final(self)@ == disposed(old(self)@, handle),
            slot == if old(self)@.contains_key(handle) {
                Some(old(self)@[handle])
            } else {
                None
            },
    {
        self.slots.remove(&handle)
    }

    /// The slot of an attachment, if it has one.
    pub fn fetch(&self, handle: u64) -> (slot: Option<&TextureSlot<P, B, G>>)
        ensures
            match slot {
                Some(slot) => self@.contains_key(handle) && *slot == self@[handle],
                None => !self@.contains_key(handle),
            },
    {
        self.slots.get(&handle)
    }

    /// What a draw call binds for an attachment, once its slot is loaded.
    pub fn draw_resources(&self, handle: u64) -> (resources: Option<&DrawResources<P, B, G>>)
        ensures
            match resources {
                Some(resources) => is_loaded(self@, handle) && *resources == self@[handle]->resources,
                None => !is_loaded(self@, handle),
            },
    {
        match self.slots.get(&handle) {
            Some(TextureSlot::Loaded { resources, .. }) => Some(resources),
            _ => None,
        }
    }

    /// Completes the loading of an attachment: its slot, if it is loading,
    /// takes the resources and is loaded from then on. Offered for any other
    /// slot, or for none, the resources are handed back and nothing changes.
    pub fn finish_loading(
        &mut self,
        handle: u64,
        resources: DrawResources<P, B, G>,
        vertex_capacity: u64,
        index_capacity: u64,
    ) -> (refused: Option<DrawResources<P, B, G>>)
        ensures
            final(self)@ == loaded(
                old(self)@,
                handle,
                resources,
                vertex_capacity,
                index_capacity,
            ),
            refused == if awaits_loading(old(self)@, handle) {
                None
            } else {
                Some(resources)
            },
    {
        let awaiting = match self.slots.get(&handle) {
            Some(TextureSlot::Loading { .. }) => true,
            _ => false,
        };
        if !awaiting {
            return Some(resources);
        }
        self.slots.insert(
            handle,
            TextureSlot::Loaded { resources, vertex_capacity, index_capacity },
        );
        None
    }

    /// Replaces the vertex buffer of a loaded attachment by a larger one and
    /// returns the old buffer. A buffer that is not larger, or one offered
    /// for a slot that is not loaded, is handed back and nothing changes.
    pub fn grow_vertex_buffer(&mut self, handle: u64, buffer: B, capacity: u64) -> (outcome:
        Result<B, B>)
        ensures
            final(self)@ == vertex_buffer_grown(old(self)@, handle, buffer, capacity),
            outcome == if vertex_buffer_grows(old(self)@, handle, capacity) {
                Ok::<B, B>(old(self)@[handle]->resources.vertex_buffer)
            } else {
                Err::<B, B>(buffer)
            },
    {
        let grows = match self.slots.get(&handle) {
            Some(TextureSlot::Loaded { vertex_capacity, .. }) => capacity > *vertex_capacity,
            _ => false,
        };
        if !grows {
            return Err(buffer);
        }
        match self.slots.remove(&handle) {
            Some(TextureSlot::Loaded { resources, vertex_capacity: _, index_capacity }) => {
                let DrawResources { pipeline, vertex_buffer, index_buffer, texture_bind_group } =
                    resources;
                self.slots.insert(
                    handle,
                    TextureSlot::Loaded {
                        resources: DrawResources {
                            pipeline,
                            vertex_buffer: buffer,
                            index_buffer,
                            texture_bind_group,
                        },
                        vertex_capacity: capacity,
                        index_capacity,
                    },
                );
                assert(self.slots@ =~= vertex_buffer_grown(old(self)@, handle, buffer, capacity));
                Ok(vertex_buffer)
            },
            Some(slot) => {
                self.slots.insert(handle, slot);
                assert(self.slots@ =~= old(self)@);
                Err(buffer)
            },
            None => Err(buffer),
        }
    }

    /// Replaces the index buffer of a loaded attachment by a larger one and
    /// returns the old buffer. A buffer that is not larger, or one offered
    /// for a slot that is not loaded, is handed back and nothing changes.
    pub fn grow_index_buffer(&mut self, handle: u64, buffer: B, capacity: u64) -> (outcome:
        Result<B, B>)
        ensures
            final(self)@ == index_buffer_grown(old(self)@, handle, buffer, capacity),
            outcome == if index_buffer_grows(old(self)@, handle, capacity) {
                Ok::<B, B>(old(self)@[handle]->resources.index_buffer)
            } else {
                Err::<B, B>(buffer)
            },
    {
        let grows = match self.slots.get(&handle) {
            Some(TextureSlot::Loaded { index_capacity, .. }) => capacity > *index_capacity,
            _ => false,
        };
        if !grows {
            return Err(buffer);
        }
        match self.slots.remove(&handle) {
            Some(TextureSlot::Loaded { resources, vertex_capacity, index_capacity: _ }) => {
                let DrawResources { pipeline, vertex_buffer, index_buffer, texture_bind_group } =
                    resources;
                self.slots.insert(
                    handle,
                    TextureSlot::Loaded {
                        resources: DrawResources {
                            pipeline,
                            vertex_buffer,
                            index_buffer: buffer,
                            texture_bind_group,
                        },
                        vertex_capacity,
                        index_capacity: capacity,
                    },
                );
                assert(self.slots@ =~= index_buffer_grown(old(self)@, handle, buffer, capacity));
                Ok(index_buffer)
            },
            Some(slot) => {
                self.slots.insert(handle, slot);
                assert(self.slots@ =~= old(self)@);
                Err(buffer)
            },
            None => Err(buffer),
        }
    }
}


/// One change to the slots of a cache.
pub enum CacheOp<P, B, G> {
    Create { handle: u64, path: String, sampler: SamplerDesc },
    Dispose { handle: u64 },
    FinishLoading {
        handle: u64,
        resources: DrawResources<P, B, G>,
        vertex_capacity: u64,
        index_capacity: u64,
    },
    GrowVertexBuffer { handle: u64, buffer: B, capacity: u64 },
    GrowIndexBuffer { handle: u64, buffer: B, capacity: u64 },
}

impl<P, B, G> CacheOp<P, B, G> {
    /// The change is made by the render path to the slot it finds: it
    /// neither creates nor disposes of the attachment `handle`.
    pub open spec fn keeps(self, handle: u64) -> bool {
        match self {
            CacheOp::Create { handle: created, .. } => created != handle,
            CacheOp::Dispose { handle: disposed } => disposed != handle,
            _ => true,
        }
    }
}

/// The slots after one change.
pub open spec fn applied<P, B, G>(
    slots: Map<u64, TextureSlot<P, B, G>>,
    op: CacheOp<P, B, G>,
) -> Map<u64, TextureSlot<P, B, G>> {
    match op {
        CacheOp::Create { handle, path, sampler } => created(slots, handle, path, sampler),
        CacheOp::Dispose { handle } => disposed(slots, handle),
        CacheOp::FinishLoading { handle, resources, vertex_capacity, index_capacity } => loaded(
            slots,
            handle,
            resources,
            vertex_capacity,
            index_capacity,
        ),
        CacheOp::GrowVertexBuffer { handle, buffer, capacity } => vertex_buffer_grown(
            slots,
            handle,
            buffer,
            capacity,
        ),
        CacheOp::GrowIndexBuffer { handle, buffer, capacity } => index_buffer_grown(
            slots,
            handle,
            buffer,
            capacity,
        ),
    }
}

/// The slots after a run of changes, first to last.
pub open spec fn applied_all<P, B, G>(
    slots: Map<u64, TextureSlot<P, B, G>>,
    ops: Seq<CacheOp<P, B, G>>,
) -> Map<u64, TextureSlot<P, B, G>>
    decreases ops.len(),
{
    if ops.len() == 0 {
        slots
    } else {
        applied(applied_all(slots, ops.drop_last()), ops.last())
    }
}

/// A loaded slot stays loaded for as long as its attachment lives: through
/// any run of changes that neither creates the attachment anew nor disposes
/// of it, the slot keeps its pipeline and its texture bind group, and the
/// capacity of neither buffer ever shrinks.
pub proof fn lemma_loaded_slot_persists<P, B, G>(
    slots: Map<u64, TextureSlot<P, B, G>>,
    ops: Seq<CacheOp<P, B, G>>,
    handle: u64,
)
    requires
        is_loaded(slots, handle),
        forall|i: int| 0 <= i < ops.len() ==> (#[trigger] ops[i]).keeps(handle),
    ensures
        is_loaded(applied_all(slots, ops), handle),
        applied_all(slots, ops)[handle]->resources.pipeline == slots[handle]->resources.pipeline,
        applied_all(slots, ops)[handle]->resources.texture_bind_group
            == slots[handle]->resources.texture_bind_group,
        applied_all(slots, ops)[handle]->vertex_capacity >= slots[handle]->vertex_capacity,
        applied_all(slots, ops)[handle]->index_capacity >= slots[handle]->index_capacity,
    decreases ops.len(),
{
    if ops.len() > 0 {
        let before = ops.drop_last();
        assert forall|i: int| 0 <= i < before.len() implies (#[trigger] before[i]).keeps(handle) by {
            assert(before[i] == ops[i]);
        }
        lemma_loaded_slot_persists(slots, before, handle);
        assert(ops.last() == ops[ops.len() - 1]);
        assert(ops.last().keeps(handle));
    }
}

} // verus!
