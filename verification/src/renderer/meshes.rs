//! Renderable batches as the animation engine produces them, and the meshes
//! the renderer draws from them.

use vstd::prelude::*;
use crate::error::ContractViolation;
use crate::renderer::blend::{BlendMode, SpineBlendMode};
use crate::renderer::vertex::Vertex;

verus! {

/// Largest number of vertices, and of indices, that one draw call can
/// address.
pub const MAX_BATCH_LEN: usize = 0xFFFF_FFFF;

/// One draw call's worth of geometry, sharing one texture and one blend
/// mode. The attachment is the key under which the texture of the batch is
/// cached.
#[derive(Clone, Debug, PartialEq, Eq)]
pub struct Renderable {
    pub vertices: Vec<[u32; 2]>,
    pub uvs: Vec<[u32; 2]>,
    pub indices: Vec<u16>,
    pub colors: Vec<[u32; 4]>,
    pub dark_colors: Vec<[u32; 4]>,
    pub blend_mode: BlendMode,
    pub premultiplied_alpha: bool,
    pub attachment: Option<u64>,
}

/// What is wrong with a batch.
#[derive(Clone, Copy, Debug, PartialEq, Eq, Structural)]
pub enum BatchDefect {
    /// The per-vertex arrays differ in length.
    LengthMismatch,
    /// More vertices than a draw call can address.
    TooManyVertices,
    /// More indices than a draw call can address.
    TooManyIndices,
    /// The index at `position` names no vertex.
    IndexOutOfRange { position: usize },
}

/// A defective batch, by its place in the frame.
#[derive(Clone, Copy, Debug, PartialEq, Eq, Structural)]
pub struct BatchError {
    pub batch: usize,
    pub defect: BatchDefect,
}

impl Renderable {
    /// Every vertex has a texture coordinate and both colours.
    pub open spec fn lengths_agree(&self) -> bool {
        &&& self.uvs@.len() == self.vertices@.len()
        &&& self.colors@.len() == self.vertices@.len()
        &&& self.dark_colors@.len() == self.vertices@.len()
    }

    /// The batch can be drawn: its arrays agree in length, a draw call can
    /// address it, and every index names a vertex.
    pub open spec fn wf(&self) -> bool {
        &&& self.lengths_agree()
        &&& self.vertices@.len() <= MAX_BATCH_LEN
        &&& self.indices@.len() <= MAX_BATCH_LEN
        &&& forall|j: int| 0 <= j < self.indices@.len() ==> self.indices@[j] < self.vertices@.len()
    }

    /// `outcome` is the verdict on this batch: nothing for a well-formed one,
    /// else the first check that fails, and for an index out of range the
    /// first such index.
    pub open spec fn judged(&self, outcome: Option<BatchDefect>) -> bool {
        match outcome {
            None => self.wf(),
            Some(BatchDefect::LengthMismatch) => !self.lengths_agree(),
            Some(BatchDefect::TooManyVertices) => {
                &&& self.lengths_agree()
                &&& self.vertices@.len() > MAX_BATCH_LEN
            },
            Some(BatchDefect::TooManyIndices) => {
                &&& self.lengths_agree()
                &&& self.vertices@.len() <= MAX_BATCH_LEN
                &&& self.indices@.len() > MAX_BATCH_LEN
            },
            Some(BatchDefect::IndexOutOfRange { position }) => {
                &&& self.lengths_agree()
                &&& self.vertices@.len() <= MAX_BATCH_LEN
                &&& self.indices@.len() <= MAX_BATCH_LEN
                &&& position < self.indices@.len()
                &&& self.indices@[position as int] >= self.vertices@.len()
                &&& forall|j: int| 0 <= j < position ==> self.indices@[j] < self.vertices@.len()
            },
        }
    }

    /// The vertices of the batch, assembled from its per-vertex arrays.
    pub open spec fn assembled(&self) -> Seq<Vertex> {
        Seq::new(
            self.vertices@.len(),
            |i: int|
                Vertex {
                    position: self.vertices@[i],
                    uv: self.uvs@[i],
                    color: self.colors@[i],
                    dark_color: self.dark_colors@[i],
                },
        )
    }

    /// Checks the batch.
    pub fn check(&self) -> (outcome: Option<BatchDefect>)
        ensures
            self.judged(outcome),
    {
        let count = self.vertices.len();
        if self.uvs.len() != count || self.colors.len() != count || self.dark_colors.len()
            != count {
            return Some(BatchDefect::LengthMismatch);
        }
        if count > MAX_BATCH_LEN {
            return Some(BatchDefect::TooManyVertices);
        }
        if self.indices.len() > MAX_BATCH_LEN {
            return Some(BatchDefect::TooManyIndices);
        }
        let mut position: usize = 0;
        while position < self.indices.len()
            invariant
                position <= self.indices@.len(),
                count == self.vertices@.len(),
                self.lengths_agree(),
                count <= MAX_BATCH_LEN,
                self.indices@.len() <= MAX_BATCH_LEN,
                forall|j: int| 0 <= j < position ==> self.indices@[j] < count,
            decreases self.indices@.len() - position,
        {
            if self.indices[position] as usize >= count {
                return Some(BatchDefect::IndexOutOfRange { position });
            }
            position += 1;
        }
        None
    }

    /// The vertices of a well-formed batch, in input order.
    pub fn assemble(&self) -> (vertices: Vec<Vertex>)
        requires
            self.lengths_agree(),
        ensures
            vertices@ == self.assembled(),
    {
        let count = self.vertices.len();
        let mut vertices: Vec<Vertex> = Vec::with_capacity(count);
        let mut i: usize = 0;
        while i < count
            invariant
                i <= count,
                count == self.vertices@.len(),
                self.lengths_agree(),
                vertices@ == self.assembled().take(i as int),
            decreases count - i,
        {
            vertices.push(
                Vertex {
                    position: self.vertices[i],
                    uv: self.uvs[i],
                    color: self.colors[i],
                    dark_color: self.dark_colors[i],
                },
            );
            proof {
                assert(vertices@ =~= self.assembled().take(i + 1));
            }
            i += 1;
        }
        proof {
            assert(self.assembled().take(count as int) =~= self.assembled());
        }
        vertices
    }
}

/// What a mesh is, to contracts.
pub struct MeshView {
    pub vertices: Seq<Vertex>,
    pub indices: Seq<u16>,
    pub blend_mode: SpineBlendMode,
    pub premultiplied_alpha: bool,
    pub attachment: Option<u64>,
    pub attachment_borrowed: bool,
}

impl MeshView {
    /// A draw call can address the mesh and every index names a vertex.
    pub open spec fn wf(self) -> bool {
        &&& self.vertices.len() <= MAX_BATCH_LEN
        &&& self.indices.len() <= MAX_BATCH_LEN
        &&& forall|j: int| 0 <= j < self.indices.len() ==> self.indices[j] < self.vertices.len()
    }

    /// The mesh drawn for `batch`, its attachment not yet handed out.
    pub open spec fn of(batch: Renderable) -> MeshView {
        MeshView {
            vertices: batch.assembled(),
            indices: batch.indices@,
            blend_mode: SpineBlendMode(batch.blend_mode),
            premultiplied_alpha: batch.premultiplied_alpha,
            attachment: batch.attachment,
            attachment_borrowed: false,
        }
    }
}

/// One batch ready to draw: its vertices as GPU records, and its indices
/// borrowed from the frame.
pub struct Mesh<'a> {
    vertices: Vec<Vertex>,
    indices: &'a [u16],
    blend_mode: SpineBlendMode,
    premultiplied_alpha: bool,
    attachment: Option<u64>,
    was_attachment_borrowed: bool,
}

impl<'a> View for Mesh<'a> {
    type V = MeshView;

    closed spec fn view(&self) -> MeshView {
        MeshView {
            vertices: self.vertices@,
            indices: self.indices@,
            blend_mode: self.blend_mode,
            premultiplied_alpha: self.premultiplied_alpha,
            attachment: self.attachment,
            attachment_borrowed: self.was_attachment_borrowed,
        }
    }
}

impl<'a> Mesh<'a> {
    #[verifier::type_invariant]
    spec fn inv(&self) -> bool {
        self@.wf()
    }

    /// The vertices of the mesh.
    pub fn vertices(&self) -> (vertices: &Vec<Vertex>)
        ensures
            vertices@ == self@.vertices,
            self@.wf(),
    {
        proof {
            use_type_invariant(self);
        }
        &self.vertices
    }

    /// The triangle list of the mesh.
    pub fn indices(&self) -> (indices: &'a [u16])
        ensures
            indices@ == self@.indices,
            self@.wf(),
    {
        proof {
            use_type_invariant(self);
        }
        self.indices
    }

    /// The blend mode the mesh is drawn with.
    pub fn blend_mode(&self) -> (mode: SpineBlendMode)
        ensures
            mode == self@.blend_mode,
    {
        self.blend_mode
    }

    /// Whether the texture of the mesh has premultiplied alpha.
    pub fn premultiplied_alpha(&self) -> (flag: bool)
        ensures
            flag == self@.premultiplied_alpha,
    {
        self.premultiplied_alpha
    }

    /// Hands out the key of the texture slot of this mesh, once. A mesh
    /// without an attachment has none to hand out. A second request is a
    /// violation and leaves the mesh as it was.
    pub fn renderer_object(&mut self) -> (outcome: Result<Option<u64>, ContractViolation>)
        ensures
            old(self)@.attachment_borrowed ==> outcome == Err::<Option<u64>, ContractViolation>(
                ContractViolation::AttachmentBorrowedTwice,
            ) && final(self)@ == old(self)@,
            !old(self)@.attachment_borrowed ==> outcome == Ok::<Option<u64>, ContractViolation>(
                old(self)@.attachment,
            ) && final(self)@ == (MeshView { attachment_borrowed: true, ..old(self)@ }),
    {
        proof {
            use_type_invariant(&*self);
        }
        if self.was_attachment_borrowed {
            return Err(ContractViolation::AttachmentBorrowedTwice);
        }
        self.was_attachment_borrowed = true;
        Ok(self.attachment)
    }
}

/// The batches of one frame, in draw order, each known to be well formed.
pub struct Meshes {
    inner: Vec<Renderable>,
}

impl View for Meshes {
    type V = Seq<Renderable>;

    closed spec fn view(&self) -> Seq<Renderable> {
        self.inner@
    }
}

impl Meshes {
    #[verifier::type_invariant]
    spec fn inv(&self) -> bool {
        forall|i: int| 0 <= i < self.inner@.len() ==> (#[trigger] self.inner@[i]).wf()
    }

    /// Takes the batches of a frame, after checking each. The first
    /// defective batch, if there is one, is reported with its first defect.
    pub fn new(renderables: Vec<Renderable>) -> (outcome: Result<Meshes, BatchError>)
        ensures
            match outcome {
                Ok(meshes) => {
                    &&& meshes@ == renderables@
                    &&& forall|i: int| 0 <= i < renderables@.len() ==> (#[trigger] renderables@[i]).wf()
                },
                Err(error) => {
                    &&& error.batch < renderables@.len()
                    &&& !renderables@[error.batch as int].wf()
                    &&& renderables@[error.batch as int].judged(Some(error.defect))
                    &&& forall|i: int| 0 <= i < error.batch ==> (#[trigger] renderables@[i]).wf()
                },
            },
    {
        let mut batch: usize = 0;
        while batch < renderables.len()
            invariant
                batch <= renderables@.len(),
                forall|i: int| 0 <= i < batch ==> (#[trigger] renderables@[i]).wf(),
            decreases renderables@.len() - batch,
        {
            match renderables[batch].check() {
                Some(defect) => {
                    return Err(BatchError { batch, defect });
                },
                None => {},
            }
            batch += 1;
        }
        Ok(Meshes { inner: renderables })
    }

    /// Number of batches in the frame.
    pub fn len(&self) -> (count: usize)
        ensures
            count == self@.len(),
    {
        self.inner.len()
    }

    /// The meshes of the frame, one per batch and in the order of the
    /// batches: same vertices, same indices, same blend mode and attachment.
    pub fn iter(&self) -> (meshes: Vec<Mesh<'_>>)
        ensures
            meshes@.len() == self@.len(),
            forall|i: int| 0 <= i < self@.len() ==> (#[trigger] meshes@[i])@ == MeshView::of(self@[i]),
            forall|i: int| 0 <= i < self@.len() ==> (#[trigger] self@[i]).wf(),
    {
        proof {
            use_type_invariant(self);
        }
        let mut meshes: Vec<Mesh<'_>> = Vec::with_capacity(self.inner.len());
        let mut i: usize = 0;
        while i < self.inner.len()
            invariant
                i <= self.inner@.len(),
                meshes@.len() == i,
                forall|k: int| 0 <= k < self.inner@.len() ==> (#[trigger] self.inner@[k]).wf(),
                forall|k: int| 0 <= k < i ==> (#[trigger] meshes@[k])@ == MeshView::of(self.inner@[k]),
            decreases self.inner@.len() - i,
        {
            let renderable = &self.inner[i];
            assert(renderable.wf());
            let vertices = renderable.assemble();
            let mesh = Mesh {
                vertices,
                indices: renderable.indices.as_slice(),
                blend_mode: SpineBlendMode(renderable.blend_mode),
                premultiplied_alpha: renderable.premultiplied_alpha,
                attachment: renderable.attachment,
                was_attachment_borrowed: false,
            };
            assert(mesh@ == MeshView::of(*renderable));
            meshes.push(mesh);
            i += 1;
        }
        meshes
    }
}

} // verus!
