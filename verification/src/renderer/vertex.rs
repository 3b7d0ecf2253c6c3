//! The vertex record handed to the GPU, and its layout.
//!
//! A scalar is the bit pattern of an IEEE-754 single-precision float.

use vstd::prelude::*;

verus! {

/// Size in bytes of one scalar.
pub const SCALAR_SIZE: u64 = 4;

/// Number of scalars in one vertex record.
pub const WORDS_PER_VERTEX: usize = 12;

/// Size in bytes of one vertex record.
pub const VERTEX_SIZE: u64 = 48;

/// One vertex of a renderable batch.
#[derive(Clone, Copy, Debug, PartialEq, Eq)]
pub struct Vertex {
    pub position: [u32; 2],
    pub uv: [u32; 2],
    pub color: [u32; 4],
    pub dark_color: [u32; 4],
}

/// Shape of one vertex attribute.
#[derive(Clone, Copy, Debug, PartialEq, Eq, Structural)]
pub enum VertexFormat {
    Float32x2,
    Float32x4,
}

impl VertexFormat {
    /// Number of scalars in an attribute of this format.
    pub open spec fn spec_components(self) -> nat {
        match self {
            VertexFormat::Float32x2 => 2,
            VertexFormat::Float32x4 => 4,
        }
    }

    /// Size in bytes of an attribute of this format.
    pub open spec fn spec_size(self) -> nat {
        self.spec_components() * 4
    }

    /// Size in bytes of an attribute of this format.
    pub fn size(self) -> (bytes: u64)
        ensures
            bytes == self.spec_size(),
    {
        match self {
            VertexFormat::Float32x2 => 8,
            VertexFormat::Float32x4 => 16,
        }
    }
}

/// Whether a buffer advances per vertex or per instance.
#[derive(Clone, Copy, Debug, PartialEq, Eq, Structural)]
pub enum VertexStepMode {
    Vertex,
    Instance,
}

/// Where one attribute sits inside the record, and which shader input reads
/// it.
#[derive(Clone, Copy, Debug, PartialEq, Eq, Structural)]
pub struct VertexAttribute {
    pub format: VertexFormat,
    pub offset: u64,
    pub shader_location: u32,
}

/// How the vertex buffer is read by the pipeline.
#[derive(Clone, Debug, PartialEq, Eq)]
pub struct VertexBufferLayout {
    pub array_stride: u64,
    pub step_mode: VertexStepMode,
    pub attributes: Vec<VertexAttribute>,
}

/// The formats of a vertex's fields, in declaration order: position, texture
/// coordinate, colour, dark colour.
pub open spec fn vertex_formats() -> Seq<VertexFormat> {
    seq![
        VertexFormat::Float32x2,
        VertexFormat::Float32x2,
        VertexFormat::Float32x4,
        VertexFormat::Float32x4,
    ]
}

/// Byte offset of the `index`-th attribute when the attributes are packed one
/// after the other.
pub open spec fn packed_offset(formats: Seq<VertexFormat>, index: nat) -> nat
    decreases index,
{
    if index == 0 || index > formats.len() {
        0
    } else {
        packed_offset(formats, (index - 1) as nat) + formats[index - 1].spec_size()
    }
}

/// The attributes of a vertex: the `i`-th field is read by shader input `i`
/// and starts where the field before it ends.
pub open spec fn vertex_attributes() -> Seq<VertexAttribute> {
    Seq::new(
        4,
        |i: int|
            VertexAttribute {
                format: vertex_formats()[i],
                offset: packed_offset(vertex_formats(), i as nat) as u64,
                shader_location: i as u32,
            },
    )
}

impl Vertex {
    /// The scalars of the record in memory order.
    pub open spec fn spec_words(self) -> Seq<u32> {
        self.position@ + self.uv@ + self.color@ + self.dark_color@
    }

    /// The scalars of the record in memory order.
    pub fn words(&self) -> (words: [u32; 12])
        ensures
            words@ == self.spec_words(),
    {
        let words = [
            self.position[0],
            self.position[1],
            self.uv[0],
            self.uv[1],
            self.color[0],
            self.color[1],
            self.color[2],
            self.color[3],
            self.dark_color[0],
            self.dark_color[1],
            self.dark_color[2],
            self.dark_color[3],
        ];
        assert(words@ =~= self.spec_words());
        words
    }

    /// The layout under which the pipeline reads a buffer of vertices.
    pub fn wgpu_buffer_layout() -> (layout: VertexBufferLayout)
        ensures
            layout.array_stride == VERTEX_SIZE,
            layout.step_mode == VertexStepMode::Vertex,
            layout.attributes@ == vertex_attributes(),
    {
        let mut attributes: Vec<VertexAttribute> = Vec::new();
        attributes.push(
            VertexAttribute { format: VertexFormat::Float32x2, offset: 0, shader_location: 0 },
        );
        attributes.push(
            VertexAttribute { format: VertexFormat::Float32x2, offset: 8, shader_location: 1 },
        );
        attributes.push(
            VertexAttribute { format: VertexFormat::Float32x4, offset: 16, shader_location: 2 },
        );
        attributes.push(
            VertexAttribute { format: VertexFormat::Float32x4, offset: 32, shader_location: 3 },
        );
        proof {
            lemma_packed_offsets();
            assert(attributes@ =~= vertex_attributes());
        }
        VertexBufferLayout {
            array_stride: VERTEX_SIZE,
            step_mode: VertexStepMode::Vertex,
            attributes,
        }
    }
}

/// The packed offsets of the four vertex fields, and where the last one ends.
pub proof fn lemma_packed_offsets()
    ensures
        packed_offset(vertex_formats(), 0) == 0,
        packed_offset(vertex_formats(), 1) == 8,
        packed_offset(vertex_formats(), 2) == 16,
        packed_offset(vertex_formats(), 3) == 32,
        packed_offset(vertex_formats(), 4) == VERTEX_SIZE,
{
    reveal_with_fuel(packed_offset, 5);
}

/// The attributes tile the record: the first starts at byte zero, each next
/// one starts where its predecessor ends, and the last ends at the stride.
/// Every attribute starts on a scalar boundary, at the word of the record
/// where its field starts.
pub proof fn lemma_attributes_tile_the_record(vertex: Vertex)
    ensures
        vertex_attributes().len() == 4,
        vertex_attributes()[0].offset == 0,
        forall|i: int|
            0 <= i < 3 ==> #[trigger] vertex_attributes()[i + 1].offset == vertex_attributes()[i].offset
                + vertex_attributes()[i].format.spec_size(),
        vertex_attributes()[3].offset + vertex_attributes()[3].format.spec_size() == VERTEX_SIZE,
        vertex.spec_words().len() == WORDS_PER_VERTEX,
        VERTEX_SIZE == WORDS_PER_VERTEX * SCALAR_SIZE,
        vertex.spec_words().subrange(0, 2) == vertex.position@,
        vertex.spec_words().subrange(2, 4) == vertex.uv@,
        vertex.spec_words().subrange(4, 8) == vertex.color@,
        vertex.spec_words().subrange(8, 12) == vertex.dark_color@,
{
    lemma_packed_offsets();
    assert(vertex.spec_words().subrange(0, 2) =~= vertex.position@);
    assert(vertex.spec_words().subrange(2, 4) =~= vertex.uv@);
    assert(vertex.spec_words().subrange(4, 8) =~= vertex.color@);
    assert(vertex.spec_words().subrange(8, 12) =~= vertex.dark_color@);
}

/// The scalars of a run of vertices, record after record.
pub open spec fn flatten(vertices: Seq<Vertex>) -> Seq<u32>
    decreases vertices.len(),
{
    if vertices.len() == 0 {
        Seq::empty()
    } else {
        flatten(vertices.drop_last()) + vertices.last().spec_words()
    }
}

/// A flattened run holds twelve scalars per vertex, and scalar `j` of vertex
/// `k` sits at position `12 * k + j`.
pub proof fn lemma_flatten_index(vertices: Seq<Vertex>, k: int, j: int)
    requires
        0 <= k < vertices.len(),
        0 <= j < 12,
    ensures
        flatten(vertices).len() == 12 * vertices.len(),
        flatten(vertices)[12 * k + j] == vertices[k].spec_words()[j],
    decreases vertices.len(),
{
    lemma_flatten_len(vertices);
    lemma_flatten_len(vertices.drop_last());
    if k < vertices.len() - 1 {
        lemma_flatten_index(vertices.drop_last(), k, j);
    }
}

/// A flattened run holds twelve scalars per vertex.
pub proof fn lemma_flatten_len(vertices: Seq<Vertex>)
    ensures
        flatten(vertices).len() == 12 * vertices.len(),
    decreases vertices.len(),
{
    if vertices.len() > 0 {
        lemma_flatten_len(vertices.drop_last());
    }
}

/// The scalars of `vertices` in the order in which the GPU reads them.
pub fn vertex_words(vertices: &Vec<Vertex>) -> (words: Vec<u32>)
    ensures
        words@ == flatten(vertices@),
{
    let mut words: Vec<u32> = Vec::new();
    let mut i: usize = 0;
    while i < vertices.len()
        invariant
            i <= vertices.len(),
            words@ == flatten(vertices@.take(i as int)),
        decreases vertices.len() - i,
    {
        let record = vertices[i].words();
        let mut j: usize = 0;
        while j < 12
            invariant
                j <= 12,
                i < vertices.len(),
                record@ == vertices@[i as int].spec_words(),
                words@ == flatten(vertices@.take(i as int)) + record@.take(j as int),
            decreases 12 - j,
        {
            words.push(record[j]);
            proof {
                assert(record@.take(j + 1) =~= record@.take(j as int).push(record@[j as int]));
            }
            j += 1;
        }
        proof {
            assert(record@.take(12) =~= record@);
            assert(vertices@.take(i + 1).drop_last() =~= vertices@.take(i as int));
        }
        i += 1;
    }
    proof {
        assert(vertices@.take(vertices.len() as int) =~= vertices@);
    }
    words
}

} // verus!
