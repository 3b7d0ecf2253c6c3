use egui_spine::renderer::bytes::{index_bytes, vertex_bytes};
use egui_spine::renderer::vertex::{
    vertex_words, Vertex, VertexAttribute, VertexFormat, VertexStepMode, SCALAR_SIZE,
    VERTEX_SIZE, WORDS_PER_VERTEX,
};

fn vertex(seed: f32) -> Vertex {
    Vertex {
        position: [seed.to_bits(), (seed + 1.0).to_bits()],
        uv: [(seed + 2.0).to_bits(), (seed + 3.0).to_bits()],
        color: [
            (seed + 4.0).to_bits(),
            (seed + 5.0).to_bits(),
            (seed + 6.0).to_bits(),
            (seed + 7.0).to_bits(),
        ],
        dark_color: [
            (seed + 8.0).to_bits(),
            (seed + 9.0).to_bits(),
            (seed + 10.0).to_bits(),
            (seed + 11.0).to_bits(),
        ],
    }
}

#[test]
fn layout_is_four_packed_attributes() {
    let layout = Vertex::wgpu_buffer_layout();
    assert_eq!(layout.array_stride, 48);
    assert_eq!(layout.step_mode, VertexStepMode::Vertex);
    assert_eq!(
        layout.attributes,
        vec![
            VertexAttribute { format: VertexFormat::Float32x2, offset: 0, shader_location: 0 },
            VertexAttribute { format: VertexFormat::Float32x2, offset: 8, shader_location: 1 },
            VertexAttribute { format: VertexFormat::Float32x4, offset: 16, shader_location: 2 },
            VertexAttribute { format: VertexFormat::Float32x4, offset: 32, shader_location: 3 },
        ]
    );
}

#[test]
fn attributes_tile_the_record() {
    let layout = Vertex::wgpu_buffer_layout();
    let mut end = 0;
    for attribute in &layout.attributes {
        assert_eq!(attribute.offset, end);
        end += attribute.format.size();
    }
    assert_eq!(end, VERTEX_SIZE);
    assert_eq!(VERTEX_SIZE, WORDS_PER_VERTEX as u64 * SCALAR_SIZE);
}

#[test]
fn format_sizes() {
    assert_eq!(VertexFormat::Float32x2.size(), 8);
    assert_eq!(VertexFormat::Float32x4.size(), 16);
}

#[test]
fn words_follow_field_order() {
    let words = vertex(1.0).words();
    let expected: Vec<u32> = (0..12).map(|i| (1.0 + i as f32).to_bits()).collect();
    assert_eq!(words.to_vec(), expected);
}

#[test]
fn vertex_words_of_no_vertices() {
    assert_eq!(vertex_words(&Vec::new()), Vec::<u32>::new());
}

#[test]
fn vertex_words_keep_vertex_order() {
    let words = vertex_words(&vec![vertex(0.0), vertex(100.0)]);
    assert_eq!(words.len(), 24);
    assert_eq!(words[0], 0.0f32.to_bits());
    assert_eq!(words[11], 11.0f32.to_bits());
    assert_eq!(words[12], 100.0f32.to_bits());
    assert_eq!(words[23], 111.0f32.to_bits());
}

#[test]
fn index_bytes_are_native_endian() {
    let indices: Vec<u16> = vec![0, 1, 2, 0, 2, 0x1234];
    let mut expected = Vec::new();
    for index in &indices {
        expected.extend_from_slice(&index.to_ne_bytes());
    }
    assert_eq!(index_bytes(&indices), expected.as_slice());
    assert_eq!(index_bytes(&indices).len(), 12);
}

#[test]
fn index_bytes_of_no_indices() {
    assert_eq!(index_bytes(&[]).len(), 0);
}

#[test]
fn vertex_bytes_are_the_native_floats() {
    let vertices = vec![vertex(0.5), vertex(-3.25)];
    let mut expected = Vec::new();
    for seed in [0.5f32, -3.25] {
        for i in 0..12 {
            expected.extend_from_slice(&(seed + i as f32).to_ne_bytes());
        }
    }
    let bytes = vertex_bytes(&vertices);
    assert_eq!(bytes.len(), 96);
    assert_eq!(bytes, expected);
}
