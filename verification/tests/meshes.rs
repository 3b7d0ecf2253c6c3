use egui_spine::error::ContractViolation;
use egui_spine::renderer::blend::{BlendMode, SpineBlendMode};
use egui_spine::renderer::meshes::{BatchDefect, BatchError, Meshes, Renderable};
use egui_spine::renderer::vertex::Vertex;

fn quad(attachment: Option<u64>) -> Renderable {
    let corners = [(0.0f32, 0.0f32), (1.0, 0.0), (1.0, 1.0), (0.0, 1.0)];
    Renderable {
        vertices: corners.iter().map(|(x, y)| [x.to_bits(), y.to_bits()]).collect(),
        uvs: corners.iter().map(|(x, y)| [x.to_bits(), (1.0 - y).to_bits()]).collect(),
        indices: vec![0, 1, 2, 0, 2, 3],
        colors: vec![[1.0f32.to_bits(); 4]; 4],
        dark_colors: vec![[0.0f32.to_bits(); 4]; 4],
        blend_mode: BlendMode::Normal,
        premultiplied_alpha: false,
        attachment,
    }
}

fn empty() -> Renderable {
    Renderable {
        vertices: Vec::new(),
        uvs: Vec::new(),
        indices: Vec::new(),
        colors: Vec::new(),
        dark_colors: Vec::new(),
        blend_mode: BlendMode::Additive,
        premultiplied_alpha: true,
        attachment: None,
    }
}

#[test]
fn well_formed_batch_passes_the_check() {
    assert_eq!(quad(Some(1)).check(), None);
    assert_eq!(empty().check(), None);
}

#[test]
fn length_mismatch_is_reported() {
    let mut batch = quad(Some(1));
    batch.uvs.pop();
    assert_eq!(batch.check(), Some(BatchDefect::LengthMismatch));
    let mut batch = quad(Some(1));
    batch.colors.push([0; 4]);
    assert_eq!(batch.check(), Some(BatchDefect::LengthMismatch));
    let mut batch = quad(Some(1));
    batch.dark_colors.clear();
    assert_eq!(batch.check(), Some(BatchDefect::LengthMismatch));
}

#[test]
fn first_index_out_of_range_is_reported() {
    let mut batch = quad(Some(1));
    batch.indices = vec![0, 3, 4, 9, 1];
    assert_eq!(batch.check(), Some(BatchDefect::IndexOutOfRange { position: 2 }));
}

#[test]
fn index_into_an_empty_batch_is_out_of_range() {
    let mut batch = empty();
    batch.indices = vec![0];
    assert_eq!(batch.check(), Some(BatchDefect::IndexOutOfRange { position: 0 }));
}

#[test]
fn assemble_zips_the_arrays_in_order() {
    let batch = quad(None);
    let vertices = batch.assemble();
    assert_eq!(vertices.len(), 4);
    assert_eq!(
        vertices[1],
        Vertex {
            position: [1.0f32.to_bits(), 0.0f32.to_bits()],
            uv: [1.0f32.to_bits(), 1.0f32.to_bits()],
            color: [1.0f32.to_bits(); 4],
            dark_color: [0.0f32.to_bits(); 4],
        }
    );
    assert_eq!(vertices[3].position, [0.0f32.to_bits(), 1.0f32.to_bits()]);
}

#[test]
fn meshes_reject_the_first_defective_batch() {
    let mut second = quad(Some(2));
    second.indices.push(4);
    let mut third = quad(Some(3));
    third.uvs.clear();
    let outcome = Meshes::new(vec![quad(Some(1)), second, third]);
    assert_eq!(
        outcome.err(),
        Some(BatchError { batch: 1, defect: BatchDefect::IndexOutOfRange { position: 6 } })
    );
}

#[test]
fn meshes_keep_the_order_of_the_batches() {
    let mut additive = quad(Some(8));
    additive.blend_mode = BlendMode::Additive;
    additive.premultiplied_alpha = true;
    let meshes = Meshes::new(vec![quad(Some(7)), empty(), additive]).ok().unwrap();
    assert_eq!(meshes.len(), 3);
    let mut drawn = meshes.iter();
    assert_eq!(drawn.len(), 3);
    assert_eq!(drawn[0].vertices().len(), 4);
    assert_eq!(drawn[0].indices(), [0u16, 1, 2, 0, 2, 3].as_slice());
    assert_eq!(drawn[0].blend_mode(), SpineBlendMode(BlendMode::Normal));
    assert!(!drawn[0].premultiplied_alpha());
    assert_eq!(drawn[1].vertices().len(), 0);
    assert_eq!(drawn[1].indices().len(), 0);
    assert_eq!(drawn[2].blend_mode(), SpineBlendMode(BlendMode::Additive));
    assert!(drawn[2].premultiplied_alpha());
    assert_eq!(drawn[0].renderer_object(), Ok(Some(7)));
    assert_eq!(drawn[1].renderer_object(), Ok(None));
    assert_eq!(drawn[2].renderer_object(), Ok(Some(8)));
}

#[test]
fn mesh_vertices_are_the_assembled_batch() {
    let batch = quad(Some(1));
    let expected = batch.assemble();
    let meshes = Meshes::new(vec![batch]).ok().unwrap();
    let drawn = meshes.iter();
    assert_eq!(drawn[0].vertices(), &expected);
}

#[test]
fn renderer_object_is_handed_out_once() {
    let meshes = Meshes::new(vec![quad(Some(42))]).ok().unwrap();
    let mut drawn = meshes.iter();
    assert_eq!(drawn[0].renderer_object(), Ok(Some(42)));
    assert_eq!(drawn[0].renderer_object(), Err(ContractViolation::AttachmentBorrowedTwice));
    assert_eq!(drawn[0].renderer_object(), Err(ContractViolation::AttachmentBorrowedTwice));
    let mut again = meshes.iter();
    assert_eq!(again[0].renderer_object(), Ok(Some(42)));
}

#[test]
fn no_batches_make_no_meshes() {
    let meshes = Meshes::new(Vec::new()).ok().unwrap();
    assert_eq!(meshes.len(), 0);
    assert_eq!(meshes.iter().len(), 0);
}
