use egui_spine::renderer::cache::{DrawResources, TextureCache, TextureSlot};
use egui_spine::renderer::sampler::{AddressMode, FilterMode, SamplerDesc};

type Cache = TextureCache<&'static str, u32, &'static str>;

fn sampler() -> SamplerDesc {
    SamplerDesc {
        address_mode_u: AddressMode::Repeat,
        address_mode_v: AddressMode::MirrorRepeat,
        mag_filter: FilterMode::Nearest,
        min_filter: FilterMode::Linear,
    }
}

fn resources(vertex_buffer: u32, index_buffer: u32) -> DrawResources<&'static str, u32, &'static str> {
    DrawResources { pipeline: "pipeline", vertex_buffer, index_buffer, texture_bind_group: "group" }
}

fn loaded(cache: &Cache, handle: u64) -> Option<(u32, u32, u64, u64)> {
    match cache.fetch(handle) {
        Some(TextureSlot::Loaded { resources, vertex_capacity, index_capacity }) => Some((
            resources.vertex_buffer,
            resources.index_buffer,
            *vertex_capacity,
            *index_capacity,
        )),
        _ => None,
    }
}

#[test]
fn new_cache_has_no_slots() {
    let cache = Cache::new();
    assert!(cache.fetch(0).is_none());
    assert!(cache.draw_resources(0).is_none());
}

#[test]
fn created_slot_is_loading() {
    let mut cache = Cache::new();
    assert!(cache.create(7, "a.png".to_string(), sampler()).is_none());
    match cache.fetch(7) {
        Some(TextureSlot::Loading { path, sampler: stored }) => {
            assert_eq!(path, "a.png");
            assert_eq!(*stored, sampler());
        }
        _ => panic!("slot is not loading"),
    }
    assert!(cache.draw_resources(7).is_none());
    assert!(cache.fetch(8).is_none());
}

#[test]
fn create_hands_back_the_displaced_slot() {
    let mut cache = Cache::new();
    cache.create(7, "a.png".to_string(), sampler());
    assert!(cache.finish_loading(7, resources(1, 2), 48, 8).is_none());
    let displaced = cache.create(7, "b.png".to_string(), sampler());
    assert!(matches!(
        displaced,
        Some(TextureSlot::Loaded { vertex_capacity: 48, index_capacity: 8, .. })
    ));
    assert!(matches!(cache.fetch(7), Some(TextureSlot::Loading { .. })));
}

#[test]
fn finish_loading_fills_a_loading_slot_once() {
    let mut cache = Cache::new();
    cache.create(7, "a.png".to_string(), sampler());
    assert!(cache.finish_loading(7, resources(1, 2), 48, 8).is_none());
    assert_eq!(loaded(&cache, 7), Some((1, 2, 48, 8)));
    let refused = cache.finish_loading(7, resources(3, 4), 96, 16);
    assert_eq!(refused.map(|r| (r.vertex_buffer, r.index_buffer)), Some((3, 4)));
    assert_eq!(loaded(&cache, 7), Some((1, 2, 48, 8)));
    let resources = cache.draw_resources(7).unwrap();
    assert_eq!(resources.pipeline, "pipeline");
    assert_eq!(resources.texture_bind_group, "group");
}

#[test]
fn finish_loading_without_a_slot_is_refused() {
    let mut cache = Cache::new();
    let refused = cache.finish_loading(7, resources(1, 2), 48, 8);
    assert_eq!(refused.map(|r| r.vertex_buffer), Some(1));
    assert!(cache.fetch(7).is_none());
}

#[test]
fn vertex_buffer_only_grows() {
    let mut cache = Cache::new();
    cache.create(7, "a.png".to_string(), sampler());
    cache.finish_loading(7, resources(1, 2), 48, 8);
    assert_eq!(cache.grow_vertex_buffer(7, 10, 48), Err(10));
    assert_eq!(cache.grow_vertex_buffer(7, 11, 47), Err(11));
    assert_eq!(loaded(&cache, 7), Some((1, 2, 48, 8)));
    assert_eq!(cache.grow_vertex_buffer(7, 12, 96), Ok(1));
    assert_eq!(loaded(&cache, 7), Some((12, 2, 96, 8)));
    assert_eq!(cache.draw_resources(7).map(|r| r.pipeline), Some("pipeline"));
}

#[test]
fn index_buffer_only_grows() {
    let mut cache = Cache::new();
    cache.create(7, "a.png".to_string(), sampler());
    cache.finish_loading(7, resources(1, 2), 48, 8);
    assert_eq!(cache.grow_index_buffer(7, 10, 8), Err(10));
    assert_eq!(cache.grow_index_buffer(7, 11, 0), Err(11));
    assert_eq!(cache.grow_index_buffer(7, 12, 12), Ok(2));
    assert_eq!(loaded(&cache, 7), Some((1, 12, 48, 12)));
    assert_eq!(cache.draw_resources(7).map(|r| r.texture_bind_group), Some("group"));
}

#[test]
fn buffers_of_unloaded_slots_do_not_grow() {
    let mut cache = Cache::new();
    assert_eq!(cache.grow_vertex_buffer(7, 10, 48), Err(10));
    assert_eq!(cache.grow_index_buffer(7, 10, 48), Err(10));
    cache.create(7, "a.png".to_string(), sampler());
    assert_eq!(cache.grow_vertex_buffer(7, 10, 48), Err(10));
    assert_eq!(cache.grow_index_buffer(7, 10, 48), Err(10));
    assert!(matches!(cache.fetch(7), Some(TextureSlot::Loading { .. })));
}

#[test]
fn dispose_returns_the_slot_and_forgets_it() {
    let mut cache = Cache::new();
    cache.create(7, "a.png".to_string(), sampler());
    cache.create(8, "b.png".to_string(), sampler());
    cache.finish_loading(7, resources(1, 2), 48, 8);
    let slot = cache.dispose(7);
    assert!(matches!(slot, Some(TextureSlot::Loaded { vertex_capacity: 48, .. })));
    assert!(cache.fetch(7).is_none());
    assert!(cache.dispose(7).is_none());
    assert!(matches!(cache.fetch(8), Some(TextureSlot::Loading { .. })));
}
