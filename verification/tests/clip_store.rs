use layer_clip::clip_source::ClipSource;
use layer_clip::clip_sources::ClipSources;
use layer_clip::clip_store::{ClipSourcesIndex, ClipStore};
use layer_clip::display_types::{ClipMode, DevicePixelScale, SpatialNodeIndex};
use layer_clip::geometry::{LayoutPoint, LayoutRect, LayoutSize};
use layer_clip::gpu_cache::GpuCache;
use layer_clip::resource_cache::ResourceCache;

fn sources(side: i32, node: usize) -> ClipSources {
    let r = LayoutRect::new(LayoutPoint::new(0, 0), LayoutSize::new(side, side));
    ClipSources::new(vec![ClipSource::Rectangle(r, ClipMode::Clip)], SpatialNodeIndex(node))
}

#[test]
fn a_new_store_is_empty() {
    assert_eq!(ClipStore::new().len(), 0);
}

#[test]
fn indices_count_the_insertions() {
    let mut store = ClipStore::new();
    assert_eq!(store.insert(sources(60, 0)), ClipSourcesIndex(0));
    assert_eq!(store.insert(sources(120, 1)), ClipSourcesIndex(1));
    assert_eq!(store.insert(sources(180, 2)), ClipSourcesIndex(2));
    assert_eq!(store.len(), 3);
}

#[test]
fn an_index_stays_good_while_others_are_inserted() {
    let mut store = ClipStore::new();
    let first = store.insert(sources(60, 7));
    for side in 1..100 {
        store.insert(sources(side, 0));
    }
    assert_eq!(store.get(first).spatial_node_index, SpatialNodeIndex(7));
    assert_eq!(store.get(first).local_inner_rect.size, LayoutSize::new(60, 60));
    assert_eq!(store.get(ClipSourcesIndex(50)).local_inner_rect.size, LayoutSize::new(50, 50));
}

#[test]
fn a_collection_can_be_updated_in_place() {
    let mut store = ClipStore::new();
    let first = store.insert(sources(60, 0));
    let second = store.insert(sources(120, 1));
    let mut gpu_cache = GpuCache::new();
    let mut resource_cache = ResourceCache::new();
    store.get_mut(second).update(&mut gpu_cache, &mut resource_cache, DevicePixelScale(60));
    assert!(gpu_cache.get(&store.get(second).clips()[0].1).is_some());
    assert!(gpu_cache.get(&store.get(first).clips()[0].1).is_none());
}

#[test]
fn a_recycled_store_is_empty() {
    let mut store = ClipStore::new();
    store.insert(sources(60, 0));
    store.insert(sources(120, 1));
    let mut store = store.recycle();
    assert_eq!(store.len(), 0);
    assert_eq!(store.insert(sources(180, 2)), ClipSourcesIndex(0));
}
