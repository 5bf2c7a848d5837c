use layer_clip::clip_data::{rect_block, ClipData, ImageMaskData, CLIP_DATA_GPU_BLOCKS};
use layer_clip::border_radius::BorderRadius;
use layer_clip::display_types::{ClipMode, IdNamespace, ImageKey, ImageRendering};
use layer_clip::geometry::{LayoutPoint, LayoutRect, LayoutSize};
use layer_clip::gpu_cache::{GpuBlockData, GpuCache, GpuCacheHandle};
use layer_clip::resource_cache::{ImageRequest, ResourceCache};

fn rect(x: i32, y: i32, w: i32, h: i32) -> LayoutRect {
    LayoutRect::new(LayoutPoint::new(x, y), LayoutSize::new(w, h))
}

fn block(a: i32, b: i32, c: i32, d: i32) -> GpuBlockData {
    GpuBlockData::new(a, b, c, d)
}

#[test]
fn a_block_holds_four_numbers_in_order() {
    assert_eq!(block(1, 2, 3, 4).data, [1, 2, 3, 4]);
    assert_eq!(rect_block(rect(5, 6, 7, 8)), block(5, 6, 7, 8));
}

#[test]
fn a_new_handle_has_no_run() {
    let cache = GpuCache::new();
    let handle = GpuCacheHandle::new();
    assert_eq!(handle.location, None);
    assert!(cache.get(&handle).is_none());
}

#[test]
fn a_request_is_answered_once() {
    let mut cache = GpuCache::new();
    let mut handle = GpuCacheHandle::new();
    let request = cache.request(&mut handle).expect("a new handle is to be written");
    assert_eq!(handle.location, Some(request.location));
    assert_eq!(cache.get(&handle), Some(&vec![]));
    request.push(&mut cache, block(1, 2, 3, 4));
    request.push_all(&mut cache, &vec![block(5, 6, 7, 8), block(9, 10, 11, 12)]);
    assert_eq!(
        cache.get(&handle),
        Some(&vec![block(1, 2, 3, 4), block(5, 6, 7, 8), block(9, 10, 11, 12)])
    );
    let before = handle;
    assert!(cache.request(&mut handle).is_none());
    assert_eq!(handle, before);
    assert_eq!(
        cache.get(&handle),
        Some(&vec![block(1, 2, 3, 4), block(5, 6, 7, 8), block(9, 10, 11, 12)])
    );
}

#[test]
fn runs_do_not_disturb_each_other() {
    let mut cache = GpuCache::new();
    let mut first = GpuCacheHandle::new();
    let mut second = GpuCacheHandle::new();
    let first_request = cache.request(&mut first).unwrap();
    let second_request = cache.request(&mut second).unwrap();
    assert_ne!(first.location, second.location);
    second_request.push(&mut cache, block(2, 2, 2, 2));
    first_request.push(&mut cache, block(1, 1, 1, 1));
    second_request.push(&mut cache, block(3, 3, 3, 3));
    assert_eq!(cache.get(&first), Some(&vec![block(1, 1, 1, 1)]));
    assert_eq!(cache.get(&second), Some(&vec![block(2, 2, 2, 2), block(3, 3, 3, 3)]));
}

#[test]
fn an_invalidated_run_is_written_anew() {
    let mut cache = GpuCache::new();
    let mut handle = GpuCacheHandle::new();
    let request = cache.request(&mut handle).unwrap();
    request.push(&mut cache, block(1, 1, 1, 1));
    let stale = handle;
    cache.invalidate(&handle);
    assert!(cache.get(&handle).is_none());
    // The writer of the run that has ended writes nothing.
    request.push(&mut cache, block(9, 9, 9, 9));
    assert!(cache.get(&stale).is_none());
    let again = cache.request(&mut handle).expect("a handle without run is to be written");
    assert_ne!(handle.location, stale.location);
    again.push(&mut cache, block(2, 2, 2, 2));
    assert_eq!(cache.get(&handle), Some(&vec![block(2, 2, 2, 2)]));
    assert!(cache.get(&stale).is_none());
}

#[test]
fn a_handle_of_another_store_has_no_run() {
    let mut other = GpuCache::new();
    let mut foreign = GpuCacheHandle::new();
    other.request(&mut foreign).unwrap();
    let mut cache = GpuCache::new();
    assert!(cache.get(&foreign).is_none());
    cache.invalidate(&foreign);
    assert!(cache.get(&foreign).is_none());
}

#[test]
fn clip_data_of_a_rectangle() {
    let data = ClipData::uniform(rect(10, 20, 300, 400), 0, ClipMode::ClipOut);
    assert_eq!(CLIP_DATA_GPU_BLOCKS, 10);
    assert_eq!(
        data.to_blocks(),
        vec![
            block(10, 20, 300, 400),
            block(1, 0, 0, 0),
            block(10, 20, 0, 0),
            block(0, 0, 0, 0),
            block(310, 20, 0, 0),
            block(0, 0, 0, 0),
            block(10, 420, 0, 0),
            block(0, 0, 0, 0),
            block(310, 420, 0, 0),
            block(0, 0, 0, 0),
        ]
    );
}

#[test]
fn clip_data_of_a_uniform_rounded_rectangle() {
    assert_eq!(
        ClipData::uniform(rect(10, 20, 300, 400), 30, ClipMode::Clip),
        ClipData::rounded_rect(&rect(10, 20, 300, 400), &BorderRadius::uniform(30), ClipMode::Clip)
    );
    assert_eq!(
        ClipData::uniform(rect(10, 20, 300, 400), 30, ClipMode::Clip).to_blocks(),
        vec![
            block(10, 20, 300, 400),
            block(0, 0, 0, 0),
            block(10, 20, 30, 30),
            block(30, 30, 0, 0),
            block(280, 20, 30, 30),
            block(30, 30, 0, 0),
            block(10, 390, 30, 30),
            block(30, 30, 0, 0),
            block(280, 390, 30, 30),
            block(30, 30, 0, 0),
        ]
    );
}

#[test]
fn clip_data_of_a_rounded_rectangle() {
    let radii = BorderRadius {
        top_left: LayoutSize::new(600, 300),
        top_right: LayoutSize::new(1200, 60),
        bottom_left: LayoutSize::new(120, 900),
        bottom_right: LayoutSize::new(60, 600),
    };
    let data = ClipData::rounded_rect(&rect(0, 0, 6000, 6000), &radii, ClipMode::Clip);
    let mut cache = GpuCache::new();
    let mut handle = GpuCacheHandle::new();
    let request = cache.request(&mut handle).unwrap();
    data.write(&request, &mut cache);
    assert_eq!(
        cache.get(&handle),
        Some(&vec![
            block(0, 0, 6000, 6000),
            block(0, 0, 0, 0),
            block(0, 0, 600, 300),
            block(600, 300, 0, 0),
            block(4800, 0, 1200, 60),
            block(1200, 60, 0, 0),
            block(0, 5100, 120, 900),
            block(120, 900, 0, 0),
            block(5940, 5400, 60, 600),
            block(60, 600, 0, 0),
        ])
    );
}

#[test]
fn image_mask_data_is_one_rect() {
    let mut cache = GpuCache::new();
    let mut handle = GpuCacheHandle::new();
    let request = cache.request(&mut handle).unwrap();
    ImageMaskData { local_rect: rect(5, 6, 70, 80) }.write_gpu_blocks(&request, &mut cache);
    assert_eq!(cache.get(&handle), Some(&vec![block(5, 6, 70, 80)]));
}

#[test]
fn image_requests_are_kept_in_order() {
    let mut cache = ResourceCache::new();
    assert!(cache.requested().is_empty());
    let first =
        ImageRequest { key: ImageKey(IdNamespace(1), 7), rendering: ImageRendering::Auto, tile: None };
    let second = ImageRequest {
        key: ImageKey(IdNamespace(2), 8),
        rendering: ImageRendering::Pixelated,
        tile: None,
    };
    cache.request_image(first);
    cache.request_image(second);
    cache.request_image(first);
    assert_eq!(cache.requested(), &vec![first, second, first]);
}
