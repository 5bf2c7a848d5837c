use layer_clip::border_radius::BorderRadius;
use layer_clip::clip_region::{ClipRegion, ComplexClipList};
use layer_clip::clip_source::{BoxShadowClipSource, ClipSource};
use layer_clip::clip_sources::{ClipSources, Geometry};
use layer_clip::display_types::{
    BoxShadowClipMode, ClipMode, ComplexClipRegion, DevicePixelScale, IdNamespace, ImageKey,
    ImageMask, ImageRendering, LineOrientation, LineStyle, SpatialNodeIndex,
};
use layer_clip::geometry::{
    DeviceIntPoint, DeviceIntRect, DeviceIntSize, LayoutPoint, LayoutRect, LayoutSize, LayoutVector2D,
};
use layer_clip::gpu_cache::{GpuBlockData, GpuCache, GpuCacheHandle};
use layer_clip::resource_cache::{ImageRequest, ResourceCache};
use layer_clip::screen_bounds::{LayoutToWorldFastTransform, TransformedRectKind};

fn rect(x: i32, y: i32, w: i32, h: i32) -> LayoutRect {
    LayoutRect::new(LayoutPoint::new(x, y), LayoutSize::new(w, h))
}

fn device_rect(x: i32, y: i32, w: i32, h: i32) -> DeviceIntRect {
    DeviceIntRect::new(DeviceIntPoint { x, y }, DeviceIntSize { width: w, height: h })
}

fn block(a: i32, b: i32, c: i32, d: i32) -> GpuBlockData {
    GpuBlockData::new(a, b, c, d)
}

fn mask(r: LayoutRect, repeat: bool) -> ImageMask {
    ImageMask { image: ImageKey(IdNamespace(3), 9), rect: r, repeat }
}

fn shadow() -> ClipSource {
    ClipSource::new_box_shadow(
        rect(600, 630, 6000, 6015),
        BorderRadius::uniform(300),
        rect(-1200, -1170, 9600, 9615),
        200,
        BoxShadowClipMode::Inset,
    )
}

fn box_shadow(source: &ClipSource) -> BoxShadowClipSource {
    match source {
        ClipSource::BoxShadow(info) => *info,
        other => panic!("not a box shadow: {:?}", other),
    }
}

fn offset(x: i32, y: i32) -> LayoutToWorldFastTransform {
    LayoutToWorldFastTransform::Offset(LayoutVector2D::new(x, y))
}

const ONE: DevicePixelScale = DevicePixelScale(60);

#[test]
fn a_single_rectangle_is_its_own_bounds() {
    let r = rect(0, 0, 6000, 6000);
    let sources = ClipSources::new(vec![ClipSource::Rectangle(r, ClipMode::Clip)], SpatialNodeIndex(4));
    assert_eq!(sources.local_inner_rect, r);
    assert_eq!(sources.local_outer_rect, Some(r));
    assert!(sources.only_rectangular_clips);
    assert!(!sources.has_image_or_line_decoration_clip);
    assert_eq!(sources.spatial_node_index, SpatialNodeIndex(4));
    assert_eq!(sources.clips(), &[(ClipSource::Rectangle(r, ClipMode::Clip), GpuCacheHandle::new())]);
}

#[test]
fn a_single_rounded_rectangle_has_a_smaller_inner_rect() {
    let r = rect(0, 0, 6000, 6000);
    let sources = ClipSources::new(
        vec![ClipSource::new_rounded_rect(r, BorderRadius::uniform(1200), ClipMode::Clip)],
        SpatialNodeIndex(0),
    );
    assert_eq!(sources.local_outer_rect, Some(r));
    assert_eq!(sources.local_inner_rect, rect(1200, 1200, 3600, 3600));
    assert!(!sources.only_rectangular_clips);
    assert!(!sources.has_image_or_line_decoration_clip);
}

#[test]
fn no_clips() {
    let sources = ClipSources::new(vec![], SpatialNodeIndex(0));
    assert!(sources.clips().is_empty());
    assert_eq!(sources.local_inner_rect, LayoutRect::max_rect());
    assert_eq!(sources.local_outer_rect, None);
    assert!(sources.only_rectangular_clips);
    assert!(!sources.has_image_or_line_decoration_clip);
}

#[test]
fn flags_tell_the_kinds_of_clips() {
    let r = rect(0, 0, 6000, 6000);
    let line = ClipSource::new_line_decoration(r, LineStyle::Dotted, LineOrientation::Vertical, 0);
    let plain = ClipSource::Rectangle(r, ClipMode::Clip);
    let with_mask = ClipSources::new(vec![plain, ClipSource::Image(mask(r, false))], SpatialNodeIndex(0));
    assert!(!with_mask.only_rectangular_clips);
    assert!(with_mask.has_image_or_line_decoration_clip);
    let with_line = ClipSources::new(vec![line, plain], SpatialNodeIndex(0));
    assert!(!with_line.only_rectangular_clips);
    assert!(with_line.has_image_or_line_decoration_clip);
    let with_shadow = ClipSources::new(vec![plain, shadow(), plain], SpatialNodeIndex(0));
    assert!(!with_shadow.only_rectangular_clips);
    assert!(!with_shadow.has_image_or_line_decoration_clip);
    let plain_only = ClipSources::new(
        vec![plain, ClipSource::Rectangle(r, ClipMode::ClipOut)],
        SpatialNodeIndex(0),
    );
    assert!(plain_only.only_rectangular_clips);
    assert!(!plain_only.has_image_or_line_decoration_clip);
}

#[test]
fn a_region_gives_its_clips_in_a_fixed_order() {
    let main = rect(0, 0, 6000, 6000);
    let m = mask(rect(600, 600, 3000, 3000), false);
    let round = ComplexClipRegion {
        rect: rect(0, 0, 3000, 3000),
        radii: BorderRadius::uniform(2000),
        mode: ClipMode::Clip,
    };
    let square = ComplexClipRegion {
        rect: rect(1200, 1200, 600, 600),
        radii: BorderRadius::zero(),
        mode: ClipMode::ClipOut,
    };
    let region = ClipRegion {
        main,
        image_mask: Some(m),
        complex_clips: ComplexClipList::new(vec![round, square]),
    };
    let sources = ClipSources::from_region(region, SpatialNodeIndex(2));
    let clips: Vec<ClipSource> = sources.clips().iter().map(|clip| clip.0).collect();
    assert_eq!(
        clips,
        vec![
            ClipSource::Rectangle(main, ClipMode::Clip),
            ClipSource::Image(m),
            ClipSource::RoundedRectangle(rect(0, 0, 3000, 3000), BorderRadius::uniform(1500), ClipMode::Clip),
            ClipSource::Rectangle(rect(1200, 1200, 600, 600), ClipMode::ClipOut),
        ]
    );
    assert!(sources.clips().iter().all(|clip| clip.1 == GpuCacheHandle::new()));
    assert_eq!(sources.local_outer_rect, Some(rect(600, 600, 2400, 2400)));
    assert_eq!(sources.local_inner_rect, LayoutRect::zero());
    assert!(sources.has_image_or_line_decoration_clip);
    assert!(!sources.only_rectangular_clips);
    assert_eq!(sources.spatial_node_index, SpatialNodeIndex(2));
}

#[test]
fn a_region_without_mask_and_rounded_rectangles() {
    let main = rect(0, 0, 6000, 6000);
    let none: Option<ComplexClipRegion> = None;
    let sources = ClipSources::from_region(
        ClipRegion { main, image_mask: None, complex_clips: none },
        SpatialNodeIndex(0),
    );
    assert_eq!(sources.clips(), &[(ClipSource::Rectangle(main, ClipMode::Clip), GpuCacheHandle::new())]);
    assert_eq!(sources.local_inner_rect, main);
    assert_eq!(sources.local_outer_rect, Some(main));
    assert!(sources.only_rectangular_clips);
}

#[test]
fn update_writes_the_blocks_of_each_kind() {
    let r = rect(10, 20, 300, 400);
    let radii = BorderRadius {
        top_left: LayoutSize::new(60, 30),
        top_right: LayoutSize::new(120, 6),
        bottom_left: LayoutSize::new(12, 90),
        bottom_right: LayoutSize::new(6, 60),
    };
    let mut sources = ClipSources::new(
        vec![
            ClipSource::Rectangle(r, ClipMode::ClipOut),
            ClipSource::Image(mask(rect(5, 6, 70, 80), true)),
            shadow(),
            ClipSource::new_line_decoration(rect(1, 2, 3, 4), LineStyle::Wavy, LineOrientation::Horizontal, 90),
            ClipSource::RoundedRectangle(r, radii, ClipMode::Clip),
        ],
        SpatialNodeIndex(0),
    );
    let mut gpu_cache = GpuCache::new();
    let mut resource_cache = ResourceCache::new();
    sources.update(&mut gpu_cache, &mut resource_cache, ONE);

    let blocks = |index: usize| gpu_cache.get(&sources.clips()[index].1).cloned();
    assert_eq!(
        blocks(0),
        Some(vec![
            block(10, 20, 300, 400),
            block(1, 0, 0, 0),
            block(10, 20, 0, 0),
            block(0, 0, 0, 0),
            block(310, 20, 0, 0),
            block(0, 0, 0, 0),
            block(10, 420, 0, 0),
            block(0, 0, 0, 0),
            block(310, 420, 0, 0),
            block(0, 0, 0, 0),
        ])
    );
    assert_eq!(blocks(1), Some(vec![block(5, 6, 70, 80)]));
    assert_eq!(
        blocks(2),
        Some(vec![block(3000, 3060, 1, 0), block(0, 0, 0, 0), block(-1200, -1170, 9600, 9615)])
    );
    assert_eq!(blocks(3), Some(vec![block(1, 2, 3, 4), block(90, 3, 1, 0)]));
    assert_eq!(
        blocks(4),
        Some(vec![
            block(10, 20, 300, 400),
            block(0, 0, 0, 0),
            block(10, 20, 60, 30),
            block(60, 30, 0, 0),
            block(190, 20, 120, 6),
            block(120, 6, 0, 0),
            block(10, 330, 12, 90),
            block(12, 90, 0, 0),
            block(304, 360, 6, 60),
            block(6, 60, 0, 0),
        ])
    );

    // The image of the mask has been asked for, once.
    assert_eq!(
        resource_cache.requested(),
        &vec![ImageRequest { key: ImageKey(IdNamespace(3), 9), rendering: ImageRendering::Auto, tile: None }]
    );

    // The bounds and the flags are as they were.
    assert_eq!(sources.local_inner_rect, LayoutRect::zero());
    assert_eq!(sources.local_outer_rect, Some(r));
    assert!(!sources.only_rectangular_clips);
    assert!(sources.has_image_or_line_decoration_clip);
}

#[test]
fn update_gives_a_box_shadow_its_key_and_its_second_run() {
    let mut sources = ClipSources::new(vec![shadow()], SpatialNodeIndex(0));
    let before = box_shadow(&sources.clips()[0].0);
    assert_eq!(before.cache_key, None);
    let mut gpu_cache = GpuCache::new();
    let mut resource_cache = ResourceCache::new();
    sources.update(&mut gpu_cache, &mut resource_cache, DevicePixelScale(90));

    let after = box_shadow(&sources.clips()[0].0);
    assert_eq!(after.cache_key, Some(before.cache_key(DevicePixelScale(90))));
    assert_eq!(after.cache_key.unwrap().0, DeviceIntSize { width: 75, height: 77 });
    assert_eq!(after.cache_key.unwrap().1.blur_radius_dp, 3);
    assert_eq!(after.cache_handle, None);
    assert_eq!(
        BoxShadowClipSource { cache_key: None, clip_data_handle: GpuCacheHandle::new(), ..after },
        before
    );
    assert_ne!(after.clip_data_handle.location, sources.clips()[0].1.location);
    assert_eq!(
        gpu_cache.get(&after.clip_data_handle),
        Some(&vec![
            block(600, 630, 1800, 1815),
            block(0, 0, 0, 0),
            block(600, 630, 300, 300),
            block(300, 300, 0, 0),
            block(2100, 630, 300, 300),
            block(300, 300, 0, 0),
            block(600, 2145, 300, 300),
            block(300, 300, 0, 0),
            block(2100, 2145, 300, 300),
            block(300, 300, 0, 0),
        ])
    );
    assert!(resource_cache.requested().is_empty());
}

#[test]
fn a_second_update_writes_nothing() {
    let r = rect(10, 20, 300, 400);
    let mut sources = ClipSources::new(
        vec![ClipSource::Rectangle(r, ClipMode::Clip), shadow(), ClipSource::Image(mask(r, false))],
        SpatialNodeIndex(0),
    );
    let mut gpu_cache = GpuCache::new();
    let mut resource_cache = ResourceCache::new();
    sources.update(&mut gpu_cache, &mut resource_cache, ONE);
    let clips_once: Vec<(ClipSource, GpuCacheHandle)> = sources.clips().to_vec();
    let runs_once: Vec<Vec<GpuBlockData>> =
        clips_once.iter().map(|clip| gpu_cache.get(&clip.1).unwrap().clone()).collect();
    let second_run_once = gpu_cache.get(&box_shadow(&clips_once[1].0).clip_data_handle).unwrap().clone();

    sources.update(&mut gpu_cache, &mut resource_cache, ONE);
    assert_eq!(sources.clips(), &clips_once[..]);
    let runs_twice: Vec<Vec<GpuBlockData>> =
        sources.clips().iter().map(|clip| gpu_cache.get(&clip.1).unwrap().clone()).collect();
    assert_eq!(runs_twice, runs_once);
    assert_eq!(
        gpu_cache.get(&box_shadow(&sources.clips()[1].0).clip_data_handle),
        Some(&second_run_once)
    );
    // A new handle gets the next location: no run has been added.
    let mut probe = GpuCacheHandle::new();
    let mut fresh = GpuCache::new();
    for _ in 0..4 {
        let mut handle = GpuCacheHandle::new();
        fresh.request(&mut handle);
    }
    fresh.request(&mut probe);
    let mut next = GpuCacheHandle::new();
    gpu_cache.request(&mut next);
    assert_eq!(next.location, probe.location);
    // The image is asked for in every update.
    assert_eq!(resource_cache.requested().len(), 2);
}

#[test]
fn the_key_of_a_box_shadow_follows_the_scale_of_each_update() {
    let mut sources = ClipSources::new(vec![shadow()], SpatialNodeIndex(0));
    let mut gpu_cache = GpuCache::new();
    let mut resource_cache = ResourceCache::new();
    sources.update(&mut gpu_cache, &mut resource_cache, ONE);
    let at_one = box_shadow(&sources.clips()[0].0);
    assert_eq!(at_one.cache_key.unwrap().0, DeviceIntSize { width: 50, height: 51 });
    sources.update(&mut gpu_cache, &mut resource_cache, DevicePixelScale(120));
    let at_two = box_shadow(&sources.clips()[0].0);
    assert_eq!(at_two.cache_key.unwrap().0, DeviceIntSize { width: 100, height: 102 });
    assert_eq!(at_two.cache_key.unwrap().1.blur_radius_dp, 3);
    assert_eq!(at_two.clip_data_handle, at_one.clip_data_handle);
    sources.update(&mut gpu_cache, &mut resource_cache, ONE);
    assert_eq!(box_shadow(&sources.clips()[0].0), at_one);
}

#[test]
fn an_invalidated_run_is_written_again() {
    let r = rect(10, 20, 300, 400);
    let mut sources = ClipSources::new(
        vec![ClipSource::Rectangle(r, ClipMode::Clip), ClipSource::Image(mask(r, false))],
        SpatialNodeIndex(0),
    );
    let mut gpu_cache = GpuCache::new();
    let mut resource_cache = ResourceCache::new();
    sources.update(&mut gpu_cache, &mut resource_cache, ONE);
    let kept = sources.clips()[0].1;
    let ended = sources.clips()[1].1;
    gpu_cache.invalidate(&ended);
    sources.update(&mut gpu_cache, &mut resource_cache, ONE);
    assert_eq!(sources.clips()[0].1, kept);
    assert_ne!(sources.clips()[1].1, ended);
    assert!(gpu_cache.get(&ended).is_none());
    assert_eq!(gpu_cache.get(&sources.clips()[1].1), Some(&vec![block(10, 20, 300, 400)]));
}

#[test]
fn update_leaves_the_runs_of_others_alone() {
    let r = rect(10, 20, 300, 400);
    let mut gpu_cache = GpuCache::new();
    let mut resource_cache = ResourceCache::new();
    let mut other = GpuCacheHandle::new();
    let request = gpu_cache.request(&mut other).unwrap();
    request.push(&mut gpu_cache, block(7, 7, 7, 7));
    let mut first = ClipSources::new(vec![ClipSource::Image(mask(r, false))], SpatialNodeIndex(0));
    let mut second =
        ClipSources::new(vec![ClipSource::Image(mask(rect(1, 1, 1, 1), false))], SpatialNodeIndex(1));
    first.update(&mut gpu_cache, &mut resource_cache, ONE);
    second.update(&mut gpu_cache, &mut resource_cache, ONE);
    first.update(&mut gpu_cache, &mut resource_cache, ONE);
    assert_eq!(gpu_cache.get(&other), Some(&vec![block(7, 7, 7, 7)]));
    assert_eq!(gpu_cache.get(&first.clips()[0].1), Some(&vec![block(10, 20, 300, 400)]));
    assert_eq!(gpu_cache.get(&second.clips()[0].1), Some(&vec![block(1, 1, 1, 1)]));
}

#[test]
fn screen_bounds_of_a_moved_rectangle() {
    let sources = ClipSources::new(
        vec![ClipSource::Rectangle(rect(0, 0, 6000, 6000), ClipMode::Clip)],
        SpatialNodeIndex(0),
    );
    assert_eq!(
        sources.get_screen_bounds(&offset(600, 1200), ONE, None),
        (device_rect(10, 20, 100, 100), Some(device_rect(10, 20, 100, 100)))
    );
    assert_eq!(
        sources.get_screen_bounds(&offset(600, 1200), DevicePixelScale(90), None),
        (device_rect(15, 30, 150, 150), Some(device_rect(15, 30, 150, 150)))
    );
    assert_eq!(
        sources.get_screen_bounds(&offset(-600, -1200), DevicePixelScale(30), None),
        (device_rect(-5, -10, 50, 50), Some(device_rect(-5, -10, 50, 50)))
    );
}

#[test]
fn screen_bounds_are_cut_to_the_screen() {
    let sources = ClipSources::new(
        vec![ClipSource::Rectangle(rect(0, 0, 6000, 6000), ClipMode::Clip)],
        SpatialNodeIndex(0),
    );
    let screen = device_rect(0, 0, 50, 50);
    assert_eq!(
        sources.get_screen_bounds(&offset(600, 1200), ONE, Some(&screen)),
        (device_rect(10, 20, 40, 30), Some(device_rect(10, 20, 40, 30)))
    );
    assert_eq!(
        sources.get_screen_bounds(&offset(6000, 0), ONE, Some(&screen)),
        (DeviceIntRect::zero(), Some(DeviceIntRect::zero()))
    );
}

#[test]
fn screen_bounds_are_rounded_outwards() {
    let sources = ClipSources::new(
        vec![ClipSource::new_rounded_rect(rect(30, 30, 6000, 6000), BorderRadius::uniform(600), ClipMode::Clip)],
        SpatialNodeIndex(0),
    );
    assert_eq!(sources.local_inner_rect, rect(630, 630, 4800, 4800));
    assert_eq!(
        sources.get_screen_bounds(&offset(0, 15), ONE, None),
        (device_rect(10, 10, 81, 81), Some(device_rect(0, 0, 101, 101)))
    );
    assert_eq!(
        sources.get_screen_bounds(&offset(0, -45), DevicePixelScale(80), None),
        (device_rect(14, 13, 107, 107), Some(device_rect(0, -1, 134, 134)))
    );
}

#[test]
fn a_collection_without_outer_rect_has_no_outer_screen_rect() {
    let sources = ClipSources::new(
        vec![ClipSource::Rectangle(rect(0, 0, 6000, 6000), ClipMode::ClipOut)],
        SpatialNodeIndex(0),
    );
    // The inner rectangle is not known: it is the zero rectangle, which moves with the rest.
    assert_eq!(sources.local_inner_rect, LayoutRect::zero());
    assert_eq!(sources.get_screen_bounds(&offset(600, 1200), ONE, None), (device_rect(10, 20, 0, 0), None));
    assert_eq!(sources.get_screen_bounds(&offset(0, 0), ONE, None), (DeviceIntRect::zero(), None));
}

#[test]
fn the_inner_screen_rect_needs_an_axis_aligned_transform() {
    let sources = ClipSources::new(
        vec![ClipSource::Rectangle(rect(0, 0, 6000, 6000), ClipMode::Clip)],
        SpatialNodeIndex(0),
    );
    let inner = Some(device_rect(10, 20, 100, 100));
    let outer = Some(device_rect(5, 15, 110, 110));
    assert_eq!(
        sources.screen_bounds_of_projection(TransformedRectKind::AxisAligned, false, inner, outer),
        (device_rect(10, 20, 100, 100), Some(device_rect(5, 15, 110, 110)))
    );
    assert_eq!(
        sources.screen_bounds_of_projection(TransformedRectKind::Complex, false, inner, outer),
        (DeviceIntRect::zero(), Some(device_rect(5, 15, 110, 110)))
    );
    assert_eq!(
        sources.screen_bounds_of_projection(TransformedRectKind::AxisAligned, true, inner, outer),
        (DeviceIntRect::zero(), Some(device_rect(5, 15, 110, 110)))
    );
    assert_eq!(
        sources.screen_bounds_of_projection(TransformedRectKind::Complex, true, inner, outer),
        (DeviceIntRect::zero(), Some(device_rect(5, 15, 110, 110)))
    );
    assert_eq!(
        sources.screen_bounds_of_projection(TransformedRectKind::AxisAligned, false, None, None),
        (DeviceIntRect::zero(), Some(DeviceIntRect::zero()))
    );
    let unbounded = ClipSources::new(vec![], SpatialNodeIndex(0));
    assert_eq!(
        unbounded.screen_bounds_of_projection(TransformedRectKind::AxisAligned, false, inner, outer),
        (device_rect(10, 20, 100, 100), None)
    );
}

#[test]
fn a_move_is_axis_aligned_and_has_no_perspective() {
    assert_eq!(offset(1, 2).kind(), TransformedRectKind::AxisAligned);
    assert!(!offset(1, 2).has_perspective_component());
}

#[test]
fn geometry_starts_without_device_rect() {
    let r = rect(1, 2, 3, 4);
    assert_eq!(Geometry::from(r), Geometry { local_rect: r, device_rect: DeviceIntRect::zero() });
}
