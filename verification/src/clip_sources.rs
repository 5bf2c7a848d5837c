//! The clips of one node, with their bounds.

use vstd::prelude::*;
use crate::bounds::{accumulate, local_bounds, BoundsAccumulator};
use crate::clip_region::{ClipRegion, ComplexClipIterator};
use crate::clip_data::{rect_block, ClipData, ImageMaskData};
use crate::clip_source::{BoxShadowClipSource, ClipSource};
use crate::display_types::{ClipMode, ComplexClipRegion, DevicePixelScale, ImageMask, ImageRendering, SpatialNodeIndex};
use crate::geometry::{DeviceIntRect, LayoutRect};
use crate::gpu_cache::{append_run, lemma_append_run_twice, CacheLocation, GpuBlockData, GpuCache, GpuCacheHandle, GpuDataRequest};
use crate::resource_cache::{ImageRequest, ResourceCache};
use crate::screen_bounds::{calculate_screen_bounding_rect, spec_calculate_screen_bounding_rect, LayoutToWorldFastTransform, TransformedRectKind};

verus! {

/// The clips of one node, each with the handle of its run in the block store,
/// and what all of them together leave visible.
#[derive(Debug)]
pub struct ClipSources {
    pub clips: Vec<(ClipSource, GpuCacheHandle)>,
    /// A rectangle that every clip leaves visible; the zero rectangle where
    /// none is known.
    pub local_inner_rect: LayoutRect,
    /// A rectangle outside of which no clip leaves anything visible; absent
    /// where none is known.
    pub local_outer_rect: Option<LayoutRect>,
    pub only_rectangular_clips: bool,
    pub has_image_or_line_decoration_clip: bool,
    pub spatial_node_index: SpatialNodeIndex,
}

/// A local rectangle with the device rectangle that it is drawn to.
#[derive(Clone, Copy, Debug, PartialEq, Eq, Structural)]
pub struct Geometry {
    pub local_rect: LayoutRect,
    pub device_rect: DeviceIntRect,
}

/// Every clip is a plain rectangle.
pub open spec fn all_rectangles(sources: Seq<ClipSource>) -> bool {
    forall|i: int| 0 <= i < sources.len() ==> (#[trigger] sources[i]).spec_is_rect()
}

/// One of the clips is an image mask or a line decoration.
pub open spec fn any_image_or_line_decoration(sources: Seq<ClipSource>) -> bool {
    exists|i: int|
        0 <= i < sources.len() && (#[trigger] sources[i]).spec_is_image_or_line_decoration_clip()
}

/// The rounded rectangles of a clip region as clips.
pub open spec fn complex_sources(regions: Seq<ComplexClipRegion>) -> Seq<ClipSource> {
    regions.map_values(
        |region: ComplexClipRegion|
            ClipSource::spec_new_rounded_rect(region.rect, region.radii, region.mode),
    )
}

/// The clips of a clip region: its bounding rectangle, its image mask if it
/// has one, and its rounded rectangles, in this order.
pub open spec fn region_sources(
    main: LayoutRect,
    image_mask: Option<ImageMask>,
    regions: Seq<ComplexClipRegion>,
) -> Seq<ClipSource> {
    seq![ClipSource::Rectangle(main, ClipMode::Clip)] + (match image_mask {
        Some(mask) => seq![ClipSource::Image(mask)],
        None => Seq::empty(),
    }) + complex_sources(regions)
}

/// The images that the clips need, in the order of the clips.
pub open spec fn image_requests(sources: Seq<ClipSource>) -> Seq<ImageRequest>
    decreases sources.len(),
{
    if sources.len() == 0 {
        Seq::empty()
    } else {
        image_requests(sources.drop_last()) + sources.last().image_requests()
    }
}

/// The store `after` holds what the store `before` held, where it held it;
/// what it holds besides lies at locations that `before` had not handed out.
pub open spec fn cache_grew(before: GpuCache, after: GpuCache) -> bool {
    &&& before.allocated().subset_of(after.allocated())
    &&& forall|l: CacheLocation| #[trigger]
        before@.dom().contains(l) ==> after@.dom().contains(l) && after@[l] == before@[l]
    &&& forall|l: CacheLocation| #[trigger]
        after@.dom().contains(l) && !before@.dom().contains(l) ==> !before.allocated().contains(l)
}

/// A handle has its run in the store `after`. Where it had one in the store
/// `before`, handle and run are as they were. Where it had none, its run lies at
/// a location that `before` had not handed out, and holds `blocks`.
pub open spec fn slot_is_filled(
    before: GpuCache,
    after: GpuCache,
    old_handle: GpuCacheHandle,
    new_handle: GpuCacheHandle,
    blocks: Seq<GpuBlockData>,
) -> bool {
    &&& after.holds(new_handle)
    &&& if before.holds(old_handle) {
        new_handle == old_handle && after.blocks(new_handle) == before.blocks(old_handle)
    } else {
        !before.allocated().contains(new_handle.location->0) && after.blocks(new_handle) == blocks
    }
}

/// The clip `updated` with its handle is `clip` after an update between
/// the stores `before` and `after`. The run of the clip is filled with the
/// blocks of the clip. A box shadow mask has, besides, the key that it has
/// under the scale, and its second run is filled with the blocks of the rounded
/// rectangle that is blurred. Nothing else of a clip changes.
pub open spec fn clip_is_updated(
    clip: (ClipSource, GpuCacheHandle),
    updated: (ClipSource, GpuCacheHandle),
    before: GpuCache,
    after: GpuCache,
    scale: DevicePixelScale,
) -> bool {
    &&& slot_is_filled(before, after, clip.1, updated.1, clip.0.gpu_blocks())
    &&& match clip.0 {
        ClipSource::BoxShadow(a) => updated.0 matches ClipSource::BoxShadow(b) && b == (
        BoxShadowClipSource { clip_data_handle: b.clip_data_handle, ..a.with_cache_key(scale) })
            && slot_is_filled(
            before,
            after,
            a.clip_data_handle,
            b.clip_data_handle,
            a.minimal_clip_blocks(),
        ),
        _ => updated.0 == clip.0,
    }
}

/// The store knows the handle of the clip and, of a box shadow mask, the
/// handle of its second run.
pub open spec fn clip_is_known(cache: GpuCache, clip: (ClipSource, GpuCacheHandle)) -> bool {
    &&& cache.knows(clip.1)
    &&& clip.0 matches ClipSource::BoxShadow(info) ==> cache.knows(info.clip_data_handle)
}

proof fn lemma_cache_grew_twice(a: GpuCache, b: GpuCache, c: GpuCache)
    requires
        cache_grew(a, b),
        cache_grew(b, c),
    ensures
        cache_grew(a, c),
{
    b.lemma_live_is_allocated();
    assert forall|l: CacheLocation| #[trigger]
        c@.dom().contains(l) && !a@.dom().contains(l) implies !a.allocated().contains(l) by {
        if b@.dom().contains(l) {
        } else {
            assert(!b.allocated().contains(l));
        }
    }
}

/// A run that has been filled stays filled while the store grows.
proof fn lemma_slot_stays_filled(
    c0: GpuCache,
    c1: GpuCache,
    c2: GpuCache,
    old_handle: GpuCacheHandle,
    new_handle: GpuCacheHandle,
    blocks: Seq<GpuBlockData>,
)
    requires
        slot_is_filled(c0, c1, old_handle, new_handle, blocks),
        cache_grew(c1, c2),
    ensures
        slot_is_filled(c0, c2, old_handle, new_handle, blocks),
{
}

/// A run that is filled after the store has grown is filled with respect to
/// the store as it was before it grew, if that store knew the handle.
proof fn lemma_slot_filled_later(
    c0: GpuCache,
    c1: GpuCache,
    c2: GpuCache,
    old_handle: GpuCacheHandle,
    new_handle: GpuCacheHandle,
    blocks: Seq<GpuBlockData>,
)
    requires
        cache_grew(c0, c1),
        c0.knows(old_handle),
        slot_is_filled(c1, c2, old_handle, new_handle, blocks),
    ensures
        slot_is_filled(c0, c2, old_handle, new_handle, blocks),
{
    c0.lemma_live_is_allocated();
}

proof fn lemma_clip_stays_updated(
    clip: (ClipSource, GpuCacheHandle),
    updated: (ClipSource, GpuCacheHandle),
    c0: GpuCache,
    c1: GpuCache,
    c2: GpuCache,
    scale: DevicePixelScale,
)
    requires
        clip_is_updated(clip, updated, c0, c1, scale),
        cache_grew(c1, c2),
    ensures
        clip_is_updated(clip, updated, c0, c2, scale),
{
}

proof fn lemma_clip_updated_later(
    clip: (ClipSource, GpuCacheHandle),
    updated: (ClipSource, GpuCacheHandle),
    c0: GpuCache,
    c1: GpuCache,
    c2: GpuCache,
    scale: DevicePixelScale,
)
    requires
        cache_grew(c0, c1),
        clip_is_known(c0, clip),
        clip_is_updated(clip, updated, c1, c2, scale),
    ensures
        clip_is_updated(clip, updated, c0, c2, scale),
{
    c0.lemma_live_is_allocated();
}

/// Writes the blocks of a clip to the run of its handle, unless the handle has a run.
fn fill_clip_slot(gpu_cache: &mut GpuCache, handle: &mut GpuCacheHandle, source: &ClipSource)
    ensures
        slot_is_filled(
            *old(gpu_cache),
            *final(gpu_cache),
            *old(handle),
            *final(handle),
            source.gpu_blocks(),
        ),
        cache_grew(*old(gpu_cache), *final(gpu_cache)),
{
    proof {
        gpu_cache.lemma_live_is_allocated();
    }
    match gpu_cache.request(handle) {
        Some(request) => {
            write_clip_blocks(source, &request, gpu_cache);
            proof {
                assert(Seq::<GpuBlockData>::empty() + source.gpu_blocks() =~= source.gpu_blocks());
            }
        },
        None => {},
    }
}

/// Writes the rounded rectangle that a box shadow mask blurs to the second
/// run of the mask, unless the mask has that run.
fn fill_minimal_clip_slot(gpu_cache: &mut GpuCache, info: &mut BoxShadowClipSource)
    ensures
        slot_is_filled(
            *old(gpu_cache),
            *final(gpu_cache),
            old(info).clip_data_handle,
            final(info).clip_data_handle,
            old(info).minimal_clip_blocks(),
        ),
        cache_grew(*old(gpu_cache), *final(gpu_cache)),
        *final(info) == (BoxShadowClipSource {
            clip_data_handle: final(info).clip_data_handle,
            ..*old(info)
        }),
{
    proof {
        gpu_cache.lemma_live_is_allocated();
    }
    let mut clip_data_handle = info.clip_data_handle;
    match gpu_cache.request(&mut clip_data_handle) {
        Some(request) => {
            let data = ClipData::rounded_rect(
                &info.minimal_shadow_rect,
                &info.shadow_radius,
                ClipMode::Clip,
            );
            data.write(&request, gpu_cache);
            proof {
                assert(Seq::<GpuBlockData>::empty() + data.blocks() =~= data.blocks());
            }
        },
        None => {},
    }
    info.clip_data_handle = clip_data_handle;
}

/// Writes the blocks that stand for a clip to the run of a writer.
fn write_clip_blocks(source: &ClipSource, request: &GpuDataRequest, gpu_cache: &mut GpuCache)
    ensures
        final(gpu_cache)@ == append_run(old(gpu_cache)@, request.location, source.gpu_blocks()),
        final(gpu_cache).allocated() == old(gpu_cache).allocated(),
{
    match *source {
        ClipSource::Image(mask) => {
            let data = ImageMaskData { local_rect: mask.rect };
            data.write_gpu_blocks(request, gpu_cache);
        },
        ClipSource::BoxShadow(info) => {
            let size_and_mode = GpuBlockData::new(
                info.shadow_rect_alloc_size.width,
                info.shadow_rect_alloc_size.height,
                info.clip_mode.tag(),
                0,
            );
            let stretch_modes = GpuBlockData::new(
                info.stretch_mode_x.tag(),
                info.stretch_mode_y.tag(),
                0,
                0,
            );
            let prim_rect = rect_block(info.prim_shadow_rect);
            request.push(gpu_cache, size_and_mode);
            request.push(gpu_cache, stretch_modes);
            request.push(gpu_cache, prim_rect);
            proof {
                lemma_append_run_twice(
                    old(gpu_cache)@,
                    request.location,
                    seq![size_and_mode],
                    seq![stretch_modes],
                );
                lemma_append_run_twice(
                    old(gpu_cache)@,
                    request.location,
                    seq![size_and_mode] + seq![stretch_modes],
                    seq![prim_rect],
                );
                assert(seq![size_and_mode] + seq![stretch_modes] + seq![prim_rect]
                    =~= source.gpu_blocks());
            }
        },
        ClipSource::Rectangle(rect, mode) => {
            let data = ClipData::uniform(rect, 0, mode);
            data.write(request, gpu_cache);
        },
        ClipSource::RoundedRectangle(rect, radii, mode) => {
            let data = ClipData::rounded_rect(&rect, &radii, mode);
            data.write(request, gpu_cache);
        },
        ClipSource::LineDecoration(info) => {
            let rect = rect_block(info.rect);
            let line = GpuBlockData::new(
                info.wavy_line_thickness,
                info.style.tag(),
                info.orientation.tag(),
                0,
            );
            request.push(gpu_cache, rect);
            request.push(gpu_cache, line);
            proof {
                lemma_append_run_twice(old(gpu_cache)@, request.location, seq![rect], seq![line]);
                assert(seq![rect] + seq![line] =~= source.gpu_blocks());
            }
        },
    }
}

/// Brings one clip up to date: see [`clip_is_updated`].
fn update_clip(
    clip: (ClipSource, GpuCacheHandle),
    gpu_cache: &mut GpuCache,
    resource_cache: &mut ResourceCache,
    device_pixel_scale: DevicePixelScale,
) -> (r: (ClipSource, GpuCacheHandle))
    requires
        clip_is_known(*old(gpu_cache), clip),
    ensures
        clip_is_updated(clip, r, *old(gpu_cache), *final(gpu_cache), device_pixel_scale),
        cache_grew(*old(gpu_cache), *final(gpu_cache)),
        final(resource_cache)@ == old(resource_cache)@ + clip.0.image_requests(),
{
    let (source, handle) = clip;
    let mut handle = handle;
    fill_clip_slot(gpu_cache, &mut handle, &source);
    let ghost filled = *gpu_cache;

    match source {
        ClipSource::Image(mask) => {
            resource_cache.request_image(
                ImageRequest { key: mask.image, rendering: ImageRendering::Auto, tile: None },
            );
            proof {
                assert(old(resource_cache)@.push(clip.0.image_requests()[0]) =~= old(
                    resource_cache,
                )@ + clip.0.image_requests());
            }
            (source, handle)
        },
        ClipSource::BoxShadow(info) => {
            let mut info = info;
            // The key depends on the scale: it is computed anew each time,
            // whether or not the runs of the mask had to be written.
            info.cache_key = Some(info.cache_key(device_pixel_scale));
            let ghost keyed = info;
            fill_minimal_clip_slot(gpu_cache, &mut info);
            proof {
                let a = clip.0->BoxShadow_0;
                assert(keyed == a.with_cache_key(device_pixel_scale));
                lemma_slot_stays_filled(
                    *old(gpu_cache),
                    filled,
                    *gpu_cache,
                    clip.1,
                    handle,
                    clip.0.gpu_blocks(),
                );
                lemma_slot_filled_later(
                    *old(gpu_cache),
                    filled,
                    *gpu_cache,
                    a.clip_data_handle,
                    info.clip_data_handle,
                    a.minimal_clip_blocks(),
                );
                lemma_cache_grew_twice(*old(gpu_cache), filled, *gpu_cache);
                assert(old(resource_cache)@ + clip.0.image_requests() =~= old(resource_cache)@);
            }
            (ClipSource::BoxShadow(info), handle)
        },
        _ => {
            proof {
                assert(old(resource_cache)@ + clip.0.image_requests() =~= old(resource_cache)@);
            }
            (source, handle)
        },
    }
}

impl ClipSources {
    /// The clips, in their order.
    pub open spec fn sources(&self) -> Seq<ClipSource> {
        self.clips@.map_values(|clip: (ClipSource, GpuCacheHandle)| clip.0)
    }

    /// The handles of the clips, in the order of the clips.
    pub open spec fn handles(&self) -> Seq<GpuCacheHandle> {
        self.clips@.map_values(|clip: (ClipSource, GpuCacheHandle)| clip.1)
    }

    /// The bounds and the two flags are those of the clips.
    pub open spec fn is_well_formed(&self) -> bool {
        &&& (self.local_inner_rect, self.local_outer_rect) == local_bounds(self.sources())
        &&& self.only_rectangular_clips == all_rectangles(self.sources())
        &&& self.has_image_or_line_decoration_clip == any_image_or_line_decoration(self.sources())
    }

    /// The collection holds the given clips for the given node, with their
    /// bounds, and none of them has a run in a block store yet.
    pub open spec fn is_new_for(&self, clips: Seq<ClipSource>, spatial_node_index: SpatialNodeIndex) -> bool {
        &&& self.sources() == clips
        &&& forall|i: int| 0 <= i < self.clips@.len() ==> (#[trigger] self.clips@[i]).1 == GpuCacheHandle::spec_new()
        &&& self.is_well_formed()
        &&& self.spatial_node_index == spatial_node_index
    }

    /// Collects the clips of a node and computes their bounds.
    pub fn new(clips: Vec<ClipSource>, spatial_node_index: SpatialNodeIndex) -> (r: Self)
        ensures
            r.is_new_for(clips@, spatial_node_index),
    {
        let mut all: Vec<(ClipSource, GpuCacheHandle)> = Vec::new();
        let mut bounds_accum = BoundsAccumulator::new();
        let mut has_image_or_line_decoration_clip = false;
        let mut only_rectangular_clips = true;

        let mut i: usize = 0;
        while i < clips.len()
            invariant
                i <= clips.len(),
                all@.len() == i,
                forall|j: int| 0 <= j < i ==> (#[trigger] all@[j]) == (clips@[j], GpuCacheHandle::spec_new()),
                bounds_accum == accumulate(clips@.take(i as int)),
                only_rectangular_clips == all_rectangles(clips@.take(i as int)),
                has_image_or_line_decoration_clip == any_image_or_line_decoration(
                    clips@.take(i as int),
                ),
            decreases clips.len() - i,
        {
            let clip = clips[i];
            proof {
                let before = clips@.take(i as int);
                let after = clips@.take(i + 1);
                assert(after.drop_last() =~= before);
                assert(after.last() == clip);
                assert forall|j: int| 0 <= j < before.len() implies before[j] == after[j] by {}
                if any_image_or_line_decoration(before) {
                    let j = choose|j: int|
                        0 <= j < before.len() && (
                        #[trigger] before[j]).spec_is_image_or_line_decoration_clip();
                    assert(after[j].spec_is_image_or_line_decoration_clip());
                }
                if clip.spec_is_image_or_line_decoration_clip() {
                    assert(after[i as int].spec_is_image_or_line_decoration_clip());
                }
                if all_rectangles(before) && clip.spec_is_rect() {
                    assert forall|j: int| 0 <= j < after.len() implies (
                    #[trigger] after[j]).spec_is_rect() by {
                        if j < i {
                            assert(before[j].spec_is_rect());
                        }
                    }
                }
                if all_rectangles(after) {
                    assert(after[i as int].spec_is_rect());
                    assert forall|j: int| 0 <= j < before.len() implies (
                    #[trigger] before[j]).spec_is_rect() by {
                        assert(after[j].spec_is_rect());
                    }
                }
            }
            bounds_accum.add(&clip);
            has_image_or_line_decoration_clip = has_image_or_line_decoration_clip
                || clip.is_image_or_line_decoration_clip();
            only_rectangular_clips = only_rectangular_clips && clip.is_rect();
            all.push((clip, GpuCacheHandle::new()));
            i = i + 1;
        }

        let (local_inner_rect, local_outer_rect) = bounds_accum.finish();
        let r = ClipSources {
            clips: all,
            local_inner_rect,
            local_outer_rect,
            only_rectangular_clips,
            has_image_or_line_decoration_clip,
            spatial_node_index,
        };
        proof {
            assert(clips@.take(clips@.len() as int) =~= clips@);
            assert(r.sources() =~= clips@);
        }
        r
    }

    /// Collects the clips of a clip region: its bounding rectangle, its image
    /// mask if it has one, and its rounded rectangles, in this order.
    pub fn from_region<I: ComplexClipIterator>(
        region: ClipRegion<I>,
        spatial_node_index: SpatialNodeIndex,
    ) -> (r: ClipSources)
        ensures
            r.is_new_for(
                region_sources(region.main, region.image_mask, region.complex_clips.remaining()),
                spatial_node_index,
            ),
    {
        let mut clips: Vec<ClipSource> = Vec::new();
        clips.push(ClipSource::Rectangle(region.main, ClipMode::Clip));
        match region.image_mask {
            Some(mask) => {
                clips.push(ClipSource::Image(mask));
            },
            None => {},
        }
        let ghost head = clips@;
        let ghost regions = region.complex_clips.remaining();
        let mut complex_clips = region.complex_clips;
        let ghost mut done: Seq<ComplexClipRegion> = Seq::empty();
        loop
            invariant
                clips@ == head + complex_sources(done),
                done + complex_clips.remaining() == regions,
            ensures
                clips@ == head + complex_sources(regions),
            decreases complex_clips.remaining().len(),
        {
            let ghost left = complex_clips.remaining();
            match complex_clips.next_region() {
                Some(complex) => {
                    clips.push(ClipSource::new_rounded_rect(complex.rect, complex.radii, complex.mode));
                    proof {
                        assert(complex_sources(done.push(complex)) =~= complex_sources(done).push(
                            ClipSource::spec_new_rounded_rect(
                                complex.rect,
                                complex.radii,
                                complex.mode,
                            ),
                        ));
                        assert(clips@ =~= head + complex_sources(done.push(complex)));
                        assert(done.push(complex) + left.drop_first() =~= done + left);
                        done = done.push(complex);
                    }
                },
                None => {
                    proof {
                        assert(done + complex_clips.remaining() =~= done);
                    }
                    break ;
                },
            }
        }
        proof {
            assert(clips@ =~= region_sources(region.main, region.image_mask, regions));
        }
        ClipSources::new(clips, spatial_node_index)
    }

    /// The clips with their handles, in their order.
    pub fn clips(&self) -> (r: &[(ClipSource, GpuCacheHandle)])
        ensures
            r@ == self.clips@,
    {
        self.clips.as_slice()
    }
}

impl ClipSources {
    /// The store knows every handle of the collection.
    pub open spec fn is_known_to(&self, cache: GpuCache) -> bool {
        forall|i: int| 0 <= i < self.clips@.len() ==> clip_is_known(cache, #[trigger] self.clips@[i])
    }

    /// Brings the clips up to date for a frame.
    ///
    /// Every clip gets its run in the block store: a clip whose handle has a
    /// run keeps it as it is, another one gets a new run with the blocks of the
    /// clip. For every image mask the image is asked of the resource cache. For
    /// every box shadow mask the key of its sample is computed under the given
    /// scale, and the rounded rectangle that is blurred gets its run as the
    /// clips do. What the store held before, it still holds.
    pub fn update(
        &mut self,
        gpu_cache: &mut GpuCache,
        resource_cache: &mut ResourceCache,
        device_pixel_scale: DevicePixelScale,
    )
        requires
            old(self).is_known_to(*old(gpu_cache)),
        ensures
            final(self).clips@.len() == old(self).clips@.len(),
            forall|i: int|
                0 <= i < old(self).clips@.len() ==> clip_is_updated(
                    #[trigger] old(self).clips@[i],
                    final(self).clips@[i],
                    *old(gpu_cache),
                    *final(gpu_cache),
                    device_pixel_scale,
                ),
            cache_grew(*old(gpu_cache), *final(gpu_cache)),
            final(resource_cache)@ == old(resource_cache)@ + image_requests(old(self).sources()),
            final(self).local_inner_rect == old(self).local_inner_rect,
            final(self).local_outer_rect == old(self).local_outer_rect,
            final(self).only_rectangular_clips == old(self).only_rectangular_clips,
            final(self).has_image_or_line_decoration_clip == old(
                self,
            ).has_image_or_line_decoration_clip,
            final(self).spatial_node_index == old(self).spatial_node_index,
            final(self).is_known_to(*final(gpu_cache)),
            old(self).is_well_formed() ==> final(self).is_well_formed(),
    {
        let mut i: usize = 0;
        proof {
            assert(old(self).sources().take(0) =~= Seq::<ClipSource>::empty());
            assert(old(resource_cache)@ + Seq::<ImageRequest>::empty() =~= old(resource_cache)@);
        }
        while i < self.clips.len()
            invariant
                i <= self.clips@.len(),
                self.clips@.len() == old(self).clips@.len(),
                old(self).is_known_to(*old(gpu_cache)),
                forall|j: int|
                    0 <= j < i ==> clip_is_updated(
                        #[trigger] old(self).clips@[j],
                        self.clips@[j],
                        *old(gpu_cache),
                        *gpu_cache,
                        device_pixel_scale,
                    ),
                forall|j: int| i <= j < self.clips@.len() ==> self.clips@[j] == old(self).clips@[j],
                cache_grew(*old(gpu_cache), *gpu_cache),
                resource_cache@ == old(resource_cache)@ + image_requests(
                    old(self).sources().take(i as int),
                ),
                self.local_inner_rect == old(self).local_inner_rect,
                self.local_outer_rect == old(self).local_outer_rect,
                self.only_rectangular_clips == old(self).only_rectangular_clips,
                self.has_image_or_line_decoration_clip == old(self).has_image_or_line_decoration_clip,
                self.spatial_node_index == old(self).spatial_node_index,
            decreases self.clips@.len() - i,
        {
            let ghost before = *gpu_cache;
            let ghost clips_before = self.clips@;
            let ghost requests_before = resource_cache@;
            let clip = self.clips[i];
            proof {
                before.lemma_live_is_allocated();
                assert(clip_is_known(*old(gpu_cache), clip));
            }
            let updated = update_clip(clip, gpu_cache, resource_cache, device_pixel_scale);
            self.clips[i] = updated;
            proof {
                lemma_clip_updated_later(
                    clip,
                    updated,
                    *old(gpu_cache),
                    before,
                    *gpu_cache,
                    device_pixel_scale,
                );
                assert forall|j: int| 0 <= j < i + 1 implies clip_is_updated(
                    #[trigger] old(self).clips@[j],
                    self.clips@[j],
                    *old(gpu_cache),
                    *gpu_cache,
                    device_pixel_scale,
                ) by {
                    if j < i {
                        assert(self.clips@[j] == clips_before[j]);
                        lemma_clip_stays_updated(
                            old(self).clips@[j],
                            self.clips@[j],
                            *old(gpu_cache),
                            before,
                            *gpu_cache,
                            device_pixel_scale,
                        );
                    }
                }
                lemma_cache_grew_twice(*old(gpu_cache), before, *gpu_cache);
                let all = old(self).sources();
                assert(all.take(i + 1).drop_last() =~= all.take(i as int));
                assert(all.take(i + 1).last() == clip.0);
                assert(resource_cache@ =~= old(resource_cache)@ + image_requests(all.take(i + 1)));
            }
            i = i + 1;
        }
        proof {
            assert(old(self).sources().take(i as int) =~= old(self).sources());
            lemma_update_keeps_bounds(old(self).clips@, self.clips@, *old(gpu_cache), *gpu_cache, device_pixel_scale);
            assert forall|j: int| 0 <= j < self.clips@.len() implies clip_is_known(
                *gpu_cache,
                #[trigger] self.clips@[j],
            ) by {
                assert(clip_is_updated(
                    old(self).clips@[j],
                    self.clips@[j],
                    *old(gpu_cache),
                    *gpu_cache,
                    device_pixel_scale,
                ));
                gpu_cache.lemma_live_is_allocated();
            }
        }
    }
}

/// A device rectangle that may be absent, with the zero rectangle for the absent one.
pub open spec fn or_zero(rect: Option<DeviceIntRect>) -> DeviceIntRect {
    match rect {
        Some(r) => r,
        None => DeviceIntRect::spec_zero(),
    }
}

impl ClipSources {
    /// The screen bounds of the collection under a transform that is known by
    /// its kind and by the device rectangles that it gives the two local
    /// rectangles: `inner_bounds` for the inner rectangle and `outer_bounds` for
    /// the outer one, each `None` where nothing of the rectangle is on screen.
    ///
    /// The inner rectangle is taken over only from a transform that keeps
    /// rectangles axis-aligned and has no perspective part: under any other, what
    /// bounds the picture of the inner rectangle may hold clipped pixels, and the
    /// inner screen rectangle is the zero rectangle. The outer rectangle, where
    /// the collection has one, is taken over from any transform.
    pub open spec fn spec_screen_bounds_of_projection(
        &self,
        kind: TransformedRectKind,
        has_perspective_component: bool,
        inner_bounds: Option<DeviceIntRect>,
        outer_bounds: Option<DeviceIntRect>,
    ) -> (DeviceIntRect, Option<DeviceIntRect>) {
        (
            if kind == TransformedRectKind::AxisAligned && !has_perspective_component {
                or_zero(inner_bounds)
            } else {
                DeviceIntRect::spec_zero()
            },
            match self.local_outer_rect {
                Some(_) => Some(or_zero(outer_bounds)),
                None => None,
            },
        )
    }

    /// The screen bounds of the collection under a transform that is known by
    /// its kind and by the device rectangles that it gives the two local
    /// rectangles: the inner screen rectangle, then the outer one.
    #[verifier::when_used_as_spec(spec_screen_bounds_of_projection)]
    pub fn screen_bounds_of_projection(
        &self,
        kind: TransformedRectKind,
        has_perspective_component: bool,
        inner_bounds: Option<DeviceIntRect>,
        outer_bounds: Option<DeviceIntRect>,
    ) -> (r: (DeviceIntRect, Option<DeviceIntRect>))
        ensures
            r == self.spec_screen_bounds_of_projection(
                kind,
                has_perspective_component,
                inner_bounds,
                outer_bounds,
            ),
    {
        // Under a transform that turns or tilts, the rectangle that bounds the
        // picture of the inner rectangle would take in clipped screen area.
        let can_calculate_inner_rect = kind == TransformedRectKind::AxisAligned
            && !has_perspective_component;
        let screen_inner_rect = if can_calculate_inner_rect {
            match inner_bounds {
                Some(r) => r,
                None => DeviceIntRect::zero(),
            }
        } else {
            DeviceIntRect::zero()
        };
        let screen_outer_rect = match self.local_outer_rect {
            Some(_) => Some(
                match outer_bounds {
                    Some(r) => r,
                    None => DeviceIntRect::zero(),
                },
            ),
            None => None,
        };
        (screen_inner_rect, screen_outer_rect)
    }

    /// The screen bounds of the collection under a transform that moves: the
    /// device rectangles of the inner and of the outer local rectangle, as far
    /// as they lie in `screen_rect`.
    pub open spec fn spec_get_screen_bounds(
        &self,
        transform: &LayoutToWorldFastTransform,
        device_pixel_scale: DevicePixelScale,
        screen_rect: Option<&DeviceIntRect>,
    ) -> (DeviceIntRect, Option<DeviceIntRect>) {
        (
            or_zero(
                spec_calculate_screen_bounding_rect(
                    transform,
                    &self.local_inner_rect,
                    device_pixel_scale,
                    screen_rect,
                ),
            ),
            match self.local_outer_rect {
                Some(outer_rect) => Some(
                    or_zero(
                        spec_calculate_screen_bounding_rect(
                            transform,
                            &outer_rect,
                            device_pixel_scale,
                            screen_rect,
                        ),
                    ),
                ),
                None => None,
            },
        )
    }

    /// The screen bounds of the collection under a transform that moves: the
    /// inner screen rectangle, then the outer one. A rectangle of which nothing
    /// lies in `screen_rect` gives the zero rectangle; a collection without an
    /// outer rectangle has no outer screen rectangle.
    #[verifier::when_used_as_spec(spec_get_screen_bounds)]
    pub fn get_screen_bounds(
        &self,
        transform: &LayoutToWorldFastTransform,
        device_pixel_scale: DevicePixelScale,
        screen_rect: Option<&DeviceIntRect>,
    ) -> (r: (DeviceIntRect, Option<DeviceIntRect>))
        ensures
            r == self.spec_get_screen_bounds(transform, device_pixel_scale, screen_rect),
    {
        let inner_bounds = calculate_screen_bounding_rect(
            transform,
            &self.local_inner_rect,
            device_pixel_scale,
            screen_rect,
        );
        let outer_bounds = match self.local_outer_rect {
            Some(outer_rect) => calculate_screen_bounding_rect(
                transform,
                &outer_rect,
                device_pixel_scale,
                screen_rect,
            ),
            None => None,
        };
        self.screen_bounds_of_projection(
            transform.kind(),
            transform.has_perspective_component(),
            inner_bounds,
            outer_bounds,
        )
    }
}

/// A store that has grown knows every handle that it knew.
pub proof fn lemma_known_after_growth(clips: ClipSources, before: GpuCache, after: GpuCache)
    requires
        clips.is_known_to(before),
        cache_grew(before, after),
    ensures
        clips.is_known_to(after),
{
    assert forall|i: int| 0 <= i < clips.clips@.len() implies clip_is_known(
        after,
        #[trigger] clips.clips@[i],
    ) by {
        assert(clip_is_known(before, clips.clips@[i]));
    }
}

/// A clip that is up to date stays as it is in a second update, and so do its runs.
pub proof fn lemma_second_update_changes_nothing(
    clip: (ClipSource, GpuCacheHandle),
    once: (ClipSource, GpuCacheHandle),
    twice: (ClipSource, GpuCacheHandle),
    c0: GpuCache,
    c1: GpuCache,
    c2: GpuCache,
    scale: DevicePixelScale,
)
    requires
        clip_is_updated(clip, once, c0, c1, scale),
        clip_is_updated(once, twice, c1, c2, scale),
    ensures
        twice == once,
        c2.blocks(twice.1) == c1.blocks(once.1),
        once.0 matches ClipSource::BoxShadow(info) ==> c2.blocks(info.clip_data_handle) == c1.blocks(
            info.clip_data_handle,
        ),
{
}

/// An update changes nothing of a clip that its bounds or its kind depend on.
proof fn lemma_update_keeps_bounds(
    clips: Seq<(ClipSource, GpuCacheHandle)>,
    renewed: Seq<(ClipSource, GpuCacheHandle)>,
    before: GpuCache,
    after: GpuCache,
    scale: DevicePixelScale,
)
    requires
        clips.len() == renewed.len(),
        forall|j: int|
            0 <= j < clips.len() ==> clip_is_updated(#[trigger] clips[j], renewed[j], before, after, scale),
    ensures
        accumulate(renewed.map_values(|pair: (ClipSource, GpuCacheHandle)| pair.0)) == accumulate(
            clips.map_values(|pair: (ClipSource, GpuCacheHandle)| pair.0),
        ),
        all_rectangles(renewed.map_values(|pair: (ClipSource, GpuCacheHandle)| pair.0))
            == all_rectangles(clips.map_values(|pair: (ClipSource, GpuCacheHandle)| pair.0)),
        any_image_or_line_decoration(renewed.map_values(|pair: (ClipSource, GpuCacheHandle)| pair.0))
            == any_image_or_line_decoration(
            clips.map_values(|pair: (ClipSource, GpuCacheHandle)| pair.0),
        ),
    decreases clips.len(),
{
    let f = |pair: (ClipSource, GpuCacheHandle)| pair.0;
    let so = clips.map_values(f);
    let sn = renewed.map_values(f);
    assert forall|j: int| 0 <= j < clips.len() implies (#[trigger] sn[j]).spec_is_rect()
        == so[j].spec_is_rect() && sn[j].spec_is_image_or_line_decoration_clip()
        == so[j].spec_is_image_or_line_decoration_clip() by {
        assert(clip_is_updated(clips[j], renewed[j], before, after, scale));
    }
    if all_rectangles(so) {
        assert forall|j: int| 0 <= j < sn.len() implies (#[trigger] sn[j]).spec_is_rect() by {
            assert(so[j].spec_is_rect());
        }
    }
    if all_rectangles(sn) {
        assert forall|j: int| 0 <= j < so.len() implies (#[trigger] so[j]).spec_is_rect() by {
            assert(sn[j].spec_is_rect());
        }
    }
    if any_image_or_line_decoration(so) {
        let j = choose|j: int|
            0 <= j < so.len() && (#[trigger] so[j]).spec_is_image_or_line_decoration_clip();
        assert(sn[j].spec_is_image_or_line_decoration_clip());
    }
    if any_image_or_line_decoration(sn) {
        let j = choose|j: int|
            0 <= j < sn.len() && (#[trigger] sn[j]).spec_is_image_or_line_decoration_clip();
        assert(so[j].spec_is_image_or_line_decoration_clip());
    }
    if clips.len() > 0 {
        assert(clip_is_updated(clips.last(), renewed.last(), before, after, scale));
        assert forall|j: int| 0 <= j < clips.drop_last().len() implies clip_is_updated(
            #[trigger] clips.drop_last()[j],
            renewed.drop_last()[j],
            before,
            after,
            scale,
        ) by {
            assert(clip_is_updated(clips[j], renewed[j], before, after, scale));
        }
        lemma_update_keeps_bounds(clips.drop_last(), renewed.drop_last(), before, after, scale);
        assert(so.drop_last() =~= clips.drop_last().map_values(f));
        assert(sn.drop_last() =~= renewed.drop_last().map_values(f));
    }
}

impl Geometry {
    /// The geometry of a local rectangle that has not been drawn yet: its
    /// device rectangle is the zero rectangle.
    pub open spec fn spec_from(local_rect: LayoutRect) -> Geometry {
        Geometry { local_rect, device_rect: DeviceIntRect::spec_zero() }
    }
}

impl From<LayoutRect> for Geometry {
    fn from(local_rect: LayoutRect) -> (r: Geometry) {
        Geometry { local_rect, device_rect: DeviceIntRect::zero() }
    }
}

impl vstd::std_specs::convert::FromSpecImpl<LayoutRect> for Geometry {
    open spec fn obeys_from_spec() -> bool {
        true
    }

    open spec fn from_spec(local_rect: LayoutRect) -> Geometry {
        Geometry::spec_from(local_rect)
    }
}

} // verus!
