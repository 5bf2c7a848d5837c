//! The box shadow primitive: its key, its template, and the clips that shape it.
//!
//! A box shadow is the blurred silhouette of a rounded box, moved and spread.
//! An outset shadow shows outside the box only, an inset shadow inside it only.
//! The primitive is a plain rectangle of the shadow's colour; all of its shape
//! comes from the clips that are laid on it.

use vstd::prelude::*;
use crate::border_radius::{adjust_border_radius_for_box_shadow, ensure_no_corner_overlap, spec_adjust_border_radius_for_box_shadow, spec_ensure_no_corner_overlap, BorderRadius};
use crate::clip_source::BLUR_SAMPLE_SCALE;
use crate::display_types::{BoxShadowClipMode, ClipMode};
use crate::geometry::{min_int, LayoutPoint, LayoutRect, LayoutSize, LayoutVector2D};
use crate::gpu_cache::{append_run, GpuBlockData, GpuCache, GpuCacheHandle, GpuDataRequest};
use crate::units::{ceil_px, ceil_to_pixel, fract_of_pixel, fract_px, saturate, saturate_spec};

verus! {

/// The largest blur radius that a shadow is drawn with: 300 pixels.
pub const MAX_BLUR_RADIUS: i32 = 18_000;

/// A colour with red, green, blue and alpha in 255ths.
#[derive(Clone, Copy, Debug, PartialEq, Eq, Structural)]
pub struct ColorU {
    pub r: u8,
    pub g: u8,
    pub b: u8,
    pub a: u8,
}

/// What a display item says of the primitive that it stands for.
#[derive(Clone, Copy, Debug, PartialEq, Eq, Structural)]
pub struct LayoutPrimitiveInfo {
    pub rect: LayoutRect,
    pub clip_rect: LayoutRect,
    pub is_backface_visible: bool,
}

/// The part of a primitive key that all kinds of primitives share.
#[derive(Clone, Copy, Debug, PartialEq, Eq, Structural)]
pub struct PrimKeyCommonData {
    pub is_backface_visible: bool,
    pub prim_size: LayoutSize,
}

/// Whether a primitive hides all that lies under it.
#[derive(Clone, Copy, Debug, PartialEq, Eq, Structural)]
pub struct PrimitiveOpacity {
    pub is_opaque: bool,
}

/// The part of a primitive template that all kinds of primitives share.
#[derive(Clone, Copy, Debug, PartialEq, Eq)]
pub struct PrimTemplateCommonData {
    pub is_backface_visible: bool,
    pub prim_size: LayoutSize,
    pub opacity: PrimitiveOpacity,
    /// The run of the primitive in the block store.
    pub gpu_cache_handle: GpuCacheHandle,
}

/// What tells one box shadow from another.
#[derive(Clone, Copy, Debug, PartialEq, Eq, Structural)]
pub struct BoxShadow {
    pub color: ColorU,
    pub box_offset: LayoutVector2D,
    pub spread_radius: i32,
    pub blur_radius: i32,
    pub border_radius: BorderRadius,
    pub clip_mode: BoxShadowClipMode,
}

/// The key under which a box shadow is interned.
#[derive(Clone, Copy, Debug, PartialEq, Eq, Structural)]
pub struct BoxShadowKey {
    pub common: PrimKeyCommonData,
    pub kind: BoxShadow,
}

/// A box shadow as the frame builder works with it.
#[derive(Clone, Copy, Debug, PartialEq, Eq, Structural)]
pub struct BoxShadowData {
    pub color: ColorU,
    pub box_offset: LayoutVector2D,
    pub spread_radius: i32,
    pub blur_radius: i32,
    pub border_radius: BorderRadius,
    pub clip_mode: BoxShadowClipMode,
}

/// The interned form of a box shadow.
#[derive(Clone, Copy, Debug, PartialEq, Eq)]
pub struct BoxShadowTemplate {
    pub common: PrimTemplateCommonData,
    pub kind: BoxShadowData,
}

/// The handle of an interned box shadow.
#[derive(Clone, Copy, Debug, PartialEq, Eq, Structural)]
pub struct BoxShadowDataHandle {
    pub index: u32,
    pub epoch: u32,
}

/// The index of an opacity binding of a primitive instance.
#[derive(Clone, Copy, Debug, PartialEq, Eq, Structural)]
pub struct OpacityBindingIndex(pub u32);

/// The index of the segments of a primitive instance.
#[derive(Clone, Copy, Debug, PartialEq, Eq, Structural)]
pub struct SegmentInstanceIndex(pub u32);

/// What an instance of a primitive holds, by the kind of the primitive.
#[derive(Clone, Copy, Debug, PartialEq, Eq, Structural)]
pub enum PrimitiveInstanceKind {
    BoxShadow {
        data_handle: BoxShadowDataHandle,
        opacity_binding_index: OpacityBindingIndex,
        segment_instance_index: SegmentInstanceIndex,
    },
}

/// A clip as it is interned: a shape without its place.
#[derive(Clone, Copy, Debug, PartialEq, Eq, Structural)]
pub enum ClipItemKey {
    Rectangle(LayoutSize, ClipMode),
    RoundedRectangle(LayoutSize, BorderRadius, ClipMode),
    /// The mask of a box shadow, by the sub-pixel part of the origin of the
    /// shadow, its size, its radii, the rectangle of the primitive that it is
    /// drawn in, its blur radius and its mode.
    BoxShadow(LayoutPoint, LayoutSize, BorderRadius, LayoutRect, i32, BoxShadowClipMode),
}

impl OpacityBindingIndex {
    /// The index that stands for no binding.
    pub open spec fn spec_invalid() -> OpacityBindingIndex {
        OpacityBindingIndex(u32::MAX)
    }

    /// The index that stands for no binding.
    #[verifier::when_used_as_spec(spec_invalid)]
    pub fn invalid() -> (r: Self)
        ensures
            r == Self::spec_invalid(),
    {
        OpacityBindingIndex(u32::MAX)
    }
}

impl SegmentInstanceIndex {
    /// The index that stands for segments not built yet.
    pub open spec fn spec_invalid() -> SegmentInstanceIndex {
        SegmentInstanceIndex(u32::MAX)
    }

    /// The index that stands for segments not built yet.
    #[verifier::when_used_as_spec(spec_invalid)]
    pub fn invalid() -> (r: Self)
        ensures
            r == Self::spec_invalid(),
    {
        SegmentInstanceIndex(u32::MAX)
    }
}

impl ColorU {
    /// The block of the colour with red, green and blue multiplied by alpha.
    /// The four numbers are in 65025ths, the square of 255.
    pub open spec fn spec_premultiplied(&self) -> GpuBlockData {
        GpuBlockData::spec_new(
            (self.r * self.a) as i32,
            (self.g * self.a) as i32,
            (self.b * self.a) as i32,
            (self.a * 255) as i32,
        )
    }

    /// The block of the colour with red, green and blue multiplied by alpha.
    #[verifier::when_used_as_spec(spec_premultiplied)]
    pub fn premultiplied(&self) -> (r: GpuBlockData)
        ensures
            r == self.spec_premultiplied(),
    {
        let a: i32 = self.a as i32;
        assert(self.r * self.a <= 255 * 255 && self.g * self.a <= 255 * 255 && self.b * self.a <= 255
            * 255) by (nonlinear_arith);
        GpuBlockData::new(self.r as i32 * a, self.g as i32 * a, self.b as i32 * a, a * 255)
    }
}

impl PrimitiveOpacity {
    /// A primitive is opaque where its alpha is the largest there is.
    pub open spec fn spec_from_alpha(alpha: u8) -> PrimitiveOpacity {
        PrimitiveOpacity { is_opaque: alpha == 255 }
    }

    /// A primitive is opaque where its alpha is the largest there is.
    #[verifier::when_used_as_spec(spec_from_alpha)]
    pub fn from_alpha(alpha: u8) -> (r: Self)
        ensures
            r == Self::spec_from_alpha(alpha),
    {
        PrimitiveOpacity { is_opaque: alpha == 255 }
    }
}

impl PrimKeyCommonData {
    /// What the key keeps of the display item: the side that shows and the size.
    pub open spec fn spec_with_info(info: &LayoutPrimitiveInfo) -> PrimKeyCommonData {
        PrimKeyCommonData { is_backface_visible: info.is_backface_visible, prim_size: info.rect.size }
    }

    /// What the key keeps of the display item: the side that shows and the size.
    #[verifier::when_used_as_spec(spec_with_info)]
    pub fn with_info(info: &LayoutPrimitiveInfo) -> (r: Self)
        ensures
            r == Self::spec_with_info(info),
    {
        PrimKeyCommonData { is_backface_visible: info.is_backface_visible, prim_size: info.rect.size }
    }
}

impl PrimTemplateCommonData {
    /// The common part of a template that is made from a key: not opaque, and
    /// without a run in the block store.
    pub open spec fn spec_with_key_common(common: PrimKeyCommonData) -> PrimTemplateCommonData {
        PrimTemplateCommonData {
            is_backface_visible: common.is_backface_visible,
            prim_size: common.prim_size,
            opacity: PrimitiveOpacity { is_opaque: false },
            gpu_cache_handle: GpuCacheHandle::spec_new(),
        }
    }

    /// The common part of a template that is made from a key.
    #[verifier::when_used_as_spec(spec_with_key_common)]
    pub fn with_key_common(common: PrimKeyCommonData) -> (r: Self)
        ensures
            r == Self::spec_with_key_common(common),
    {
        PrimTemplateCommonData {
            is_backface_visible: common.is_backface_visible,
            prim_size: common.prim_size,
            opacity: PrimitiveOpacity { is_opaque: false },
            gpu_cache_handle: GpuCacheHandle::new(),
        }
    }
}

impl BoxShadowKey {
    /// The key of a box shadow that a display item stands for.
    pub open spec fn spec_new(info: &LayoutPrimitiveInfo, box_shadow: BoxShadow) -> BoxShadowKey {
        BoxShadowKey { common: PrimKeyCommonData::spec_with_info(info), kind: box_shadow }
    }

    /// The key of a box shadow that a display item stands for.
    #[verifier::when_used_as_spec(spec_new)]
    pub fn new(info: &LayoutPrimitiveInfo, box_shadow: BoxShadow) -> (r: Self)
        ensures
            r == Self::spec_new(info, box_shadow),
    {
        BoxShadowKey { common: PrimKeyCommonData::with_info(info), kind: box_shadow }
    }
}

impl BoxShadow {
    /// The key of this box shadow for a display item.
    pub fn into_key(self, info: &LayoutPrimitiveInfo) -> (r: BoxShadowKey)
        ensures
            r == BoxShadowKey::spec_new(info, self),
    {
        BoxShadowKey::new(info, self)
    }

    /// What an instance of an interned box shadow holds at first: the handle,
    /// no opacity binding, and segments not built yet.
    pub fn make_instance_kind(
        _key: BoxShadowKey,
        data_handle: BoxShadowDataHandle,
        _reference_frame_relative_offset: LayoutVector2D,
    ) -> (r: PrimitiveInstanceKind)
        ensures
            r == (PrimitiveInstanceKind::BoxShadow {
                data_handle,
                opacity_binding_index: OpacityBindingIndex::spec_invalid(),
                segment_instance_index: SegmentInstanceIndex::spec_invalid(),
            }),
    {
        PrimitiveInstanceKind::BoxShadow {
            data_handle,
            opacity_binding_index: OpacityBindingIndex::invalid(),
            segment_instance_index: SegmentInstanceIndex::invalid(),
        }
    }

    /// A shadow shows unless its colour is fully transparent.
    pub open spec fn spec_is_visible(&self) -> bool {
        self.color.a > 0
    }

    /// A shadow shows unless its colour is fully transparent.
    #[verifier::when_used_as_spec(spec_is_visible)]
    pub fn is_visible(&self) -> (r: bool)
        ensures
            r == self.spec_is_visible(),
    {
        self.color.a > 0
    }
}

impl BoxShadowData {
    /// The one block of a box shadow: its colour, multiplied by its alpha.
    pub open spec fn blocks(&self) -> Seq<GpuBlockData> {
        seq![self.color.spec_premultiplied()]
    }

    /// Appends the block of the box shadow to the run of a writer.
    pub fn write_prim_gpu_blocks(&self, request: &GpuDataRequest, cache: &mut GpuCache)
        ensures
            final(cache)@ == append_run(old(cache)@, request.location, self.blocks()),
            final(cache).allocated() == old(cache).allocated(),
    {
        request.push(cache, self.color.premultiplied());
    }
}

impl BoxShadowTemplate {
    /// The template of a key: the shadow of the key, not opaque, without a run
    /// in the block store.
    pub open spec fn spec_from(box_shadow: BoxShadowKey) -> BoxShadowTemplate {
        BoxShadowTemplate {
            common: PrimTemplateCommonData::spec_with_key_common(box_shadow.common),
            kind: BoxShadowData {
                color: box_shadow.kind.color,
                box_offset: box_shadow.kind.box_offset,
                spread_radius: box_shadow.kind.spread_radius,
                blur_radius: box_shadow.kind.blur_radius,
                border_radius: box_shadow.kind.border_radius,
                clip_mode: box_shadow.kind.clip_mode,
            },
        }
    }

    /// Brings the template up to date for a frame: its colour is written to
    /// the block store unless its run there is live, and it is opaque where its
    /// colour is.
    pub fn update(&mut self, gpu_cache: &mut GpuCache)
        ensures
            final(self).kind == old(self).kind,
            final(self).common == (PrimTemplateCommonData {
                opacity: PrimitiveOpacity::spec_from_alpha(old(self).kind.color.a),
                gpu_cache_handle: final(self).common.gpu_cache_handle,
                ..old(self).common
            }),
            final(gpu_cache).holds(final(self).common.gpu_cache_handle),
            old(gpu_cache).holds(old(self).common.gpu_cache_handle) ==> {
                &&& final(self).common.gpu_cache_handle == old(self).common.gpu_cache_handle
                &&& final(gpu_cache)@ == old(gpu_cache)@
            },
            !old(gpu_cache).holds(old(self).common.gpu_cache_handle) ==> {
                let location = final(self).common.gpu_cache_handle.location->0;
                &&& !old(gpu_cache).allocated().contains(location)
                &&& final(gpu_cache)@ == old(gpu_cache)@.insert(location, old(self).kind.blocks())
            },
    {
        let mut handle = self.common.gpu_cache_handle;
        match gpu_cache.request(&mut handle) {
            Some(request) => {
                self.kind.write_prim_gpu_blocks(&request, gpu_cache);
                proof {
                    assert(Seq::<GpuBlockData>::empty() + self.kind.blocks() =~= self.kind.blocks());
                    assert(gpu_cache@ =~= old(gpu_cache)@.insert(
                        request.location,
                        old(self).kind.blocks(),
                    ));
                }
            },
            None => {},
        }
        self.common.gpu_cache_handle = handle;
        self.common.opacity = PrimitiveOpacity::from_alpha(self.kind.color.a);
    }
}

impl ClipItemKey {
    /// The key of a rectangle of the given size with the given radii: that of
    /// a plain rectangle where all corners are square, else that of a rounded
    /// rectangle whose radii have been scaled down so that no two corners overlap.
    pub open spec fn spec_rounded_rect(size: LayoutSize, radii: BorderRadius, mode: ClipMode) -> ClipItemKey {
        if radii.spec_is_zero() {
            ClipItemKey::Rectangle(size, mode)
        } else {
            ClipItemKey::RoundedRectangle(size, spec_ensure_no_corner_overlap(radii, size), mode)
        }
    }

    /// The key of a rectangle of the given size with the given radii.
    #[verifier::when_used_as_spec(spec_rounded_rect)]
    pub fn rounded_rect(size: LayoutSize, radii: BorderRadius, mode: ClipMode) -> (r: ClipItemKey)
        ensures
            r == Self::spec_rounded_rect(size, radii, mode),
    {
        if radii.is_zero() {
            ClipItemKey::Rectangle(size, mode)
        } else {
            let mut radii = radii;
            let rect = LayoutRect { origin: LayoutPoint { x: 0, y: 0 }, size };
            ensure_no_corner_overlap(&mut radii, &rect);
            ClipItemKey::RoundedRectangle(size, radii, mode)
        }
    }

    /// The key of the mask of a box shadow. Of the origin of the shadow it
    /// keeps the sub-pixel part only.
    pub open spec fn spec_box_shadow(
        shadow_rect: LayoutRect,
        shadow_radius: BorderRadius,
        prim_shadow_rect: LayoutRect,
        blur_radius: i32,
        clip_mode: BoxShadowClipMode,
    ) -> ClipItemKey {
        ClipItemKey::BoxShadow(
            LayoutPoint {
                x: fract_px(shadow_rect.origin.x as int) as i32,
                y: fract_px(shadow_rect.origin.y as int) as i32,
            },
            shadow_rect.size,
            shadow_radius,
            prim_shadow_rect,
            blur_radius,
            clip_mode,
        )
    }

    /// The key of the mask of a box shadow.
    #[verifier::when_used_as_spec(spec_box_shadow)]
    pub fn box_shadow(
        shadow_rect: LayoutRect,
        shadow_radius: BorderRadius,
        prim_shadow_rect: LayoutRect,
        blur_radius: i32,
        clip_mode: BoxShadowClipMode,
    ) -> (r: ClipItemKey)
        ensures
            r == Self::spec_box_shadow(
                shadow_rect,
                shadow_radius,
                prim_shadow_rect,
                blur_radius,
                clip_mode,
            ),
    {
        ClipItemKey::BoxShadow(
            LayoutPoint {
                x: fract_of_pixel(shadow_rect.origin.x),
                y: fract_of_pixel(shadow_rect.origin.y),
            },
            shadow_rect.size,
            shadow_radius,
            prim_shadow_rect,
            blur_radius,
            clip_mode,
        )
    }
}

/// A 32-bit length with its sign turned; the least length turns into the greatest.
pub open spec fn negated(v: i32) -> i32 {
    saturate_spec(-v)
}

fn negate(v: i32) -> (r: i32)
    ensures
        r == negated(v),
{
    saturate(-(v as i64))
}

impl BoxShadowData {
    /// By how much the box of the shadow grows on each side: an outset shadow
    /// grows with the spread radius, an inset shadow shrinks with it.
    pub open spec fn spread_amount(&self) -> i32 {
        match self.clip_mode {
            BoxShadowClipMode::Outset => self.spread_radius,
            BoxShadowClipMode::Inset => negated(self.spread_radius),
        }
    }

    /// How the box itself clips the shadow: an outset shadow shows outside
    /// the box, an inset shadow inside it.
    pub open spec fn prim_clip_mode(&self) -> ClipMode {
        match self.clip_mode {
            BoxShadowClipMode::Outset => ClipMode::ClipOut,
            BoxShadowClipMode::Inset => ClipMode::Clip,
        }
    }

    /// The blur radius that the shadow is drawn with: its own, held down to
    /// the largest that is drawn.
    pub open spec fn used_blur_radius(&self) -> i32 {
        min_int(self.blur_radius as int, MAX_BLUR_RADIUS as int) as i32
    }

    /// The corner radii of the shadow: those of the box, spread.
    pub open spec fn shadow_radius(&self) -> BorderRadius {
        spec_adjust_border_radius_for_box_shadow(self.border_radius, self.spread_amount())
    }

    /// The rectangle of the shadow of a box: the box moved by the offset of
    /// the shadow and grown by its spread.
    pub open spec fn spec_shadow_rect(&self, prim_rect: LayoutRect) -> LayoutRect {
        prim_rect.spec_translate(&self.box_offset).spec_inflate(
            self.spread_amount(),
            self.spread_amount(),
        )
    }

    /// The rectangle of the shadow of a box: the box moved by the offset of
    /// the shadow and grown by its spread.
    #[verifier::when_used_as_spec(spec_shadow_rect)]
    pub fn shadow_rect(&self, prim_rect: LayoutRect) -> (r: LayoutRect)
        ensures
            r == self.spec_shadow_rect(prim_rect),
    {
        let spread_amount: i32 = match self.clip_mode {
            BoxShadowClipMode::Outset => self.spread_radius,
            BoxShadowClipMode::Inset => negate(self.spread_radius),
        };
        prim_rect.translate(&self.box_offset).inflate(spread_amount, spread_amount)
    }
}

/// The clips of a rectangle of a primitive: each with the point that it is placed at.
pub type PlacedClips = Seq<(LayoutPoint, ClipItemKey)>;

impl BoxShadowTemplate {
    /// The rectangle that is drawn for the shadow of a box and the clips that
    /// shape it, or `None` where nothing of the shadow can show.
    ///
    /// `snapped` is the rectangle of the shadow after it has been snapped to
    /// device pixels, or `None` where it could not be snapped: then the
    /// rectangle of the shadow stands for it.
    ///
    /// Without blur, a shadow that is neither moved nor spread shows nothing.
    /// An outset shadow is the rectangle of the shadow without the box; it
    /// needs a shadow rectangle with both sides positive. An inset shadow is
    /// the box without the rectangle of the shadow.
    ///
    /// With blur, the box clips the primitive, from outside for an outset
    /// shadow and from inside for an inset one, and the mask of the shadow is
    /// laid over it. An outset shadow is drawn as far as the blur reaches round
    /// the rectangle of the shadow. An inset shadow is drawn in the box; it
    /// shows nothing where the box has square corners and lies in the rectangle
    /// of the shadow shrunk by the blur radius, and it is drawn without the
    /// mask where the rectangle of the shadow has a side that is not positive.
    pub open spec fn spec_snap(&self, prim_rect: LayoutRect, snapped: Option<LayoutRect>) -> Option<
        (LayoutRect, PlacedClips),
    > {
        let data = self.kind;
        let spread = data.spread_amount();
        let blur = data.used_blur_radius();
        let shadow_radius = data.shadow_radius();
        let shadow_rect = match snapped {
            Some(r) => r,
            None => data.spec_shadow_rect(prim_rect),
        };
        if blur == 0 {
            if data.box_offset.x == 0 && data.box_offset.y == 0 && spread == 0 {
                None
            } else {
                match data.clip_mode {
                    BoxShadowClipMode::Outset => {
                        if !shadow_rect.spec_is_well_formed_and_nonempty() {
                            None
                        } else {
                            Some(
                                (
                                    shadow_rect,
                                    seq![
                                        (
                                            prim_rect.origin,
                                            ClipItemKey::spec_rounded_rect(
                                                prim_rect.size,
                                                data.border_radius,
                                                ClipMode::ClipOut,
                                            ),
                                        ),
                                        (
                                            shadow_rect.origin,
                                            ClipItemKey::spec_rounded_rect(
                                                shadow_rect.size,
                                                shadow_radius,
                                                ClipMode::Clip,
                                            ),
                                        ),
                                    ],
                                ),
                            )
                        }
                    },
                    BoxShadowClipMode::Inset => {
                        let cut: PlacedClips = if shadow_rect.spec_is_well_formed_and_nonempty() {
                            seq![
                                (
                                    shadow_rect.origin,
                                    ClipItemKey::spec_rounded_rect(
                                        shadow_rect.size,
                                        shadow_radius,
                                        ClipMode::ClipOut,
                                    ),
                                ),
                            ]
                        } else {
                            Seq::empty()
                        };
                        Some(
                            (
                                prim_rect,
                                cut.push(
                                    (
                                        prim_rect.origin,
                                        ClipItemKey::spec_rounded_rect(
                                            prim_rect.size,
                                            data.border_radius,
                                            ClipMode::Clip,
                                        ),
                                    ),
                                ),
                            ),
                        )
                    },
                }
            }
        } else {
            let blur_offset = saturate_spec(ceil_px(3 * blur));
            let dest_rect = shadow_rect.spec_inflate(blur_offset, blur_offset);
            let box_clip = (
                prim_rect.origin,
                ClipItemKey::spec_rounded_rect(
                    prim_rect.size,
                    data.border_radius,
                    data.prim_clip_mode(),
                ),
            );
            let mask = (
                prim_rect.origin,
                ClipItemKey::spec_box_shadow(
                    shadow_rect,
                    shadow_radius,
                    dest_rect.spec_translate(
                        &LayoutVector2D {
                            x: negated(prim_rect.origin.x),
                            y: negated(prim_rect.origin.y),
                        },
                    ),
                    blur,
                    data.clip_mode,
                ),
            );
            match data.clip_mode {
                BoxShadowClipMode::Outset => {
                    if !shadow_rect.spec_is_well_formed_and_nonempty() {
                        None
                    } else {
                        Some((dest_rect, seq![box_clip, mask]))
                    }
                },
                BoxShadowClipMode::Inset => {
                    if data.border_radius.spec_is_zero() && shadow_rect.spec_inflate(
                        negated(blur),
                        negated(blur),
                    ).spec_contains_rect(&prim_rect) {
                        None
                    } else if shadow_rect.spec_is_well_formed_and_nonempty() {
                        Some((prim_rect, seq![box_clip, mask]))
                    } else {
                        Some((prim_rect, seq![box_clip]))
                    }
                },
            }
        }
    }

    /// The rectangle that is drawn for the shadow of a box and the clips that
    /// shape it, each with the point that it is placed at, or `None` where
    /// nothing of the shadow can show. `snapped` is the rectangle of the shadow
    /// (see [`BoxShadowData::shadow_rect`]) snapped to device pixels, or `None`
    /// where it could not be snapped.
    pub fn snap(&self, prim_rect: LayoutRect, snapped: Option<LayoutRect>) -> (r: Option<
        (LayoutRect, Vec<(LayoutPoint, ClipItemKey)>),
    >)
        ensures
            match r {
                Some((rect, clips)) => self.spec_snap(prim_rect, snapped) == Some((rect, clips@)),
                None => self.spec_snap(prim_rect, snapped) is None,
            },
    {
        // Inset shadows get smaller as the spread radius grows.
        let (spread_amount, prim_clip_mode) = match self.kind.clip_mode {
            BoxShadowClipMode::Outset => (self.kind.spread_radius, ClipMode::ClipOut),
            BoxShadowClipMode::Inset => (negate(self.kind.spread_radius), ClipMode::Clip),
        };

        // Keep the blur radius within what is drawn.
        let blur_radius: i32 = if self.kind.blur_radius <= MAX_BLUR_RADIUS {
            self.kind.blur_radius
        } else {
            MAX_BLUR_RADIUS
        };

        let shadow_radius = adjust_border_radius_for_box_shadow(
            self.kind.border_radius,
            spread_amount,
        );
        let snapped_shadow_rect = match snapped {
            Some(r) => r,
            None => self.kind.shadow_rect(prim_rect),
        };

        let mut clips: Vec<(LayoutPoint, ClipItemKey)> = Vec::new();

        let final_shadow_rect = if blur_radius == 0 {
            // Without blur, a shadow that lies under its box shows nothing.
            if self.kind.box_offset.x == 0 && self.kind.box_offset.y == 0 && spread_amount == 0 {
                return None;
            }
            let (final_prim_rect, clip_radius) = match self.kind.clip_mode {
                BoxShadowClipMode::Outset => {
                    if !snapped_shadow_rect.is_well_formed_and_nonempty() {
                        return None;
                    }
                    clips.push(
                        (
                            prim_rect.origin,
                            ClipItemKey::rounded_rect(
                                prim_rect.size,
                                self.kind.border_radius,
                                ClipMode::ClipOut,
                            ),
                        ),
                    );
                    (snapped_shadow_rect, shadow_radius)
                },
                BoxShadowClipMode::Inset => {
                    if snapped_shadow_rect.is_well_formed_and_nonempty() {
                        clips.push(
                            (
                                snapped_shadow_rect.origin,
                                ClipItemKey::rounded_rect(
                                    snapped_shadow_rect.size,
                                    shadow_radius,
                                    ClipMode::ClipOut,
                                ),
                            ),
                        );
                    }
                    (prim_rect, self.kind.border_radius)
                },
            };
            clips.push(
                (
                    final_prim_rect.origin,
                    ClipItemKey::rounded_rect(final_prim_rect.size, clip_radius, ClipMode::Clip),
                ),
            );
            final_prim_rect
        } else {
            // How far the blur reaches.
            let blur_offset: i32 = saturate(
                ceil_to_pixel(BLUR_SAMPLE_SCALE as i64 * blur_radius as i64),
            );

            // The box itself clips what the primitive shows of the shadow.
            clips.push(
                (
                    prim_rect.origin,
                    ClipItemKey::rounded_rect(
                        prim_rect.size,
                        self.kind.border_radius,
                        prim_clip_mode,
                    ),
                ),
            );

            // Where the shadow is drawn, with room for the blur.
            let dest_rect = snapped_shadow_rect.inflate(blur_offset, blur_offset);

            let back = LayoutVector2D {
                x: negate(prim_rect.origin.x),
                y: negate(prim_rect.origin.y),
            };
            let shadow_clip_source = ClipItemKey::box_shadow(
                snapped_shadow_rect,
                shadow_radius,
                dest_rect.translate(&back),
                blur_radius,
                self.kind.clip_mode,
            );

            match self.kind.clip_mode {
                BoxShadowClipMode::Outset => {
                    // A spread that eats up the box leaves no shadow.
                    if !snapped_shadow_rect.is_well_formed_and_nonempty() {
                        return None;
                    }
                    clips.push((prim_rect.origin, shadow_clip_source));
                    // An outset shadow reaches beyond its box.
                    dest_rect
                },
                BoxShadowClipMode::Inset => {
                    // Where the unblurred middle of the shadow covers the
                    // box, no pixel of the box is shadowed.
                    if self.kind.border_radius.is_zero() && snapped_shadow_rect.inflate(
                        negate(blur_radius),
                        negate(blur_radius),
                    ).contains_rect(&prim_rect) {
                        return None;
                    }
                    // An inset shadow without a shadow rectangle is a box
                    // filled with the colour of the shadow.
                    if snapped_shadow_rect.is_well_formed_and_nonempty() {
                        clips.push((prim_rect.origin, shadow_clip_source));
                    }
                    // An inset shadow is drawn inside its box.
                    prim_rect
                },
            }
        };
        proof {
            let want = self.spec_snap(prim_rect, snapped);
            assert(want is Some);
            let wanted = want.unwrap();
            assert(clips@ =~= wanted.1);
        }
        Some((final_shadow_rect, clips))
    }
}

impl From<BoxShadowKey> for BoxShadowTemplate {
    fn from(box_shadow: BoxShadowKey) -> (r: BoxShadowTemplate) {
        let common = PrimTemplateCommonData::with_key_common(box_shadow.common);
        BoxShadowTemplate {
            common,
            kind: BoxShadowData {
                color: box_shadow.kind.color,
                box_offset: box_shadow.kind.box_offset,
                spread_radius: box_shadow.kind.spread_radius,
                blur_radius: box_shadow.kind.blur_radius,
                border_radius: box_shadow.kind.border_radius,
                clip_mode: box_shadow.kind.clip_mode,
            },
        }
    }
}

impl vstd::std_specs::convert::FromSpecImpl<BoxShadowKey> for BoxShadowTemplate {
    open spec fn obeys_from_spec() -> bool {
        true
    }

    open spec fn from_spec(box_shadow: BoxShadowKey) -> BoxShadowTemplate {
        BoxShadowTemplate::spec_from(box_shadow)
    }
}

} // verus!
