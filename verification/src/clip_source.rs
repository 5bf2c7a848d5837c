//! The shapes that a node can be clipped by.

use vstd::prelude::*;
use crate::border_radius::{ensure_no_corner_overlap, spec_ensure_no_corner_overlap, BorderRadius};
use crate::clip_data::{spec_rect_block, ClipData, ImageMaskData};
use crate::display_types::{BoxShadowClipMode, ClipMode, DevicePixelScale, ImageMask, ImageRendering, LineOrientation, LineStyle};
use crate::resource_cache::ImageRequest;
use crate::screen_bounds::{device_size, spec_device_size, spec_to_cache_size, to_cache_size};
use crate::units::{round_div, round_quotient};
use crate::geometry::{max_int, DeviceIntSize, LayoutPoint, LayoutRect, LayoutSize, LayoutVector2D};
use crate::gpu_cache::{GpuBlockData, GpuCacheHandle};
use crate::units::{ceil_px, ceil_to_pixel, fract_of_pixel, fract_px, saturate, saturate_spec};

verus! {

/// How far the blur of a shadow reaches, in blur radii.
pub const BLUR_SAMPLE_SCALE: i32 = 3;

/// How the blurred sample of a box shadow covers the shadow along one axis.
#[derive(Clone, Copy, Debug, PartialEq, Eq, Structural)]
pub enum BoxShadowStretchMode {
    /// The middle of the sample is stretched between its two ends.
    Stretch,
    /// The sample is as long as the shadow and is copied as it is.
    Simple,
}

/// The handle of an entry of the cache of rendered samples.
#[derive(Clone, Copy, Debug, PartialEq, Eq, Structural)]
pub struct RenderTaskCacheEntryHandle(pub usize);

/// What tells the blurred sample of one box shadow from that of another, in device pixels.
#[derive(Clone, Copy, Debug, PartialEq, Eq, Structural)]
pub struct BoxShadowCacheKey {
    pub blur_radius_dp: i32,
    pub clip_mode: BoxShadowClipMode,
    pub rect_size: DeviceIntSize,
    pub br_top_left: DeviceIntSize,
    pub br_top_right: DeviceIntSize,
    pub br_bottom_right: DeviceIntSize,
    pub br_bottom_left: DeviceIntSize,
}

/// The mask of a box shadow: a small blurred sample of the shadow and how it
/// is laid over the shadow's extent.
#[derive(Clone, Copy, Debug, PartialEq, Eq)]
pub struct BoxShadowClipSource {
    /// The size of the sample with room for the blur round it.
    pub shadow_rect_alloc_size: LayoutSize,
    pub shadow_radius: BorderRadius,
    /// The rectangle of the primitive that the shadow is drawn in.
    pub prim_shadow_rect: LayoutRect,
    pub blur_radius: i32,
    pub clip_mode: BoxShadowClipMode,
    pub stretch_mode_x: BoxShadowStretchMode,
    pub stretch_mode_y: BoxShadowStretchMode,
    /// The rendered sample, once there is one.
    pub cache_handle: Option<RenderTaskCacheEntryHandle>,
    /// The size of the sample in device pixels and its key, once they have been computed.
    pub cache_key: Option<(DeviceIntSize, BoxShadowCacheKey)>,
    /// The slot of the rounded rectangle that is blurred.
    pub clip_data_handle: GpuCacheHandle,
    /// The rounded rectangle that is blurred.
    pub minimal_shadow_rect: LayoutRect,
}

/// The mask of a line decoration.
#[derive(Clone, Copy, Debug, PartialEq, Eq, Structural)]
pub struct LineDecorationClipSource {
    pub rect: LayoutRect,
    pub style: LineStyle,
    pub orientation: LineOrientation,
    pub wavy_line_thickness: i32,
}

/// One shape that clips a node.
#[derive(Clone, Copy, Debug, PartialEq, Eq)]
pub enum ClipSource {
    Rectangle(LayoutRect, ClipMode),
    /// A rounded rectangle. Its radii are not negative, and no two of its
    /// corners overlap: see [`ClipSource::is_well_formed`].
    RoundedRectangle(LayoutRect, BorderRadius, ClipMode),
    Image(ImageMask),
    BoxShadow(BoxShadowClipSource),
    LineDecoration(LineDecorationClipSource),
}

impl BoxShadowStretchMode {
    /// The number that stands for the mode in a block: 0 for `Stretch`, 1 for `Simple`.
    pub open spec fn spec_tag(self) -> i32 {
        match self {
            BoxShadowStretchMode::Stretch => 0,
            BoxShadowStretchMode::Simple => 1,
        }
    }

    /// The number that stands for the mode in a block: 0 for `Stretch`, 1 for `Simple`.
    #[verifier::when_used_as_spec(spec_tag)]
    pub fn tag(self) -> (r: i32)
        ensures
            r == self.spec_tag(),
    {
        match self {
            BoxShadowStretchMode::Stretch => 0,
            BoxShadowStretchMode::Simple => 1,
        }
    }
}

/// How far the blur of a shadow reaches: the scaled blur radius, rounded up to whole pixels.
pub open spec fn blur_region(blur_radius: i32) -> int {
    ceil_px(3 * blur_radius)
}

/// The largest width among the four corners.
pub open spec fn max_corner_width(radii: BorderRadius) -> int {
    max_int(
        max_int(
            max_int(radii.top_left.width as int, radii.bottom_left.width as int),
            radii.top_right.width as int,
        ),
        radii.bottom_right.width as int,
    )
}

/// The largest height among the four corners.
pub open spec fn max_corner_height(radii: BorderRadius) -> int {
    max_int(
        max_int(
            max_int(radii.top_left.height as int, radii.bottom_left.height as int),
            radii.top_right.height as int,
        ),
        radii.bottom_right.height as int,
    )
}

/// The least length of a sample along one axis: two corners, each at least as
/// long as the blur reaches, the reach of the blur between them, and the
/// sub-pixel part of the shadow's own length.
pub open spec fn minimal_length(corner: int, blur: int, length: i32) -> int {
    2 * max_int(corner, blur) + blur + fract_px(length as int)
}

/// The length of the sample along one axis: the least length, or the length of
/// the shadow where the shadow is shorter than that.
pub open spec fn sample_length(corner: int, blur: int, length: i32) -> int {
    if length < minimal_length(corner, blur, length) {
        length as int
    } else {
        minimal_length(corner, blur, length)
    }
}

/// How the sample covers the shadow along one axis: copied as it is where the
/// shadow is shorter than the least length, stretched otherwise.
pub open spec fn stretch_mode(corner: int, blur: int, length: i32) -> BoxShadowStretchMode {
    if length < minimal_length(corner, blur, length) {
        BoxShadowStretchMode::Simple
    } else {
        BoxShadowStretchMode::Stretch
    }
}

/// The length allocated for the sample along one axis: its length rounded up
/// to whole pixels, and the reach of the blur on both sides.
pub open spec fn alloc_length(corner: int, blur: int, length: i32) -> int {
    2 * blur + ceil_px(sample_length(corner, blur, length))
}

impl BoxShadowClipSource {
    /// The size of the sample in device pixels and its key, under a scale.
    /// The blur radius of the key is half the blur radius of the shadow: the
    /// standard deviation of the blur.
    pub open spec fn spec_cache_key(&self, scale: DevicePixelScale) -> (DeviceIntSize, BoxShadowCacheKey) {
        (
            spec_to_cache_size(self.shadow_rect_alloc_size, scale),
            BoxShadowCacheKey {
                blur_radius_dp: saturate_spec(round_div(self.blur_radius * scale.0, 7200)),
                clip_mode: self.clip_mode,
                rect_size: spec_device_size(self.shadow_rect_alloc_size, scale),
                br_top_left: spec_device_size(self.shadow_radius.top_left, scale),
                br_top_right: spec_device_size(self.shadow_radius.top_right, scale),
                br_bottom_right: spec_device_size(self.shadow_radius.bottom_right, scale),
                br_bottom_left: spec_device_size(self.shadow_radius.bottom_left, scale),
            },
        )
    }

    /// The size of the sample in device pixels and its key, under a scale.
    #[verifier::when_used_as_spec(spec_cache_key)]
    pub fn cache_key(&self, scale: DevicePixelScale) -> (r: (DeviceIntSize, BoxShadowCacheKey))
        ensures
            r == self.spec_cache_key(scale),
    {
        assert(-0x8000_0000 * 0x1_0000 <= self.blur_radius * scale.0 <= 0x8000_0000 * 0x1_0000)
            by (nonlinear_arith)
            requires
                -0x8000_0000 <= self.blur_radius <= 0x8000_0000,
                0 <= scale.0 <= 0x1_0000,
        ;
        let blur_radius_dp: i32 = saturate(
            round_quotient(self.blur_radius as i64 * scale.0 as i64, 7200),
        );
        (
            to_cache_size(self.shadow_rect_alloc_size, scale),
            BoxShadowCacheKey {
                blur_radius_dp,
                clip_mode: self.clip_mode,
                rect_size: device_size(self.shadow_rect_alloc_size, scale),
                br_top_left: device_size(self.shadow_radius.top_left, scale),
                br_top_right: device_size(self.shadow_radius.top_right, scale),
                br_bottom_right: device_size(self.shadow_radius.bottom_right, scale),
                br_bottom_left: device_size(self.shadow_radius.bottom_left, scale),
            },
        )
    }

    /// The mask with the key that it has under a scale.
    pub open spec fn with_cache_key(self, scale: DevicePixelScale) -> BoxShadowClipSource {
        BoxShadowClipSource { cache_key: Some(self.spec_cache_key(scale)), ..self }
    }

    /// The three blocks of the mask: the allocated size and the mode, the two
    /// stretch modes, and the rectangle of the primitive.
    pub open spec fn blocks(&self) -> Seq<GpuBlockData> {
        seq![
            GpuBlockData::spec_new(
                self.shadow_rect_alloc_size.width,
                self.shadow_rect_alloc_size.height,
                self.clip_mode.spec_tag(),
                0,
            ),
            GpuBlockData::spec_new(
                self.stretch_mode_x.spec_tag(),
                self.stretch_mode_y.spec_tag(),
                0,
                0,
            ),
            spec_rect_block(self.prim_shadow_rect),
        ]
    }

    /// The ten blocks of the rounded rectangle that is blurred.
    pub open spec fn minimal_clip_blocks(&self) -> Seq<GpuBlockData> {
        ClipData::spec_rounded_rect(
            &self.minimal_shadow_rect,
            &self.shadow_radius,
            ClipMode::Clip,
        ).blocks()
    }
}

/// The key of a box shadow mask does not depend on the key that the mask
/// holds: computing it again under the same scale gives the same mask.
pub proof fn lemma_cache_key_is_stable(info: BoxShadowClipSource, scale: DevicePixelScale)
    ensures
        info.with_cache_key(scale).spec_cache_key(scale) == info.spec_cache_key(scale),
        info.with_cache_key(scale).with_cache_key(scale) == info.with_cache_key(scale),
{
}

impl LineDecorationClipSource {
    /// The two blocks of the mask: its rectangle, then the thickness of the
    /// wave, the style and the orientation.
    pub open spec fn blocks(&self) -> Seq<GpuBlockData> {
        seq![
            spec_rect_block(self.rect),
            GpuBlockData::spec_new(
                self.wavy_line_thickness,
                self.style.spec_tag(),
                self.orientation.spec_tag(),
                0,
            ),
        ]
    }
}

impl ClipSource {
    /// The blocks that stand for the clip in the block store.
    pub open spec fn gpu_blocks(self) -> Seq<GpuBlockData> {
        match self {
            ClipSource::Image(mask) => (ImageMaskData { local_rect: mask.rect }).blocks(),
            ClipSource::BoxShadow(info) => info.blocks(),
            ClipSource::Rectangle(rect, mode) => ClipData::spec_uniform(rect, 0, mode).blocks(),
            ClipSource::RoundedRectangle(rect, radii, mode) => ClipData::spec_rounded_rect(
                &rect,
                &radii,
                mode,
            ).blocks(),
            ClipSource::LineDecoration(info) => info.blocks(),
        }
    }

    /// The images that the clip needs: that of an image mask.
    pub open spec fn image_requests(self) -> Seq<ImageRequest> {
        match self {
            ClipSource::Image(mask) => seq![
                ImageRequest { key: mask.image, rendering: ImageRendering::Auto, tile: None },
            ],
            _ => Seq::empty(),
        }
    }

    /// A rectangle has no negative side; the radii of a rounded rectangle are
    /// not negative, and no two of its corners overlap.
    pub open spec fn is_well_formed(self) -> bool {
        match self {
            ClipSource::Rectangle(rect, _) => rect.is_well_formed(),
            ClipSource::RoundedRectangle(rect, radii, _) => rect.is_well_formed()
                && radii.is_valid_for(rect.size),
            _ => true,
        }
    }

    /// The clip of a rectangle with the given corner radii: a plain rectangle
    /// where all corners are square, else a rounded rectangle whose radii have
    /// been scaled down so that no two corners overlap.
    pub open spec fn spec_new_rounded_rect(
        rect: LayoutRect,
        radii: BorderRadius,
        clip_mode: ClipMode,
    ) -> ClipSource {
        if radii.spec_is_zero() {
            ClipSource::Rectangle(rect, clip_mode)
        } else {
            ClipSource::RoundedRectangle(
                rect,
                spec_ensure_no_corner_overlap(radii, rect.size),
                clip_mode,
            )
        }
    }

    /// The clip of a rectangle with the given corner radii: a plain rectangle
    /// where all corners are square, else a rounded rectangle whose radii have
    /// been scaled down so that no two corners overlap.
    #[verifier::when_used_as_spec(spec_new_rounded_rect)]
    pub fn new_rounded_rect(rect: LayoutRect, radii: BorderRadius, clip_mode: ClipMode) -> (r:
        ClipSource)
        ensures
            r == Self::spec_new_rounded_rect(rect, radii, clip_mode),
            rect.is_well_formed() && radii.is_non_negative() ==> r.is_well_formed(),
    {
        if radii.is_zero() {
            ClipSource::Rectangle(rect, clip_mode)
        } else {
            let mut radii = radii;
            ensure_no_corner_overlap(&mut radii, &rect);
            ClipSource::RoundedRectangle(rect, radii, clip_mode)
        }
    }

    /// The mask of a line decoration.
    pub open spec fn spec_new_line_decoration(
        rect: LayoutRect,
        style: LineStyle,
        orientation: LineOrientation,
        wavy_line_thickness: i32,
    ) -> ClipSource {
        ClipSource::LineDecoration(
            LineDecorationClipSource { rect, style, orientation, wavy_line_thickness },
        )
    }

    /// The mask of a line decoration.
    #[verifier::when_used_as_spec(spec_new_line_decoration)]
    pub fn new_line_decoration(
        rect: LayoutRect,
        style: LineStyle,
        orientation: LineOrientation,
        wavy_line_thickness: i32,
    ) -> (r: ClipSource)
        ensures
            r == Self::spec_new_line_decoration(rect, style, orientation, wavy_line_thickness),
    {
        ClipSource::LineDecoration(
            LineDecorationClipSource { rect, style, orientation, wavy_line_thickness },
        )
    }

    /// The mask of a box shadow. The sample that is blurred is as small as the
    /// corners and the blur allow: along each axis it holds two corners of one
    /// size and the reach of the blur between them, and it keeps the sub-pixel
    /// parts of the shadow's origin and size. Along an axis on which the shadow
    /// is shorter than that, the sample is as long as the shadow. Stored
    /// lengths saturate.
    pub open spec fn spec_new_box_shadow(
        shadow_rect: LayoutRect,
        shadow_radius: BorderRadius,
        prim_shadow_rect: LayoutRect,
        blur_radius: i32,
        clip_mode: BoxShadowClipMode,
    ) -> ClipSource {
        let blur = blur_region(blur_radius);
        let corner_w = max_corner_width(shadow_radius);
        let corner_h = max_corner_height(shadow_radius);
        let width = shadow_rect.size.width;
        let height = shadow_rect.size.height;
        ClipSource::BoxShadow(
            BoxShadowClipSource {
                shadow_rect_alloc_size: LayoutSize {
                    width: saturate_spec(alloc_length(corner_w, blur, width)),
                    height: saturate_spec(alloc_length(corner_h, blur, height)),
                },
                shadow_radius,
                prim_shadow_rect,
                blur_radius,
                clip_mode,
                stretch_mode_x: stretch_mode(corner_w, blur, width),
                stretch_mode_y: stretch_mode(corner_h, blur, height),
                cache_handle: None,
                cache_key: None,
                clip_data_handle: GpuCacheHandle::spec_new(),
                minimal_shadow_rect: LayoutRect {
                    origin: LayoutPoint {
                        x: saturate_spec(blur + fract_px(shadow_rect.origin.x as int)),
                        y: saturate_spec(blur + fract_px(shadow_rect.origin.y as int)),
                    },
                    size: LayoutSize {
                        width: saturate_spec(sample_length(corner_w, blur, width)),
                        height: saturate_spec(sample_length(corner_h, blur, height)),
                    },
                },
            },
        )
    }

    /// The mask of a box shadow, with the smallest sample that the corners and
    /// the blur allow.
    #[verifier::when_used_as_spec(spec_new_box_shadow)]
    pub fn new_box_shadow(
        shadow_rect: LayoutRect,
        shadow_radius: BorderRadius,
        prim_shadow_rect: LayoutRect,
        blur_radius: i32,
        clip_mode: BoxShadowClipMode,
    ) -> (r: ClipSource)
        ensures
            r == Self::spec_new_box_shadow(
                shadow_rect,
                shadow_radius,
                prim_shadow_rect,
                blur_radius,
                clip_mode,
            ),
    {
        // All corners of the sample get the size of the largest one.
        let max_corner_width: i32 = max4(
            shadow_radius.top_left.width,
            shadow_radius.bottom_left.width,
            shadow_radius.top_right.width,
            shadow_radius.bottom_right.width,
        );
        let max_corner_height: i32 = max4(
            shadow_radius.top_left.height,
            shadow_radius.bottom_left.height,
            shadow_radius.top_right.height,
            shadow_radius.bottom_right.height,
        );

        // How far the blur reaches.
        let blur: i64 = ceil_to_pixel(BLUR_SAMPLE_SCALE as i64 * blur_radius as i64);

        let (sample_width, stretch_mode_x) = sample_along_axis(
            max_corner_width,
            blur,
            shadow_rect.size.width,
        );
        let (sample_height, stretch_mode_y) = sample_along_axis(
            max_corner_height,
            blur,
            shadow_rect.size.height,
        );

        // The sample with room for the blur round it.
        let shadow_rect_alloc_size = LayoutSize {
            width: saturate(2 * blur + ceil_to_pixel(sample_width)),
            height: saturate(2 * blur + ceil_to_pixel(sample_height)),
        };

        // The sample keeps the sub-pixel part of the shadow's origin.
        let minimal_shadow_rect = LayoutRect {
            origin: LayoutPoint {
                x: saturate(blur + fract_of_pixel(shadow_rect.origin.x) as i64),
                y: saturate(blur + fract_of_pixel(shadow_rect.origin.y) as i64),
            },
            size: LayoutSize { width: saturate(sample_width), height: saturate(sample_height) },
        };

        ClipSource::BoxShadow(
            BoxShadowClipSource {
                shadow_rect_alloc_size,
                shadow_radius,
                prim_shadow_rect,
                blur_radius,
                clip_mode,
                stretch_mode_x,
                stretch_mode_y,
                cache_handle: None,
                cache_key: None,
                clip_data_handle: GpuCacheHandle::new(),
                minimal_shadow_rect,
            },
        )
    }

    /// The same line decoration, moved by `offset`.
    pub open spec fn spec_offset(&self, offset: &LayoutVector2D) -> ClipSource
        recommends
            self is LineDecoration,
    {
        match *self {
            ClipSource::LineDecoration(info) => ClipSource::LineDecoration(
                LineDecorationClipSource {
                    rect: info.rect.spec_translate(offset),
                    style: info.style,
                    orientation: info.orientation,
                    wavy_line_thickness: info.wavy_line_thickness,
                },
            ),
            _ => *self,
        }
    }

    /// A clip source that is the same as this one, but moved by `offset`. Only
    /// line decorations can be moved: to ask it of another clip is a mistake
    /// of the caller.
    pub fn offset(&self, offset: &LayoutVector2D) -> (r: ClipSource)
        requires
            self is LineDecoration,
        ensures
            r == self.spec_offset(offset),
    {
        match *self {
            ClipSource::LineDecoration(info) => ClipSource::LineDecoration(
                LineDecorationClipSource {
                    rect: info.rect.translate(offset),
                    style: info.style,
                    orientation: info.orientation,
                    wavy_line_thickness: info.wavy_line_thickness,
                },
            ),
            _ => unreached(),
        }
    }

    /// The clip is a plain rectangle.
    pub open spec fn spec_is_rect(&self) -> bool {
        *self is Rectangle
    }

    /// The clip is a plain rectangle.
    #[verifier::when_used_as_spec(spec_is_rect)]
    pub fn is_rect(&self) -> (r: bool)
        ensures
            r == self.spec_is_rect(),
    {
        match *self {
            ClipSource::Rectangle(..) => true,
            _ => false,
        }
    }

    /// The clip is an image mask or a line decoration.
    pub open spec fn spec_is_image_or_line_decoration_clip(&self) -> bool {
        *self is Image || *self is LineDecoration
    }

    /// The clip is an image mask or a line decoration.
    #[verifier::when_used_as_spec(spec_is_image_or_line_decoration_clip)]
    pub fn is_image_or_line_decoration_clip(&self) -> (r: bool)
        ensures
            r == self.spec_is_image_or_line_decoration_clip(),
    {
        match *self {
            ClipSource::Image(..) | ClipSource::LineDecoration(..) => true,
            _ => false,
        }
    }
}

/// The length of the sample along one axis and how the sample covers the shadow.
fn sample_along_axis(corner: i32, blur: i64, length: i32) -> (r: (i64, BoxShadowStretchMode))
    requires
        -0x2_0000_0000 <= blur <= 0x2_0000_0000,
    ensures
        r.0 == sample_length(corner as int, blur as int, length),
        r.1 == stretch_mode(corner as int, blur as int, length),
        -0x10_0000_0000 <= r.0 <= 0x10_0000_0000,
{
    // A corner that is shorter than the blur reaches would let the blur of one
    // corner run into the other.
    let used_corner: i64 = if corner as i64 >= blur { corner as i64 } else { blur };
    // Corner, middle, corner, and the sub-pixel part of the shadow's length.
    let minimal: i64 = 2 * used_corner + blur + fract_of_pixel(length) as i64;
    // A shadow that is shorter than that is blurred whole along this axis.
    if (length as i64) < minimal {
        (length as i64, BoxShadowStretchMode::Simple)
    } else {
        (minimal, BoxShadowStretchMode::Stretch)
    }
}

/// The number of blocks of a clip depends on its kind alone: ten for a
/// rectangle and for a rounded rectangle, one for an image mask, three for a
/// box shadow mask and two for a line decoration.
pub proof fn lemma_block_counts(source: ClipSource)
    ensures
        source.gpu_blocks().len() == (match source {
            ClipSource::Rectangle(..) => 10nat,
            ClipSource::RoundedRectangle(..) => 10nat,
            ClipSource::Image(_) => 1nat,
            ClipSource::BoxShadow(_) => 3nat,
            ClipSource::LineDecoration(_) => 2nat,
        }),
{
}

fn max4(a: i32, b: i32, c: i32, d: i32) -> (r: i32)
    ensures
        r == max_int(max_int(max_int(a as int, b as int), c as int), d as int),
{
    let ab: i32 = if a >= b { a } else { b };
    let abc: i32 = if ab >= c { ab } else { c };
    if abc >= d {
        abc
    } else {
        d
    }
}

} // verus!
