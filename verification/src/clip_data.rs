//! The block layouts of rectangles, rounded rectangles and image masks.
//!
//! A rectangle takes one block: origin, then size. The data of a clip shape is
//! ten blocks long: the rectangle, a block with the mode, and for each corner,
//! in the order top left, top right, bottom left, bottom right, the box of the
//! corner and a block with its outer and inner radii.

use vstd::prelude::*;
use crate::border_radius::BorderRadius;
use crate::display_types::ClipMode;
use crate::geometry::{LayoutPoint, LayoutRect, LayoutSize};
use crate::gpu_cache::{append_run, GpuBlockData, GpuCache, GpuDataRequest};
use crate::units::{saturate, saturate_spec};

verus! {

/// The number of blocks that the data of a clip shape takes.
pub const CLIP_DATA_GPU_BLOCKS: usize = 10;

/// The rectangle of a clip shape and the number of its mode.
#[derive(Clone, Copy, Debug, PartialEq, Eq, Structural)]
pub struct ClipRect {
    pub rect: LayoutRect,
    pub mode: i32,
}

/// One corner of a clip shape: its box and the radii of its ellipses.
#[derive(Clone, Copy, Debug, PartialEq, Eq, Structural)]
pub struct ClipCorner {
    pub rect: LayoutRect,
    pub outer_radius_x: i32,
    pub outer_radius_y: i32,
    pub inner_radius_x: i32,
    pub inner_radius_y: i32,
}

/// A clip shape as it is written to the block store.
#[derive(Clone, Copy, Debug, PartialEq, Eq, Structural)]
pub struct ClipData {
    pub rect: ClipRect,
    pub top_left: ClipCorner,
    pub top_right: ClipCorner,
    pub bottom_left: ClipCorner,
    pub bottom_right: ClipCorner,
}

/// The rectangle of an image mask as it is written to the block store.
#[derive(Clone, Copy, Debug, PartialEq, Eq, Structural)]
pub struct ImageMaskData {
    pub local_rect: LayoutRect,
}

/// The block of a rectangle: origin, then size.
pub open spec fn spec_rect_block(rect: LayoutRect) -> GpuBlockData {
    GpuBlockData::spec_new(rect.origin.x, rect.origin.y, rect.size.width, rect.size.height)
}

/// The block of a rectangle: origin, then size.
#[verifier::when_used_as_spec(spec_rect_block)]
pub fn rect_block(rect: LayoutRect) -> (r: GpuBlockData)
    ensures
        r == spec_rect_block(rect),
{
    GpuBlockData::new(rect.origin.x, rect.origin.y, rect.size.width, rect.size.height)
}

/// The box of a corner with the given radii, whose outer edges lie on the
/// rectangle. `right` and `bottom` name the corner. The origin saturates.
pub open spec fn corner_box(rect: LayoutRect, radius: LayoutSize, right: bool, bottom: bool) -> LayoutRect {
    LayoutRect {
        origin: LayoutPoint {
            x: if right {
                saturate_spec(rect.max_x() - radius.width)
            } else {
                rect.origin.x
            },
            y: if bottom {
                saturate_spec(rect.max_y() - radius.height)
            } else {
                rect.origin.y
            },
        },
        size: radius,
    }
}

impl ClipCorner {
    /// The corner with the given box and outer radii, and no inner radii.
    pub open spec fn spec_new(rect: LayoutRect, radius: LayoutSize) -> ClipCorner {
        ClipCorner {
            rect,
            outer_radius_x: radius.width,
            outer_radius_y: radius.height,
            inner_radius_x: 0,
            inner_radius_y: 0,
        }
    }

    /// The two blocks of a corner: its box, then its radii.
    pub open spec fn blocks(&self) -> Seq<GpuBlockData> {
        seq![
            spec_rect_block(self.rect),
            GpuBlockData::spec_new(
                self.outer_radius_x,
                self.outer_radius_y,
                self.inner_radius_x,
                self.inner_radius_y,
            ),
        ]
    }

    fn for_rect(rect: &LayoutRect, radius: LayoutSize, right: bool, bottom: bool) -> (r: ClipCorner)
        ensures
            r == ClipCorner::spec_new(corner_box(*rect, radius, right, bottom), radius),
    {
        let x: i32 = if right {
            saturate(rect.origin.x as i64 + rect.size.width as i64 - radius.width as i64)
        } else {
            rect.origin.x
        };
        let y: i32 = if bottom {
            saturate(rect.origin.y as i64 + rect.size.height as i64 - radius.height as i64)
        } else {
            rect.origin.y
        };
        ClipCorner {
            rect: LayoutRect { origin: LayoutPoint { x, y }, size: radius },
            outer_radius_x: radius.width,
            outer_radius_y: radius.height,
            inner_radius_x: 0,
            inner_radius_y: 0,
        }
    }
}

impl ClipData {
    /// The data of a rounded rectangle.
    pub open spec fn spec_rounded_rect(rect: &LayoutRect, radii: &BorderRadius, mode: ClipMode) -> ClipData {
        ClipData {
            rect: ClipRect { rect: *rect, mode: mode.spec_tag() },
            top_left: ClipCorner::spec_new(
                corner_box(*rect, radii.top_left, false, false),
                radii.top_left,
            ),
            top_right: ClipCorner::spec_new(
                corner_box(*rect, radii.top_right, true, false),
                radii.top_right,
            ),
            bottom_left: ClipCorner::spec_new(
                corner_box(*rect, radii.bottom_left, false, true),
                radii.bottom_left,
            ),
            bottom_right: ClipCorner::spec_new(
                corner_box(*rect, radii.bottom_right, true, true),
                radii.bottom_right,
            ),
        }
    }

    /// The data of a rounded rectangle.
    #[verifier::when_used_as_spec(spec_rounded_rect)]
    pub fn rounded_rect(rect: &LayoutRect, radii: &BorderRadius, mode: ClipMode) -> (r: ClipData)
        ensures
            r == Self::spec_rounded_rect(rect, radii, mode),
    {
        ClipData {
            rect: ClipRect { rect: *rect, mode: mode.tag() },
            top_left: ClipCorner::for_rect(rect, radii.top_left, false, false),
            top_right: ClipCorner::for_rect(rect, radii.top_right, true, false),
            bottom_left: ClipCorner::for_rect(rect, radii.bottom_left, false, true),
            bottom_right: ClipCorner::for_rect(rect, radii.bottom_right, true, true),
        }
    }

    /// The data of a rectangle whose four corners are circles of one radius.
    pub open spec fn spec_uniform(rect: LayoutRect, radius: i32, mode: ClipMode) -> ClipData {
        Self::spec_rounded_rect(&rect, &BorderRadius::spec_uniform(radius), mode)
    }

    /// The data of a rectangle whose four corners are circles of one radius.
    #[verifier::when_used_as_spec(spec_uniform)]
    pub fn uniform(rect: LayoutRect, radius: i32, mode: ClipMode) -> (r: ClipData)
        ensures
            r == Self::spec_uniform(rect, radius, mode),
    {
        ClipData::rounded_rect(&rect, &BorderRadius::uniform(radius), mode)
    }

    /// The ten blocks of the data, in the order in which they are written.
    pub open spec fn blocks(&self) -> Seq<GpuBlockData> {
        seq![spec_rect_block(self.rect.rect), GpuBlockData::spec_new(self.rect.mode, 0, 0, 0)]
            + self.top_left.blocks() + self.top_right.blocks() + self.bottom_left.blocks()
            + self.bottom_right.blocks()
    }

    /// The ten blocks of the data, in the order in which they are written.
    pub fn to_blocks(&self) -> (r: Vec<GpuBlockData>)
        ensures
            r@ == self.blocks(),
            r@.len() == CLIP_DATA_GPU_BLOCKS,
    {
        let mut r: Vec<GpuBlockData> = Vec::new();
        r.push(rect_block(self.rect.rect));
        r.push(GpuBlockData::new(self.rect.mode, 0, 0, 0));
        push_corner(&mut r, &self.top_left);
        push_corner(&mut r, &self.top_right);
        push_corner(&mut r, &self.bottom_left);
        push_corner(&mut r, &self.bottom_right);
        assert(r@ =~= self.blocks());
        r
    }

    /// Appends the ten blocks of the data to the run of a writer.
    pub fn write(&self, request: &GpuDataRequest, cache: &mut GpuCache)
        ensures
            final(cache)@ == append_run(old(cache)@, request.location, self.blocks()),
            final(cache).allocated() == old(cache).allocated(),
    {
        let blocks = self.to_blocks();
        request.push_all(cache, &blocks);
    }
}

fn push_corner(blocks: &mut Vec<GpuBlockData>, corner: &ClipCorner)
    ensures
        final(blocks)@ == old(blocks)@ + corner.blocks(),
{
    blocks.push(rect_block(corner.rect));
    blocks.push(
        GpuBlockData::new(
            corner.outer_radius_x,
            corner.outer_radius_y,
            corner.inner_radius_x,
            corner.inner_radius_y,
        ),
    );
    assert(blocks@ =~= old(blocks)@ + corner.blocks());
}

impl ImageMaskData {
    /// The one block of the data: the rectangle of the mask.
    pub open spec fn blocks(&self) -> Seq<GpuBlockData> {
        seq![spec_rect_block(self.local_rect)]
    }

    /// Appends the block of the data to the run of a writer.
    pub fn write_gpu_blocks(&self, request: &GpuDataRequest, cache: &mut GpuCache)
        ensures
            final(cache)@ == append_run(old(cache)@, request.location, self.blocks()),
            final(cache).allocated() == old(cache).allocated(),
    {
        request.push(cache, rect_block(self.local_rect));
    }
}

} // verus!
