//! From layout space to device space.
//!
//! A layout length of `v` units under a scale of `s` sixtieths is `v * s / 3600`
//! device pixels long. A bounding rectangle in device space is rounded outwards
//! to whole pixels; a length that stands alone is rounded to the nearest pixel.

use vstd::prelude::*;
use crate::display_types::DevicePixelScale;
use crate::geometry::{max_int, min_int, DeviceIntPoint, DeviceIntRect, DeviceIntSize, LayoutRect, LayoutSize, LayoutVector2D};
use crate::units::{round_div, round_quotient, saturate, saturate_spec, MAX_COORD};

verus! {

/// Whether a transform keeps rectangles axis-aligned.
#[derive(Clone, Copy, Debug, PartialEq, Eq, Structural)]
pub enum TransformedRectKind {
    AxisAligned,
    Complex,
}

/// A transform from layout space to world space that moves and does nothing else.
#[derive(Clone, Copy, Debug, PartialEq, Eq, Structural)]
pub enum LayoutToWorldFastTransform {
    Offset(LayoutVector2D),
}

/// The last whole device pixel at or before the layout coordinate `v`.
pub open spec fn scaled_floor(v: int, scale: DevicePixelScale) -> int {
    (v * scale.0) / 3600
}

/// The first whole device pixel at or after the layout coordinate `v`.
pub open spec fn scaled_ceil(v: int, scale: DevicePixelScale) -> int {
    -((-(v * scale.0)) / 3600)
}

/// A layout length in device pixels, rounded to the nearest pixel; it saturates.
pub open spec fn device_length(v: i32, scale: DevicePixelScale) -> i32 {
    saturate_spec(round_div(v * scale.0, 3600))
}

/// A layout size in device pixels, each side rounded to the nearest pixel.
pub open spec fn spec_device_size(size: LayoutSize, scale: DevicePixelScale) -> DeviceIntSize {
    DeviceIntSize {
        width: device_length(size.width, scale),
        height: device_length(size.height, scale),
    }
}

/// A layout size in device pixels, each side rounded to the nearest pixel.
#[verifier::when_used_as_spec(spec_device_size)]
pub fn device_size(size: LayoutSize, scale: DevicePixelScale) -> (r: DeviceIntSize)
    ensures
        r == spec_device_size(size, scale),
{
    DeviceIntSize {
        width: to_device_length(size.width, scale),
        height: to_device_length(size.height, scale),
    }
}

fn to_device_length(v: i32, scale: DevicePixelScale) -> (r: i32)
    ensures
        r == device_length(v, scale),
{
    assert(-0x8000_0000 * 0x1_0000 <= v * scale.0 <= 0x8000_0000 * 0x1_0000) by (nonlinear_arith)
        requires
            -0x8000_0000 <= v <= 0x8000_0000,
            0 <= scale.0 <= 0x1_0000,
    ;
    saturate(round_quotient(v as i64 * scale.0 as i64, 3600))
}

/// The size of the cached sample of a layout size: its size in device pixels,
/// and at least one pixel each way.
pub open spec fn spec_to_cache_size(size: LayoutSize, scale: DevicePixelScale) -> DeviceIntSize {
    DeviceIntSize {
        width: max_int(1, device_length(size.width, scale) as int) as i32,
        height: max_int(1, device_length(size.height, scale) as int) as i32,
    }
}

/// The size of the cached sample of a layout size: its size in device pixels,
/// and at least one pixel each way.
#[verifier::when_used_as_spec(spec_to_cache_size)]
pub fn to_cache_size(size: LayoutSize, scale: DevicePixelScale) -> (r: DeviceIntSize)
    ensures
        r == spec_to_cache_size(size, scale),
{
    let w: i32 = to_device_length(size.width, scale);
    let h: i32 = to_device_length(size.height, scale);
    DeviceIntSize { width: if w >= 1 { w } else { 1 }, height: if h >= 1 { h } else { 1 } }
}

impl DeviceIntRect {
    /// The largest rectangle that device space offers. It is centred on the origin.
    pub open spec fn spec_max_rect() -> DeviceIntRect {
        DeviceIntRect {
            origin: DeviceIntPoint { x: (-1_000_000_000i32) as i32, y: (-1_000_000_000i32) as i32 },
            size: DeviceIntSize { width: 2_000_000_000, height: 2_000_000_000 },
        }
    }

    /// The largest rectangle that device space offers. It is centred on the origin.
    #[verifier::when_used_as_spec(spec_max_rect)]
    pub fn max_rect() -> (r: Self)
        ensures
            r == Self::spec_max_rect(),
    {
        DeviceIntRect {
            origin: DeviceIntPoint { x: -MAX_COORD, y: -MAX_COORD },
            size: DeviceIntSize { width: 2 * MAX_COORD, height: 2 * MAX_COORD },
        }
    }
}

impl LayoutToWorldFastTransform {
    /// Whether the transform keeps rectangles axis-aligned: a move does.
    pub open spec fn spec_kind(&self) -> TransformedRectKind {
        TransformedRectKind::AxisAligned
    }

    /// Whether the transform keeps rectangles axis-aligned: a move does.
    #[verifier::when_used_as_spec(spec_kind)]
    pub fn kind(&self) -> (r: TransformedRectKind)
        ensures
            r == self.spec_kind(),
    {
        TransformedRectKind::AxisAligned
    }

    /// Whether the transform has a perspective part: a move has none.
    pub open spec fn spec_has_perspective_component(&self) -> bool {
        false
    }

    /// Whether the transform has a perspective part: a move has none.
    #[verifier::when_used_as_spec(spec_has_perspective_component)]
    pub fn has_perspective_component(&self) -> (r: bool)
        ensures
            r == self.spec_has_perspective_component(),
    {
        false
    }

    /// The displacement of the transform.
    pub open spec fn spec_offset(&self) -> LayoutVector2D {
        match *self {
            LayoutToWorldFastTransform::Offset(offset) => offset,
        }
    }
}

/// The device pixels that a moved layout rectangle touches, as far as they lie
/// in `screen_bounds`, or in the largest rectangle of device space where no
/// bounds are given; `None` where it touches none of them.
pub open spec fn spec_calculate_screen_bounding_rect(
    transform: &LayoutToWorldFastTransform,
    rect: &LayoutRect,
    device_pixel_scale: DevicePixelScale,
    screen_bounds: Option<&DeviceIntRect>,
) -> Option<DeviceIntRect> {
    let offset = transform.spec_offset();
    let x0 = scaled_floor(rect.min_x() + offset.x, device_pixel_scale);
    let y0 = scaled_floor(rect.min_y() + offset.y, device_pixel_scale);
    let x1 = scaled_ceil(rect.max_x() + offset.x, device_pixel_scale);
    let y1 = scaled_ceil(rect.max_y() + offset.y, device_pixel_scale);
    let bounds = match screen_bounds {
        Some(b) => *b,
        None => DeviceIntRect::spec_max_rect(),
    };
    if x0 < bounds.max_x() && bounds.min_x() < x1 && y0 < bounds.max_y() && bounds.min_y() < y1 {
        let x = max_int(x0, bounds.min_x());
        let y = max_int(y0, bounds.min_y());
        Some(
            DeviceIntRect {
                origin: DeviceIntPoint { x: saturate_spec(x), y: saturate_spec(y) },
                size: DeviceIntSize {
                    width: saturate_spec(min_int(x1, bounds.max_x()) - x),
                    height: saturate_spec(min_int(y1, bounds.max_y()) - y),
                },
            },
        )
    } else {
        None
    }
}

fn floor_scaled(v: i64, scale: DevicePixelScale) -> (r: i64)
    requires
        -0x2_0000_0000 <= v <= 0x2_0000_0000,
    ensures
        r == scaled_floor(v as int, scale),
        -0x2_0000_0000_0000 <= r <= 0x2_0000_0000_0000,
{
    assert(-0x2_0000_0000 * 0x1_0000 <= v * scale.0 <= 0x2_0000_0000 * 0x1_0000)
        by (nonlinear_arith)
        requires
            -0x2_0000_0000 <= v <= 0x2_0000_0000,
            0 <= scale.0 <= 0x1_0000,
    ;
    let p: i64 = v * scale.0 as i64;
    let q: i64 = p / 3600;
    if p % 3600 < 0 {
        q - 1
    } else {
        q
    }
}

fn ceil_scaled(v: i64, scale: DevicePixelScale) -> (r: i64)
    requires
        -0x2_0000_0000 <= v <= 0x2_0000_0000,
    ensures
        r == scaled_ceil(v as int, scale),
        -0x2_0000_0000_0000 <= r <= 0x2_0000_0000_0000,
{
    assert((-v) * scale.0 == -(v * scale.0)) by (nonlinear_arith);
    -floor_scaled(-v, scale)
}

/// The device pixels that a moved layout rectangle touches, as far as they lie
/// in `screen_bounds`.
#[verifier::when_used_as_spec(spec_calculate_screen_bounding_rect)]
pub fn calculate_screen_bounding_rect(
    transform: &LayoutToWorldFastTransform,
    rect: &LayoutRect,
    device_pixel_scale: DevicePixelScale,
    screen_bounds: Option<&DeviceIntRect>,
) -> (r: Option<DeviceIntRect>)
    ensures
        r == spec_calculate_screen_bounding_rect(transform, rect, device_pixel_scale, screen_bounds),
{
    let offset = match *transform {
        LayoutToWorldFastTransform::Offset(offset) => offset,
    };
    let left: i64 = rect.origin.x as i64 + offset.x as i64;
    let top: i64 = rect.origin.y as i64 + offset.y as i64;
    let x0: i64 = floor_scaled(left, device_pixel_scale);
    let y0: i64 = floor_scaled(top, device_pixel_scale);
    let x1: i64 = ceil_scaled(left + rect.size.width as i64, device_pixel_scale);
    let y1: i64 = ceil_scaled(top + rect.size.height as i64, device_pixel_scale);
    let bounds: DeviceIntRect = match screen_bounds {
        Some(b) => *b,
        None => DeviceIntRect::max_rect(),
    };
    let bx0: i64 = bounds.origin.x as i64;
    let by0: i64 = bounds.origin.y as i64;
    let bx1: i64 = bx0 + bounds.size.width as i64;
    let by1: i64 = by0 + bounds.size.height as i64;
    if x0 < bx1 && bx0 < x1 && y0 < by1 && by0 < y1 {
        let x: i64 = if x0 >= bx0 { x0 } else { bx0 };
        let y: i64 = if y0 >= by0 { y0 } else { by0 };
        let right: i64 = if x1 <= bx1 { x1 } else { bx1 };
        let bottom: i64 = if y1 <= by1 { y1 } else { by1 };
        Some(
            DeviceIntRect {
                origin: DeviceIntPoint { x: saturate(x), y: saturate(y) },
                size: DeviceIntSize { width: saturate(right - x), height: saturate(bottom - y) },
            },
        )
    } else {
        None
    }
}

} // verus!
