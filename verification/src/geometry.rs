//! Points, sizes and rectangles of layout space and of device space.
//!
//! Layout geometry is held in layout units (see [`crate::units`]), device
//! geometry in whole device pixels. A rectangle is an origin and a size; it
//! covers the points from its origin up to, and without, its far corner.

use vstd::prelude::*;
use crate::units::{saturate, saturate_spec, MAX_COORD};

verus! {

/// A point of layout space.
#[derive(Clone, Copy, Debug, PartialEq, Eq, Structural)]
pub struct LayoutPoint {
    pub x: i32,
    pub y: i32,
}

/// A displacement in layout space.
#[derive(Clone, Copy, Debug, PartialEq, Eq, Structural)]
pub struct LayoutVector2D {
    pub x: i32,
    pub y: i32,
}

/// A width and a height in layout space.
#[derive(Clone, Copy, Debug, PartialEq, Eq, Structural)]
pub struct LayoutSize {
    pub width: i32,
    pub height: i32,
}

/// An axis-aligned rectangle of layout space.
#[derive(Clone, Copy, Debug, PartialEq, Eq, Structural)]
pub struct LayoutRect {
    pub origin: LayoutPoint,
    pub size: LayoutSize,
}

/// A point of device space, in whole pixels.
#[derive(Clone, Copy, Debug, PartialEq, Eq, Structural)]
pub struct DeviceIntPoint {
    pub x: i32,
    pub y: i32,
}

/// A width and a height in whole device pixels.
#[derive(Clone, Copy, Debug, PartialEq, Eq, Structural)]
pub struct DeviceIntSize {
    pub width: i32,
    pub height: i32,
}

/// An axis-aligned rectangle of device space, in whole pixels.
#[derive(Clone, Copy, Debug, PartialEq, Eq, Structural)]
pub struct DeviceIntRect {
    pub origin: DeviceIntPoint,
    pub size: DeviceIntSize,
}

/// The larger of two integers.
pub open spec fn max_int(a: int, b: int) -> int {
    if a >= b {
        a
    } else {
        b
    }
}

/// The smaller of two integers.
pub open spec fn min_int(a: int, b: int) -> int {
    if a <= b {
        a
    } else {
        b
    }
}

impl LayoutPoint {
    /// The point with the given coordinates.
    pub fn new(x: i32, y: i32) -> (p: Self)
        ensures
            p == (LayoutPoint { x, y }),
    {
        LayoutPoint { x, y }
    }
}

impl LayoutVector2D {
    /// The displacement with the given components.
    pub fn new(x: i32, y: i32) -> (v: Self)
        ensures
            v == (LayoutVector2D { x, y }),
    {
        LayoutVector2D { x, y }
    }
}

impl LayoutSize {
    /// The size with the given sides.
    pub fn new(width: i32, height: i32) -> (s: Self)
        ensures
            s == (LayoutSize { width, height }),
    {
        LayoutSize { width, height }
    }
}

impl LayoutRect {
    /// The rectangle with the given origin and size.
    pub fn new(origin: LayoutPoint, size: LayoutSize) -> (r: Self)
        ensures
            r == (LayoutRect { origin, size }),
    {
        LayoutRect { origin, size }
    }

    /// The rectangle of no extent at the origin.
    pub open spec fn spec_zero() -> LayoutRect {
        LayoutRect { origin: LayoutPoint { x: 0, y: 0 }, size: LayoutSize { width: 0, height: 0 } }
    }

    /// The rectangle of no extent at the origin.
    #[verifier::when_used_as_spec(spec_zero)]
    pub fn zero() -> (r: Self)
        ensures
            r == Self::spec_zero(),
    {
        LayoutRect { origin: LayoutPoint { x: 0, y: 0 }, size: LayoutSize { width: 0, height: 0 } }
    }

    /// The largest rectangle that layout space offers. It is centred on the origin.
    pub open spec fn spec_max_rect() -> LayoutRect {
        LayoutRect {
            origin: LayoutPoint { x: (-1_000_000_000i32) as i32, y: (-1_000_000_000i32) as i32 },
            size: LayoutSize { width: 2_000_000_000, height: 2_000_000_000 },
        }
    }

    /// The largest rectangle that layout space offers. It is centred on the origin.
    #[verifier::when_used_as_spec(spec_max_rect)]
    pub fn max_rect() -> (r: Self)
        ensures
            r == Self::spec_max_rect(),
    {
        LayoutRect {
            origin: LayoutPoint { x: -MAX_COORD, y: -MAX_COORD },
            size: LayoutSize { width: 2 * MAX_COORD, height: 2 * MAX_COORD },
        }
    }

    /// The first abscissa of the rectangle.
    pub open spec fn min_x(self) -> int {
        self.origin.x as int
    }

    /// The first ordinate of the rectangle.
    pub open spec fn min_y(self) -> int {
        self.origin.y as int
    }

    /// The first abscissa to the right of the rectangle.
    pub open spec fn max_x(self) -> int {
        self.origin.x + self.size.width
    }

    /// The first ordinate below the rectangle.
    pub open spec fn max_y(self) -> int {
        self.origin.y + self.size.height
    }

    /// Neither side is negative.
    pub open spec fn is_well_formed(self) -> bool {
        self.size.width >= 0 && self.size.height >= 0
    }

    /// One side has no length.
    pub open spec fn spec_is_empty(&self) -> bool {
        self.size.width == 0 || self.size.height == 0
    }

    /// One side has no length.
    #[verifier::when_used_as_spec(spec_is_empty)]
    pub fn is_empty(&self) -> (r: bool)
        ensures
            r == self.spec_is_empty(),
    {
        self.size.width == 0 || self.size.height == 0
    }

    /// Both sides have a positive length.
    pub open spec fn spec_is_well_formed_and_nonempty(&self) -> bool {
        self.size.width > 0 && self.size.height > 0
    }

    /// Both sides have a positive length.
    #[verifier::when_used_as_spec(spec_is_well_formed_and_nonempty)]
    pub fn is_well_formed_and_nonempty(&self) -> (r: bool)
        ensures
            r == self.spec_is_well_formed_and_nonempty(),
    {
        self.size.width > 0 && self.size.height > 0
    }

    /// The point lies in the rectangle: on or after its origin, before its far corner.
    pub open spec fn spec_contains(&self, p: &LayoutPoint) -> bool {
        &&& self.min_x() <= p.x < self.max_x()
        &&& self.min_y() <= p.y < self.max_y()
    }

    /// The point lies in the rectangle: on or after its origin, before its far corner.
    #[verifier::when_used_as_spec(spec_contains)]
    pub fn contains(&self, p: &LayoutPoint) -> (r: bool)
        ensures
            r == self.spec_contains(p),
    {
        let px: i64 = p.x as i64;
        let py: i64 = p.y as i64;
        let x0: i64 = self.origin.x as i64;
        let y0: i64 = self.origin.y as i64;
        x0 <= px && px < x0 + self.size.width as i64 && y0 <= py && py < y0 + self.size.height
            as i64
    }

    /// The rectangle covers the other one. An empty rectangle is covered by every rectangle.
    pub open spec fn spec_contains_rect(&self, other: &LayoutRect) -> bool {
        other.spec_is_empty() || (self.min_x() <= other.min_x() && other.max_x() <= self.max_x()
            && self.min_y() <= other.min_y() && other.max_y() <= self.max_y())
    }

    /// The rectangle covers the other one. An empty rectangle is covered by every rectangle.
    #[verifier::when_used_as_spec(spec_contains_rect)]
    pub fn contains_rect(&self, other: &LayoutRect) -> (r: bool)
        ensures
            r == self.spec_contains_rect(other),
    {
        let ax: i64 = self.origin.x as i64;
        let ay: i64 = self.origin.y as i64;
        let bx: i64 = other.origin.x as i64;
        let by: i64 = other.origin.y as i64;
        other.is_empty() || (ax <= bx && bx + other.size.width as i64 <= ax + self.size.width as i64
            && ay <= by && by + other.size.height as i64 <= ay + self.size.height as i64)
    }

    /// The two rectangles share a point.
    pub open spec fn spec_intersects(&self, other: &LayoutRect) -> bool {
        &&& self.min_x() < other.max_x()
        &&& other.min_x() < self.max_x()
        &&& self.min_y() < other.max_y()
        &&& other.min_y() < self.max_y()
    }

    /// The two rectangles share a point.
    #[verifier::when_used_as_spec(spec_intersects)]
    pub fn intersects(&self, other: &LayoutRect) -> (r: bool)
        ensures
            r == self.spec_intersects(other),
    {
        let ax: i64 = self.origin.x as i64;
        let ay: i64 = self.origin.y as i64;
        let bx: i64 = other.origin.x as i64;
        let by: i64 = other.origin.y as i64;
        ax < bx + other.size.width as i64 && bx < ax + self.size.width as i64 && ay < by
            + other.size.height as i64 && by < ay + self.size.height as i64
    }

    /// The rectangle that the two share, if they share a point.
    pub open spec fn spec_intersection(&self, other: &LayoutRect) -> Option<LayoutRect> {
        if self.spec_intersects(other) {
            let x = max_int(self.min_x(), other.min_x());
            let y = max_int(self.min_y(), other.min_y());
            Some(
                LayoutRect {
                    origin: LayoutPoint { x: x as i32, y: y as i32 },
                    size: LayoutSize {
                        width: (min_int(self.max_x(), other.max_x()) - x) as i32,
                        height: (min_int(self.max_y(), other.max_y()) - y) as i32,
                    },
                },
            )
        } else {
            None
        }
    }

    /// The rectangle that the two share, if they share a point.
    #[verifier::when_used_as_spec(spec_intersection)]
    pub fn intersection(&self, other: &LayoutRect) -> (r: Option<LayoutRect>)
        ensures
            r == self.spec_intersection(other),
    {
        if !self.intersects(other) {
            return None;
        }
        let x: i32 = if self.origin.x >= other.origin.x { self.origin.x } else { other.origin.x };
        let y: i32 = if self.origin.y >= other.origin.y { self.origin.y } else { other.origin.y };
        let ax1: i64 = self.origin.x as i64 + self.size.width as i64;
        let bx1: i64 = other.origin.x as i64 + other.size.width as i64;
        let ay1: i64 = self.origin.y as i64 + self.size.height as i64;
        let by1: i64 = other.origin.y as i64 + other.size.height as i64;
        let x1: i64 = if ax1 <= bx1 { ax1 } else { bx1 };
        let y1: i64 = if ay1 <= by1 { ay1 } else { by1 };
        Some(
            LayoutRect {
                origin: LayoutPoint { x, y },
                size: LayoutSize { width: (x1 - x as i64) as i32, height: (y1 - y as i64) as i32 },
            },
        )
    }

    /// The rectangle moved by a displacement. The origin saturates.
    pub open spec fn spec_translate(&self, by: &LayoutVector2D) -> LayoutRect {
        LayoutRect {
            origin: LayoutPoint {
                x: saturate_spec(self.origin.x + by.x),
                y: saturate_spec(self.origin.y + by.y),
            },
            size: self.size,
        }
    }

    /// The rectangle moved by a displacement. The origin saturates.
    #[verifier::when_used_as_spec(spec_translate)]
    pub fn translate(&self, by: &LayoutVector2D) -> (r: LayoutRect)
        ensures
            r == self.spec_translate(by),
    {
        LayoutRect {
            origin: LayoutPoint {
                x: saturate(self.origin.x as i64 + by.x as i64),
                y: saturate(self.origin.y as i64 + by.y as i64),
            },
            size: self.size,
        }
    }

    /// The rectangle grown by `width` to the left and to the right and by `height`
    /// upwards and downwards. Origin and size saturate.
    pub open spec fn spec_inflate(&self, width: i32, height: i32) -> LayoutRect {
        LayoutRect {
            origin: LayoutPoint {
                x: saturate_spec(self.origin.x - width),
                y: saturate_spec(self.origin.y - height),
            },
            size: LayoutSize {
                width: saturate_spec(self.size.width + 2 * width),
                height: saturate_spec(self.size.height + 2 * height),
            },
        }
    }

    /// The rectangle grown by `width` to the left and to the right and by `height`
    /// upwards and downwards. Origin and size saturate.
    #[verifier::when_used_as_spec(spec_inflate)]
    pub fn inflate(&self, width: i32, height: i32) -> (r: LayoutRect)
        ensures
            r == self.spec_inflate(width, height),
    {
        LayoutRect {
            origin: LayoutPoint {
                x: saturate(self.origin.x as i64 - width as i64),
                y: saturate(self.origin.y as i64 - height as i64),
            },
            size: LayoutSize {
                width: saturate(self.size.width as i64 + 2 * (width as i64)),
                height: saturate(self.size.height as i64 + 2 * (height as i64)),
            },
        }
    }
}

impl DeviceIntRect {
    /// The rectangle with the given origin and size.
    pub fn new(origin: DeviceIntPoint, size: DeviceIntSize) -> (r: Self)
        ensures
            r == (DeviceIntRect { origin, size }),
    {
        DeviceIntRect { origin, size }
    }

    /// The rectangle of no extent at the origin.
    pub open spec fn spec_zero() -> DeviceIntRect {
        DeviceIntRect {
            origin: DeviceIntPoint { x: 0, y: 0 },
            size: DeviceIntSize { width: 0, height: 0 },
        }
    }

    /// The rectangle of no extent at the origin.
    #[verifier::when_used_as_spec(spec_zero)]
    pub fn zero() -> (r: Self)
        ensures
            r == Self::spec_zero(),
    {
        DeviceIntRect {
            origin: DeviceIntPoint { x: 0, y: 0 },
            size: DeviceIntSize { width: 0, height: 0 },
        }
    }

    /// The first abscissa of the rectangle.
    pub open spec fn min_x(self) -> int {
        self.origin.x as int
    }

    /// The first ordinate of the rectangle.
    pub open spec fn min_y(self) -> int {
        self.origin.y as int
    }

    /// The first abscissa to the right of the rectangle.
    pub open spec fn max_x(self) -> int {
        self.origin.x + self.size.width
    }

    /// The first ordinate below the rectangle.
    pub open spec fn max_y(self) -> int {
        self.origin.y + self.size.height
    }

    /// Neither side is negative.
    pub open spec fn is_well_formed(self) -> bool {
        self.size.width >= 0 && self.size.height >= 0
    }

    /// One side has no length.
    pub open spec fn spec_is_empty(&self) -> bool {
        self.size.width == 0 || self.size.height == 0
    }

    /// One side has no length.
    #[verifier::when_used_as_spec(spec_is_empty)]
    pub fn is_empty(&self) -> (r: bool)
        ensures
            r == self.spec_is_empty(),
    {
        self.size.width == 0 || self.size.height == 0
    }

    /// The pixel lies in the rectangle: on or after its origin, before its far corner.
    pub open spec fn spec_contains(&self, p: &DeviceIntPoint) -> bool {
        &&& self.min_x() <= p.x < self.max_x()
        &&& self.min_y() <= p.y < self.max_y()
    }

    /// The pixel lies in the rectangle: on or after its origin, before its far corner.
    #[verifier::when_used_as_spec(spec_contains)]
    pub fn contains(&self, p: &DeviceIntPoint) -> (r: bool)
        ensures
            r == self.spec_contains(p),
    {
        let px: i64 = p.x as i64;
        let py: i64 = p.y as i64;
        let x0: i64 = self.origin.x as i64;
        let y0: i64 = self.origin.y as i64;
        x0 <= px && px < x0 + self.size.width as i64 && y0 <= py && py < y0 + self.size.height
            as i64
    }

    /// The rectangle covers the other one. An empty rectangle is covered by every rectangle.
    pub open spec fn spec_contains_rect(&self, other: &DeviceIntRect) -> bool {
        other.spec_is_empty() || (self.min_x() <= other.min_x() && other.max_x() <= self.max_x()
            && self.min_y() <= other.min_y() && other.max_y() <= self.max_y())
    }

    /// The rectangle covers the other one. An empty rectangle is covered by every rectangle.
    #[verifier::when_used_as_spec(spec_contains_rect)]
    pub fn contains_rect(&self, other: &DeviceIntRect) -> (r: bool)
        ensures
            r == self.spec_contains_rect(other),
    {
        let ax: i64 = self.origin.x as i64;
        let ay: i64 = self.origin.y as i64;
        let bx: i64 = other.origin.x as i64;
        let by: i64 = other.origin.y as i64;
        other.is_empty() || (ax <= bx && bx + other.size.width as i64 <= ax + self.size.width as i64
            && ay <= by && by + other.size.height as i64 <= ay + self.size.height as i64)
    }

    /// The two rectangles share a pixel.
    pub open spec fn spec_intersects(&self, other: &DeviceIntRect) -> bool {
        &&& self.min_x() < other.max_x()
        &&& other.min_x() < self.max_x()
        &&& self.min_y() < other.max_y()
        &&& other.min_y() < self.max_y()
    }

    /// The two rectangles share a pixel.
    #[verifier::when_used_as_spec(spec_intersects)]
    pub fn intersects(&self, other: &DeviceIntRect) -> (r: bool)
        ensures
            r == self.spec_intersects(other),
    {
        let ax: i64 = self.origin.x as i64;
        let ay: i64 = self.origin.y as i64;
        let bx: i64 = other.origin.x as i64;
        let by: i64 = other.origin.y as i64;
        ax < bx + other.size.width as i64 && bx < ax + self.size.width as i64 && ay < by
            + other.size.height as i64 && by < ay + self.size.height as i64
    }

    /// The rectangle that the two share, if they share a pixel.
    pub open spec fn spec_intersection(&self, other: &DeviceIntRect) -> Option<DeviceIntRect> {
        if self.spec_intersects(other) {
            let x = max_int(self.min_x(), other.min_x());
            let y = max_int(self.min_y(), other.min_y());
            Some(
                DeviceIntRect {
                    origin: DeviceIntPoint { x: x as i32, y: y as i32 },
                    size: DeviceIntSize {
                        width: (min_int(self.max_x(), other.max_x()) - x) as i32,
                        height: (min_int(self.max_y(), other.max_y()) - y) as i32,
                    },
                },
            )
        } else {
            None
        }
    }

    /// The rectangle that the two share, if they share a pixel.
    #[verifier::when_used_as_spec(spec_intersection)]
    pub fn intersection(&self, other: &DeviceIntRect) -> (r: Option<DeviceIntRect>)
        ensures
            r == self.spec_intersection(other),
    {
        if !self.intersects(other) {
            return None;
        }
        let x: i32 = if self.origin.x >= other.origin.x { self.origin.x } else { other.origin.x };
        let y: i32 = if self.origin.y >= other.origin.y { self.origin.y } else { other.origin.y };
        let ax1: i64 = self.origin.x as i64 + self.size.width as i64;
        let bx1: i64 = other.origin.x as i64 + other.size.width as i64;
        let ay1: i64 = self.origin.y as i64 + self.size.height as i64;
        let by1: i64 = other.origin.y as i64 + other.size.height as i64;
        let x1: i64 = if ax1 <= bx1 { ax1 } else { bx1 };
        let y1: i64 = if ay1 <= by1 { ay1 } else { by1 };
        Some(
            DeviceIntRect {
                origin: DeviceIntPoint { x, y },
                size: DeviceIntSize {
                    width: (x1 - x as i64) as i32,
                    height: (y1 - y as i64) as i32,
                },
            },
        )
    }

    /// The rectangle that the two share, or the zero rectangle where they share no pixel.
    pub open spec fn spec_intersection_or_zero(&self, other: &DeviceIntRect) -> DeviceIntRect {
        match self.spec_intersection(other) {
            Some(r) => r,
            None => DeviceIntRect::spec_zero(),
        }
    }

    /// The rectangle that the two share, or the zero rectangle where they share no pixel.
    #[verifier::when_used_as_spec(spec_intersection_or_zero)]
    pub fn intersection_or_zero(&self, other: &DeviceIntRect) -> (r: DeviceIntRect)
        ensures
            r == self.spec_intersection_or_zero(other),
    {
        match self.intersection(other) {
            Some(r) => r,
            None => DeviceIntRect::zero(),
        }
    }
}

/// A point lies in what two rectangles share exactly when it lies in both.
pub proof fn lemma_intersection_holds_shared_points(a: LayoutRect, b: LayoutRect, p: LayoutPoint)
    ensures
        (a.spec_intersection(&b) matches Some(r) && r.spec_contains(&p)) <==> (a.spec_contains(&p)
            && b.spec_contains(&p)),
{
}

/// A rectangle that covers another one holds the points of the other one.
pub proof fn lemma_covering_rect_holds_points(a: LayoutRect, b: LayoutRect, p: LayoutPoint)
    requires
        a.spec_contains_rect(&b),
        b.spec_contains(&p),
    ensures
        a.spec_contains(&p),
{
}

/// A pixel lies in what two device rectangles share exactly when it lies in both.
pub proof fn lemma_device_intersection_holds_shared_pixels(
    a: DeviceIntRect,
    b: DeviceIntRect,
    p: DeviceIntPoint,
)
    ensures
        (a.spec_intersection(&b) matches Some(r) && r.spec_contains(&p)) <==> (a.spec_contains(&p)
            && b.spec_contains(&p)),
        a.spec_intersection_or_zero(&b).spec_contains(&p) <==> (a.spec_contains(&p)
            && b.spec_contains(&p)),
{
}

/// A device rectangle that covers another one holds the pixels of the other one.
pub proof fn lemma_covering_device_rect_holds_pixels(
    a: DeviceIntRect,
    b: DeviceIntRect,
    p: DeviceIntPoint,
)
    requires
        a.spec_contains_rect(&b),
        b.spec_contains(&p),
    ensures
        a.spec_contains(&p),
{
}

} // verus!
