//! The point test of a rounded rectangle.
//!
//! A rounded rectangle is a rectangle with a quarter of an ellipse cut into each
//! corner. A point of the rectangle lies in it unless it lies in the box of a
//! corner and outside that corner's ellipse.

use vstd::prelude::*;
use crate::border_radius::BorderRadius;
use crate::geometry::{LayoutPoint, LayoutRect, LayoutSize};

verus! {

/// An ellipse round the origin with the given radii along the two axes.
#[derive(Clone, Copy, Debug, PartialEq, Eq, Structural)]
pub struct Ellipse {
    pub radius: LayoutSize,
}

/// The offset `(dx, dy)` from the centre of an ellipse with radii `a` and `b`
/// lies in the ellipse or on it: `(dx / a)^2 + (dy / b)^2 <= 1`, cleared of fractions.
pub open spec fn ellipse_contains(a: int, b: int, dx: int, dy: int) -> bool {
    (dx * dx) * (b * b) + (dy * dy) * (a * a) <= (a * a) * (b * b)
}

/// The point lies in the box of a corner whose ellipse has its centre at
/// `(cx, cy)`, on the side of the centre that `left` and `above` name, and
/// outside the ellipse.
pub open spec fn cut_off_by_corner(
    point: LayoutPoint,
    cx: int,
    cy: int,
    radius: LayoutSize,
    left: bool,
    above: bool,
) -> bool {
    &&& if left {
        cx > point.x
    } else {
        cx < point.x
    }
    &&& if above {
        cy > point.y
    } else {
        cy < point.y
    }
    &&& !ellipse_contains(radius.width as int, radius.height as int, point.x - cx, point.y - cy)
}

/// The point lies in the rounded rectangle.
pub open spec fn spec_rounded_rectangle_contains_point(
    point: &LayoutPoint,
    rect: &LayoutRect,
    radii: &BorderRadius,
) -> bool {
    &&& rect.spec_contains(point)
    &&& !cut_off_by_corner(
        *point,
        rect.min_x() + radii.top_left.width,
        rect.min_y() + radii.top_left.height,
        radii.top_left,
        true,
        true,
    )
    &&& !cut_off_by_corner(
        *point,
        rect.max_x() - radii.bottom_right.width,
        rect.max_y() - radii.bottom_right.height,
        radii.bottom_right,
        false,
        false,
    )
    &&& !cut_off_by_corner(
        *point,
        rect.max_x() - radii.top_right.width,
        rect.min_y() + radii.top_right.height,
        radii.top_right,
        false,
        true,
    )
    &&& !cut_off_by_corner(
        *point,
        rect.min_x() + radii.bottom_left.width,
        rect.max_y() - radii.bottom_left.height,
        radii.bottom_left,
        true,
        false,
    )
}

proof fn lemma_square_bound(x: int, m: int)
    by (nonlinear_arith)
    requires
        -m <= x <= m,
    ensures
        0 <= x * x <= m * m,
{
}

proof fn lemma_product_bound(x: int, y: int, m: int, n: int)
    by (nonlinear_arith)
    requires
        0 <= x <= m,
        0 <= y <= n,
    ensures
        0 <= x * y <= m * n,
{
}

/// The square of a 64-bit value whose magnitude is below 2^31.
fn square(v: i64) -> (r: u128)
    requires
        -0x8000_0000 <= v <= 0x8000_0000,
    ensures
        r == v * v,
        r <= 0x4000_0000_0000_0000,
{
    proof {
        lemma_square_bound(v as int, 0x8000_0000);
    }
    let a: i64 = if v < 0 { -v } else { v };
    let u: u128 = a as u128;
    assert(u * u == v * v) by (nonlinear_arith)
        requires
            u == v || u == -v,
    ;
    u * u
}

/// The test of `ellipse_contains` on offsets whose magnitude is below 2^31.
fn offset_in_ellipse(a: i32, b: i32, dx: i64, dy: i64) -> (r: bool)
    requires
        -0x8000_0000 <= dx <= 0x8000_0000,
        -0x8000_0000 <= dy <= 0x8000_0000,
    ensures
        r == ellipse_contains(a as int, b as int, dx as int, dy as int),
{
    let a2: u128 = square(a as i64);
    let b2: u128 = square(b as i64);
    let x2: u128 = square(dx);
    let y2: u128 = square(dy);
    proof {
        lemma_product_bound(x2 as int, b2 as int, 0x4000_0000_0000_0000, 0x4000_0000_0000_0000);
        lemma_product_bound(y2 as int, a2 as int, 0x4000_0000_0000_0000, 0x4000_0000_0000_0000);
        lemma_product_bound(a2 as int, b2 as int, 0x4000_0000_0000_0000, 0x4000_0000_0000_0000);
    }
    x2 * b2 + y2 * a2 <= a2 * b2
}

impl Ellipse {
    /// The ellipse with the given radii.
    pub fn new(radius: LayoutSize) -> (e: Self)
        ensures
            e.radius == radius,
    {
        Ellipse { radius }
    }

    /// The point, taken as an offset from the centre, lies in the ellipse or on it.
    pub open spec fn spec_contains(&self, point: LayoutPoint) -> bool {
        ellipse_contains(
            self.radius.width as int,
            self.radius.height as int,
            point.x as int,
            point.y as int,
        )
    }

    /// The point, taken as an offset from the centre, lies in the ellipse or on it.
    #[verifier::when_used_as_spec(spec_contains)]
    pub fn contains(&self, point: LayoutPoint) -> (r: bool)
        ensures
            r == self.spec_contains(point),
    {
        offset_in_ellipse(self.radius.width, self.radius.height, point.x as i64, point.y as i64)
    }
}

/// One corner's part of the point test, for a point of the rectangle.
fn point_cut_off_by_corner(
    point: &LayoutPoint,
    cx: i64,
    cy: i64,
    radius: LayoutSize,
    left: bool,
    above: bool,
) -> (r: bool)
    requires
        -0x2_0000_0000 <= cx <= 0x2_0000_0000,
        -0x2_0000_0000 <= cy <= 0x2_0000_0000,
        (if left {
            cx > point.x
        } else {
            cx < point.x
        }) ==> -0x8000_0000 <= point.x - cx <= 0x8000_0000,
        (if above {
            cy > point.y
        } else {
            cy < point.y
        }) ==> -0x8000_0000 <= point.y - cy <= 0x8000_0000,
    ensures
        r == cut_off_by_corner(*point, cx as int, cy as int, radius, left, above),
{
    let px: i64 = point.x as i64;
    let py: i64 = point.y as i64;
    let beside: bool = if left { cx > px } else { cx < px };
    let beyond: bool = if above { cy > py } else { cy < py };
    beside && beyond && !offset_in_ellipse(radius.width, radius.height, px - cx, py - cy)
}

/// Tells whether a point lies in the rounded rectangle that `rect` and `radii` describe.
#[verifier::when_used_as_spec(spec_rounded_rectangle_contains_point)]
pub fn rounded_rectangle_contains_point(
    point: &LayoutPoint,
    rect: &LayoutRect,
    radii: &BorderRadius,
) -> (r: bool)
    ensures
        r == spec_rounded_rectangle_contains_point(point, rect, radii),
        r ==> rect.spec_contains(point),
{
    if !rect.contains(point) {
        return false;
    }
    let x0: i64 = rect.origin.x as i64;
    let y0: i64 = rect.origin.y as i64;
    let x1: i64 = x0 + rect.size.width as i64;
    let y1: i64 = y0 + rect.size.height as i64;

    if point_cut_off_by_corner(
        point,
        x0 + radii.top_left.width as i64,
        y0 + radii.top_left.height as i64,
        radii.top_left,
        true,
        true,
    ) {
        return false;
    }
    if point_cut_off_by_corner(
        point,
        x1 - radii.bottom_right.width as i64,
        y1 - radii.bottom_right.height as i64,
        radii.bottom_right,
        false,
        false,
    ) {
        return false;
    }
    if point_cut_off_by_corner(
        point,
        x1 - radii.top_right.width as i64,
        y0 + radii.top_right.height as i64,
        radii.top_right,
        false,
        true,
    ) {
        return false;
    }
    if point_cut_off_by_corner(
        point,
        x0 + radii.bottom_left.width as i64,
        y1 - radii.bottom_left.height as i64,
        radii.bottom_left,
        true,
        false,
    ) {
        return false;
    }
    true
}

/// An offset that is at most half a radius long along each axis lies in the ellipse.
proof fn lemma_half_radius_is_inside(a: int, b: int, dx: int, dy: int)
    by (nonlinear_arith)
    requires
        -a <= 2 * dx <= a,
        -b <= 2 * dy <= b,
    ensures
        ellipse_contains(a, b, dx, dy),
{
    assert(4 * (dx * dx) <= a * a);
    assert(4 * (dy * dy) <= b * b);
    assert(4 * ((dx * dx) * (b * b)) <= (a * a) * (b * b));
    assert(4 * ((dy * dy) * (a * a)) <= (a * a) * (b * b));
}

/// The centre of a rounded rectangle lies in it, whenever the radii are not
/// negative and no two corners overlap.
pub proof fn lemma_center_is_contained(point: LayoutPoint, rect: LayoutRect, radii: BorderRadius)
    requires
        rect.spec_is_well_formed_and_nonempty(),
        radii.is_valid_for(rect.size),
        2 * (point.x - rect.origin.x) == rect.size.width,
        2 * (point.y - rect.origin.y) == rect.size.height,
    ensures
        spec_rounded_rectangle_contains_point(&point, &rect, &radii),
{
    let cx = rect.min_x() + radii.top_left.width;
    let cy = rect.min_y() + radii.top_left.height;
    if cx > point.x && cy > point.y {
        lemma_half_radius_is_inside(
            radii.top_left.width as int,
            radii.top_left.height as int,
            point.x - cx,
            point.y - cy,
        );
    }
    let cx = rect.max_x() - radii.bottom_right.width;
    let cy = rect.max_y() - radii.bottom_right.height;
    if cx < point.x && cy < point.y {
        lemma_half_radius_is_inside(
            radii.bottom_right.width as int,
            radii.bottom_right.height as int,
            point.x - cx,
            point.y - cy,
        );
    }
    let cx = rect.max_x() - radii.top_right.width;
    let cy = rect.min_y() + radii.top_right.height;
    if cx < point.x && cy > point.y {
        lemma_half_radius_is_inside(
            radii.top_right.width as int,
            radii.top_right.height as int,
            point.x - cx,
            point.y - cy,
        );
    }
    let cx = rect.min_x() + radii.bottom_left.width;
    let cy = rect.max_y() - radii.bottom_left.height;
    if cx > point.x && cy < point.y {
        lemma_half_radius_is_inside(
            radii.bottom_left.width as int,
            radii.bottom_left.height as int,
            point.x - cx,
            point.y - cy,
        );
    }
}

/// The origin of a rounded rectangle lies in it where the top left corner is
/// square, whenever the radii are not negative and no two corners overlap.
pub proof fn lemma_square_corner_is_contained(rect: LayoutRect, radii: BorderRadius)
    requires
        rect.spec_is_well_formed_and_nonempty(),
        radii.is_valid_for(rect.size),
        radii.top_left.width == 0 || radii.top_left.height == 0,
    ensures
        spec_rounded_rectangle_contains_point(&rect.origin, &rect, &radii),
{
}

/// A point outside the rectangle lies outside the rounded rectangle, whatever the radii.
pub proof fn lemma_outside_is_not_contained(
    point: LayoutPoint,
    rect: LayoutRect,
    radii: BorderRadius,
)
    requires
        !rect.spec_contains(&point),
    ensures
        !spec_rounded_rectangle_contains_point(&point, &rect, &radii),
{
}

} // verus!
