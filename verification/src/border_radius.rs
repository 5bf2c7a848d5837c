//! Corner radii of a rounded rectangle, and the rectangles derived from them.

use vstd::prelude::*;
use crate::geometry::{max_int, LayoutPoint, LayoutRect, LayoutSize};
use crate::units::{ceil_px, ceil_to_pixel, floor_px, floor_to_pixel, saturate, saturate_spec};

verus! {

/// The radii of the four corner ellipses of a rounded rectangle. The width of a
/// corner is its radius along the horizontal side, the height along the vertical.
#[derive(Clone, Copy, Debug, PartialEq, Eq, Structural)]
pub struct BorderRadius {
    pub top_left: LayoutSize,
    pub top_right: LayoutSize,
    pub bottom_left: LayoutSize,
    pub bottom_right: LayoutSize,
}

/// A fraction with a positive denominator, as numerator and denominator.
pub type Ratio = (int, int);

/// The ratio after one side has been looked at: where the two radii along the
/// side add up to more than its length, the side allows `length / sum`, and the
/// smaller of that and `ratio` stays. A negative length counts as zero.
pub open spec fn limit_by_side(ratio: Ratio, length: int, sum: int) -> Ratio {
    let len = max_int(length, 0);
    if sum > len && len * ratio.1 < ratio.0 * sum {
        (len, sum)
    } else {
        ratio
    }
}

/// The largest ratio, at most one, by which all radii can be scaled so that no
/// two corners overlap along any side of a rectangle of the given size.
pub open spec fn overlap_ratio(radii: BorderRadius, size: LayoutSize) -> Ratio {
    let top = limit_by_side((1, 1), size.width as int, radii.top_left.width + radii.top_right.width);
    let bottom = limit_by_side(
        top,
        size.width as int,
        radii.bottom_left.width + radii.bottom_right.width,
    );
    let left = limit_by_side(
        bottom,
        size.height as int,
        radii.top_left.height + radii.bottom_left.height,
    );
    limit_by_side(left, size.height as int, radii.top_right.height + radii.bottom_right.height)
}

/// A length scaled by a ratio and rounded down.
pub open spec fn scale_length(v: int, ratio: Ratio) -> int {
    (v * ratio.0) / ratio.1
}

/// A corner with both radii scaled by a ratio and rounded down.
pub open spec fn scale_corner(corner: LayoutSize, ratio: Ratio) -> LayoutSize {
    LayoutSize {
        width: scale_length(corner.width as int, ratio) as i32,
        height: scale_length(corner.height as int, ratio) as i32,
    }
}

/// The radii scaled down, where they must be, so that no two corners overlap.
pub open spec fn spec_ensure_no_corner_overlap(radii: BorderRadius, size: LayoutSize) -> BorderRadius {
    let ratio = overlap_ratio(radii, size);
    if ratio.0 < ratio.1 {
        BorderRadius {
            top_left: scale_corner(radii.top_left, ratio),
            top_right: scale_corner(radii.top_right, ratio),
            bottom_left: scale_corner(radii.bottom_left, ratio),
            bottom_right: scale_corner(radii.bottom_right, ratio),
        }
    } else {
        radii
    }
}

/// One radius of a shadow whose box has been spread: a corner that was square stays
/// square, another grows or shrinks with the box and does not fall below zero.
pub open spec fn adjust_radius_for_box_shadow(radius: i32, spread_amount: i32) -> i32 {
    if radius > 0 {
        saturate_spec(max_int(radius + spread_amount, 0))
    } else {
        0
    }
}

/// One corner of a shadow whose box has been spread.
pub open spec fn adjust_corner_for_box_shadow(corner: LayoutSize, spread_amount: i32) -> LayoutSize {
    LayoutSize {
        width: adjust_radius_for_box_shadow(corner.width, spread_amount),
        height: adjust_radius_for_box_shadow(corner.height, spread_amount),
    }
}

/// The radii of a shadow whose box has been spread by `spread_amount`.
pub open spec fn spec_adjust_border_radius_for_box_shadow(
    radius: BorderRadius,
    spread_amount: i32,
) -> BorderRadius {
    BorderRadius {
        top_left: adjust_corner_for_box_shadow(radius.top_left, spread_amount),
        top_right: adjust_corner_for_box_shadow(radius.top_right, spread_amount),
        bottom_left: adjust_corner_for_box_shadow(radius.bottom_left, spread_amount),
        bottom_right: adjust_corner_for_box_shadow(radius.bottom_right, spread_amount),
    }
}

/// The largest rectangle on whole-pixel offsets that lies inside the rounded
/// rectangle and touches none of the boxes round its four corners; `None` where
/// the corners leave no such rectangle.
pub open spec fn spec_extract_inner_rect_safe(rect: &LayoutRect, radii: &BorderRadius) -> Option<
    LayoutRect,
> {
    let xl = ceil_px(max_int(radii.top_left.width as int, radii.bottom_left.width as int));
    let xr = floor_px(
        rect.size.width - max_int(radii.top_right.width as int, radii.bottom_right.width as int),
    );
    let yt = ceil_px(max_int(radii.top_left.height as int, radii.top_right.height as int));
    let yb = floor_px(
        rect.size.height - max_int(
            radii.bottom_left.height as int,
            radii.bottom_right.height as int,
        ),
    );
    if xl <= xr && yt <= yb {
        Some(
            LayoutRect {
                origin: LayoutPoint {
                    x: saturate_spec(rect.origin.x + xl),
                    y: saturate_spec(rect.origin.y + yt),
                },
                size: LayoutSize { width: saturate_spec(xr - xl), height: saturate_spec(yb - yt) },
            },
        )
    } else {
        None
    }
}

/// A ratio between zero and one, which a side that is too short for its two radii
/// holds down to what it allows.
pub open spec fn ratio_respects_side(ratio: Ratio, length: int, sum: int) -> bool {
    &&& 0 <= ratio.0 <= ratio.1
    &&& 0 < ratio.1
    &&& sum > max_int(length, 0) ==> ratio.0 < ratio.1 && ratio.0 * sum <= max_int(length, 0)
        * ratio.1
}

proof fn lemma_floor_div(x: int, d: int)
    by (nonlinear_arith)
    requires
        d > 0,
    ensures
        d * (x / d) <= x < d * (x / d) + d,
{
}

proof fn lemma_ratio_order(a: int, b: int, c: int, d: int, s: int, l: int)
    by (nonlinear_arith)
    requires
        0 <= a,
        0 < b,
        0 <= c,
        0 < d,
        0 < s,
        0 <= l,
        a * d <= c * b,
        c * s <= l * d,
    ensures
        a * s <= l * b,
{
    assert(a * d * s <= c * b * s);
    assert(c * s * b <= l * d * b);
    assert(d * (a * s) <= d * (l * b));
}

/// Looking at one side gives a ratio that this side holds down.
proof fn lemma_limit_establishes(ratio: Ratio, length: int, sum: int)
    requires
        0 <= ratio.0 <= ratio.1,
        0 < ratio.1,
    ensures
        ratio_respects_side(limit_by_side(ratio, length, sum), length, sum),
        limit_by_side(ratio, length, sum).0 < limit_by_side(ratio, length, sum).1 || ratio.0
            == ratio.1,
{
    let len = max_int(length, 0);
    if sum > len && !(len * ratio.1 < ratio.0 * sum) {
        assert(ratio.0 * sum <= len * ratio.1);
        assert(ratio.0 < ratio.1) by (nonlinear_arith)
            requires
                ratio.0 * sum <= len * ratio.1,
                0 <= len < sum,
                0 <= ratio.0 <= ratio.1,
                0 < ratio.1,
        ;
    }
}

/// A side that held the ratio down still does after another side has been looked at.
proof fn lemma_limit_keeps(ratio: Ratio, length0: int, sum0: int, length: int, sum: int)
    requires
        ratio_respects_side(ratio, length0, sum0),
    ensures
        ratio_respects_side(limit_by_side(ratio, length, sum), length0, sum0),
{
    let len = max_int(length, 0);
    let len0 = max_int(length0, 0);
    if sum > len && len * ratio.1 < ratio.0 * sum {
        if sum0 > len0 {
            lemma_ratio_order(len, sum, ratio.0, ratio.1, sum0, len0);
        }
    }
}

/// The ratio that the four sides leave is held down by each of them.
pub proof fn lemma_overlap_ratio(radii: BorderRadius, size: LayoutSize)
    ensures
        ratio_respects_side(
            overlap_ratio(radii, size),
            size.width as int,
            radii.top_left.width + radii.top_right.width,
        ),
        ratio_respects_side(
            overlap_ratio(radii, size),
            size.width as int,
            radii.bottom_left.width + radii.bottom_right.width,
        ),
        ratio_respects_side(
            overlap_ratio(radii, size),
            size.height as int,
            radii.top_left.height + radii.bottom_left.height,
        ),
        ratio_respects_side(
            overlap_ratio(radii, size),
            size.height as int,
            radii.top_right.height + radii.bottom_right.height,
        ),
{
    let w = size.width as int;
    let h = size.height as int;
    let s1 = radii.top_left.width + radii.top_right.width;
    let s2 = radii.bottom_left.width + radii.bottom_right.width;
    let s3 = radii.top_left.height + radii.bottom_left.height;
    let s4 = radii.top_right.height + radii.bottom_right.height;
    let r1 = limit_by_side((1, 1), w, s1);
    let r2 = limit_by_side(r1, w, s2);
    let r3 = limit_by_side(r2, h, s3);
    lemma_limit_establishes((1, 1), w, s1);
    lemma_limit_establishes(r1, w, s2);
    lemma_limit_keeps(r1, w, s1, w, s2);
    lemma_limit_establishes(r2, h, s3);
    lemma_limit_keeps(r2, w, s1, h, s3);
    lemma_limit_keeps(r2, w, s2, h, s3);
    lemma_limit_establishes(r3, h, s4);
    lemma_limit_keeps(r3, w, s1, h, s4);
    lemma_limit_keeps(r3, w, s2, h, s4);
    lemma_limit_keeps(r3, h, s3, h, s4);
}

/// A radius that is scaled by a ratio of at most one moves towards zero.
proof fn lemma_scale_length_bounds(v: int, ratio: Ratio)
    requires
        0 <= ratio.0 <= ratio.1,
        0 < ratio.1,
    ensures
        v >= 0 ==> 0 <= scale_length(v, ratio) <= v,
        v < 0 ==> v <= scale_length(v, ratio) <= 0,
{
    let n = ratio.0;
    let d = ratio.1;
    lemma_floor_div(v * n, d);
    if v >= 0 {
        assert(0 <= v * n <= v * d) by (nonlinear_arith)
            requires
                0 <= n <= d,
                v >= 0,
        ;
        assert(0 <= (v * n) / d <= v) by (nonlinear_arith)
            requires
                d > 0,
                0 <= v * n <= v * d,
                d * ((v * n) / d) <= v * n < d * ((v * n) / d) + d,
        ;
    } else {
        assert(v * d <= v * n <= 0) by (nonlinear_arith)
            requires
                0 <= n <= d,
                v < 0,
        ;
        assert(v <= (v * n) / d <= 0) by (nonlinear_arith)
            requires
                d > 0,
                v * d <= v * n <= 0,
                d * ((v * n) / d) <= v * n < d * ((v * n) / d) + d,
        ;
    }
}

/// Two radii along a side, scaled by a ratio that the side holds down, fit the side.
proof fn lemma_scaled_side_fits(a: int, b: int, length: int, ratio: Ratio)
    requires
        a >= 0,
        b >= 0,
        length >= 0,
        ratio_respects_side(ratio, length, a + b),
    ensures
        scale_length(a, ratio) + scale_length(b, ratio) <= length,
{
    let n = ratio.0;
    let d = ratio.1;
    lemma_scale_length_bounds(a, ratio);
    lemma_scale_length_bounds(b, ratio);
    if a + b > length {
        lemma_floor_div(a * n, d);
        lemma_floor_div(b * n, d);
        let x = (a * n) / d;
        let y = (b * n) / d;
        assert(x + y <= length) by (nonlinear_arith)
            requires
                d > 0,
                d * x <= a * n,
                d * y <= b * n,
                n * (a + b) <= length * d,
        ;
    }
}

/// Scales the radii down, where they must be, so that no two corners overlap
/// along any side of `rect`. Radii that fit stay as they are.
pub fn ensure_no_corner_overlap(radius: &mut BorderRadius, rect: &LayoutRect)
    ensures
        *final(radius) == spec_ensure_no_corner_overlap(*old(radius), rect.size),
        old(radius).is_non_negative() ==> final(radius).is_non_negative(),
        old(radius).is_non_negative() && rect.is_well_formed() ==> final(radius).fits(rect.size),
{
    let w: i32 = rect.size.width;
    let h: i32 = rect.size.height;
    let r1 = limit_ratio((1, 1), w, radius.top_left.width as i64 + radius.top_right.width as i64);
    let r2 = limit_ratio(
        r1,
        w,
        radius.bottom_left.width as i64 + radius.bottom_right.width as i64,
    );
    let r3 = limit_ratio(r2, h, radius.top_left.height as i64 + radius.bottom_left.height as i64);
    let ratio = limit_ratio(
        r3,
        h,
        radius.top_right.height as i64 + radius.bottom_right.height as i64,
    );
    proof {
        lemma_overlap_ratio(*old(radius), rect.size);
        let g: Ratio = overlap_ratio(*old(radius), rect.size);
        assert(g == (ratio.0 as int, ratio.1 as int));
        lemma_scale_length_bounds(radius.top_left.width as int, g);
        lemma_scale_length_bounds(radius.top_left.height as int, g);
        lemma_scale_length_bounds(radius.top_right.width as int, g);
        lemma_scale_length_bounds(radius.top_right.height as int, g);
        lemma_scale_length_bounds(radius.bottom_left.width as int, g);
        lemma_scale_length_bounds(radius.bottom_left.height as int, g);
        lemma_scale_length_bounds(radius.bottom_right.width as int, g);
        lemma_scale_length_bounds(radius.bottom_right.height as int, g);
        if old(radius).is_non_negative() && rect.is_well_formed() {
            lemma_scaled_side_fits(
                radius.top_left.width as int,
                radius.top_right.width as int,
                w as int,
                g,
            );
            lemma_scaled_side_fits(
                radius.bottom_left.width as int,
                radius.bottom_right.width as int,
                w as int,
                g,
            );
            lemma_scaled_side_fits(
                radius.top_left.height as int,
                radius.bottom_left.height as int,
                h as int,
                g,
            );
            lemma_scaled_side_fits(
                radius.top_right.height as int,
                radius.bottom_right.height as int,
                h as int,
                g,
            );
        }
    }
    if ratio.0 < ratio.1 {
        radius.top_left = scale_corner_by(radius.top_left, ratio);
        radius.top_right = scale_corner_by(radius.top_right, ratio);
        radius.bottom_left = scale_corner_by(radius.bottom_left, ratio);
        radius.bottom_right = scale_corner_by(radius.bottom_right, ratio);
    }
}

fn limit_ratio(ratio: (i64, i64), length: i32, sum: i64) -> (r: (i64, i64))
    requires
        0 <= ratio.0 <= ratio.1,
        0 < ratio.1 <= 0x1_0000_0000,
        ratio.0 <= 0x8000_0000,
        -0x1_0000_0000 <= sum <= 0x1_0000_0000,
    ensures
        (r.0 as int, r.1 as int) == limit_by_side(
            (ratio.0 as int, ratio.1 as int),
            length as int,
            sum as int,
        ),
        0 <= r.0 <= r.1,
        0 < r.1 <= 0x1_0000_0000,
        r.0 <= 0x8000_0000,
{
    let len: i64 = if length >= 0 { length as i64 } else { 0 };
    if sum > len {
        assert(0 <= len * ratio.1 <= 0x8000_0000 * 0x1_0000_0000) by (nonlinear_arith)
            requires
                0 <= len <= 0x8000_0000,
                0 <= ratio.1 <= 0x1_0000_0000,
        ;
        assert(0 <= ratio.0 * sum <= 0x8000_0000 * 0x1_0000_0000) by (nonlinear_arith)
            requires
                0 <= ratio.0 <= 0x8000_0000,
                0 <= sum <= 0x1_0000_0000,
        ;
        let lhs: i128 = len as i128 * ratio.1 as i128;
        let rhs: i128 = ratio.0 as i128 * sum as i128;
        if lhs < rhs {
            return (len, sum);
        }
    }
    ratio
}

fn scale_by(v: i32, ratio: (i64, i64)) -> (r: i32)
    requires
        0 <= ratio.0 <= ratio.1,
        0 < ratio.1 <= 0x1_0000_0000,
        ratio.0 <= 0x8000_0000,
    ensures
        r == scale_length(v as int, (ratio.0 as int, ratio.1 as int)),
{
    proof {
        lemma_scale_length_bounds(v as int, (ratio.0 as int, ratio.1 as int));
        assert(-0x8000_0000 * 0x8000_0000 <= v * ratio.0 <= 0x8000_0000 * 0x8000_0000)
            by (nonlinear_arith)
            requires
                -0x8000_0000 <= v <= 0x8000_0000,
                0 <= ratio.0 <= 0x8000_0000,
        ;
    }
    let p: i64 = v as i64 * ratio.0;
    let q: i64 = p / ratio.1;
    let m: i64 = p % ratio.1;
    proof {
        let d = ratio.1 as int;
        let f = (p as int) / d;
        lemma_floor_div(p as int, d);
        assert(q * d + m == p && -d < m < d && (p >= 0 ==> m >= 0) && (p <= 0 ==> m <= 0))
            by (nonlinear_arith)
            requires
                d > 0,
                p >= 0 ==> q == p as int / d && m == p as int % d,
                p < 0 ==> q == -((-p) as int / d) && m == -((-p) as int % d),
        ;
        assert(if m < 0 {
            q - 1 == f
        } else {
            q == f
        }) by (nonlinear_arith)
            requires
                d > 0,
                q * d + m == p,
                -d < m < d,
                d * f <= p < d * f + d,
        ;
    }
    if m < 0 {
        (q - 1) as i32
    } else {
        q as i32
    }
}

fn scale_corner_by(corner: LayoutSize, ratio: (i64, i64)) -> (r: LayoutSize)
    requires
        0 <= ratio.0 <= ratio.1,
        0 < ratio.1 <= 0x1_0000_0000,
        ratio.0 <= 0x8000_0000,
    ensures
        r == scale_corner(corner, (ratio.0 as int, ratio.1 as int)),
{
    LayoutSize { width: scale_by(corner.width, ratio), height: scale_by(corner.height, ratio) }
}

/// The largest rectangle on whole-pixel offsets that lies inside the rounded
/// rectangle and touches none of the boxes round its four corners; `None` where
/// the corners leave no such rectangle.
#[verifier::when_used_as_spec(spec_extract_inner_rect_safe)]
pub fn extract_inner_rect_safe(rect: &LayoutRect, radii: &BorderRadius) -> (r: Option<LayoutRect>)
    ensures
        r == spec_extract_inner_rect_safe(rect, radii),
{
    let left: i32 = if radii.top_left.width >= radii.bottom_left.width {
        radii.top_left.width
    } else {
        radii.bottom_left.width
    };
    let right: i32 = if radii.top_right.width >= radii.bottom_right.width {
        radii.top_right.width
    } else {
        radii.bottom_right.width
    };
    let top: i32 = if radii.top_left.height >= radii.top_right.height {
        radii.top_left.height
    } else {
        radii.top_right.height
    };
    let bottom: i32 = if radii.bottom_left.height >= radii.bottom_right.height {
        radii.bottom_left.height
    } else {
        radii.bottom_right.height
    };
    let xl: i64 = ceil_to_pixel(left as i64);
    let xr: i64 = floor_to_pixel(rect.size.width as i64 - right as i64);
    let yt: i64 = ceil_to_pixel(top as i64);
    let yb: i64 = floor_to_pixel(rect.size.height as i64 - bottom as i64);
    if xl <= xr && yt <= yb {
        Some(
            LayoutRect {
                origin: LayoutPoint {
                    x: saturate(rect.origin.x as i64 + xl),
                    y: saturate(rect.origin.y as i64 + yt),
                },
                size: LayoutSize { width: saturate(xr - xl), height: saturate(yb - yt) },
            },
        )
    } else {
        None
    }
}

/// The rectangle inscribed in a rounded rectangle with valid radii lies in it.
pub proof fn lemma_inner_rect_is_inside(rect: LayoutRect, radii: BorderRadius)
    requires
        rect.is_well_formed(),
        radii.is_non_negative(),
    ensures
        spec_extract_inner_rect_safe(&rect, &radii) matches Some(inner) ==> inner.is_well_formed()
            && rect.spec_contains_rect(&inner),
{
}

/// The radii of a shadow whose box has been spread by `spread_amount`: a corner
/// that was square stays square, another grows or shrinks with the box.
#[verifier::when_used_as_spec(spec_adjust_border_radius_for_box_shadow)]
pub fn adjust_border_radius_for_box_shadow(radius: BorderRadius, spread_amount: i32) -> (r:
    BorderRadius)
    ensures
        r == spec_adjust_border_radius_for_box_shadow(radius, spread_amount),
{
    BorderRadius {
        top_left: adjust_corner(radius.top_left, spread_amount),
        top_right: adjust_corner(radius.top_right, spread_amount),
        bottom_left: adjust_corner(radius.bottom_left, spread_amount),
        bottom_right: adjust_corner(radius.bottom_right, spread_amount),
    }
}

fn adjust_corner(corner: LayoutSize, spread_amount: i32) -> (r: LayoutSize)
    ensures
        r == adjust_corner_for_box_shadow(corner, spread_amount),
{
    LayoutSize {
        width: adjust_radius(corner.width, spread_amount),
        height: adjust_radius(corner.height, spread_amount),
    }
}

fn adjust_radius(radius: i32, spread_amount: i32) -> (r: i32)
    ensures
        r == adjust_radius_for_box_shadow(radius, spread_amount),
{
    if radius > 0 {
        let grown: i64 = radius as i64 + spread_amount as i64;
        if grown > 0 {
            saturate(grown)
        } else {
            0
        }
    } else {
        0
    }
}

impl BorderRadius {
    /// Four square corners.
    pub open spec fn spec_zero() -> BorderRadius {
        BorderRadius {
            top_left: LayoutSize { width: 0, height: 0 },
            top_right: LayoutSize { width: 0, height: 0 },
            bottom_left: LayoutSize { width: 0, height: 0 },
            bottom_right: LayoutSize { width: 0, height: 0 },
        }
    }

    /// Four square corners.
    #[verifier::when_used_as_spec(spec_zero)]
    pub fn zero() -> (r: Self)
        ensures
            r == Self::spec_zero(),
    {
        BorderRadius::uniform(0)
    }

    /// Four circular corners of one radius.
    pub open spec fn spec_uniform(radius: i32) -> BorderRadius {
        BorderRadius {
            top_left: LayoutSize { width: radius, height: radius },
            top_right: LayoutSize { width: radius, height: radius },
            bottom_left: LayoutSize { width: radius, height: radius },
            bottom_right: LayoutSize { width: radius, height: radius },
        }
    }

    /// Four circular corners of one radius.
    #[verifier::when_used_as_spec(spec_uniform)]
    pub fn uniform(radius: i32) -> (r: Self)
        ensures
            r == Self::spec_uniform(radius),
    {
        let corner = LayoutSize { width: radius, height: radius };
        BorderRadius { top_left: corner, top_right: corner, bottom_left: corner, bottom_right: corner }
    }

    /// All four corners are square.
    pub open spec fn spec_is_zero(&self) -> bool {
        *self == Self::spec_zero()
    }

    /// All four corners are square.
    #[verifier::when_used_as_spec(spec_is_zero)]
    pub fn is_zero(&self) -> (r: bool)
        ensures
            r == self.spec_is_zero(),
    {
        self.top_left.width == 0 && self.top_left.height == 0 && self.top_right.width == 0
            && self.top_right.height == 0 && self.bottom_left.width == 0 && self.bottom_left.height
            == 0 && self.bottom_right.width == 0 && self.bottom_right.height == 0
    }

    /// No radius is negative.
    pub open spec fn is_non_negative(self) -> bool {
        &&& self.top_left.width >= 0 && self.top_left.height >= 0
        &&& self.top_right.width >= 0 && self.top_right.height >= 0
        &&& self.bottom_left.width >= 0 && self.bottom_left.height >= 0
        &&& self.bottom_right.width >= 0 && self.bottom_right.height >= 0
    }

    /// No two corners overlap along any side of a rectangle of the given size.
    pub open spec fn fits(self, size: LayoutSize) -> bool {
        &&& self.top_left.width + self.top_right.width <= size.width
        &&& self.bottom_left.width + self.bottom_right.width <= size.width
        &&& self.top_left.height + self.bottom_left.height <= size.height
        &&& self.top_right.height + self.bottom_right.height <= size.height
    }

    /// No radius is negative and no two corners overlap in a rectangle of the given size.
    pub open spec fn is_valid_for(self, size: LayoutSize) -> bool {
        self.is_non_negative() && self.fits(size)
    }
}

} // verus!
