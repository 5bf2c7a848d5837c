//! Layout units and the rounding of layout lengths to whole pixels.
//!
//! Layout space is measured in layout units, sixty to the pixel. A length is a
//! signed 32-bit count of units; sums and products are formed exactly in wider
//! integers and saturate at the ends of the 32-bit range when they are stored.

use vstd::prelude::*;

verus! {

/// Number of layout units in one pixel.
pub const UNITS_PER_PIXEL: i32 = 60;

/// Half the side of the largest rectangle that layout space offers, in layout units.
pub const MAX_COORD: i32 = 1_000_000_000;

/// The value of the 32-bit range that is nearest to `v`.
pub open spec fn saturate_spec(v: int) -> i32 {
    if v < i32::MIN {
        i32::MIN
    } else if v > i32::MAX {
        i32::MAX
    } else {
        v as i32
    }
}

/// The largest whole-pixel length that is not above `v`, in layout units.
pub open spec fn floor_px(v: int) -> int {
    (v / 60) * 60
}

/// The smallest whole-pixel length that is not below `v`, in layout units.
pub open spec fn ceil_px(v: int) -> int {
    -floor_px(-v)
}

/// The distance from `v` to the whole-pixel length next to it on the side of zero.
pub open spec fn fract_px(v: int) -> int {
    if v < 0 {
        (-v) % 60
    } else {
        v % 60
    }
}

/// The quotient `n / d` rounded to the nearest integer, a half rounding away from zero.
pub open spec fn round_div(n: int, d: int) -> int
    recommends
        d > 0,
{
    if n >= 0 {
        (2 * n + d) / (2 * d)
    } else {
        -((2 * (-n) + d) / (2 * d))
    }
}

/// Stores an exactly computed length, saturating at the ends of the 32-bit range.
pub fn saturate(v: i64) -> (r: i32)
    ensures
        r == saturate_spec(v as int),
{
    if v < -2147483648 {
        -2147483648
    } else if v > 2147483647 {
        2147483647
    } else {
        v as i32
    }
}

/// Rounds a length down to a whole number of pixels.
pub fn floor_to_pixel(v: i64) -> (r: i64)
    requires
        i64::MIN + 60 <= v,
    ensures
        r == floor_px(v as int),
        r <= v < r + 60,
{
    let q: i64 = v / 60;
    let m: i64 = v % 60;
    if m < 0 {
        (q - 1) * 60
    } else {
        q * 60
    }
}

/// Rounds a length up to a whole number of pixels.
pub fn ceil_to_pixel(v: i64) -> (r: i64)
    requires
        i64::MIN + 60 <= v <= i64::MAX - 60,
    ensures
        r == ceil_px(v as int),
        v <= r < v + 60,
{
    -floor_to_pixel(-v)
}

/// The sub-pixel part of a length, taken without its sign.
pub fn fract_of_pixel(v: i32) -> (r: i32)
    ensures
        r == fract_px(v as int),
        0 <= r < 60,
{
    let w: i64 = v as i64;
    let a: i64 = if w < 0 { -w } else { w };
    (a % 60) as i32
}

/// Divides and rounds to the nearest integer, a half rounding away from zero.
pub fn round_quotient(n: i64, d: i64) -> (r: i64)
    requires
        0 < d <= 0x4000_0000,
        -0x2000_0000_0000_0000 <= n <= 0x2000_0000_0000_0000,
    ensures
        r == round_div(n as int, d as int),
{
    if n >= 0 {
        (2 * n + d) / (2 * d)
    } else {
        -((2 * (-n) + d) / (2 * d))
    }
}

} // verus!
