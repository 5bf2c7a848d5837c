use layer_clip::display_types::DevicePixelScale;
use layer_clip::geometry::{
    DeviceIntPoint, DeviceIntRect, DeviceIntSize, LayoutPoint, LayoutRect, LayoutSize, LayoutVector2D,
};
use layer_clip::screen_bounds::{
    calculate_screen_bounding_rect, device_size, to_cache_size, LayoutToWorldFastTransform,
};

fn rect(x: i32, y: i32, w: i32, h: i32) -> LayoutRect {
    LayoutRect::new(LayoutPoint::new(x, y), LayoutSize::new(w, h))
}

fn device_rect(x: i32, y: i32, w: i32, h: i32) -> DeviceIntRect {
    DeviceIntRect::new(DeviceIntPoint { x, y }, DeviceIntSize { width: w, height: h })
}

fn offset(x: i32, y: i32) -> LayoutToWorldFastTransform {
    LayoutToWorldFastTransform::Offset(LayoutVector2D::new(x, y))
}

#[test]
fn device_sizes_are_rounded_to_the_nearest_pixel() {
    let one = DevicePixelScale(60);
    assert_eq!(device_size(LayoutSize::new(6000, 60), one), DeviceIntSize { width: 100, height: 1 });
    assert_eq!(device_size(LayoutSize::new(29, 30), one), DeviceIntSize { width: 0, height: 1 });
    assert_eq!(device_size(LayoutSize::new(89, 90), one), DeviceIntSize { width: 1, height: 2 });
    assert_eq!(device_size(LayoutSize::new(-29, -30), one), DeviceIntSize { width: 0, height: -1 });
    assert_eq!(
        device_size(LayoutSize::new(6000, 60), DevicePixelScale(150)),
        DeviceIntSize { width: 250, height: 3 }
    );
    assert_eq!(
        device_size(LayoutSize::new(6000, 60), DevicePixelScale(0)),
        DeviceIntSize { width: 0, height: 0 }
    );
}

#[test]
fn device_sizes_saturate() {
    assert_eq!(
        device_size(LayoutSize::new(i32::MAX, i32::MIN), DevicePixelScale(u16::MAX)),
        DeviceIntSize { width: i32::MAX, height: i32::MIN }
    );
}

#[test]
fn cache_sizes_are_a_pixel_at_least() {
    let one = DevicePixelScale(60);
    assert_eq!(to_cache_size(LayoutSize::new(6000, 60), one), DeviceIntSize { width: 100, height: 1 });
    assert_eq!(to_cache_size(LayoutSize::new(29, 0), one), DeviceIntSize { width: 1, height: 1 });
    assert_eq!(to_cache_size(LayoutSize::new(-600, 90), one), DeviceIntSize { width: 1, height: 2 });
}

#[test]
fn a_rect_on_whole_pixels_keeps_its_size() {
    let one = DevicePixelScale(60);
    assert_eq!(
        calculate_screen_bounding_rect(&offset(0, 0), &rect(600, 1200, 6000, 3000), one, None),
        Some(device_rect(10, 20, 100, 50))
    );
    assert_eq!(
        calculate_screen_bounding_rect(&offset(-600, 60), &rect(600, 1200, 6000, 3000), one, None),
        Some(device_rect(0, 21, 100, 50))
    );
}

#[test]
fn a_rect_between_pixels_takes_all_pixels_that_it_touches() {
    let one = DevicePixelScale(60);
    assert_eq!(
        calculate_screen_bounding_rect(&offset(0, 0), &rect(30, 59, 60, 2), one, None),
        Some(device_rect(0, 0, 2, 2))
    );
    assert_eq!(
        calculate_screen_bounding_rect(&offset(0, 0), &rect(-30, -61, 60, 2), one, None),
        Some(device_rect(-1, -2, 2, 2))
    );
    assert_eq!(
        calculate_screen_bounding_rect(&offset(1, 1), &rect(-1, -1, 60, 60), one, None),
        Some(device_rect(0, 0, 1, 1))
    );
}

#[test]
fn a_rect_off_the_screen_has_no_bounds() {
    let one = DevicePixelScale(60);
    let screen = device_rect(0, 0, 800, 600);
    assert_eq!(
        calculate_screen_bounding_rect(&offset(0, 0), &rect(48_000, 0, 600, 600), one, Some(&screen)),
        None
    );
    assert_eq!(
        calculate_screen_bounding_rect(&offset(0, 0), &rect(47_999, 0, 600, 600), one, Some(&screen)),
        Some(device_rect(799, 0, 1, 10))
    );
    assert_eq!(
        calculate_screen_bounding_rect(&offset(0, 0), &rect(-600, -600, 600, 600), one, Some(&screen)),
        None
    );
    assert_eq!(
        calculate_screen_bounding_rect(&offset(0, 0), &rect(-600, -600, 601, 601), one, Some(&screen)),
        Some(device_rect(0, 0, 1, 1))
    );
}

#[test]
fn bounds_lie_in_device_space() {
    let far = rect(i32::MAX - 10, 0, 10, 60);
    assert_eq!(
        calculate_screen_bounding_rect(&offset(i32::MAX, 0), &far, DevicePixelScale(u16::MAX), None),
        None
    );
    let wide = rect(i32::MIN, 0, i32::MAX, 60);
    assert_eq!(
        calculate_screen_bounding_rect(&offset(0, 0), &wide, DevicePixelScale(u16::MAX), None),
        Some(device_rect(-1_000_000_000, 0, 999_999_982, 1093))
    );
}
