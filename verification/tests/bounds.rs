use layer_clip::border_radius::BorderRadius;
use layer_clip::bounds::BoundsAccumulator;
use layer_clip::clip_source::ClipSource;
use layer_clip::display_types::{
    BoxShadowClipMode, ClipMode, IdNamespace, ImageKey, ImageMask, LineOrientation, LineStyle,
};
use layer_clip::geometry::{LayoutPoint, LayoutRect, LayoutSize};
use layer_clip::rounded_rect::rounded_rectangle_contains_point;

fn rect(x: i32, y: i32, w: i32, h: i32) -> LayoutRect {
    LayoutRect::new(LayoutPoint::new(x, y), LayoutSize::new(w, h))
}

fn bounds(clips: &[ClipSource]) -> (LayoutRect, Option<LayoutRect>) {
    let mut acc = BoundsAccumulator::new();
    for clip in clips {
        acc.add(clip);
    }
    acc.finish()
}

fn mask(r: LayoutRect, repeat: bool) -> ClipSource {
    ClipSource::Image(ImageMask { image: ImageKey(IdNamespace(0), 1), rect: r, repeat })
}

fn shadow() -> ClipSource {
    ClipSource::new_box_shadow(
        rect(0, 0, 600, 600),
        BorderRadius::zero(),
        rect(0, 0, 600, 600),
        60,
        BoxShadowClipMode::Outset,
    )
}

fn line() -> ClipSource {
    ClipSource::new_line_decoration(rect(0, 0, 600, 60), LineStyle::Wavy, LineOrientation::Horizontal, 60)
}

#[test]
fn no_clips_bound_nothing() {
    let acc = BoundsAccumulator::new();
    assert_eq!(acc.local_outer, Some(LayoutRect::max_rect()));
    assert_eq!(acc.local_inner, Some(LayoutRect::max_rect()));
    assert!(acc.can_calculate_inner_rect);
    assert!(!acc.can_calculate_outer_rect);
    assert_eq!(bounds(&[]), (LayoutRect::max_rect(), None));
}

#[test]
fn a_rectangle_is_its_own_bounds() {
    let r = rect(0, 0, 6000, 6000);
    assert_eq!(bounds(&[ClipSource::Rectangle(r, ClipMode::Clip)]), (r, Some(r)));
}

#[test]
fn a_rounded_rectangle_has_a_smaller_inner_rect() {
    let r = rect(0, 0, 6000, 6000);
    let clip = ClipSource::new_rounded_rect(r, BorderRadius::uniform(1200), ClipMode::Clip);
    let (inner, outer) = bounds(&[clip]);
    assert_eq!(outer, Some(r));
    assert_eq!(inner, rect(1200, 1200, 3600, 3600));
    assert!(r.contains_rect(&inner));
    assert!(!inner.contains_rect(&r));
}

#[test]
fn rectangles_narrow_both_bounds() {
    let clips = [
        ClipSource::Rectangle(rect(0, 0, 6000, 6000), ClipMode::Clip),
        ClipSource::Rectangle(rect(3000, 1200, 6000, 1800), ClipMode::Clip),
        ClipSource::new_rounded_rect(rect(0, 0, 6000, 6000), BorderRadius::uniform(1500), ClipMode::Clip),
    ];
    let (inner, outer) = bounds(&clips);
    assert_eq!(outer, Some(rect(3000, 1200, 3000, 1800)));
    assert_eq!(inner, rect(3000, 1500, 1500, 1500));
    assert!(outer.unwrap().contains_rect(&inner));
}

#[test]
fn inner_lies_in_outer_for_clips_in_mode_clip() {
    let shapes = [
        (rect(0, 0, 6000, 6000), 0),
        (rect(100, 200, 5000, 7000), 900),
        (rect(-3000, -3000, 7000, 7000), 3500),
        (rect(30, 30, 4000, 4000), 45),
        (rect(2000, 2000, 100, 100), 50),
    ];
    for first in 0..shapes.len() {
        for second in 0..shapes.len() {
            let clips = [
                ClipSource::new_rounded_rect(shapes[first].0, BorderRadius::uniform(shapes[first].1), ClipMode::Clip),
                ClipSource::new_rounded_rect(shapes[second].0, BorderRadius::uniform(shapes[second].1), ClipMode::Clip),
            ];
            let (inner, outer) = bounds(&clips);
            let outer = outer.unwrap();
            assert!(outer.contains_rect(&inner));
            assert!(LayoutRect::max_rect().contains_rect(&outer));
            assert!(inner.size.width >= 0 && inner.size.height >= 0);
        }
    }
}

#[test]
fn rectangles_that_share_nothing_leave_zero_rects() {
    let clips = [
        ClipSource::Rectangle(rect(0, 0, 600, 600), ClipMode::Clip),
        ClipSource::Rectangle(rect(6000, 6000, 600, 600), ClipMode::Clip),
        ClipSource::Rectangle(rect(0, 0, 600, 600), ClipMode::Clip),
    ];
    assert_eq!(bounds(&clips), (LayoutRect::zero(), Some(LayoutRect::zero())));
}

#[test]
fn a_rounded_rectangle_without_inner_rect_leaves_none() {
    // Corners of 50 units in a box of 100 units leave no whole pixel between them.
    let clips = [
        ClipSource::new_rounded_rect(rect(0, 0, 100, 100), BorderRadius::uniform(50), ClipMode::Clip),
        ClipSource::Rectangle(rect(0, 0, 6000, 6000), ClipMode::Clip),
    ];
    assert_eq!(bounds(&clips), (LayoutRect::zero(), Some(rect(0, 0, 100, 100))));
}

#[test]
fn a_clip_out_leaves_the_inner_rect_unknown() {
    let r = rect(0, 0, 6000, 6000);
    let hole = rect(600, 600, 600, 600);
    assert_eq!(bounds(&[ClipSource::Rectangle(hole, ClipMode::ClipOut)]), (LayoutRect::zero(), None));
    assert_eq!(
        bounds(&[
            ClipSource::Rectangle(r, ClipMode::Clip),
            ClipSource::Rectangle(hole, ClipMode::ClipOut)
        ]),
        (LayoutRect::zero(), Some(r))
    );
    assert_eq!(
        bounds(&[
            ClipSource::Rectangle(hole, ClipMode::ClipOut),
            ClipSource::Rectangle(r, ClipMode::Clip)
        ]),
        (LayoutRect::zero(), Some(r))
    );
    assert_eq!(
        bounds(&[
            ClipSource::Rectangle(r, ClipMode::Clip),
            ClipSource::new_rounded_rect(hole, BorderRadius::uniform(60), ClipMode::ClipOut),
            ClipSource::Rectangle(rect(0, 0, 3000, 3000), ClipMode::Clip),
        ]),
        (LayoutRect::zero(), Some(rect(0, 0, 3000, 3000)))
    );
}

#[test]
fn an_image_mask_bounds_the_outer_rect_unless_it_repeats() {
    let r = rect(0, 0, 6000, 6000);
    let m = rect(1200, 1200, 6000, 6000);
    assert_eq!(bounds(&[mask(m, false)]), (LayoutRect::zero(), Some(m)));
    assert_eq!(bounds(&[mask(m, true)]), (LayoutRect::zero(), None));
    assert_eq!(
        bounds(&[ClipSource::Rectangle(r, ClipMode::Clip), mask(m, false)]),
        (LayoutRect::zero(), Some(rect(1200, 1200, 4800, 4800)))
    );
}

#[test]
fn a_repeating_mask_keeps_the_outer_rect() {
    let m = rect(1200, 1200, 60, 60);
    let chains: [Vec<ClipSource>; 4] = [
        vec![],
        vec![ClipSource::Rectangle(rect(0, 0, 6000, 6000), ClipMode::Clip)],
        vec![ClipSource::Rectangle(rect(0, 0, 6000, 6000), ClipMode::ClipOut)],
        vec![
            ClipSource::new_rounded_rect(rect(0, 0, 6000, 6000), BorderRadius::uniform(600), ClipMode::Clip),
            mask(rect(0, 0, 3000, 3000), false),
        ],
    ];
    for chain in chains {
        let before = bounds(&chain);
        let mut longer = chain.clone();
        longer.push(mask(m, true));
        let after = bounds(&longer);
        assert_eq!(after.1, before.1);
        assert_eq!(after.0, LayoutRect::zero());
        let mut acc = BoundsAccumulator::new();
        for clip in &longer {
            acc.add(clip);
        }
        assert!(!acc.can_calculate_inner_rect);
    }
}

#[test]
fn shadows_and_lines_leave_the_inner_rect_unknown() {
    let r = rect(0, 0, 6000, 6000);
    assert_eq!(bounds(&[shadow()]), (LayoutRect::zero(), None));
    assert_eq!(bounds(&[line()]), (LayoutRect::zero(), None));
    assert_eq!(
        bounds(&[ClipSource::Rectangle(r, ClipMode::Clip), shadow()]),
        (LayoutRect::zero(), Some(r))
    );
    assert_eq!(
        bounds(&[ClipSource::Rectangle(r, ClipMode::Clip), line()]),
        (LayoutRect::zero(), Some(r))
    );
}

#[test]
fn the_outer_rect_is_narrowed_after_the_inner_rect_is_given_up() {
    let r = rect(0, 0, 6000, 6000);
    let s = rect(3000, 3000, 6000, 6000);
    assert_eq!(
        bounds(&[shadow(), ClipSource::Rectangle(r, ClipMode::Clip)]),
        (LayoutRect::zero(), Some(r))
    );
    assert_eq!(
        bounds(&[
            line(),
            ClipSource::Rectangle(r, ClipMode::Clip),
            mask(s, false),
        ]),
        (LayoutRect::zero(), Some(rect(3000, 3000, 3000, 3000)))
    );
}

#[test]
fn a_clip_beyond_layout_space_is_cut_to_it() {
    let huge = rect(-2_000_000_000, 0, i32::MAX, 600);
    assert_eq!(
        bounds(&[ClipSource::Rectangle(huge, ClipMode::Clip)]),
        (rect(-1_000_000_000, 0, 1_147_483_647, 600), Some(rect(-1_000_000_000, 0, 1_147_483_647, 600)))
    );
}

#[test]
fn the_bounds_are_conservative() {
    let first = (rect(0, 0, 600, 480), BorderRadius::uniform(150));
    let second = (rect(120, 60, 600, 600), BorderRadius::uniform(90));
    let clips = [
        ClipSource::new_rounded_rect(first.0, first.1, ClipMode::Clip),
        ClipSource::new_rounded_rect(second.0, second.1, ClipMode::Clip),
    ];
    let (inner, outer) = bounds(&clips);
    let outer = outer.unwrap();
    assert_eq!(outer, rect(120, 60, 480, 420));
    assert_eq!(inner, rect(240, 180, 180, 120));
    let mut shown = 0;
    for x in (-30..750).step_by(15) {
        for y in (-30..750).step_by(15) {
            let p = LayoutPoint::new(x, y);
            let visible = rounded_rectangle_contains_point(&p, &first.0, &first.1)
                && rounded_rectangle_contains_point(&p, &second.0, &second.1);
            if inner.contains(&p) {
                assert!(visible);
            }
            if visible {
                assert!(outer.contains(&p));
                shown += 1;
            }
        }
    }
    assert!(shown > 0);
}
