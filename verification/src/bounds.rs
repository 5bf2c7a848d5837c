//! The local bounds of a sequence of clips.
//!
//! The bounds are kept conservative on both sides. The inner rectangle never
//! claims more than what every clip leaves visible, and the outer rectangle
//! never claims less than what any clip can leave visible. Where nothing can be
//! claimed, the inner rectangle is the zero rectangle and the outer rectangle is
//! absent.

use vstd::prelude::*;
use crate::border_radius::{extract_inner_rect_safe, lemma_inner_rect_is_inside, spec_extract_inner_rect_safe, BorderRadius};
use crate::clip_source::ClipSource;
use crate::display_types::{ClipMode, ImageMask};
use crate::geometry::{LayoutPoint, LayoutRect};
use crate::rounded_rect::spec_rounded_rectangle_contains_point;

verus! {

/// The bounds of the clips seen so far.
#[derive(Clone, Copy, Debug, PartialEq, Eq)]
pub struct BoundsAccumulator {
    /// What the bounding clips seen so far share; `None` where they share nothing.
    pub local_outer: Option<LayoutRect>,
    /// What the inner rectangles of the clips seen so far share; `None` where
    /// they share nothing or a clip has none.
    pub local_inner: Option<LayoutRect>,
    /// No clip seen so far keeps the inner rectangle from being known.
    pub can_calculate_inner_rect: bool,
    /// A clip seen so far bounds what is visible.
    pub can_calculate_outer_rect: bool,
}

/// What a running rectangle and a further rectangle share.
pub open spec fn narrow(running: Option<LayoutRect>, rect: Option<LayoutRect>) -> Option<LayoutRect> {
    match (running, rect) {
        (Some(a), Some(b)) => a.spec_intersection(&b),
        _ => None,
    }
}

impl BoundsAccumulator {
    /// The bounds of no clips: everything may be visible, nothing bounds it.
    pub open spec fn spec_new() -> BoundsAccumulator {
        BoundsAccumulator {
            local_outer: Some(LayoutRect::spec_max_rect()),
            local_inner: Some(LayoutRect::spec_max_rect()),
            can_calculate_inner_rect: true,
            can_calculate_outer_rect: false,
        }
    }

    /// The bounds of no clips: everything may be visible, nothing bounds it.
    #[verifier::when_used_as_spec(spec_new)]
    pub fn new() -> (r: Self)
        ensures
            r == Self::spec_new(),
    {
        BoundsAccumulator {
            local_outer: Some(LayoutRect::max_rect()),
            local_inner: Some(LayoutRect::max_rect()),
            can_calculate_inner_rect: true,
            can_calculate_outer_rect: false,
        }
    }

    /// The bounds with the outer rectangle narrowed to `rect`.
    pub open spec fn bound_outer(self, rect: LayoutRect) -> BoundsAccumulator {
        BoundsAccumulator {
            local_outer: narrow(self.local_outer, Some(rect)),
            can_calculate_outer_rect: true,
            ..self
        }
    }

    /// The bounds with the inner rectangle narrowed to `rect`, as long as the
    /// inner rectangle can still be known.
    pub open spec fn bound_inner(self, rect: Option<LayoutRect>) -> BoundsAccumulator {
        if self.can_calculate_inner_rect {
            BoundsAccumulator { local_inner: narrow(self.local_inner, rect), ..self }
        } else {
            self
        }
    }

    /// The bounds without a known inner rectangle.
    pub open spec fn give_up_inner(self) -> BoundsAccumulator {
        BoundsAccumulator { can_calculate_inner_rect: false, ..self }
    }

    /// The bounds after one more clip.
    ///
    /// A rectangle in mode `Clip` narrows both rectangles. A rounded rectangle
    /// in mode `Clip` narrows the outer rectangle to its own rectangle and the
    /// inner one to the rectangle inscribed in it. A shape in mode `ClipOut`
    /// leaves the outer rectangle alone and the inner one unknown. An image mask
    /// narrows the outer rectangle unless it repeats, and leaves the inner one
    /// unknown, as a box shadow and a line decoration do.
    pub open spec fn spec_add(self, source: ClipSource) -> BoundsAccumulator {
        match source {
            ClipSource::Image(mask) => {
                if mask.repeat {
                    self.give_up_inner()
                } else {
                    self.bound_outer(mask.rect).give_up_inner()
                }
            },
            ClipSource::Rectangle(rect, mode) => {
                if mode == ClipMode::ClipOut {
                    self.give_up_inner()
                } else {
                    self.bound_outer(rect).bound_inner(Some(rect))
                }
            },
            ClipSource::RoundedRectangle(rect, radii, mode) => {
                if mode == ClipMode::ClipOut {
                    self.give_up_inner()
                } else {
                    self.bound_outer(rect).bound_inner(spec_extract_inner_rect_safe(&rect, &radii))
                }
            },
            ClipSource::BoxShadow(_) | ClipSource::LineDecoration(_) => self.give_up_inner(),
        }
    }

    /// Takes one more clip into the bounds.
    pub fn add(&mut self, source: &ClipSource)
        ensures
            *final(self) == old(self).spec_add(*source),
    {
        match *source {
            ClipSource::Image(mask) => {
                if !mask.repeat {
                    self.narrow_outer(&mask.rect);
                }
                self.can_calculate_inner_rect = false;
            },
            ClipSource::Rectangle(rect, mode) => {
                // A clip-out leaves everything outside the shape visible: no
                // rectangle bounds that.
                if mode == ClipMode::ClipOut {
                    self.can_calculate_inner_rect = false;
                    return ;
                }
                self.narrow_outer(&rect);
                self.narrow_inner(Some(rect));
            },
            ClipSource::RoundedRectangle(rect, radii, mode) => {
                if mode == ClipMode::ClipOut {
                    self.can_calculate_inner_rect = false;
                    return ;
                }
                self.narrow_outer(&rect);
                self.narrow_inner(extract_inner_rect_safe(&rect, &radii));
            },
            ClipSource::BoxShadow(_) | ClipSource::LineDecoration(_) => {
                self.can_calculate_inner_rect = false;
            },
        }
    }

    fn narrow_outer(&mut self, rect: &LayoutRect)
        ensures
            *final(self) == old(self).bound_outer(*rect),
    {
        self.can_calculate_outer_rect = true;
        self.local_outer = match self.local_outer {
            Some(r) => r.intersection(rect),
            None => None,
        };
    }

    fn narrow_inner(&mut self, rect: Option<LayoutRect>)
        ensures
            *final(self) == old(self).bound_inner(rect),
    {
        // Once the inner rectangle cannot be known, it is not looked at again.
        if !self.can_calculate_inner_rect {
            return ;
        }
        self.local_inner = match (self.local_inner, rect) {
            (Some(r), Some(inner)) => r.intersection(&inner),
            _ => None,
        };
    }

    /// The bounds as they are handed out: the inner rectangle, which is the
    /// zero rectangle where it is not known or empty, and the outer rectangle,
    /// which is absent where no clip bounds what is visible.
    pub open spec fn spec_finish(self) -> (LayoutRect, Option<LayoutRect>) {
        (
            if self.can_calculate_inner_rect {
                match self.local_inner {
                    Some(r) => r,
                    None => LayoutRect::spec_zero(),
                }
            } else {
                LayoutRect::spec_zero()
            },
            if self.can_calculate_outer_rect {
                Some(
                    match self.local_outer {
                        Some(r) => r,
                        None => LayoutRect::spec_zero(),
                    },
                )
            } else {
                None
            },
        )
    }

    /// The bounds as they are handed out: the inner rectangle, then the outer one.
    #[verifier::when_used_as_spec(spec_finish)]
    pub fn finish(self) -> (r: (LayoutRect, Option<LayoutRect>))
        ensures
            r == self.spec_finish(),
    {
        (
            if self.can_calculate_inner_rect {
                match self.local_inner {
                    Some(r) => r,
                    None => LayoutRect::zero(),
                }
            } else {
                LayoutRect::zero()
            },
            if self.can_calculate_outer_rect {
                Some(
                    match self.local_outer {
                        Some(r) => r,
                        None => LayoutRect::zero(),
                    },
                )
            } else {
                None
            },
        )
    }
}

/// The bounds of a sequence of clips, taken in their order.
pub open spec fn accumulate(clips: Seq<ClipSource>) -> BoundsAccumulator
    decreases clips.len(),
{
    if clips.len() == 0 {
        BoundsAccumulator::spec_new()
    } else {
        accumulate(clips.drop_last()).spec_add(clips.last())
    }
}

/// The inner rectangle and the outer rectangle of a sequence of clips.
pub open spec fn local_bounds(clips: Seq<ClipSource>) -> (LayoutRect, Option<LayoutRect>) {
    accumulate(clips).spec_finish()
}

/// The clip is a rectangle or a rounded rectangle in mode `Clip`.
pub open spec fn is_plain_clip(source: ClipSource) -> bool {
    match source {
        ClipSource::Rectangle(_, mode) => mode == ClipMode::Clip,
        ClipSource::RoundedRectangle(_, _, mode) => mode == ClipMode::Clip,
        _ => false,
    }
}

/// What holds of the bounds of rectangles and rounded rectangles in mode `Clip`.
spec fn plain_bounds(acc: BoundsAccumulator) -> bool {
    &&& acc.can_calculate_inner_rect
    &&& acc.local_outer matches Some(o) ==> o.is_well_formed() && LayoutRect::spec_max_rect().spec_contains_rect(&o)
    &&& acc.local_inner matches Some(i) ==> i.is_well_formed() && (i.spec_is_empty() || (
        acc.local_outer matches Some(o) && o.spec_contains_rect(&i)))
}

proof fn lemma_plain_step(acc: BoundsAccumulator, source: ClipSource)
    requires
        plain_bounds(acc),
        is_plain_clip(source),
        source.is_well_formed(),
    ensures
        plain_bounds(acc.spec_add(source)),
        acc.spec_add(source).can_calculate_outer_rect,
{
    match source {
        ClipSource::RoundedRectangle(rect, radii, _) => {
            lemma_inner_rect_is_inside(rect, radii);
        },
        _ => {},
    }
}

proof fn lemma_plain_bounds(clips: Seq<ClipSource>)
    requires
        forall|i: int| 0 <= i < clips.len() ==> is_plain_clip(#[trigger] clips[i]) && clips[i].is_well_formed(),
    ensures
        plain_bounds(accumulate(clips)),
        clips.len() > 0 ==> accumulate(clips).can_calculate_outer_rect,
    decreases clips.len(),
{
    if clips.len() > 0 {
        lemma_plain_bounds(clips.drop_last());
        lemma_plain_step(accumulate(clips.drop_last()), clips.last());
    }
}

/// Of one or more rectangles and rounded rectangles in mode `Clip`, the outer
/// rectangle is known, lies in the largest rectangle of layout space, and
/// covers the inner rectangle.
pub proof fn lemma_clip_only_bounds(clips: Seq<ClipSource>)
    requires
        clips.len() > 0,
        forall|i: int| 0 <= i < clips.len() ==> is_plain_clip(#[trigger] clips[i]) && clips[i].is_well_formed(),
    ensures
        local_bounds(clips).1 matches Some(outer) && outer.spec_contains_rect(&local_bounds(clips).0)
            && LayoutRect::spec_max_rect().spec_contains_rect(&outer) && outer.is_well_formed()
            && local_bounds(clips).0.is_well_formed(),
{
    lemma_plain_bounds(clips);
}

proof fn lemma_inner_stays_unknown(clips: Seq<ClipSource>, i: int)
    requires
        0 <= i < clips.len(),
        !accumulate(clips.take(i + 1)).can_calculate_inner_rect,
    ensures
        !accumulate(clips).can_calculate_inner_rect,
    decreases clips.len(),
{
    if i + 1 == clips.len() {
        assert(clips.take(i + 1) =~= clips);
    } else {
        assert(clips.drop_last().take(i + 1) =~= clips.take(i + 1));
        lemma_inner_stays_unknown(clips.drop_last(), i);
    }
}

/// The clip surely leaves the point visible. Of a rectangle and of a rounded
/// rectangle that is known; of the other clips it is not, as their masks may
/// hide any point.
pub open spec fn surely_shows(source: ClipSource, point: LayoutPoint) -> bool {
    match source {
        ClipSource::Rectangle(rect, mode) => (mode == ClipMode::Clip) == rect.spec_contains(&point),
        ClipSource::RoundedRectangle(rect, radii, mode) => (mode == ClipMode::Clip)
            == spec_rounded_rectangle_contains_point(&point, &rect, &radii),
        _ => false,
    }
}

/// The clip may leave the point visible. A rectangle and a rounded rectangle
/// do so where they surely do. An image mask that does not repeat may do so
/// in its rectangle, any other mask anywhere.
pub open spec fn may_show(source: ClipSource, point: LayoutPoint) -> bool {
    match source {
        ClipSource::Rectangle(..) => surely_shows(source, point),
        ClipSource::RoundedRectangle(..) => surely_shows(source, point),
        ClipSource::Image(mask) => mask.repeat || mask.rect.spec_contains(&point),
        _ => true,
    }
}

/// The rectangle of the clip, if it has one, lies in the largest rectangle of
/// layout space.
pub open spec fn lies_in_layout_space(source: ClipSource) -> bool {
    match source {
        ClipSource::Rectangle(rect, _) => LayoutRect::spec_max_rect().spec_contains_rect(&rect),
        ClipSource::RoundedRectangle(rect, _, _) => LayoutRect::spec_max_rect().spec_contains_rect(
            &rect,
        ),
        _ => true,
    }
}

/// A point of the rectangle that is inscribed in a rounded rectangle lies in
/// the rounded rectangle.
pub proof fn lemma_inner_rect_is_in_rounded_rect(
    rect: LayoutRect,
    radii: BorderRadius,
    point: LayoutPoint,
)
    requires
        rect.is_well_formed(),
        radii.is_valid_for(rect.size),
        LayoutRect::spec_max_rect().spec_contains_rect(&rect),
        spec_extract_inner_rect_safe(&rect, &radii) matches Some(inner) && inner.spec_contains(
            &point,
        ),
    ensures
        spec_rounded_rectangle_contains_point(&point, &rect, &radii),
{
}

proof fn lemma_inner_step(acc: BoundsAccumulator, source: ClipSource, point: LayoutPoint)
    requires
        source.is_well_formed(),
        lies_in_layout_space(source),
        acc.spec_add(source).can_calculate_inner_rect,
        acc.spec_add(source).local_inner matches Some(inner) && inner.spec_contains(&point),
    ensures
        acc.can_calculate_inner_rect,
        acc.local_inner matches Some(inner) && inner.spec_contains(&point),
        surely_shows(source, point),
{
    match source {
        ClipSource::RoundedRectangle(rect, radii, _) => {
            lemma_inner_rect_is_in_rounded_rect(rect, radii, point);
        },
        _ => {},
    }
}

proof fn lemma_inner_shows(clips: Seq<ClipSource>, point: LayoutPoint, i: int)
    requires
        forall|j: int|
            0 <= j < clips.len() ==> (#[trigger] clips[j]).is_well_formed() && lies_in_layout_space(
                clips[j],
            ),
        accumulate(clips).can_calculate_inner_rect,
        accumulate(clips).local_inner matches Some(inner) && inner.spec_contains(&point),
        0 <= i < clips.len(),
    ensures
        surely_shows(clips[i], point),
    decreases clips.len(),
{
    lemma_inner_step(accumulate(clips.drop_last()), clips.last(), point);
    if i < clips.len() - 1 {
        lemma_inner_shows(clips.drop_last(), point, i);
    }
}

/// The inner rectangle claims no more than every clip grants: a point of
/// the inner rectangle is surely left visible by each of the clips.
pub proof fn lemma_inner_rect_is_unclipped(clips: Seq<ClipSource>, point: LayoutPoint)
    requires
        forall|j: int|
            0 <= j < clips.len() ==> (#[trigger] clips[j]).is_well_formed() && lies_in_layout_space(
                clips[j],
            ),
        local_bounds(clips).0.spec_contains(&point),
    ensures
        forall|i: int| 0 <= i < clips.len() ==> surely_shows(#[trigger] clips[i], point),
{
    assert forall|i: int| 0 <= i < clips.len() implies surely_shows(#[trigger] clips[i], point) by {
        lemma_inner_shows(clips, point, i);
    }
}

proof fn lemma_outer_holds(clips: Seq<ClipSource>, point: LayoutPoint)
    requires
        forall|j: int| 0 <= j < clips.len() ==> may_show(#[trigger] clips[j], point),
        LayoutRect::spec_max_rect().spec_contains(&point),
    ensures
        accumulate(clips).local_outer matches Some(outer) && outer.spec_contains(&point),
    decreases clips.len(),
{
    if clips.len() > 0 {
        lemma_outer_holds(clips.drop_last(), point);
        assert(may_show(clips.last(), point));
    }
}

/// The outer rectangle claims no less than any clip grants: a point of
/// layout space that every clip may leave visible lies in the outer rectangle,
/// where there is one.
pub proof fn lemma_outer_rect_holds_what_shows(clips: Seq<ClipSource>, point: LayoutPoint)
    requires
        forall|j: int| 0 <= j < clips.len() ==> may_show(#[trigger] clips[j], point),
        LayoutRect::spec_max_rect().spec_contains(&point),
    ensures
        local_bounds(clips).1 matches Some(outer) ==> outer.spec_contains(&point),
{
    lemma_outer_holds(clips, point);
}

/// The clip is a rectangle or a rounded rectangle in mode `ClipOut`.
pub open spec fn is_clip_out(source: ClipSource) -> bool {
    match source {
        ClipSource::Rectangle(_, mode) => mode == ClipMode::ClipOut,
        ClipSource::RoundedRectangle(_, _, mode) => mode == ClipMode::ClipOut,
        _ => false,
    }
}

/// Of clips with a shape in mode `ClipOut` among them, the inner rectangle is
/// not known: it is the zero rectangle.
pub proof fn lemma_clip_out_hides_inner(clips: Seq<ClipSource>)
    requires
        exists|i: int| 0 <= i < clips.len() && is_clip_out(#[trigger] clips[i]),
    ensures
        !accumulate(clips).can_calculate_inner_rect,
        local_bounds(clips).0 == LayoutRect::spec_zero(),
{
    let i = choose|i: int| 0 <= i < clips.len() && is_clip_out(#[trigger] clips[i]);
    assert(clips.take(i + 1).last() == clips[i]);
    lemma_inner_stays_unknown(clips, i);
}

/// A repeating image mask at the end of any clips leaves the outer rectangle
/// as it was, and the inner rectangle not known.
pub proof fn lemma_repeating_mask_keeps_outer(clips: Seq<ClipSource>, mask: ImageMask)
    requires
        mask.repeat,
    ensures
        local_bounds(clips.push(ClipSource::Image(mask))).1 == local_bounds(clips).1,
        !accumulate(clips.push(ClipSource::Image(mask))).can_calculate_inner_rect,
        local_bounds(clips.push(ClipSource::Image(mask))).0 == LayoutRect::spec_zero(),
{
    assert(clips.push(ClipSource::Image(mask)).drop_last() =~= clips);
}

} // verus!
