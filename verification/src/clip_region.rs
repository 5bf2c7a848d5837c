//! The clip of a node as the scene describes it: a bounding rectangle, an
//! optional image mask and any number of rounded rectangles.

use vstd::prelude::*;
use crate::display_types::{ComplexClipRegion, ImageMask, LocalClip};
use crate::geometry::{LayoutRect, LayoutVector2D};

verus! {

/// A source of rounded rectangles that hands them out one by one.
pub trait ComplexClipIterator {
    /// The regions that are still to come, in their order.
    spec fn remaining(&self) -> Seq<ComplexClipRegion>;

    /// Hands out the next region, or `None` when there is none left.
    fn next_region(&mut self) -> (r: Option<ComplexClipRegion>)
        ensures
            old(self).remaining().len() == 0 ==> r is None && final(self).remaining().len() == 0,
            old(self).remaining().len() > 0 ==> r == Some(old(self).remaining()[0])
                && final(self).remaining() == old(self).remaining().drop_first(),
    ;
}

/// Rounded rectangles held in a list.
#[derive(Debug)]
pub struct ComplexClipList {
    regions: Vec<ComplexClipRegion>,
    position: usize,
}

/// Rounded rectangles of another source, each moved by one displacement.
pub struct ComplexTranslateIter<I> {
    source: I,
    offset: LayoutVector2D,
}

/// The clip of a node: what lies in `main`, under the image mask if there is
/// one, and in each of the rounded rectangles, stays visible.
#[derive(Debug)]
pub struct ClipRegion<I> {
    pub main: LayoutRect,
    pub image_mask: Option<ImageMask>,
    pub complex_clips: I,
}

impl<I: Clone> Clone for ClipRegion<I> {
    fn clone(&self) -> (r: Self)
        ensures
            r.main == self.main,
            r.image_mask == self.image_mask,
            cloned(self.complex_clips, r.complex_clips),
    {
        ClipRegion {
            main: self.main,
            image_mask: self.image_mask,
            complex_clips: self.complex_clips.clone(),
        }
    }
}

/// A rounded rectangle moved by a displacement.
pub open spec fn translate_region(region: ComplexClipRegion, offset: LayoutVector2D) -> ComplexClipRegion {
    ComplexClipRegion { rect: region.rect.spec_translate(&offset), radii: region.radii, mode: region.mode }
}

/// An image mask moved by a displacement.
pub open spec fn translate_mask(mask: ImageMask, offset: LayoutVector2D) -> ImageMask {
    ImageMask { image: mask.image, rect: mask.rect.spec_translate(&offset), repeat: mask.repeat }
}

impl ComplexClipList {
    /// The regions of a list, to be handed out from the first on.
    pub fn new(regions: Vec<ComplexClipRegion>) -> (r: Self)
        ensures
            r.remaining() == regions@,
    {
        let r = ComplexClipList { regions, position: 0 };
        assert(r.regions@.skip(0) =~= r.regions@);
        r
    }
}

impl ComplexClipIterator for ComplexClipList {
    closed spec fn remaining(&self) -> Seq<ComplexClipRegion> {
        if self.position <= self.regions@.len() {
            self.regions@.skip(self.position as int)
        } else {
            Seq::empty()
        }
    }

    fn next_region(&mut self) -> (r: Option<ComplexClipRegion>) {
        if self.position < self.regions.len() {
            let region = self.regions[self.position];
            self.position = self.position + 1;
            assert(self.remaining() =~= old(self).remaining().drop_first());
            Some(region)
        } else {
            None
        }
    }
}

impl ComplexClipIterator for Option<ComplexClipRegion> {
    open spec fn remaining(&self) -> Seq<ComplexClipRegion> {
        match *self {
            Some(region) => seq![region],
            None => Seq::empty(),
        }
    }

    fn next_region(&mut self) -> (r: Option<ComplexClipRegion>) {
        let r = *self;
        *self = None;
        if r.is_some() {
            assert(self.remaining() =~= old(self).remaining().drop_first());
        }
        r
    }
}

impl<I: ComplexClipIterator> ComplexTranslateIter<I> {
    /// Hands out the next region of the source, moved by the displacement.
    pub fn next(&mut self) -> (r: Option<ComplexClipRegion>)
        ensures
            old(self).remaining().len() == 0 ==> r is None && final(self).remaining().len() == 0,
            old(self).remaining().len() > 0 ==> r == Some(old(self).remaining()[0])
                && final(self).remaining() == old(self).remaining().drop_first(),
    {
        match self.source.next_region() {
            Some(complex) => {
                assert(self.remaining() =~= old(self).remaining().drop_first());
                Some(
                    ComplexClipRegion {
                        rect: complex.rect.translate(&self.offset),
                        radii: complex.radii,
                        mode: complex.mode,
                    },
                )
            },
            None => None,
        }
    }
}

impl<I: ComplexClipIterator> ComplexClipIterator for ComplexTranslateIter<I> {
    closed spec fn remaining(&self) -> Seq<ComplexClipRegion> {
        self.source.remaining().map_values(
            |region: ComplexClipRegion| translate_region(region, self.offset),
        )
    }

    fn next_region(&mut self) -> (r: Option<ComplexClipRegion>) {
        self.next()
    }
}

impl<J: ComplexClipIterator> ClipRegion<ComplexTranslateIter<J>> {
    /// The clip region of a clip node: the given rectangle, mask and rounded
    /// rectangles, all moved by the offset of the node's reference frame.
    pub fn create_for_clip_node(
        rect: LayoutRect,
        complex_clips: J,
        image_mask: Option<ImageMask>,
        reference_frame_relative_offset: &LayoutVector2D,
    ) -> (r: Self)
        ensures
            r.main == rect.spec_translate(reference_frame_relative_offset),
            r.image_mask == (match image_mask {
                Some(mask) => Some(translate_mask(mask, *reference_frame_relative_offset)),
                None => None,
            }),
            r.complex_clips.remaining() == complex_clips.remaining().map_values(
                |region: ComplexClipRegion|
                    translate_region(region, *reference_frame_relative_offset),
            ),
    {
        let image_mask = match image_mask {
            Some(mask) => Some(
                ImageMask {
                    image: mask.image,
                    rect: mask.rect.translate(reference_frame_relative_offset),
                    repeat: mask.repeat,
                },
            ),
            None => None,
        };
        ClipRegion {
            main: rect.translate(reference_frame_relative_offset),
            image_mask,
            complex_clips: ComplexTranslateIter {
                source: complex_clips,
                offset: *reference_frame_relative_offset,
            },
        }
    }
}

impl ClipRegion<Option<ComplexClipRegion>> {
    /// The clip region of the clip that a display item carries itself, moved
    /// by the offset of the item's reference frame: its bounding rectangle,
    /// and its rounded rectangle where it has one.
    pub fn create_for_clip_node_with_local_clip(
        local_clip: &LocalClip,
        reference_frame_relative_offset: &LayoutVector2D,
    ) -> (r: Self)
        ensures
            r.main == local_clip.spec_clip_rect().spec_translate(reference_frame_relative_offset),
            r.image_mask is None,
            r.complex_clips == (match *local_clip {
                LocalClip::Rect(_) => None,
                LocalClip::RoundedRect(_, region) => Some(
                    translate_region(region, *reference_frame_relative_offset),
                ),
            }),
    {
        ClipRegion {
            main: local_clip.clip_rect().translate(reference_frame_relative_offset),
            image_mask: None,
            complex_clips: match *local_clip {
                LocalClip::Rect(_) => None,
                LocalClip::RoundedRect(_, region) => Some(
                    ComplexClipRegion {
                        rect: region.rect.translate(reference_frame_relative_offset),
                        radii: region.radii,
                        mode: region.mode,
                    },
                ),
            },
        }
    }
}

} // verus!
