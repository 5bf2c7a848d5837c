//! The plain values by which a scene describes its clips.

use vstd::prelude::*;
use crate::border_radius::BorderRadius;
use crate::geometry::LayoutRect;

verus! {

/// Whether a shape keeps what lies inside it or what lies outside it.
#[derive(Clone, Copy, Debug, PartialEq, Eq, Structural)]
pub enum ClipMode {
    /// What lies inside the shape stays visible.
    Clip,
    /// What lies outside the shape stays visible.
    ClipOut,
}

/// Whether a box shadow falls outside its box or inside it.
#[derive(Clone, Copy, Debug, PartialEq, Eq, Structural)]
pub enum BoxShadowClipMode {
    Outset,
    Inset,
}

/// The stroke of a line decoration.
#[derive(Clone, Copy, Debug, PartialEq, Eq, Structural)]
pub enum LineStyle {
    Solid,
    Dotted,
    Dashed,
    Wavy,
}

/// The direction of a line decoration.
#[derive(Clone, Copy, Debug, PartialEq, Eq, Structural)]
pub enum LineOrientation {
    Vertical,
    Horizontal,
}

/// How an image is sampled when it is scaled.
#[derive(Clone, Copy, Debug, PartialEq, Eq, Structural)]
pub enum ImageRendering {
    Auto,
    CrispEdges,
    Pixelated,
}

/// The name space of the keys that one client hands out.
#[derive(Clone, Copy, Debug, PartialEq, Eq, Structural)]
pub struct IdNamespace(pub u32);

/// The key of an image in the resource cache.
#[derive(Clone, Copy, Debug, PartialEq, Eq, Structural)]
pub struct ImageKey(pub IdNamespace, pub u32);

/// An image whose alpha channel masks what lies under it. A repeating mask
/// tiles the plane; another one covers `rect` only.
#[derive(Clone, Copy, Debug, PartialEq, Eq, Structural)]
pub struct ImageMask {
    pub image: ImageKey,
    pub rect: LayoutRect,
    pub repeat: bool,
}

/// A rounded rectangle of a clip region.
#[derive(Clone, Copy, Debug, PartialEq, Eq, Structural)]
pub struct ComplexClipRegion {
    pub rect: LayoutRect,
    pub radii: BorderRadius,
    pub mode: ClipMode,
}

/// The clip that a display item carries itself.
#[derive(Clone, Copy, Debug, PartialEq, Eq, Structural)]
pub enum LocalClip {
    Rect(LayoutRect),
    RoundedRect(LayoutRect, ComplexClipRegion),
}

/// The number of device pixels to a layout pixel, in sixtieths: 60 stands for
/// one device pixel to the layout pixel, 90 for one and a half.
#[derive(Clone, Copy, Debug, PartialEq, Eq, Structural)]
pub struct DevicePixelScale(pub u16);

/// The name of a coordinate system of the scene. Nodes that share one differ by
/// an axis-aligned transform only.
#[derive(Clone, Copy, Debug, PartialEq, Eq, Structural)]
pub struct CoordinateSystemId(pub u32);

/// The index of a spatial node of the scene.
#[derive(Clone, Copy, Debug, PartialEq, Eq, Structural)]
pub struct SpatialNodeIndex(pub usize);

/// The index of a clip chain of the scene.
#[derive(Clone, Copy, Debug, PartialEq, Eq, Structural)]
pub struct ClipChainIndex(pub usize);

impl ClipMode {
    /// The number that stands for the mode in a block: 0 for `Clip`, 1 for `ClipOut`.
    pub open spec fn spec_tag(self) -> i32 {
        match self {
            ClipMode::Clip => 0,
            ClipMode::ClipOut => 1,
        }
    }

    /// The number that stands for the mode in a block: 0 for `Clip`, 1 for `ClipOut`.
    #[verifier::when_used_as_spec(spec_tag)]
    pub fn tag(self) -> (r: i32)
        ensures
            r == self.spec_tag(),
    {
        match self {
            ClipMode::Clip => 0,
            ClipMode::ClipOut => 1,
        }
    }
}

impl BoxShadowClipMode {
    /// The number that stands for the mode in a block: 0 for `Outset`, 1 for `Inset`.
    pub open spec fn spec_tag(self) -> i32 {
        match self {
            BoxShadowClipMode::Outset => 0,
            BoxShadowClipMode::Inset => 1,
        }
    }

    /// The number that stands for the mode in a block: 0 for `Outset`, 1 for `Inset`.
    #[verifier::when_used_as_spec(spec_tag)]
    pub fn tag(self) -> (r: i32)
        ensures
            r == self.spec_tag(),
    {
        match self {
            BoxShadowClipMode::Outset => 0,
            BoxShadowClipMode::Inset => 1,
        }
    }
}

impl LineStyle {
    /// The number that stands for the style in a block, in the order of the variants from 0.
    pub open spec fn spec_tag(self) -> i32 {
        match self {
            LineStyle::Solid => 0,
            LineStyle::Dotted => 1,
            LineStyle::Dashed => 2,
            LineStyle::Wavy => 3,
        }
    }

    /// The number that stands for the style in a block, in the order of the variants from 0.
    #[verifier::when_used_as_spec(spec_tag)]
    pub fn tag(self) -> (r: i32)
        ensures
            r == self.spec_tag(),
    {
        match self {
            LineStyle::Solid => 0,
            LineStyle::Dotted => 1,
            LineStyle::Dashed => 2,
            LineStyle::Wavy => 3,
        }
    }
}

impl LineOrientation {
    /// The number that stands for the orientation in a block: 0 for `Vertical`, 1 for `Horizontal`.
    pub open spec fn spec_tag(self) -> i32 {
        match self {
            LineOrientation::Vertical => 0,
            LineOrientation::Horizontal => 1,
        }
    }

    /// The number that stands for the orientation in a block: 0 for `Vertical`, 1 for `Horizontal`.
    #[verifier::when_used_as_spec(spec_tag)]
    pub fn tag(self) -> (r: i32)
        ensures
            r == self.spec_tag(),
    {
        match self {
            LineOrientation::Vertical => 0,
            LineOrientation::Horizontal => 1,
        }
    }
}

impl LocalClip {
    /// The rectangle that bounds the clip.
    pub open spec fn spec_clip_rect(&self) -> LayoutRect {
        match *self {
            LocalClip::Rect(rect) => rect,
            LocalClip::RoundedRect(rect, _) => rect,
        }
    }

    /// The rectangle that bounds the clip.
    #[verifier::when_used_as_spec(spec_clip_rect)]
    pub fn clip_rect(&self) -> (r: LayoutRect)
        ensures
            r == self.spec_clip_rect(),
    {
        match *self {
            LocalClip::Rect(rect) => rect,
            LocalClip::RoundedRect(rect, _) => rect,
        }
    }
}

impl CoordinateSystemId {
    /// The coordinate system of the root of the scene.
    pub open spec fn spec_root() -> CoordinateSystemId {
        CoordinateSystemId(0)
    }

    /// The coordinate system of the root of the scene.
    #[verifier::when_used_as_spec(spec_root)]
    pub fn root() -> (r: Self)
        ensures
            r == Self::spec_root(),
    {
        CoordinateSystemId(0)
    }
}

} // verus!
