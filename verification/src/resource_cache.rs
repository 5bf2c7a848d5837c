//! The requests for image data that clip sources make.

use vstd::prelude::*;
use crate::display_types::{ImageKey, ImageRendering};

verus! {

/// The place of a tile in a tiled image.
#[derive(Clone, Copy, Debug, PartialEq, Eq, Structural)]
pub struct TileOffset {
    pub x: u16,
    pub y: u16,
}

/// A request to have the data of an image at hand when the frame is drawn.
#[derive(Clone, Copy, Debug, PartialEq, Eq)]
pub struct ImageRequest {
    pub key: ImageKey,
    pub rendering: ImageRendering,
    pub tile: Option<TileOffset>,
}

/// The images asked for, in the order of the requests.
pub struct ResourceCache {
    requests: Vec<ImageRequest>,
}

impl View for ResourceCache {
    type V = Seq<ImageRequest>;

    /// The requests made so far, oldest first.
    closed spec fn view(&self) -> Seq<ImageRequest> {
        self.requests@
    }
}

impl ResourceCache {
    /// A cache of which nothing has been asked.
    pub fn new() -> (r: Self)
        ensures
            r@ == Seq::<ImageRequest>::empty(),
    {
        ResourceCache { requests: Vec::new() }
    }

    /// Asks for an image. Nothing is returned: the request is recorded.
    pub fn request_image(&mut self, request: ImageRequest)
        ensures
            final(self)@ == old(self)@.push(request),
    {
        self.requests.push(request);
    }

    /// The requests made so far, oldest first.
    pub fn requested(&self) -> (r: &Vec<ImageRequest>)
        ensures
            r@ == self@,
    {
        &self.requests
    }
}

} // verus!
