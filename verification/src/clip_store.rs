//! The store that owns the clip collections of a scene.

use vstd::prelude::*;
use crate::clip_sources::ClipSources;

verus! {

/// The place of a clip collection in its store. It stays good for as long as
/// the store is not recycled: inserting moves no collection.
#[derive(Debug, Copy, Clone, PartialEq, Eq, Structural)]
pub struct ClipSourcesIndex(pub usize);

/// The clip collections of a scene, in the order in which they were inserted.
pub struct ClipStore {
    clip_sources: Vec<ClipSources>,
}

impl View for ClipStore {
    type V = Seq<ClipSources>;

    /// The collections of the store, each at the position of its index.
    closed spec fn view(&self) -> Seq<ClipSources> {
        self.clip_sources@
    }
}

impl ClipStore {
    /// A store without collections.
    pub fn new() -> (r: Self)
        ensures
            r@ == Seq::<ClipSources>::empty(),
    {
        ClipStore { clip_sources: Vec::new() }
    }

    /// The store emptied for the next scene. Its indices are good no more.
    pub fn recycle(self) -> (r: Self)
        ensures
            r@ == Seq::<ClipSources>::empty(),
    {
        let mut clip_sources = self.clip_sources;
        clip_sources.clear();
        ClipStore { clip_sources }
    }

    /// Takes a collection into the store and returns its index. The
    /// collections that the store held stay where they were.
    pub fn insert(&mut self, clip_sources: ClipSources) -> (index: ClipSourcesIndex)
        ensures
            index.0 == old(self)@.len(),
            final(self)@ == old(self)@.push(clip_sources),
            forall|i: int| 0 <= i < old(self)@.len() ==> final(self)@[i] == old(self)@[i],
    {
        let index = ClipSourcesIndex(self.clip_sources.len());
        self.clip_sources.push(clip_sources);
        index
    }

    /// The number of collections in the store.
    pub fn len(&self) -> (r: usize)
        ensures
            r == self@.len(),
    {
        self.clip_sources.len()
    }

    /// The collection at an index of this store.
    pub fn get(&self, index: ClipSourcesIndex) -> (r: &ClipSources)
        requires
            index.0 < self@.len(),
        ensures
            *r == self@[index.0 as int],
    {
        &self.clip_sources[index.0]
    }

    /// The collection at an index of this store, to be changed in place.
    pub fn get_mut(&mut self, index: ClipSourcesIndex) -> (r: &mut ClipSources)
        requires
            index.0 < old(self)@.len(),
        ensures
            *r == old(self)@[index.0 as int],
            final(self)@ == old(self)@.update(index.0 as int, *final(r)),
    {
        &mut self.clip_sources[index.0]
    }
}

} // verus!
