//! The store of fixed-size numeric blocks that clip data is written to.
//!
//! A handle names a run of blocks in the store. The store answers a request for
//! a handle with a writer only where the handle names no live run: a run that
//! has been written stays as it is until it is invalidated.

use vstd::prelude::*;

verus! {

/// One block of the store: four numbers.
#[derive(Clone, Copy, Debug, PartialEq, Eq)]
pub struct GpuBlockData {
    pub data: [i32; 4],
}

/// The place of a run of blocks in the store.
#[derive(Clone, Copy, Debug, PartialEq, Eq)]
pub struct CacheLocation {
    pub slot: usize,
}

/// A handle to a run of blocks. A new handle names no run.
#[derive(Clone, Copy, Debug, PartialEq, Eq)]
pub struct GpuCacheHandle {
    pub location: Option<CacheLocation>,
}

/// The right to write the run of blocks at one location.
#[derive(Debug)]
pub struct GpuDataRequest {
    pub location: CacheLocation,
}

struct GpuCacheSlot {
    blocks: Vec<GpuBlockData>,
    live: bool,
}

/// The store of block runs.
pub struct GpuCache {
    slots: Vec<GpuCacheSlot>,
}

/// The runs of a store after `blocks` have been appended to the run at
/// `location`. Where the store has no live run there, nothing changes.
pub open spec fn append_run(
    store: Map<CacheLocation, Seq<GpuBlockData>>,
    location: CacheLocation,
    blocks: Seq<GpuBlockData>,
) -> Map<CacheLocation, Seq<GpuBlockData>> {
    if store.dom().contains(location) {
        store.insert(location, store[location] + blocks)
    } else {
        store
    }
}

/// Appending in two steps gives what appending in one step gives.
pub proof fn lemma_append_run_twice(
    store: Map<CacheLocation, Seq<GpuBlockData>>,
    location: CacheLocation,
    first: Seq<GpuBlockData>,
    second: Seq<GpuBlockData>,
)
    ensures
        append_run(append_run(store, location, first), location, second) == append_run(
            store,
            location,
            first + second,
        ),
{
    if store.dom().contains(location) {
        assert((store[location] + first) + second =~= store[location] + (first + second));
        assert(append_run(append_run(store, location, first), location, second) =~= append_run(
            store,
            location,
            first + second,
        ));
    }
}

impl GpuBlockData {
    /// The block that holds the four given numbers.
    pub open spec fn spec_new(a: i32, b: i32, c: i32, d: i32) -> GpuBlockData {
        GpuBlockData { data: [a, b, c, d] }
    }

    /// The block that holds the four given numbers.
    #[verifier::when_used_as_spec(spec_new)]
    pub fn new(a: i32, b: i32, c: i32, d: i32) -> (r: Self)
        ensures
            r == Self::spec_new(a, b, c, d),
    {
        GpuBlockData { data: [a, b, c, d] }
    }
}

impl GpuCacheHandle {
    /// A handle that names no run yet.
    pub open spec fn spec_new() -> GpuCacheHandle {
        GpuCacheHandle { location: None }
    }

    /// A handle that names no run yet.
    #[verifier::when_used_as_spec(spec_new)]
    pub fn new() -> (r: Self)
        ensures
            r == Self::spec_new(),
    {
        GpuCacheHandle { location: None }
    }
}

impl View for GpuCache {
    type V = Map<CacheLocation, Seq<GpuBlockData>>;

    /// The live runs of the store, by their location.
    closed spec fn view(&self) -> Map<CacheLocation, Seq<GpuBlockData>> {
        Map::new(
            |l: CacheLocation| l.slot < self.slots@.len() && self.slots@[l.slot as int].live,
            |l: CacheLocation| self.slots@[l.slot as int].blocks@,
        )
    }
}

impl GpuCache {
    /// A store without runs.
    pub fn new() -> (r: Self)
        ensures
            r@ == Map::<CacheLocation, Seq<GpuBlockData>>::empty(),
            r.allocated() == Set::<CacheLocation>::empty(),
    {
        let r = GpuCache { slots: Vec::new() };
        assert(r@ =~= Map::<CacheLocation, Seq<GpuBlockData>>::empty());
        assert(r.allocated() =~= Set::<CacheLocation>::empty());
        r
    }

    /// The locations that the store has handed out so far, live or not. A
    /// location is handed out once.
    pub closed spec fn allocated(&self) -> Set<CacheLocation> {
        Set::new(|l: CacheLocation| l.slot < self.slots@.len())
    }

    /// The handle names no run, or a run that this store has handed out.
    pub open spec fn knows(&self, handle: GpuCacheHandle) -> bool {
        handle.location matches Some(l) ==> self.allocated().contains(l)
    }

    /// Every live run lies at a location that the store has handed out.
    pub proof fn lemma_live_is_allocated(&self)
        ensures
            forall|l: CacheLocation| #[trigger] self@.dom().contains(l) ==> self.allocated().contains(l),
    {
    }

    /// The handle names a live run of the store.
    pub open spec fn holds(&self, handle: GpuCacheHandle) -> bool {
        handle.location matches Some(l) && self@.dom().contains(l)
    }

    /// The blocks of the run that a handle names.
    pub open spec fn blocks(&self, handle: GpuCacheHandle) -> Seq<GpuBlockData>
        recommends
            self.holds(handle),
    {
        self@[handle.location->0]
    }

    /// Asks for the run of a handle to be written. Where the handle names a live
    /// run, nothing is to be written and nothing changes. Otherwise the handle is
    /// given a new, empty run, and the writer for it is returned.
    pub fn request(&mut self, handle: &mut GpuCacheHandle) -> (r: Option<GpuDataRequest>)
        ensures
            old(self).holds(*old(handle)) ==> r is None && *final(handle) == *old(handle)
                && final(self)@ == old(self)@,
            !old(self).holds(*old(handle)) ==> r is Some && final(handle).location == Some(
                r->0.location,
            ) && !old(self).allocated().contains(r->0.location) && final(self)@ == old(self)@.insert(
                r->0.location,
                Seq::empty(),
            ),
            old(self).holds(*old(handle)) ==> final(self).allocated() == old(self).allocated(),
            !old(self).holds(*old(handle)) ==> final(self).allocated() == old(self).allocated().insert(
                r->0.location,
            ),
    {
        match handle.location {
            Some(l) => {
                if l.slot < self.slots.len() && self.slots[l.slot].live {
                    return None;
                }
            },
            None => {},
        }
        let location = CacheLocation { slot: self.slots.len() };
        self.slots.push(GpuCacheSlot { blocks: Vec::new(), live: true });
        handle.location = Some(location);
        assert(self@ =~= old(self)@.insert(location, Seq::empty()));
        assert(self.allocated() =~= old(self).allocated().insert(location));
        Some(GpuDataRequest { location })
    }

    /// Ends the run that a handle names, if it names a live one: a later request
    /// for the handle is answered with a writer.
    pub fn invalidate(&mut self, handle: &GpuCacheHandle)
        ensures
            final(self)@ == (match handle.location {
                Some(l) => old(self)@.remove(l),
                None => old(self)@,
            }),
            final(self).allocated() == old(self).allocated(),
    {
        match handle.location {
            Some(l) => {
                if l.slot < self.slots.len() {
                    self.slots[l.slot].live = false;
                }
                assert(self@ =~= old(self)@.remove(l));
                assert(self.allocated() =~= old(self).allocated());
            },
            None => {},
        }
    }

    /// The blocks of the run that a handle names, if it names a live one.
    pub fn get(&self, handle: &GpuCacheHandle) -> (r: Option<&Vec<GpuBlockData>>)
        ensures
            self.holds(*handle) ==> (r matches Some(v) && v@ == self.blocks(*handle)),
            !self.holds(*handle) ==> r is None,
    {
        match handle.location {
            Some(l) => {
                if l.slot < self.slots.len() && self.slots[l.slot].live {
                    Some(&self.slots[l.slot].blocks)
                } else {
                    None
                }
            },
            None => None,
        }
    }
}

impl GpuDataRequest {
    /// Appends a block to the run of this writer. On a run that has been
    /// invalidated since, nothing is written.
    pub fn push(&self, cache: &mut GpuCache, block: GpuBlockData)
        ensures
            final(cache)@ == append_run(old(cache)@, self.location, seq![block]),
            final(cache).allocated() == old(cache).allocated(),
    {
        let slot = self.location.slot;
        if slot < cache.slots.len() && cache.slots[slot].live {
            cache.slots[slot].blocks.push(block);
            assert(old(cache)@[self.location].push(block) =~= old(cache)@[self.location]
                + seq![block]);
            assert(cache@ =~= append_run(old(cache)@, self.location, seq![block]));
            assert(cache.allocated() =~= old(cache).allocated());
        }
    }

    /// Appends blocks to the run of this writer, in their order.
    pub fn push_all(&self, cache: &mut GpuCache, blocks: &Vec<GpuBlockData>)
        ensures
            final(cache)@ == append_run(old(cache)@, self.location, blocks@),
            final(cache).allocated() == old(cache).allocated(),
    {
        let mut i: usize = 0;
        proof {
            lemma_append_run_empty(cache@, self.location);
            assert(blocks@.subrange(0, 0) =~= Seq::<GpuBlockData>::empty());
        }
        while i < blocks.len()
            invariant
                i <= blocks.len(),
                cache@ == append_run(old(cache)@, self.location, blocks@.subrange(0, i as int)),
                cache.allocated() == old(cache).allocated(),
            decreases blocks.len() - i,
        {
            self.push(cache, blocks[i]);
            proof {
                lemma_append_run_twice(
                    old(cache)@,
                    self.location,
                    blocks@.subrange(0, i as int),
                    seq![blocks@[i as int]],
                );
                assert(blocks@.subrange(0, i as int) + seq![blocks@[i as int]] =~= blocks@.subrange(
                    0,
                    i + 1,
                ));
            }
            i = i + 1;
        }
        assert(blocks@.subrange(0, i as int) =~= blocks@);
    }
}

/// Appending no block changes nothing.
pub proof fn lemma_append_run_empty(
    store: Map<CacheLocation, Seq<GpuBlockData>>,
    location: CacheLocation,
)
    ensures
        append_run(store, location, Seq::empty()) == store,
{
    if store.dom().contains(location) {
        assert(store[location] + Seq::<GpuBlockData>::empty() =~= store[location]);
        assert(append_run(store, location, Seq::empty()) =~= store);
    }
}

} // verus!
