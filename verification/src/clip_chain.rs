//! The chain of clips that applies to a node.
//!
//! A chain starts from the rectangle of the screen and takes one node for each
//! clip collection on the way to the node that is drawn. It keeps two screen
//! rectangles: one outside of which nothing is visible, and one inside of which
//! nothing is clipped. Nodes are shared between the chains that have them in
//! common, and a node that the clips before it leave nothing more to say about
//! is linked to none of them.

use std::sync::Arc;
use vstd::prelude::*;
use crate::clip_store::ClipSourcesIndex;
use crate::display_types::{ClipChainIndex, CoordinateSystemId};
use crate::geometry::{lemma_device_intersection_holds_shared_pixels, DeviceIntPoint, DeviceIntRect, LayoutRect};

verus! {

/// A node of a chain, or none: the tip of a chain and the link of a node.
pub type ClipChainNodeRef = Option<Arc<ClipChainNode>>;

/// A clip collection and the coordinate system in which it applies.
#[derive(Debug, Clone, Copy, PartialEq, Eq, Structural)]
pub struct ClipWorkItem {
    pub clip_sources_index: ClipSourcesIndex,
    pub coordinate_system_id: CoordinateSystemId,
}

/// One clip collection in a chain, with its screen bounds and the node before it.
#[derive(Debug)]
pub struct ClipChainNode {
    pub work_item: ClipWorkItem,
    pub local_clip_rect: LayoutRect,
    pub screen_outer_rect: DeviceIntRect,
    pub screen_inner_rect: DeviceIntRect,
    pub prev: ClipChainNodeRef,
}

/// A chain of clips with its combined screen bounds.
#[derive(Debug)]
pub struct ClipChain {
    pub parent_index: Option<ClipChainIndex>,
    pub combined_outer_screen_rect: DeviceIntRect,
    pub combined_inner_screen_rect: DeviceIntRect,
    pub nodes: ClipChainNodeRef,
    pub has_non_root_coord_system: bool,
}

/// A walk along a chain, from its tip to its root.
#[derive(Debug)]
pub struct ClipChainNodeIter {
    pub current: ClipChainNodeRef,
}

/// Another reference to a shared node. This is `Arc::clone` of the standard
/// library, which hands out a second pointer to the same node.
#[verifier::external_body]
fn share(node: &Arc<ClipChainNode>) -> (r: Arc<ClipChainNode>)
    ensures
        r == *node,
{
    Arc::clone(node)
}

fn share_ref(nodes: &ClipChainNodeRef) -> (r: ClipChainNodeRef)
    ensures
        r == *nodes,
{
    match nodes {
        Some(node) => Some(share(node)),
        None => None,
    }
}

/// The nodes from a tip to the root of its chain.
pub open spec fn nodes_from(tip: ClipChainNodeRef) -> Seq<ClipChainNode>
    decreases tip,
{
    match tip {
        Some(node) => seq![*node] + nodes_from(node.prev),
        None => Seq::empty(),
    }
}

impl Clone for ClipChainNode {
    fn clone(&self) -> (r: Self)
        ensures
            r == *self,
    {
        ClipChainNode {
            work_item: self.work_item,
            local_clip_rect: self.local_clip_rect,
            screen_outer_rect: self.screen_outer_rect,
            screen_inner_rect: self.screen_inner_rect,
            prev: share_ref(&self.prev),
        }
    }
}

impl Clone for ClipChain {
    fn clone(&self) -> (r: Self)
        ensures
            r == *self,
    {
        ClipChain {
            parent_index: self.parent_index,
            combined_outer_screen_rect: self.combined_outer_screen_rect,
            combined_inner_screen_rect: self.combined_inner_screen_rect,
            nodes: share_ref(&self.nodes),
            has_non_root_coord_system: self.has_non_root_coord_system,
        }
    }
}

impl ClipChainNode {
    /// The node of a clip collection with the given screen bounds, linked to
    /// no node. A collection without an outer screen rectangle bounds nothing:
    /// its node has the largest rectangle of device space as its outer
    /// rectangle, so that it narrows no chain and lies in no inner rectangle
    /// that is smaller than that.
    pub open spec fn spec_new(
        work_item: ClipWorkItem,
        local_clip_rect: LayoutRect,
        screen_inner_rect: DeviceIntRect,
        screen_outer_rect: Option<DeviceIntRect>,
    ) -> ClipChainNode {
        ClipChainNode {
            work_item,
            local_clip_rect,
            screen_outer_rect: match screen_outer_rect {
                Some(rect) => rect,
                None => DeviceIntRect::spec_max_rect(),
            },
            screen_inner_rect,
            prev: None,
        }
    }

    /// The node of a clip collection with the given screen bounds, linked to no node.
    #[verifier::when_used_as_spec(spec_new)]
    pub fn new(
        work_item: ClipWorkItem,
        local_clip_rect: LayoutRect,
        screen_inner_rect: DeviceIntRect,
        screen_outer_rect: Option<DeviceIntRect>,
    ) -> (r: ClipChainNode)
        ensures
            r == Self::spec_new(work_item, local_clip_rect, screen_inner_rect, screen_outer_rect),
    {
        ClipChainNode {
            work_item,
            local_clip_rect,
            screen_outer_rect: match screen_outer_rect {
                Some(rect) => rect,
                None => DeviceIntRect::max_rect(),
            },
            screen_inner_rect,
            prev: None,
        }
    }

    /// The inner screen rectangle lies in the outer one, and neither has a negative side.
    pub open spec fn is_well_formed(self) -> bool {
        &&& self.screen_outer_rect.is_well_formed()
        &&& self.screen_inner_rect.is_well_formed()
        &&& self.screen_outer_rect.spec_contains_rect(&self.screen_inner_rect)
    }
}

impl ClipChain {
    /// The chain without nodes: all of the screen is visible, and none of it is clipped.
    pub open spec fn spec_empty(screen_rect: &DeviceIntRect) -> ClipChain {
        ClipChain {
            parent_index: None,
            combined_inner_screen_rect: *screen_rect,
            combined_outer_screen_rect: *screen_rect,
            nodes: None,
            has_non_root_coord_system: false,
        }
    }

    /// The chain without nodes: all of the screen is visible, and none of it is clipped.
    #[verifier::when_used_as_spec(spec_empty)]
    pub fn empty(screen_rect: &DeviceIntRect) -> (r: Self)
        ensures
            r == Self::spec_empty(screen_rect),
    {
        ClipChain {
            parent_index: None,
            combined_inner_screen_rect: *screen_rect,
            combined_outer_screen_rect: *screen_rect,
            nodes: None,
            has_non_root_coord_system: false,
        }
    }

    /// The nodes of the chain, from its tip to its root.
    pub open spec fn view_nodes(&self) -> Seq<ClipChainNode> {
        nodes_from(self.nodes)
    }

    /// The clips before a new node have nothing more to say: their inner
    /// rectangle covers all that the new node leaves visible.
    pub open spec fn makes_redundant(&self, new_node: &ClipChainNode) -> bool {
        self.combined_inner_screen_rect.spec_contains_rect(&new_node.screen_outer_rect)
    }

    /// The chain with one more node at its tip.
    ///
    /// The new node is linked to the old tip, unless the clips before it have
    /// nothing more to say: then it is linked to none. The two rectangles of
    /// the chain are narrowed to those of the new node; rectangles that share
    /// nothing leave the zero rectangle. The chain leaves the root coordinate
    /// system when the new node lies outside it.
    pub open spec fn spec_add_node(self, new_node: ClipChainNode) -> ClipChain {
        ClipChain {
            parent_index: self.parent_index,
            combined_outer_screen_rect: self.combined_outer_screen_rect.spec_intersection_or_zero(
                &new_node.screen_outer_rect,
            ),
            combined_inner_screen_rect: self.combined_inner_screen_rect.spec_intersection_or_zero(
                &new_node.screen_inner_rect,
            ),
            nodes: Some(
                Arc::new(
                    ClipChainNode {
                        prev: if self.makes_redundant(&new_node) {
                            None
                        } else {
                            self.nodes
                        },
                        ..new_node
                    },
                ),
            ),
            has_non_root_coord_system: self.has_non_root_coord_system
                || new_node.work_item.coordinate_system_id != CoordinateSystemId::spec_root(),
        }
    }

    /// A new node has nothing to say to the chain: its inner rectangle covers
    /// all that the chain leaves visible.
    pub open spec fn is_unaffected_by(&self, new_node: &ClipChainNode) -> bool {
        new_node.screen_inner_rect.spec_contains_rect(&self.combined_outer_screen_rect)
    }

    /// The chain as it is where a new node has nothing to say to it, else the
    /// chain with the new node at its tip.
    pub open spec fn spec_new_with_added_node(&self, new_node: &ClipChainNode) -> ClipChain {
        if self.is_unaffected_by(new_node) {
            *self
        } else {
            self.spec_add_node(*new_node)
        }
    }

    /// A chain like this one with a node like `new_node` at its tip, or like this
    /// one alone where the node has nothing to say to it.
    #[verifier::when_used_as_spec(spec_new_with_added_node)]
    pub fn new_with_added_node(&self, new_node: &ClipChainNode) -> (r: Self)
        ensures
            r == self.spec_new_with_added_node(new_node),
    {
        // A node whose inner rectangle surrounds all that the chain leaves
        // visible clips nothing of it.
        if new_node.screen_inner_rect.contains_rect(&self.combined_outer_screen_rect) {
            return self.clone();
        }
        let mut new_chain = self.clone();
        new_chain.add_node(new_node.clone());
        new_chain
    }

    /// Puts a node at the tip of the chain: see [`ClipChain::spec_add_node`].
    /// The link that the node comes with is not looked at.
    pub fn add_node(&mut self, new_node: ClipChainNode)
        ensures
            *final(self) == old(self).spec_add_node(new_node),
    {
        let mut new_node = new_node;
        new_node.prev = share_ref(&self.nodes);

        // Where the inner rectangle of the chain surrounds what the node
        // leaves visible, no clip before the node matters from here on.
        if self.combined_inner_screen_rect.contains_rect(&new_node.screen_outer_rect) {
            new_node.prev = None;
        }
        self.combined_outer_screen_rect = self.combined_outer_screen_rect.intersection_or_zero(
            &new_node.screen_outer_rect,
        );
        self.combined_inner_screen_rect = self.combined_inner_screen_rect.intersection_or_zero(
            &new_node.screen_inner_rect,
        );
        self.has_non_root_coord_system = self.has_non_root_coord_system
            || new_node.work_item.coordinate_system_id != CoordinateSystemId::root();
        self.nodes = Some(Arc::new(new_node));
    }

    /// A walk along the nodes of the chain, from its tip to its root.
    pub fn iter(&self) -> (r: ClipChainNodeIter)
        ensures
            r.current == self.nodes,
    {
        ClipChainNodeIter { current: share_ref(&self.nodes) }
    }

    /// The bounds of the chain lie in the bounds of each of its nodes: the
    /// chain shows no more than any of its nodes does, and it claims no pixel
    /// as unclipped that one of its nodes does not.
    pub open spec fn bounds_lie_in_nodes(self) -> bool {
        forall|i: int|
            0 <= i < self.view_nodes().len() ==> {
                &&& (#[trigger] self.view_nodes()[i]).screen_outer_rect.spec_contains_rect(
                    &self.combined_outer_screen_rect,
                )
                &&& self.view_nodes()[i].screen_inner_rect.spec_contains_rect(
                    &self.combined_inner_screen_rect,
                )
            }
    }

    /// The inner rectangle of the chain lies in the outer one, and neither
    /// has a negative side.
    pub open spec fn is_well_formed(self) -> bool {
        &&& self.combined_outer_screen_rect.is_well_formed()
        &&& self.combined_inner_screen_rect.is_well_formed()
        &&& self.combined_outer_screen_rect.spec_contains_rect(&self.combined_inner_screen_rect)
    }
}

impl ClipChainNodeIter {
    /// The nodes that the walk has still to visit, the next one first.
    pub open spec fn remaining(&self) -> Seq<ClipChainNode> {
        nodes_from(self.current)
    }

    /// The next node on the way to the root, or `None` at the end of the walk.
    pub fn next(&mut self) -> (r: ClipChainNodeRef)
        ensures
            r == old(self).current,
            final(self).current == (match old(self).current {
                Some(item) => item.prev,
                None => None,
            }),
            old(self).remaining().len() == 0 ==> r is None && final(self).remaining().len() == 0,
            old(self).remaining().len() > 0 ==> r is Some && *r->0 == old(self).remaining()[0]
                && final(self).remaining() == old(self).remaining().drop_first(),
    {
        let previous = share_ref(&self.current);
        let next = match &self.current {
            Some(item) => share_ref(&item.prev),
            None => {
                return None;
            },
        };
        self.current = next;
        proof {
            assert(self.remaining() =~= old(self).remaining().drop_first());
        }
        previous
    }
}

/// A node whose inner rectangle covers all that a chain leaves visible changes
/// nothing of the chain: the chain that comes back has the same nodes and the
/// same bounds.
pub proof fn lemma_covering_node_is_dropped(chain: ClipChain, new_node: ClipChainNode)
    requires
        new_node.screen_inner_rect.spec_contains_rect(&chain.combined_outer_screen_rect),
    ensures
        chain.spec_new_with_added_node(&new_node) == chain,
        chain.spec_new_with_added_node(&new_node).view_nodes() == chain.view_nodes(),
{
}

/// A node that lies in the inner rectangle of the chain before it is linked to
/// no node, whatever the chain held; the bounds of the chain are narrowed by
/// the node all the same.
pub proof fn lemma_enclosed_node_is_unlinked(chain: ClipChain, new_node: ClipChainNode)
    requires
        chain.combined_inner_screen_rect.spec_contains_rect(&new_node.screen_outer_rect),
    ensures
        chain.spec_add_node(new_node).nodes matches Some(tip) && tip.prev is None,
        chain.spec_add_node(new_node).view_nodes().len() == 1,
        chain.spec_add_node(new_node).combined_outer_screen_rect
            == chain.combined_outer_screen_rect.spec_intersection_or_zero(
            &new_node.screen_outer_rect,
        ),
        chain.spec_add_node(new_node).combined_inner_screen_rect
            == chain.combined_inner_screen_rect.spec_intersection_or_zero(
            &new_node.screen_inner_rect,
        ),
{
    let tip = chain.spec_add_node(new_node).nodes->0;
    assert(nodes_from(tip.prev) =~= Seq::<ClipChainNode>::empty());
    assert(chain.spec_add_node(new_node).view_nodes() =~= seq![*tip]);
}

/// Of three nodes put on the chain of a screen rectangle, the third of which
/// lies in the inner rectangle that the first two leave, only the third is
/// left in the chain, and the bounds of the chain are what the screen and the
/// three nodes share.
pub proof fn lemma_third_node_prunes_chain(
    screen_rect: DeviceIntRect,
    a: ClipChainNode,
    b: ClipChainNode,
    c: ClipChainNode,
)
    requires
        ClipChain::spec_empty(&screen_rect).spec_add_node(a).spec_add_node(
            b,
        ).combined_inner_screen_rect.spec_contains_rect(&c.screen_outer_rect),
    ensures
        ({
            let chain = ClipChain::spec_empty(&screen_rect).spec_add_node(a).spec_add_node(
                b,
            ).spec_add_node(c);
            &&& chain.nodes matches Some(tip) && tip.prev is None
            &&& chain.view_nodes().len() == 1
            &&& chain.combined_outer_screen_rect == screen_rect.spec_intersection_or_zero(
                &a.screen_outer_rect,
            ).spec_intersection_or_zero(&b.screen_outer_rect).spec_intersection_or_zero(
                &c.screen_outer_rect,
            )
            &&& chain.combined_inner_screen_rect == screen_rect.spec_intersection_or_zero(
                &a.screen_inner_rect,
            ).spec_intersection_or_zero(&b.screen_inner_rect).spec_intersection_or_zero(
                &c.screen_inner_rect,
            )
        }),
{
    lemma_enclosed_node_is_unlinked(
        ClipChain::spec_empty(&screen_rect).spec_add_node(a).spec_add_node(b),
        c,
    );
}

/// The chain without nodes has its bounds in those of each of its nodes.
pub proof fn lemma_empty_bounds_lie_in_nodes(screen_rect: DeviceIntRect)
    ensures
        ClipChain::spec_empty(&screen_rect).bounds_lie_in_nodes(),
{
}

/// The bounds of a chain that lie in the bounds of each of its nodes stay
/// there when a node is put on the chain.
pub proof fn lemma_add_node_keeps_bounds_in_nodes(chain: ClipChain, new_node: ClipChainNode)
    requires
        chain.bounds_lie_in_nodes(),
    ensures
        chain.spec_add_node(new_node).bounds_lie_in_nodes(),
{
    let added = chain.spec_add_node(new_node);
    let tip = added.nodes->0;
    assert(added.view_nodes() =~= seq![*tip] + nodes_from(tip.prev));
    assert forall|i: int| 0 <= i < added.view_nodes().len() implies {
        &&& (#[trigger] added.view_nodes()[i]).screen_outer_rect.spec_contains_rect(
            &added.combined_outer_screen_rect,
        )
        &&& added.view_nodes()[i].screen_inner_rect.spec_contains_rect(
            &added.combined_inner_screen_rect,
        )
    } by {
        if i > 0 {
            assert(added.view_nodes()[i] == nodes_from(tip.prev)[i - 1]);
            assert(tip.prev == chain.nodes);
            assert(chain.view_nodes()[i - 1] == added.view_nodes()[i]);
        }
    }
}

/// The nodes that a new node is not linked to clip nothing of what the new
/// node shows: where the inner rectangle of the chain covers the outer
/// rectangle of the new node, every pixel that the new node can show lies in
/// the inner rectangle of every node of the chain.
pub proof fn lemma_unlinked_nodes_clip_nothing(
    chain: ClipChain,
    new_node: ClipChainNode,
    pixel: DeviceIntPoint,
)
    requires
        chain.bounds_lie_in_nodes(),
        chain.makes_redundant(&new_node),
        new_node.screen_outer_rect.spec_contains(&pixel),
    ensures
        forall|i: int|
            0 <= i < chain.view_nodes().len() ==> (
            #[trigger] chain.view_nodes()[i]).screen_inner_rect.spec_contains(&pixel),
{
}

/// The chain that is left when the given nodes are put on the empty chain of
/// a screen rectangle, one after the other.
pub open spec fn chain_of(screen_rect: DeviceIntRect, nodes: Seq<ClipChainNode>) -> ClipChain
    decreases nodes.len(),
{
    if nodes.len() == 0 {
        ClipChain::spec_empty(&screen_rect)
    } else {
        chain_of(screen_rect, nodes.drop_last()).spec_add_node(nodes.last())
    }
}

/// The bounds of a chain are what the screen and all nodes that were ever put
/// on the chain share, whether or not a node is still linked: a pixel lies in
/// the outer rectangle of the chain exactly when it lies on the screen and in
/// the outer rectangle of each node, and likewise for the inner rectangles.
pub proof fn lemma_chain_bounds_are_shared_pixels(
    screen_rect: DeviceIntRect,
    nodes: Seq<ClipChainNode>,
    pixel: DeviceIntPoint,
)
    ensures
        chain_of(screen_rect, nodes).combined_outer_screen_rect.spec_contains(&pixel) <==> (
        screen_rect.spec_contains(&pixel) && forall|i: int|
            0 <= i < nodes.len() ==> (#[trigger] nodes[i]).screen_outer_rect.spec_contains(&pixel)),
        chain_of(screen_rect, nodes).combined_inner_screen_rect.spec_contains(&pixel) <==> (
        screen_rect.spec_contains(&pixel) && forall|i: int|
            0 <= i < nodes.len() ==> (#[trigger] nodes[i]).screen_inner_rect.spec_contains(&pixel)),
        chain_of(screen_rect, nodes).bounds_lie_in_nodes(),
    decreases nodes.len(),
{
    if nodes.len() == 0 {
        lemma_empty_bounds_lie_in_nodes(screen_rect);
    } else {
        let before = chain_of(screen_rect, nodes.drop_last());
        let last = nodes.last();
        lemma_chain_bounds_are_shared_pixels(screen_rect, nodes.drop_last(), pixel);
        lemma_add_node_keeps_bounds_in_nodes(before, last);
        lemma_device_intersection_holds_shared_pixels(
            before.combined_outer_screen_rect,
            last.screen_outer_rect,
            pixel,
        );
        lemma_device_intersection_holds_shared_pixels(
            before.combined_inner_screen_rect,
            last.screen_inner_rect,
            pixel,
        );
        assert forall|i: int| 0 <= i < nodes.drop_last().len() implies nodes.drop_last()[i]
            == nodes[i] by {}
        if forall|i: int|
            0 <= i < nodes.len() ==> (#[trigger] nodes[i]).screen_outer_rect.spec_contains(&pixel) {
            assert forall|i: int| 0 <= i < nodes.drop_last().len() implies (
            #[trigger] nodes.drop_last()[i]).screen_outer_rect.spec_contains(&pixel) by {
                assert(nodes[i].screen_outer_rect.spec_contains(&pixel));
            }
            assert(nodes[nodes.len() - 1].screen_outer_rect.spec_contains(&pixel));
        }
        if forall|i: int|
            0 <= i < nodes.len() ==> (#[trigger] nodes[i]).screen_inner_rect.spec_contains(&pixel) {
            assert forall|i: int| 0 <= i < nodes.drop_last().len() implies (
            #[trigger] nodes.drop_last()[i]).screen_inner_rect.spec_contains(&pixel) by {
                assert(nodes[i].screen_inner_rect.spec_contains(&pixel));
            }
            assert(nodes[nodes.len() - 1].screen_inner_rect.spec_contains(&pixel));
        }
        if chain_of(screen_rect, nodes).combined_outer_screen_rect.spec_contains(&pixel) {
            assert forall|i: int| 0 <= i < nodes.len() implies (
            #[trigger] nodes[i]).screen_outer_rect.spec_contains(&pixel) by {
                if i < nodes.len() - 1 {
                    assert(nodes.drop_last()[i].screen_outer_rect.spec_contains(&pixel));
                }
            }
        }
        if chain_of(screen_rect, nodes).combined_inner_screen_rect.spec_contains(&pixel) {
            assert forall|i: int| 0 <= i < nodes.len() implies (
            #[trigger] nodes[i]).screen_inner_rect.spec_contains(&pixel) by {
                if i < nodes.len() - 1 {
                    assert(nodes.drop_last()[i].screen_inner_rect.spec_contains(&pixel));
                }
            }
        }
    }
}

/// The chain of well-formed nodes on a well-formed screen rectangle is well-formed.
pub proof fn lemma_chain_is_well_formed(screen_rect: DeviceIntRect, nodes: Seq<ClipChainNode>)
    requires
        screen_rect.is_well_formed(),
        forall|i: int| 0 <= i < nodes.len() ==> (#[trigger] nodes[i]).is_well_formed(),
    ensures
        chain_of(screen_rect, nodes).is_well_formed(),
    decreases nodes.len(),
{
    if nodes.len() > 0 {
        lemma_chain_is_well_formed(screen_rect, nodes.drop_last());
        lemma_add_node_keeps_inner_inside(chain_of(screen_rect, nodes.drop_last()), nodes.last());
    }
}

/// The nodes that are no longer linked into a chain are not missed: where the
/// inner rectangle of each node lies in its outer one, the bounds of the chain
/// are what the screen and the nodes that are still linked share.
pub proof fn lemma_chain_bounds_are_those_of_linked_nodes(
    screen_rect: DeviceIntRect,
    nodes: Seq<ClipChainNode>,
    pixel: DeviceIntPoint,
)
    requires
        screen_rect.is_well_formed(),
        forall|i: int| 0 <= i < nodes.len() ==> (#[trigger] nodes[i]).is_well_formed(),
    ensures
        ({
            let chain = chain_of(screen_rect, nodes);
            &&& chain.combined_outer_screen_rect.spec_contains(&pixel) <==> (
            screen_rect.spec_contains(&pixel) && forall|i: int|
                0 <= i < chain.view_nodes().len() ==> (
                #[trigger] chain.view_nodes()[i]).screen_outer_rect.spec_contains(&pixel))
            &&& chain.combined_inner_screen_rect.spec_contains(&pixel) <==> (
            screen_rect.spec_contains(&pixel) && forall|i: int|
                0 <= i < chain.view_nodes().len() ==> (
                #[trigger] chain.view_nodes()[i]).screen_inner_rect.spec_contains(&pixel))
        }),
    decreases nodes.len(),
{
    let chain = chain_of(screen_rect, nodes);
    lemma_chain_bounds_are_shared_pixels(screen_rect, nodes, pixel);
    if nodes.len() > 0 {
        let before = chain_of(screen_rect, nodes.drop_last());
        let last = nodes.last();
        lemma_chain_bounds_are_those_of_linked_nodes(screen_rect, nodes.drop_last(), pixel);
        lemma_chain_is_well_formed(screen_rect, nodes.drop_last());
        lemma_device_intersection_holds_shared_pixels(
            before.combined_outer_screen_rect,
            last.screen_outer_rect,
            pixel,
        );
        lemma_device_intersection_holds_shared_pixels(
            before.combined_inner_screen_rect,
            last.screen_inner_rect,
            pixel,
        );
        let tip = chain.nodes->0;
        assert(chain.view_nodes() =~= seq![*tip] + nodes_from(tip.prev));
        assert(chain.view_nodes()[0] == *tip);
        if !before.makes_redundant(&last) {
            assert(tip.prev == before.nodes);
            assert forall|i: int| 0 <= i < before.view_nodes().len() implies before.view_nodes()[i]
                == chain.view_nodes()[i + 1] by {}
            if screen_rect.spec_contains(&pixel) && forall|i: int|
                0 <= i < chain.view_nodes().len() ==> (
                #[trigger] chain.view_nodes()[i]).screen_outer_rect.spec_contains(&pixel) {
                assert forall|i: int| 0 <= i < before.view_nodes().len() implies (
                #[trigger] before.view_nodes()[i]).screen_outer_rect.spec_contains(&pixel) by {
                    assert(chain.view_nodes()[i + 1].screen_outer_rect.spec_contains(&pixel));
                }
            }
            if screen_rect.spec_contains(&pixel) && forall|i: int|
                0 <= i < chain.view_nodes().len() ==> (
                #[trigger] chain.view_nodes()[i]).screen_inner_rect.spec_contains(&pixel) {
                assert forall|i: int| 0 <= i < before.view_nodes().len() implies (
                #[trigger] before.view_nodes()[i]).screen_inner_rect.spec_contains(&pixel) by {
                    assert(chain.view_nodes()[i + 1].screen_inner_rect.spec_contains(&pixel));
                }
            }
        }
    }
    assert(chain.bounds_lie_in_nodes());
    if chain.combined_outer_screen_rect.spec_contains(&pixel) {
        assert forall|i: int| 0 <= i < chain.view_nodes().len() implies (
        #[trigger] chain.view_nodes()[i]).screen_outer_rect.spec_contains(&pixel) by {}
    }
    if chain.combined_inner_screen_rect.spec_contains(&pixel) {
        assert forall|i: int| 0 <= i < chain.view_nodes().len() implies (
        #[trigger] chain.view_nodes()[i]).screen_inner_rect.spec_contains(&pixel) by {}
    }
}

/// A chain whose inner rectangle lies in its outer one keeps it there when a
/// node is put on it whose inner rectangle lies in its outer one.
pub proof fn lemma_add_node_keeps_inner_inside(chain: ClipChain, new_node: ClipChainNode)
    requires
        chain.is_well_formed(),
        new_node.is_well_formed(),
    ensures
        chain.spec_add_node(new_node).is_well_formed(),
{
}

} // verus!
