use std::sync::Arc;

use layer_clip::clip_chain::{ClipChain, ClipChainNode, ClipChainNodeIter, ClipWorkItem};
use layer_clip::clip_store::ClipSourcesIndex;
use layer_clip::display_types::{ClipChainIndex, CoordinateSystemId};
use layer_clip::geometry::{
    DeviceIntPoint, DeviceIntRect, DeviceIntSize, LayoutPoint, LayoutRect, LayoutSize,
};

fn device_rect(x: i32, y: i32, w: i32, h: i32) -> DeviceIntRect {
    DeviceIntRect::new(DeviceIntPoint { x, y }, DeviceIntSize { width: w, height: h })
}

fn node(index: usize, outer: DeviceIntRect, inner: DeviceIntRect) -> ClipChainNode {
    ClipChainNode {
        work_item: ClipWorkItem {
            clip_sources_index: ClipSourcesIndex(index),
            coordinate_system_id: CoordinateSystemId::root(),
        },
        local_clip_rect: LayoutRect::new(LayoutPoint::new(0, 0), LayoutSize::new(60, 60)),
        screen_outer_rect: outer,
        screen_inner_rect: inner,
        prev: None,
    }
}

fn indices(chain: &ClipChain) -> Vec<usize> {
    let mut iter = chain.iter();
    let mut seen = Vec::new();
    while let Some(item) = iter.next() {
        seen.push(item.work_item.clip_sources_index.0);
    }
    seen
}

const SCREEN: (i32, i32, i32, i32) = (0, 0, 800, 600);

fn screen() -> DeviceIntRect {
    device_rect(SCREEN.0, SCREEN.1, SCREEN.2, SCREEN.3)
}

#[test]
fn the_empty_chain_is_the_screen() {
    let chain = ClipChain::empty(&screen());
    assert_eq!(chain.parent_index, None);
    assert_eq!(chain.combined_outer_screen_rect, screen());
    assert_eq!(chain.combined_inner_screen_rect, screen());
    assert!(chain.nodes.is_none());
    assert!(!chain.has_non_root_coord_system);
    assert_eq!(indices(&chain), Vec::<usize>::new());
}

#[test]
fn the_root_coordinate_system_is_the_first() {
    assert_eq!(CoordinateSystemId::root(), CoordinateSystemId(0));
}

#[test]
fn a_node_narrows_the_chain() {
    let mut chain = ClipChain::empty(&screen());
    chain.add_node(node(1, device_rect(100, 100, 900, 900), device_rect(200, 200, 100, 100)));
    assert_eq!(chain.combined_outer_screen_rect, device_rect(100, 100, 700, 500));
    assert_eq!(chain.combined_inner_screen_rect, device_rect(200, 200, 100, 100));
    assert_eq!(indices(&chain), vec![1]);
    chain.add_node(node(2, device_rect(0, 0, 400, 400), device_rect(0, 0, 250, 250)));
    assert_eq!(chain.combined_outer_screen_rect, device_rect(100, 100, 300, 300));
    assert_eq!(chain.combined_inner_screen_rect, device_rect(200, 200, 50, 50));
    assert_eq!(indices(&chain), vec![2, 1]);
}

#[test]
fn nodes_that_share_nothing_leave_zero_rects() {
    let mut chain = ClipChain::empty(&screen());
    chain.add_node(node(1, device_rect(100, 100, 900, 900), device_rect(200, 200, 100, 100)));
    chain.add_node(node(2, device_rect(2000, 2000, 10, 10), device_rect(2000, 2000, 10, 10)));
    assert_eq!(chain.combined_outer_screen_rect, DeviceIntRect::zero());
    assert_eq!(chain.combined_inner_screen_rect, DeviceIntRect::zero());
    assert_eq!(indices(&chain), vec![2, 1]);
}

#[test]
fn a_node_that_covers_the_chain_is_dropped() {
    let mut chain = ClipChain::empty(&screen());
    chain.parent_index = Some(ClipChainIndex(3));
    chain.add_node(node(1, device_rect(100, 100, 900, 900), device_rect(200, 200, 100, 100)));
    let covering = node(2, device_rect(0, 0, 2000, 2000), device_rect(100, 100, 700, 500));
    let same = chain.new_with_added_node(&covering);
    assert_eq!(same.parent_index, chain.parent_index);
    assert_eq!(same.combined_outer_screen_rect, chain.combined_outer_screen_rect);
    assert_eq!(same.combined_inner_screen_rect, chain.combined_inner_screen_rect);
    assert_eq!(same.has_non_root_coord_system, chain.has_non_root_coord_system);
    assert_eq!(indices(&same), indices(&chain));
    assert!(Arc::ptr_eq(same.nodes.as_ref().unwrap(), chain.nodes.as_ref().unwrap()));
}

#[test]
fn a_node_that_does_not_cover_the_chain_is_added() {
    let mut chain = ClipChain::empty(&screen());
    chain.add_node(node(1, device_rect(100, 100, 900, 900), device_rect(200, 200, 100, 100)));
    // One pixel short of the outer rectangle of the chain.
    let other = node(2, device_rect(0, 0, 2000, 2000), device_rect(100, 100, 699, 500));
    let longer = chain.new_with_added_node(&other);
    assert_eq!(indices(&longer), vec![2, 1]);
    assert_eq!(longer.combined_outer_screen_rect, device_rect(100, 100, 700, 500));
    assert_eq!(longer.combined_inner_screen_rect, device_rect(200, 200, 100, 100));
    // The chain that was added to is as it was, and the two share its node.
    assert_eq!(indices(&chain), vec![1]);
    let tip = longer.nodes.as_ref().unwrap();
    assert!(Arc::ptr_eq(tip.prev.as_ref().unwrap(), chain.nodes.as_ref().unwrap()));
    assert_eq!(Arc::strong_count(chain.nodes.as_ref().unwrap()), 2);
}

#[test]
fn a_node_in_the_inner_rect_of_the_chain_is_linked_to_none() {
    let a = node(1, device_rect(0, 0, 400, 400), device_rect(10, 10, 380, 380));
    let b = node(2, device_rect(50, 50, 500, 500), device_rect(60, 60, 100, 100));
    let c = node(3, device_rect(70, 70, 50, 50), device_rect(80, 80, 10, 10));
    let mut chain = ClipChain::empty(&screen());
    chain.add_node(a.clone());
    chain.add_node(b.clone());
    assert_eq!(indices(&chain), vec![2, 1]);
    assert_eq!(chain.combined_inner_screen_rect, device_rect(60, 60, 100, 100));
    chain.add_node(c.clone());
    assert_eq!(indices(&chain), vec![3]);
    assert!(chain.nodes.as_ref().unwrap().prev.is_none());
    let shared = |first: DeviceIntRect, second: DeviceIntRect| first.intersection(&second).unwrap();
    assert_eq!(
        chain.combined_outer_screen_rect,
        shared(shared(shared(screen(), a.screen_outer_rect), b.screen_outer_rect), c.screen_outer_rect)
    );
    assert_eq!(
        chain.combined_inner_screen_rect,
        shared(shared(shared(screen(), a.screen_inner_rect), b.screen_inner_rect), c.screen_inner_rect)
    );
    assert_eq!(chain.combined_outer_screen_rect, device_rect(70, 70, 50, 50));
    assert_eq!(chain.combined_inner_screen_rect, device_rect(80, 80, 10, 10));
}

#[test]
fn the_link_that_a_node_comes_with_is_replaced() {
    let mut first = ClipChain::empty(&screen());
    first.add_node(node(1, device_rect(0, 0, 900, 900), device_rect(10, 10, 20, 20)));
    let mut other = ClipChain::empty(&screen());
    other.add_node(node(7, device_rect(0, 0, 900, 900), device_rect(10, 10, 20, 20)));
    let mut linked = node(2, device_rect(0, 0, 900, 900), device_rect(10, 10, 20, 20));
    linked.prev = other.nodes.clone();
    first.add_node(linked);
    assert_eq!(indices(&first), vec![2, 1]);
}

#[test]
fn a_chain_remembers_that_it_left_the_root_coordinate_system() {
    let mut chain = ClipChain::empty(&screen());
    chain.add_node(node(1, device_rect(0, 0, 900, 900), device_rect(10, 10, 20, 20)));
    assert!(!chain.has_non_root_coord_system);
    let mut elsewhere = node(2, device_rect(0, 0, 900, 900), device_rect(10, 10, 20, 20));
    elsewhere.work_item.coordinate_system_id = CoordinateSystemId(5);
    chain.add_node(elsewhere);
    assert!(chain.has_non_root_coord_system);
    chain.add_node(node(3, device_rect(0, 0, 900, 900), device_rect(10, 10, 20, 20)));
    assert!(chain.has_non_root_coord_system);
}

#[test]
fn a_walk_goes_from_the_tip_to_the_root() {
    let mut chain = ClipChain::empty(&screen());
    for index in 1..=4 {
        chain.add_node(node(index, device_rect(0, 0, 900, 900), device_rect(10, 10, 20, 20)));
    }
    let mut iter = ClipChainNodeIter { current: chain.nodes.clone() };
    let first = iter.next().unwrap();
    assert_eq!(first.work_item.clip_sources_index, ClipSourcesIndex(4));
    assert!(Arc::ptr_eq(&first, chain.nodes.as_ref().unwrap()));
    assert_eq!(iter.next().unwrap().work_item.clip_sources_index, ClipSourcesIndex(3));
    assert_eq!(iter.next().unwrap().work_item.clip_sources_index, ClipSourcesIndex(2));
    assert_eq!(iter.next().unwrap().work_item.clip_sources_index, ClipSourcesIndex(1));
    assert!(iter.next().is_none());
    assert!(iter.next().is_none());
    assert!(iter.current.is_none());
}

#[test]
fn a_clone_shares_the_nodes() {
    let mut chain = ClipChain::empty(&screen());
    chain.add_node(node(1, device_rect(0, 0, 900, 900), device_rect(10, 10, 20, 20)));
    chain.add_node(node(2, device_rect(0, 0, 900, 900), device_rect(10, 10, 20, 20)));
    let copy = chain.clone();
    assert!(Arc::ptr_eq(copy.nodes.as_ref().unwrap(), chain.nodes.as_ref().unwrap()));
    assert_eq!(copy.combined_outer_screen_rect, chain.combined_outer_screen_rect);
    assert_eq!(copy.combined_inner_screen_rect, chain.combined_inner_screen_rect);
    let tip = chain.nodes.as_ref().unwrap();
    let tip_copy = (**tip).clone();
    assert_eq!(tip_copy.work_item, tip.work_item);
    assert!(Arc::ptr_eq(tip_copy.prev.as_ref().unwrap(), tip.prev.as_ref().unwrap()));
}

#[test]
fn a_node_without_outer_bound_narrows_nothing() {
    let work_item = ClipWorkItem {
        clip_sources_index: ClipSourcesIndex(1),
        coordinate_system_id: CoordinateSystemId::root(),
    };
    let local = LayoutRect::new(LayoutPoint::new(0, 0), LayoutSize::new(60, 60));
    let bounded =
        ClipChainNode::new(work_item, local, device_rect(1, 2, 3, 4), Some(device_rect(0, 0, 9, 9)));
    assert_eq!(bounded.screen_outer_rect, device_rect(0, 0, 9, 9));
    assert_eq!(bounded.screen_inner_rect, device_rect(1, 2, 3, 4));
    assert!(bounded.prev.is_none());
    let unbounded = ClipChainNode::new(work_item, local, DeviceIntRect::zero(), None);
    assert_eq!(unbounded.screen_outer_rect, DeviceIntRect::max_rect());
    let mut chain = ClipChain::empty(&screen());
    chain.add_node(node(1, device_rect(100, 100, 900, 900), device_rect(200, 200, 100, 100)));
    chain.add_node(unbounded);
    assert_eq!(chain.combined_outer_screen_rect, device_rect(100, 100, 700, 500));
    assert_eq!(chain.combined_inner_screen_rect, DeviceIntRect::zero());
    assert_eq!(indices(&chain), vec![1, 1]);
}

#[test]
fn the_bounds_of_a_chain_are_what_all_nodes_share() {
    let nodes = [
        node(1, device_rect(0, 0, 40, 40), device_rect(2, 2, 30, 30)),
        node(2, device_rect(5, 5, 50, 50), device_rect(6, 6, 20, 20)),
        node(3, device_rect(7, 7, 10, 10), device_rect(8, 8, 5, 5)),
        node(4, device_rect(0, 0, 12, 60), device_rect(9, 9, 2, 2)),
    ];
    let mut chain = ClipChain::empty(&device_rect(1, 1, 30, 30));
    for n in &nodes {
        chain.add_node(n.clone());
    }
    assert_eq!(indices(&chain), vec![4, 3]);
    for x in -1..45 {
        for y in -1..45 {
            let p = DeviceIntPoint { x, y };
            let on_screen = device_rect(1, 1, 30, 30).contains(&p);
            assert_eq!(
                chain.combined_outer_screen_rect.contains(&p),
                on_screen && nodes.iter().all(|n| n.screen_outer_rect.contains(&p))
            );
            assert_eq!(
                chain.combined_inner_screen_rect.contains(&p),
                on_screen && nodes.iter().all(|n| n.screen_inner_rect.contains(&p))
            );
        }
    }
}
