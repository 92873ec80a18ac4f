use therminal_window::hotspot::{CellMap, PaneCell};
use therminal_window::ids::PaneIdMap;
use therminal_window::layout::{LayoutNode, PaneId, PaneState, Ratio, SplitDirection};
use therminal_window::layout_ops::{FocusDirection, HALF_BITS};
use therminal_window::swarm_panes::SwarmPanes;

fn pane(id: PaneId) -> PaneState {
    PaneState { id, pinned: false, cwd: None, claude_session_id: None }
}

fn leaf(id: PaneId) -> LayoutNode {
    LayoutNode::Leaf(pane(id))
}

fn split(first: LayoutNode, second: LayoutNode) -> LayoutNode {
    LayoutNode::Split {
        direction: SplitDirection::Vertical,
        ratio: Ratio { bits: HALF_BITS },
        first: Box::new(first),
        second: Box::new(second),
    }
}

fn three() -> LayoutNode {
    split(leaf(1), split(leaf(2), leaf(3)))
}

#[test]
fn a_pane_that_is_taken_out_can_be_put_back() {
    let mut tree = three();
    let taken = tree.extract_pane(2);
    assert_eq!(taken, Some(pane(2)));
    assert!(tree.has_empty());
    assert!(!tree.contains(2));
    assert_eq!(tree.insert_pane_at_empty(taken.unwrap()), None);
    assert_eq!(tree, three());
    assert_eq!(tree.insert_pane_at_empty(pane(4)), Some(pane(4)));
    assert_eq!(tree.extract_pane(9), None);
}

#[test]
fn splitting_and_removing_undo_each_other() {
    let mut tree = leaf(1);
    assert!(tree.split_pane(1, SplitDirection::Vertical, pane(2)));
    assert_eq!(tree, split(leaf(1), leaf(2)));
    assert!(tree.remove_pane(2));
    assert_eq!(tree, leaf(1));
    assert!(!tree.remove_pane(2));
    assert!(!tree.split_pane(7, SplitDirection::Vertical, pane(2)));
}

#[test]
fn swapping_twice_changes_nothing() {
    let mut tree = three();
    assert!(tree.swap_pane(1, 3));
    assert_eq!(tree.pane_ids(), vec![3, 2, 1]);
    assert!(tree.swap_pane(1, 3));
    assert_eq!(tree, three());
    assert!(!tree.swap_pane(1, 9));
}

#[test]
fn neighbours_go_around() {
    let tree = three();
    assert_eq!(tree.adjacent_pane(3, FocusDirection::Next), Some(1));
    assert_eq!(tree.adjacent_pane(1, FocusDirection::Prev), Some(3));
    assert_eq!(tree.adjacent_pane(9, FocusDirection::Next), None);
    assert_eq!(leaf(1).adjacent_pane(1, FocusDirection::Next), None);
}

#[test]
fn a_path_leads_to_a_split() {
    let quarter = Ratio { bits: 0x3e80_0000 };
    let mut tree = three();
    tree.set_ratio_at_path(&vec![true], quarter);
    match &tree {
        LayoutNode::Split { ratio, second, .. } => {
            assert_eq!(*ratio, Ratio { bits: HALF_BITS });
            assert!(matches!(&**second, LayoutNode::Split { ratio, .. } if *ratio == quarter));
        }
        other => panic!("expected a split, got {other:?}"),
    }
    tree.set_ratio_at_path(&vec![false, true], quarter);
    tree.reset_all_ratios();
    assert_eq!(tree, three());
}

#[test]
fn panes_are_found_and_counted() {
    let mut tree = three();
    assert_eq!(tree.pane_count(), 3);
    assert_eq!(tree.first_id(), Some(1));
    assert_eq!(LayoutNode::Empty.first_id(), None);
    tree.set_pinned(3, true);
    assert!(tree.find_pane(3).unwrap().pinned);
    assert_eq!(tree.find_pane(4), None);
}

#[test]
fn compacting_keeps_the_panes() {
    let mut tree = split(split(LayoutNode::Empty, leaf(1)), LayoutNode::Empty);
    tree.compact_layout();
    assert_eq!(tree, leaf(1));
    let mut empty = split(LayoutNode::Empty, LayoutNode::Empty);
    empty.compact_layout();
    assert_eq!(empty, LayoutNode::Empty);
}

#[test]
fn ids_are_paired_both_ways() {
    let mut map = PaneIdMap::new();
    assert_eq!(map.any_daemon_id(), None);
    map.insert(1, 10);
    map.insert(2, 20);
    assert_eq!(map.daemon_for_local(2), Some(20));
    assert_eq!(map.local_for_daemon(10), Some(1));
    assert_eq!(map.any_daemon_id(), Some(10));
    map.insert(1, 30);
    assert_eq!(map.local_for_daemon(10), None);
    assert_eq!(map.daemon_for_local(1), Some(30));
    map.remove_by_local(2);
    assert_eq!(map.local_for_daemon(20), None);
    assert_eq!(map.all_daemon_ids(), vec![30]);
}

#[test]
fn subagents_have_panes() {
    let mut panes = SwarmPanes::new();
    panes.insert("a".to_string(), 1);
    panes.insert("a".to_string(), 2);
    assert!(panes.contains_key("a"));
    assert_eq!(panes.remove("a"), Some(2));
    assert_eq!(panes.remove("a"), None);
}

#[test]
fn cells_hold_the_last_value() {
    let mut map = CellMap::new();
    let cell = PaneCell { pane: 1, row: 2, col: 3 };
    assert_eq!(map.get(cell), None);
    map.insert(cell, 'a');
    map.insert(cell, 'b');
    assert_eq!(map.get(cell), Some(&'b'));
    assert!(!map.contains_key(PaneCell { pane: 2, ..cell }));
}
