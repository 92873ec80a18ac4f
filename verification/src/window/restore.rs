//! Restoring a saved layout with new panes.
use super::{App, Effect, Workspaces};
use crate::ids::DaemonPaneId;
use crate::layout::{LayoutNode, PaneId, PaneState, Ratio, SplitDirection};
use vstd::prelude::*;

verus! {

/// The shape of a tree of panes.
#[derive(Debug, PartialEq, Eq)]
pub enum LayoutSnapshot {
    Leaf,
    Split {
        direction: SplitDirection,
        ratio: Ratio,
        first: Box<LayoutSnapshot>,
        second: Box<LayoutSnapshot>,
    },
}

/// Where the pane for a leaf comes from.
#[derive(Debug, Clone, Copy, PartialEq, Eq, Structural)]
pub enum LeafSource {
    /// A shell of the window.
    Local,
    /// The daemon splits one of its panes.
    OffExisting { anchor: DaemonPaneId },
    /// The daemon starts a session.
    FreshSession,
}

/// What is needed next to restore a layout.
#[derive(Debug, PartialEq, Eq)]
pub enum RestoreStep {
    Done,
    /// A pane is to be made for every leaf, first halves before second halves.
    Rebuild(LayoutSnapshot),
}

impl LayoutSnapshot {
    pub open spec fn leaves(self) -> nat
        decreases self,
    {
        match self {
            LayoutSnapshot::Leaf => 1,
            LayoutSnapshot::Split { first, second, .. } => first.leaves() + second.leaves(),
        }
    }

    /// The tree of this shape with `panes` as its leaves, in order.
    pub open spec fn with_panes(self, panes: Seq<PaneState>) -> LayoutNode
        decreases self,
    {
        match self {
            LayoutSnapshot::Leaf => LayoutNode::Leaf(panes[0]),
            LayoutSnapshot::Split { direction, ratio, first, second } => LayoutNode::Split {
                direction,
                ratio,
                first: Box::new(first.with_panes(panes.take(first.leaves() as int))),
                second: Box::new(second.with_panes(panes.skip(first.leaves() as int))),
            },
        }
    }

    /// Whether a tree has this shape.
    pub open spec fn is_shape_of(self, t: LayoutNode) -> bool
        decreases self,
    {
        match (self, t) {
            (LayoutSnapshot::Leaf, LayoutNode::Leaf(_)) => true,
            (
                LayoutSnapshot::Split { direction, ratio, first, second },
                LayoutNode::Split { direction: d, ratio: r, first: f, second: s },
            ) => direction == d && ratio == r && first.is_shape_of(*f) && second.is_shape_of(*s),
            _ => false,
        }
    }
}

/// A rebuilt layout has the saved shape and exactly the new panes, in order.
pub proof fn law_rebuilt_layout(s: LayoutSnapshot, panes: Seq<PaneState>)
    requires
        panes.len() == s.leaves(),
    ensures
        s.is_shape_of(s.with_panes(panes)),
        s.with_panes(panes).panes() == panes,
        s.leaves() >= 1,
    decreases s,
{
    match s {
        LayoutSnapshot::Leaf => {
            assert(s.with_panes(panes).panes() =~= panes);
        },
        LayoutSnapshot::Split { first, second, .. } => {
            let n = first.leaves() as int;
            law_rebuilt_layout(*first, panes.take(n));
            law_rebuilt_layout(*second, panes.skip(n));
            assert(panes.take(n) + panes.skip(n) =~= panes);
        },
    }
}

proof fn lemma_leaves(s: LayoutSnapshot)
    ensures
        s.leaves() >= 1,
    decreases s,
{
    match s {
        LayoutSnapshot::Split { first, second, .. } => {
            lemma_leaves(*first);
            lemma_leaves(*second);
        },
        _ => {},
    }
}

impl LayoutSnapshot {
    /// The number of leaves, unless there are more than can be counted.
    pub fn leaf_count(&self) -> (r: Option<usize>)
        ensures
            r is Some <==> self.leaves() <= usize::MAX,
            r matches Some(n) ==> n == self.leaves(),
        decreases self,
    {
        match self {
            LayoutSnapshot::Leaf => Some(1),
            LayoutSnapshot::Split { first, second, .. } => {
                let a: usize = match first.leaf_count() {
                    Some(n) => n,
                    None => {
                        return None;
                    },
                };
                let b: usize = match second.leaf_count() {
                    Some(n) => n,
                    None => {
                        return None;
                    },
                };
                a.checked_add(b)
            },
        }
    }
}

/// Takes the leaves of `snapshot` from `panes`, from `start` on; gives the tree
/// and the position behind the last pane used, or nothing where they do not
/// suffice.
fn rebuild(snapshot: &LayoutSnapshot, panes: &Vec<PaneState>, start: usize) -> (r: Option<
    (LayoutNode, usize),
>)
    requires
        start <= panes@.len(),
    ensures
        r is Some <==> start + snapshot.leaves() <= panes@.len(),
        r matches Some((node, end)) ==> end == start + snapshot.leaves() && node
            == snapshot.with_panes(panes@.subrange(start as int, end as int)),
    decreases snapshot,
{
    proof {
        lemma_leaves(*snapshot);
    }
    match snapshot {
        LayoutSnapshot::Leaf => if start < panes.len() {
            Some((LayoutNode::Leaf(panes[start].copy()), start + 1))
        } else {
            None
        },
        LayoutSnapshot::Split { direction, ratio, first, second } => {
            proof {
                lemma_leaves(**first);
                lemma_leaves(**second);
            }
            let (first_node, mid) = match rebuild(first, panes, start) {
                Some(found) => found,
                None => {
                    return None;
                },
            };
            let (second_node, end) = match rebuild(second, panes, mid) {
                Some(found) => found,
                None => {
                    return None;
                },
            };
            proof {
                let used = panes@.subrange(start as int, end as int);
                let n = first.leaves() as int;
                assert(used.take(n) =~= panes@.subrange(start as int, mid as int));
                assert(used.skip(n) =~= panes@.subrange(mid as int, end as int));
            }
            Some(
                (
                    LayoutNode::Split {
                        direction: *direction,
                        ratio: *ratio,
                        first: Box::new(first_node),
                        second: Box::new(second_node),
                    },
                    end,
                ),
            )
        },
    }
}

/// The saved tree with `panes` as its leaves, in order; nothing if one of them
/// could not be made.
pub fn rebuild_from_snapshot(snapshot: &LayoutSnapshot, panes: &Vec<PaneState>) -> (r: Option<
    LayoutNode,
>)
    ensures
        r is Some <==> snapshot.leaves() <= panes@.len(),
        r matches Some(node) ==> node == snapshot.with_panes(
            panes@.take(snapshot.leaves() as int),
        ),
{
    match rebuild(snapshot, panes, 0) {
        Some((node, _)) => {
            assert(panes@.subrange(0, snapshot.leaves() as int) =~= panes@.take(
                snapshot.leaves() as int,
            ));
            Some(node)
        },
        None => None,
    }
}

impl App {
    /// Starts to restore the saved layout. The panes on the screen are dropped.
    pub fn restore_layout(&mut self, saved: Option<LayoutSnapshot>) -> (r: RestoreStep)
        ensures
            match saved {
                Some(snapshot) => {
                    &&& *final(self) == (App {
                        workspaces: match old(self).workspaces {
                            Some(w) => Some(
                                Workspaces { layout: LayoutNode::Empty, focused: None, ..w },
                            ),
                            None => None,
                        },
                        ..*old(self)
                    })
                    &&& r == if old(self).has_layout_rect && (old(self).daemon_mode() || old(
                        self,
                    ).has_renderer) {
                        RestoreStep::Rebuild(snapshot)
                    } else {
                        RestoreStep::Done
                    }
                },
                None => r == RestoreStep::Done && *final(self) == *old(self),
            },
    {
        let snapshot = match saved {
            Some(s) => s,
            None => {
                return RestoreStep::Done;
            },
        };
        if let Some(w) = &mut self.workspaces {
            w.layout = LayoutNode::Empty;
            w.focused = None;
        }
        if !self.has_layout_rect {
            return RestoreStep::Done;
        }
        if !self.is_daemon_mode() && !self.has_renderer {
            return RestoreStep::Done;
        }
        RestoreStep::Rebuild(snapshot)
    }

    /// Where the pane for the next leaf comes from. With a daemon every leaf is
    /// one of its panes: the first is split off any that there is, or is that of
    /// a new session; all later ones are split off the first, whose pane of the
    /// daemon is `first`.
    pub fn leaf_source(&self, first: Option<DaemonPaneId>) -> (r: LeafSource)
        ensures
            r == if !self.daemon_mode() {
                LeafSource::Local
            } else if first is Some {
                LeafSource::OffExisting { anchor: first->0 }
            } else {
                match self.pane_id_map.any() {
                    Some(anchor) => LeafSource::OffExisting { anchor },
                    None => LeafSource::FreshSession,
                }
            },
    {
        if !self.is_daemon_mode() {
            return LeafSource::Local;
        }
        if let Some(anchor) = first {
            return LeafSource::OffExisting { anchor };
        }
        match self.pane_id_map.any_daemon_id() {
            Some(anchor) => LeafSource::OffExisting { anchor },
            None => LeafSource::FreshSession,
        }
    }

    /// Shows a tree; gives its first pane.
    fn show_tree(&mut self, node: LayoutNode) -> (r: Option<PaneId>)
        ensures
            *final(self) == (App {
                workspaces: match old(self).workspaces {
                    Some(w) => Some(Workspaces { layout: node, ..w }),
                    None => None,
                },
                ..*old(self)
            }),
            r == if old(self).workspaces is Some && node.ids().len() > 0 {
                Some(node.ids()[0])
            } else {
                None
            },
    {
        let mut first: Option<PaneId> = None;
        if let Some(w) = &mut self.workspaces {
            first = node.first_id();
            w.layout = node;
        }
        first
    }

    /// Ends the restore with the rebuilt tree, if every leaf has a pane: its
    /// first pane gets the focus.
    pub fn finish_restore_layout(&mut self, rebuilt: Option<LayoutNode>)
        requires
            old(self).wf(),
        ensures
            final(self).wf(),
            match rebuilt {
                Some(node) => {
                    let first = if old(self).workspaces is Some && node.ids().len() > 0 {
                        Some(node.ids()[0])
                    } else {
                        None
                    };
                    &&& *final(self) == (App {
                        workspaces: match old(self).workspaces {
                            Some(w) => Some(Workspaces { layout: node, focused: first, ..w }),
                            None => None,
                        },
                        effects: final(self).effects,
                        ..*old(self)
                    })
                    &&& final(self).effects@ == old(self).effects@ + old(self).select_effects(first)
                        + (if old(self).daemon_mode() {
                        seq![Effect::RelayoutAndRedraw, Effect::PublishWorkspaceState]
                    } else {
                        seq![Effect::RelayoutAndRedraw]
                    })
                },
                None => *final(self) == *old(self),
            },
    {
        let node = match rebuilt {
            Some(n) => n,
            None => {
                return;
            },
        };
        let first = self.show_tree(node);
        self.set_focused_pane(first);
        self.emit(Effect::RelayoutAndRedraw);
        if self.is_daemon_mode() {
            self.emit(Effect::PublishWorkspaceState);
        }
        assert(self.effects@ =~= old(self).effects@ + old(self).select_effects(first) + (if old(
            self,
        ).daemon_mode() {
            seq![Effect::RelayoutAndRedraw, Effect::PublishWorkspaceState]
        } else {
            seq![Effect::RelayoutAndRedraw]
        }));
    }
}

} // verus!
