//! The tree of panes in a workspace.
use vstd::prelude::*;

verus! {

/// The number that the window gives a pane.
pub type PaneId = u64;

/// How a split divides its area: side by side or one above the other.
#[derive(Debug, Clone, Copy, PartialEq, Eq, Structural)]
pub enum SplitDirection {
    Horizontal,
    Vertical,
}

impl SplitDirection {
    pub open spec fn flipped(self) -> SplitDirection {
        match self {
            SplitDirection::Horizontal => SplitDirection::Vertical,
            SplitDirection::Vertical => SplitDirection::Horizontal,
        }
    }

    /// The other direction.
    pub fn other(self) -> (r: SplitDirection)
        ensures
            r == self.flipped(),
    {
        match self {
            SplitDirection::Horizontal => SplitDirection::Vertical,
            SplitDirection::Vertical => SplitDirection::Horizontal,
        }
    }
}

/// The share of the first half of a split, as the bits of a 32 bit float. The
/// tree carries it and never computes with it.
#[derive(Debug, Clone, Copy, PartialEq, Eq, Structural)]
pub struct Ratio {
    pub bits: u32,
}

/// What the window knows of a pane.
#[derive(Debug, PartialEq, Eq)]
pub struct PaneState {
    pub id: PaneId,
    /// Whether the pane stays visible when the workspace is switched.
    pub pinned: bool,
    /// The working directory that the shell last reported.
    pub cwd: Option<String>,
    /// The session of the agent that runs in the pane.
    pub claude_session_id: Option<String>,
}

impl PaneState {
    /// The same pane once more.
    pub fn copy(&self) -> (r: PaneState)
        ensures
            r == *self,
    {
        PaneState {
            id: self.id,
            pinned: self.pinned,
            cwd: match &self.cwd {
                Some(c) => Some(c.clone()),
                None => None,
            },
            claude_session_id: match &self.claude_session_id {
                Some(c) => Some(c.clone()),
                None => None,
            },
        }
    }
}

/// A tree of panes. `Empty` is the place of a pane that was taken out.
#[derive(Debug, PartialEq, Eq)]
pub enum LayoutNode {
    Leaf(PaneState),
    Split {
        direction: SplitDirection,
        ratio: Ratio,
        first: Box<LayoutNode>,
        second: Box<LayoutNode>,
    },
    Empty,
}

impl LayoutNode {
    /// The panes, first halves before second halves.
    pub open spec fn panes(self) -> Seq<PaneState>
        decreases self,
    {
        match self {
            LayoutNode::Leaf(p) => seq![p],
            LayoutNode::Split { first, second, .. } => first.panes() + second.panes(),
            LayoutNode::Empty => seq![],
        }
    }

    /// The ids of the panes, in the same order.
    pub open spec fn ids(self) -> Seq<PaneId> {
        self.panes().map_values(|p: PaneState| p.id)
    }

    /// Whether a pane with this id is in the tree.
    pub open spec fn has(self, id: PaneId) -> bool
        decreases self,
    {
        match self {
            LayoutNode::Leaf(p) => p.id == id,
            LayoutNode::Split { first, second, .. } => first.has(id) || second.has(id),
            LayoutNode::Empty => false,
        }
    }

    /// The first pane with this id.
    pub open spec fn pane(self, id: PaneId) -> Option<PaneState>
        decreases self,
    {
        match self {
            LayoutNode::Leaf(p) => if p.id == id {
                Some(p)
            } else {
                None
            },
            LayoutNode::Split { first, second, .. } => if first.has(id) {
                first.pane(id)
            } else {
                second.pane(id)
            },
            LayoutNode::Empty => None,
        }
    }

    /// The tree with the first pane of this id replaced by `node`.
    pub open spec fn replaced(self, id: PaneId, node: LayoutNode) -> LayoutNode
        decreases self,
    {
        match self {
            LayoutNode::Leaf(p) => if p.id == id {
                node
            } else {
                self
            },
            LayoutNode::Split { direction, ratio, first, second } => if first.has(id) {
                LayoutNode::Split {
                    direction,
                    ratio,
                    first: Box::new(first.replaced(id, node)),
                    second,
                }
            } else {
                LayoutNode::Split {
                    direction,
                    ratio,
                    first,
                    second: Box::new(second.replaced(id, node)),
                }
            },
            LayoutNode::Empty => self,
        }
    }

    /// Whether a place in the tree is empty.
    pub open spec fn has_hole(self) -> bool
        decreases self,
    {
        match self {
            LayoutNode::Leaf(_) => false,
            LayoutNode::Split { first, second, .. } => first.has_hole() || second.has_hole(),
            LayoutNode::Empty => true,
        }
    }

    /// The tree with its first empty place filled by `pane`.
    pub open spec fn filled(self, pane: PaneState) -> LayoutNode
        decreases self,
    {
        match self {
            LayoutNode::Leaf(_) => self,
            LayoutNode::Split { direction, ratio, first, second } => if first.has_hole() {
                LayoutNode::Split {
                    direction,
                    ratio,
                    first: Box::new(first.filled(pane)),
                    second,
                }
            } else {
                LayoutNode::Split {
                    direction,
                    ratio,
                    first,
                    second: Box::new(second.filled(pane)),
                }
            },
            LayoutNode::Empty => LayoutNode::Leaf(pane),
        }
    }

    /// Whether a pane with this id is in the tree.
    pub fn contains(&self, id: PaneId) -> (r: bool)
        ensures
            r == self.has(id),
        decreases self,
    {
        match self {
            LayoutNode::Leaf(p) => p.id == id,
            LayoutNode::Split { first, second, .. } => first.contains(id) || second.contains(id),
            LayoutNode::Empty => false,
        }
    }

    /// The first pane with this id.
    pub fn find_pane(&self, id: PaneId) -> (r: Option<&PaneState>)
        ensures
            r is Some <==> self.has(id),
            r matches Some(p) ==> self.pane(id) == Some(*p) && p.id == id,
            r is None ==> self.pane(id) is None,
        decreases self,
    {
        match self {
            LayoutNode::Leaf(p) => if p.id == id {
                Some(p)
            } else {
                None
            },
            LayoutNode::Split { first, second, .. } => match first.find_pane(id) {
                Some(p) => Some(p),
                None => second.find_pane(id),
            },
            LayoutNode::Empty => None,
        }
    }

    fn push_ids(&self, out: &mut Vec<PaneId>)
        ensures
            final(out)@ == old(out)@ + self.ids(),
        decreases self,
    {
        match self {
            LayoutNode::Leaf(p) => {
                out.push(p.id);
                assert(out@ =~= old(out)@ + self.ids());
            },
            LayoutNode::Split { first, second, .. } => {
                first.push_ids(out);
                second.push_ids(out);
                assert(out@ =~= old(out)@ + self.ids());
            },
            LayoutNode::Empty => {
                assert(out@ =~= old(out)@ + self.ids());
            },
        }
    }

    /// The ids of the panes, first halves before second halves.
    pub fn pane_ids(&self) -> (r: Vec<PaneId>)
        ensures
            r@ == self.ids(),
    {
        let mut out: Vec<PaneId> = Vec::new();
        self.push_ids(&mut out);
        assert(out@ =~= self.ids());
        out
    }

    /// The number of panes.
    pub fn pane_count(&self) -> (r: usize)
        ensures
            r == self.panes().len(),
    {
        self.pane_ids().len()
    }

    /// The id of the first pane.
    pub fn first_id(&self) -> (r: Option<PaneId>)
        ensures
            r == (if self.ids().len() > 0 {
                Some(self.ids()[0])
            } else {
                None::<PaneId>
            }),
    {
        let ids = self.pane_ids();
        if ids.len() > 0 {
            Some(ids[0])
        } else {
            None
        }
    }

    /// Takes the first pane with this id out of the tree and leaves its place
    /// empty.
    pub fn extract_pane(&mut self, id: PaneId) -> (r: Option<PaneState>)
        ensures
            r == old(self).pane(id),
            *final(self) == old(self).replaced(id, LayoutNode::Empty),
        decreases *old(self),
    {
        proof {
            lemma_absent(*self, id, LayoutNode::Empty);
        }
        if !self.contains(id) {
            return None;
        }
        match self {
            LayoutNode::Split { first, second, .. } => {
                if first.contains(id) {
                    return first.extract_pane(id);
                } else {
                    return second.extract_pane(id);
                }
            },
            _ => {},
        }
        let mut node = LayoutNode::Empty;
        core::mem::swap(self, &mut node);
        match node {
            LayoutNode::Leaf(p) => Some(p),
            _ => None,
        }
    }

    /// Whether a place in the tree is empty.
    pub fn has_empty(&self) -> (r: bool)
        ensures
            r == self.has_hole(),
        decreases self,
    {
        match self {
            LayoutNode::Leaf(_) => false,
            LayoutNode::Split { first, second, .. } => first.has_empty() || second.has_empty(),
            LayoutNode::Empty => true,
        }
    }

    /// Puts `pane` into the first empty place; gives it back where there is
    /// none.
    pub fn insert_pane_at_empty(&mut self, pane: PaneState) -> (r: Option<PaneState>)
        ensures
            old(self).has_hole() ==> r is None && *final(self) == old(self).filled(pane),
            !old(self).has_hole() ==> r == Some(pane) && *final(self) == *old(self),
        decreases *old(self),
    {
        if !self.has_empty() {
            return Some(pane);
        }
        match self {
            LayoutNode::Split { first, second, .. } => {
                if first.has_empty() {
                    return first.insert_pane_at_empty(pane);
                } else {
                    return second.insert_pane_at_empty(pane);
                }
            },
            _ => {},
        }
        *self = LayoutNode::Leaf(pane);
        None
    }

    /// Sets whether the first pane with this id is pinned.
    pub fn set_pinned(&mut self, id: PaneId, pinned: bool)
        ensures
            *final(self) == match old(self).pane(id) {
                Some(p) => old(self).replaced(
                    id,
                    LayoutNode::Leaf(PaneState { pinned, ..p }),
                ),
                None => *old(self),
            },
        decreases *old(self),
    {
        proof {
            lemma_absent(*self, id, LayoutNode::Empty);
            lemma_has_pane(*self, id);
        }
        if !self.contains(id) {
            return;
        }
        match self {
            LayoutNode::Leaf(p) => {
                p.pinned = pinned;
            },
            LayoutNode::Split { first, second, .. } => {
                proof {
                    lemma_has_pane(**first, id);
                    lemma_has_pane(**second, id);
                }
                if first.contains(id) {
                    first.set_pinned(id, pinned);
                } else {
                    second.set_pinned(id, pinned);
                }
            },
            LayoutNode::Empty => {},
        }
    }
}

/// A pane is found exactly where it is in the tree.
pub proof fn lemma_has_pane(t: LayoutNode, id: PaneId)
    ensures
        t.has(id) <==> t.pane(id) is Some,
        t.pane(id) matches Some(p) ==> p.id == id,
    decreases t,
{
    match t {
        LayoutNode::Split { first, second, .. } => {
            lemma_has_pane(*first, id);
            lemma_has_pane(*second, id);
        },
        _ => {},
    }
}

/// Without a pane of this id there is nothing to find and nothing to replace.
pub proof fn lemma_absent(t: LayoutNode, id: PaneId, node: LayoutNode)
    ensures
        !t.has(id) ==> t.pane(id) is None && t.replaced(id, node) == t,
    decreases t,
{
    match t {
        LayoutNode::Split { first, second, .. } => {
            lemma_absent(*first, id, node);
            lemma_absent(*second, id, node);
        },
        _ => {},
    }
}

/// A tree without empty places is whole again after a pane was taken out and
/// put into the place that it left.
pub proof fn law_extract_then_insert(t: LayoutNode, id: PaneId)
    requires
        t.has(id),
        !t.has_hole(),
    ensures
        t.replaced(id, LayoutNode::Empty).has_hole(),
        t.replaced(id, LayoutNode::Empty).filled(t.pane(id)->0) == t,
    decreases t,
{
    match t {
        LayoutNode::Split { first, second, .. } => {
            if first.has(id) {
                law_extract_then_insert(*first, id);
            } else {
                law_extract_then_insert(*second, id);
            }
        },
        _ => {},
    }
}

/// The ids list exactly the panes that the tree has.
pub proof fn law_ids_are_the_panes(t: LayoutNode, id: PaneId)
    ensures
        t.has(id) <==> t.ids().contains(id),
    decreases t,
{
    match t {
        LayoutNode::Leaf(p) => {
            assert(t.ids()[0] == p.id);
        },
        LayoutNode::Split { first, second, .. } => {
            law_ids_are_the_panes(*first, id);
            law_ids_are_the_panes(*second, id);
            assert(t.ids() =~= first.ids() + second.ids());
            if first.ids().contains(id) {
                let i = choose|i: int| 0 <= i < first.ids().len() && first.ids()[i] == id;
                assert(t.ids()[i] == id);
            }
            if second.ids().contains(id) {
                let i = choose|i: int| 0 <= i < second.ids().len() && second.ids()[i] == id;
                assert(t.ids()[first.ids().len() + i] == id);
            }
            if t.ids().contains(id) {
                let i = choose|i: int| 0 <= i < t.ids().len() && t.ids()[i] == id;
                if i < first.ids().len() {
                    assert(first.ids()[i] == id);
                } else {
                    assert(second.ids()[i - first.ids().len()] == id);
                }
            }
        },
        LayoutNode::Empty => {},
    }
}

} // verus!
