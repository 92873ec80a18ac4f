//! Changing the tree of panes: neighbours, swaps, splits, ratios.
use crate::layout::{LayoutNode, PaneId, PaneState, Ratio, SplitDirection};
use vstd::prelude::*;

verus! {

/// The way to go through the panes.
#[derive(Debug, Clone, Copy, PartialEq, Eq, Structural)]
pub enum FocusDirection {
    Next,
    Prev,
}

/// The bits of one half.
pub const HALF_BITS: u32 = 0x3f00_0000;

/// The position of the first `id` in `ids` at or behind `from`, or the length.
pub open spec fn position(ids: Seq<PaneId>, id: PaneId, from: int) -> int
    decreases ids.len() - from,
{
    if from >= ids.len() {
        ids.len() as int
    } else if ids[from] == id {
        from
    } else {
        position(ids, id, from + 1)
    }
}

/// The pane before or behind `id`, around the ends. A single pane has no
/// neighbour.
pub open spec fn neighbour(ids: Seq<PaneId>, id: PaneId, direction: FocusDirection) -> Option<
    PaneId,
> {
    let i = position(ids, id, 0);
    if ids.len() <= 1 || i >= ids.len() {
        None
    } else {
        match direction {
            FocusDirection::Next => Some(ids[if i + 1 < ids.len() {
                i + 1
            } else {
                0
            }]),
            FocusDirection::Prev => Some(ids[if i > 0 {
                i - 1
            } else {
                ids.len() - 1
            }]),
        }
    }
}

impl LayoutNode {
    /// The tree with another ratio at the split that `path` leads to: to the first
    /// half or, where it is true, to the second. A path that leads to no split
    /// changes nothing.
    pub open spec fn with_ratio_at(self, path: Seq<bool>, ratio: Ratio) -> LayoutNode
        decreases self,
    {
        match self {
            LayoutNode::Split { direction, ratio: own, first, second } => if path.len() == 0 {
                LayoutNode::Split { direction, ratio, first, second }
            } else if path[0] {
                LayoutNode::Split {
                    direction,
                    ratio: own,
                    first,
                    second: Box::new(second.with_ratio_at(path.skip(1), ratio)),
                }
            } else {
                LayoutNode::Split {
                    direction,
                    ratio: own,
                    first: Box::new(first.with_ratio_at(path.skip(1), ratio)),
                    second,
                }
            },
            _ => self,
        }
    }

    /// The tree with the panes `a` and `b` in each other's place.
    pub open spec fn swapped(self, a: PaneState, b: PaneState) -> LayoutNode
        decreases self,
    {
        match self {
            LayoutNode::Leaf(p) => if p.id == a.id {
                LayoutNode::Leaf(b)
            } else if p.id == b.id {
                LayoutNode::Leaf(a)
            } else {
                self
            },
            LayoutNode::Split { direction, ratio, first, second } => LayoutNode::Split {
                direction,
                ratio,
                first: Box::new(first.swapped(a, b)),
                second: Box::new(second.swapped(a, b)),
            },
            LayoutNode::Empty => self,
        }
    }

    /// The tree with every split in the middle.
    pub open spec fn balanced(self) -> LayoutNode
        decreases self,
    {
        match self {
            LayoutNode::Split { direction, first, second, .. } => LayoutNode::Split {
                direction,
                ratio: Ratio { bits: HALF_BITS },
                first: Box::new(first.balanced()),
                second: Box::new(second.balanced()),
            },
            _ => self,
        }
    }

    /// A split in the middle, of `old` and `new`.
    pub open spec fn split_of(
        old: PaneState,
        direction: SplitDirection,
        new: PaneState,
    ) -> LayoutNode {
        LayoutNode::Split {
            direction,
            ratio: Ratio { bits: HALF_BITS },
            first: Box::new(LayoutNode::Leaf(old)),
            second: Box::new(LayoutNode::Leaf(new)),
        }
    }

    /// The tree without the first pane of this id; its neighbour in the split
    /// takes the whole area of the split.
    pub open spec fn without(self, id: PaneId) -> LayoutNode
        decreases self,
    {
        match self {
            LayoutNode::Leaf(p) => if p.id == id {
                LayoutNode::Empty
            } else {
                self
            },
            LayoutNode::Split { direction, ratio, first, second } => if first.has(id) {
                if *first is Leaf {
                    *second
                } else {
                    LayoutNode::Split {
                        direction,
                        ratio,
                        first: Box::new(first.without(id)),
                        second,
                    }
                }
            } else if second.has(id) {
                if *second is Leaf {
                    *first
                } else {
                    LayoutNode::Split {
                        direction,
                        ratio,
                        first,
                        second: Box::new(second.without(id)),
                    }
                }
            } else {
                self
            },
            LayoutNode::Empty => self,
        }
    }

    /// The pane before or behind `id`, around the ends.
    pub fn adjacent_pane(&self, id: PaneId, direction: FocusDirection) -> (r: Option<PaneId>)
        ensures
            r == neighbour(self.ids(), id, direction),
    {
        let ids = self.pane_ids();
        let n: usize = ids.len();
        let mut i: usize = 0;
        while i < n && ids[i] != id
            invariant
                n == ids@.len(),
                i <= n,
                ids@ == self.ids(),
                position(ids@, id, 0) == position(ids@, id, i as int),
            decreases n - i,
        {
            i += 1;
        }
        if n <= 1 || i >= n {
            return None;
        }
        match direction {
            FocusDirection::Next => if i + 1 < n {
                Some(ids[i + 1])
            } else {
                Some(ids[0])
            },
            FocusDirection::Prev => if i > 0 {
                Some(ids[i - 1])
            } else {
                Some(ids[n - 1])
            },
        }
    }

    fn put_swapped(&mut self, a: &PaneState, b: &PaneState)
        ensures
            *final(self) == old(self).swapped(*a, *b),
        decreases *old(self),
    {
        match self {
            LayoutNode::Leaf(p) => {
                if p.id == a.id {
                    *p = b.copy();
                } else if p.id == b.id {
                    *p = a.copy();
                }
            },
            LayoutNode::Split { first, second, .. } => {
                first.put_swapped(a, b);
                second.put_swapped(a, b);
            },
            LayoutNode::Empty => {},
        }
    }

    /// Swaps two panes; says whether the tree holds both.
    pub fn swap_pane(&mut self, a: PaneId, b: PaneId) -> (r: bool)
        ensures
            r == (old(self).has(a) && old(self).has(b)),
            *final(self) == if r {
                old(self).swapped(old(self).pane(a)->0, old(self).pane(b)->0)
            } else {
                *old(self)
            },
    {
        let pa = match self.find_pane(a) {
            Some(p) => p.copy(),
            None => {
                return false;
            },
        };
        let pb = match self.find_pane(b) {
            Some(p) => p.copy(),
            None => {
                return false;
            },
        };
        self.put_swapped(&pa, &pb);
        true
    }

    fn set_ratio_from(&mut self, path: &Vec<bool>, from: usize, ratio: Ratio)
        requires
            from <= path@.len(),
        ensures
            *final(self) == old(self).with_ratio_at(path@.skip(from as int), ratio),
        decreases *old(self),
    {
        match self {
            LayoutNode::Split { ratio: own, first, second, .. } => {
                if from == path.len() {
                    *own = ratio;
                } else if path[from] {
                    assert(path@.skip(from as int).skip(1) =~= path@.skip(from + 1));
                    second.set_ratio_from(path, from + 1, ratio);
                } else {
                    assert(path@.skip(from as int).skip(1) =~= path@.skip(from + 1));
                    first.set_ratio_from(path, from + 1, ratio);
                }
            },
            _ => {},
        }
    }

    /// Sets the ratio of the split that `path` leads to.
    pub fn set_ratio_at_path(&mut self, path: &Vec<bool>, ratio: Ratio)
        ensures
            *final(self) == old(self).with_ratio_at(path@, ratio),
    {
        assert(path@.skip(0) =~= path@);
        self.set_ratio_from(path, 0, ratio);
    }

    /// The first pane, in the order of the tree, that `inside` holds of.
    pub fn find_pane_at<F>(&self, inside: F) -> (r: Option<PaneId>) where F: Fn(PaneId) -> bool
        requires
            forall|p: PaneId| call_requires(inside, (p,)),
        ensures
            match r {
                Some(id) => exists|k: int|
                    {
                        &&& 0 <= k < self.ids().len()
                        &&& #[trigger] self.ids()[k] == id
                        &&& call_ensures(inside, (id,), true)
                        &&& forall|j: int|
                            0 <= j < k ==> call_ensures(
                                inside,
                                (#[trigger] self.ids()[j],),
                                false,
                            )
                    },
                None => forall|j: int|
                    0 <= j < self.ids().len() ==> call_ensures(
                        inside,
                        (#[trigger] self.ids()[j],),
                        false,
                    ),
            },
    {
        let ids = self.pane_ids();
        let mut i: usize = 0;
        while i < ids.len()
            invariant
                ids@ == self.ids(),
                i <= ids@.len(),
                forall|p: PaneId| call_requires(inside, (p,)),
                forall|j: int|
                    0 <= j < i ==> call_ensures(inside, (#[trigger] self.ids()[j],), false),
            decreases ids@.len() - i,
        {
            let id: PaneId = ids[i];
            let hit = inside(id);
            if hit {
                assert(self.ids()[i as int] == id);
                return Some(id);
            }
            i += 1;
        }
        None
    }

    /// Sets every split to the middle.
    pub fn reset_all_ratios(&mut self)
        ensures
            *final(self) == old(self).balanced(),
        decreases *old(self),
    {
        match self {
            LayoutNode::Split { ratio, first, second, .. } => {
                *ratio = Ratio { bits: HALF_BITS };
                first.reset_all_ratios();
                second.reset_all_ratios();
            },
            _ => {},
        }
    }

    /// Takes the first pane with this id out of the tree, and its place with
    /// it; says whether there was one.
    pub fn remove_pane(&mut self, id: PaneId) -> (r: bool)
        ensures
            r == old(self).has(id),
            *final(self) == old(self).without(id),
        decreases *old(self),
    {
        if !self.contains(id) {
            return false;
        }
        let mut node = LayoutNode::Empty;
        core::mem::swap(self, &mut node);
        match node {
            LayoutNode::Split { direction, ratio, first, second } => {
                let mut first = first;
                let mut second = second;
                if first.contains(id) {
                    if matches!(*first, LayoutNode::Leaf(_)) {
                        *self = *second;
                        return true;
                    }
                    first.remove_pane(id);
                } else {
                    if matches!(*second, LayoutNode::Leaf(_)) {
                        *self = *first;
                        return true;
                    }
                    second.remove_pane(id);
                }
                *self = LayoutNode::Split { direction, ratio, first, second };
            },
            _ => {},
        }
        true
    }

    /// Splits the first pane with this id: it keeps the first half, `pane` has
    /// the second. Says whether there was such a pane.
    pub fn split_pane(&mut self, id: PaneId, direction: SplitDirection, pane: PaneState) -> (r:
        bool)
        ensures
            r == old(self).has(id),
            *final(self) == if r {
                old(self).replaced(
                    id,
                    LayoutNode::split_of(old(self).pane(id)->0, direction, pane),
                )
            } else {
                *old(self)
            },
        decreases *old(self),
    {
        if !self.contains(id) {
            return false;
        }
        match self {
            LayoutNode::Split { first, second, .. } => {
                if first.contains(id) {
                    return first.split_pane(id, direction, pane);
                } else {
                    return second.split_pane(id, direction, pane);
                }
            },
            _ => {},
        }
        let mut old_leaf = LayoutNode::Empty;
        core::mem::swap(self, &mut old_leaf);
        *self =
        LayoutNode::Split {
            direction,
            ratio: Ratio { bits: HALF_BITS },
            first: Box::new(old_leaf),
            second: Box::new(LayoutNode::Leaf(pane)),
        };
        true
    }
}

/// Setting a ratio moves no pane.
pub proof fn law_ratio_keeps_panes(t: LayoutNode, path: Seq<bool>, ratio: Ratio)
    ensures
        t.with_ratio_at(path, ratio).panes() == t.panes(),
    decreases t,
{
    if let LayoutNode::Split { first, second, .. } = t {
        if path.len() > 0 {
            law_ratio_keeps_panes(*first, path.skip(1), ratio);
            law_ratio_keeps_panes(*second, path.skip(1), ratio);
        }
    }
}

/// Of two ratios set at the same split, the later one stays.
pub proof fn law_last_ratio_stays(t: LayoutNode, path: Seq<bool>, a: Ratio, b: Ratio)
    ensures
        t.with_ratio_at(path, a).with_ratio_at(path, b) == t.with_ratio_at(path, b),
    decreases t,
{
    if let LayoutNode::Split { first, second, .. } = t {
        if path.len() > 0 {
            law_last_ratio_stays(*first, path.skip(1), a, b);
            law_last_ratio_stays(*second, path.skip(1), a, b);
        }
    }
}

/// Swapping two panes twice changes nothing, in a tree where no other pane has
/// either id.
pub proof fn law_swap_twice(t: LayoutNode, a: PaneState, b: PaneState)
    requires
        a.id != b.id,
        forall|i: int|
            0 <= i < t.panes().len() ==> {
                &&& (#[trigger] t.panes()[i]).id == a.id ==> t.panes()[i] == a
                &&& t.panes()[i].id == b.id ==> t.panes()[i] == b
            },
    ensures
        t.swapped(a, b).swapped(a, b) == t,
    decreases t,
{
    match t {
        LayoutNode::Leaf(p) => {
            assert(t.panes()[0] == p);
        },
        LayoutNode::Split { first, second, .. } => {
            let all = t.panes();
            assert forall|i: int| 0 <= i < first.panes().len() implies {
                &&& (#[trigger] first.panes()[i]).id == a.id ==> first.panes()[i] == a
                &&& first.panes()[i].id == b.id ==> first.panes()[i] == b
            } by {
                assert(all[i] == first.panes()[i]);
            }
            assert forall|i: int| 0 <= i < second.panes().len() implies {
                &&& (#[trigger] second.panes()[i]).id == a.id ==> second.panes()[i] == a
                &&& second.panes()[i].id == b.id ==> second.panes()[i] == b
            } by {
                assert(all[first.panes().len() + i] == second.panes()[i]);
            }
            law_swap_twice(*first, a, b);
            law_swap_twice(*second, a, b);
        },
        LayoutNode::Empty => {},
    }
}

/// A swap moves panes and loses none: both are still there, and every other
/// pane is where it was.
pub proof fn law_swap_keeps_panes(t: LayoutNode, a: PaneState, b: PaneState)
    ensures
        t.swapped(a, b).panes().len() == t.panes().len(),
        forall|i: int|
            0 <= i < t.panes().len() ==> #[trigger] t.swapped(a, b).panes()[i] == (
            if t.panes()[i].id == a.id {
                b
            } else if t.panes()[i].id == b.id {
                a
            } else {
                t.panes()[i]
            }),
    decreases t,
{
    match t {
        LayoutNode::Split { first, second, .. } => {
            law_swap_keeps_panes(*first, a, b);
            law_swap_keeps_panes(*second, a, b);
            assert forall|i: int| 0 <= i < t.panes().len() implies #[trigger] t.swapped(
                a,
                b,
            ).panes()[i] == (if t.panes()[i].id == a.id {
                b
            } else if t.panes()[i].id == b.id {
                a
            } else {
                t.panes()[i]
            }) by {
                if i < first.panes().len() {
                    assert(t.panes()[i] == first.panes()[i]);
                    assert(t.swapped(a, b).panes()[i] == first.swapped(a, b).panes()[i]);
                } else {
                    let k = i - first.panes().len();
                    assert(t.panes()[i] == second.panes()[k]);
                    assert(t.swapped(a, b).panes()[i] == second.swapped(a, b).panes()[k]);
                }
            }
        },
        _ => {},
    }
}

/// A split adds one pane, right behind the one that was split.
pub proof fn law_split_adds_one(
    t: LayoutNode,
    id: PaneId,
    direction: SplitDirection,
    pane: PaneState,
)
    requires
        t.has(id),
    ensures
        ({
            let after = t.replaced(
                id,
                LayoutNode::split_of(t.pane(id)->0, direction, pane),
            ).panes();
            &&& after.len() == t.panes().len() + 1
            &&& exists|k: int|
                0 <= k < t.panes().len() && t.panes()[k] == t.pane(id)->0 && after
                    == #[trigger] t.panes().insert(k + 1, pane)
        }),
    decreases t,
{
    let node = LayoutNode::split_of(t.pane(id)->0, direction, pane);
    let after = t.replaced(id, node).panes();
    match t {
        LayoutNode::Leaf(p) => {
            assert(after =~= t.panes().insert(0int + 1, pane)) by {
                reveal_with_fuel(LayoutNode::panes, 3);
            }
        },
        LayoutNode::Split { first, second, .. } => {
            if first.has(id) {
                law_split_adds_one(*first, id, direction, pane);
                let k = choose|k: int|
                    0 <= k < first.panes().len() && first.panes()[k] == first.pane(id)->0
                        && first.replaced(id, node).panes() == #[trigger] first.panes().insert(
                        k + 1,
                        pane,
                    );
                assert(after =~= t.panes().insert(k + 1, pane));
                assert(t.panes()[k] == first.panes()[k]);
            } else {
                law_split_adds_one(*second, id, direction, pane);
                let k = choose|k: int|
                    0 <= k < second.panes().len() && second.panes()[k] == second.pane(id)->0
                        && second.replaced(id, node).panes() == #[trigger] second.panes().insert(
                        k + 1,
                        pane,
                    );
                let j = first.panes().len() + k;
                assert(after =~= t.panes().insert(j + 1, pane));
                assert(t.panes()[j] == second.panes()[k]);
            }
        },
        LayoutNode::Empty => {},
    }
}

/// Taking the new pane of a split out again gives the tree from before.
pub proof fn law_split_then_remove(
    t: LayoutNode,
    id: PaneId,
    direction: SplitDirection,
    pane: PaneState,
)
    requires
        t.has(id),
        !t.has(pane.id),
    ensures
        t.replaced(id, LayoutNode::split_of(t.pane(id)->0, direction, pane)).has(pane.id),
        t.replaced(id, LayoutNode::split_of(t.pane(id)->0, direction, pane)).without(pane.id) == t,
        !(t.replaced(id, LayoutNode::split_of(t.pane(id)->0, direction, pane)) is Leaf),
    decreases t,
{
    reveal_with_fuel(LayoutNode::has, 3);
    reveal_with_fuel(LayoutNode::without, 3);
    match t {
        LayoutNode::Split { first, second, .. } => {
            if first.has(id) {
                law_split_then_remove(*first, id, direction, pane);
            } else {
                law_split_then_remove(*second, id, direction, pane);
            }
        },
        _ => {},
    }
}

proof fn lemma_position(ids: Seq<PaneId>, id: PaneId, from: int, at: int)
    requires
        0 <= from <= at < ids.len(),
        ids[at] == id,
        forall|k: int| from <= k < at ==> ids[k] != id,
    ensures
        position(ids, id, from) == at,
    decreases at - from,
{
    if from < at {
        lemma_position(ids, id, from + 1, at);
    }
}

/// Going to the next pane and back to the previous one ends where it began,
/// where every pane has an id of its own.
pub proof fn law_next_then_previous(ids: Seq<PaneId>, id: PaneId)
    requires
        ids.contains(id),
        ids.len() > 1,
        forall|i: int, j: int| 0 <= i < j < ids.len() ==> ids[i] != ids[j],
    ensures
        neighbour(ids, id, FocusDirection::Next) is Some,
        neighbour(ids, neighbour(ids, id, FocusDirection::Next)->0, FocusDirection::Prev) == Some(
            id,
        ),
{
    let i = choose|i: int| 0 <= i < ids.len() && ids[i] == id;
    lemma_position(ids, id, 0, i);
    let n = if i + 1 < ids.len() { i + 1 } else { 0 };
    lemma_position(ids, ids[n], 0, n);
}

} // verus!
