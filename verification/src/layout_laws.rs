//! What the operations on the tree of panes do at each place of it.
use crate::layout::{LayoutNode, PaneId, PaneState, Ratio, SplitDirection};
use crate::layout_ops;
use crate::layout_ops::FocusDirection;
use vstd::prelude::*;

verus! {

/// What stands at a place of a tree.
pub enum Spot {
    Split { direction: SplitDirection, ratio: Ratio },
    Pane(PaneState),
    Empty,
    /// The tree does not reach there.
    Outside,
}

/// What stands at the place that `path` leads to: at each split to its first half
/// or, where it is true, to its second.
pub open spec fn spot(t: LayoutNode, path: Seq<bool>) -> Spot
    decreases path.len(),
{
    if path.len() == 0 {
        match t {
            LayoutNode::Leaf(p) => Spot::Pane(p),
            LayoutNode::Split { direction, ratio, .. } => Spot::Split { direction, ratio },
            LayoutNode::Empty => Spot::Empty,
        }
    } else {
        match t {
            LayoutNode::Split { first, second, .. } => if path[0] {
                spot(*second, path.skip(1))
            } else {
                spot(*first, path.skip(1))
            },
            _ => Spot::Outside,
        }
    }
}

/// The share of one half, as the bits of a float.
pub open spec fn half() -> Ratio {
    Ratio { bits: 0x3f00_0000 }
}

/// A swap keeps the shape of the tree: every split stays where it is, with its
/// direction and its ratio, and so does every empty place. Only the two panes are in
/// each other's place.
pub proof fn law_swap_keeps_shape(t: LayoutNode, a: PaneState, b: PaneState, path: Seq<bool>)
    ensures
        spot(t.swapped(a, b), path) == match spot(t, path) {
            Spot::Pane(p) => Spot::Pane(
                if p.id == a.id {
                    b
                } else if p.id == b.id {
                    a
                } else {
                    p
                },
            ),
            other => other,
        },
    decreases path.len(),
{
    if path.len() > 0 {
        if let LayoutNode::Split { first, second, .. } = t {
            law_swap_keeps_shape(*first, a, b, path.skip(1));
            law_swap_keeps_shape(*second, a, b, path.skip(1));
        }
    }
}

/// Resetting the ratios puts every split in the middle, in its direction, and leaves
/// everything else where it is.
pub proof fn law_reset_only_sets_ratios(t: LayoutNode, path: Seq<bool>)
    ensures
        spot(t.balanced(), path) == match spot(t, path) {
            Spot::Split { direction, .. } => Spot::Split { direction, ratio: half() },
            other => other,
        },
    decreases path.len(),
{
    if path.len() > 0 {
        if let LayoutNode::Split { first, second, .. } = t {
            law_reset_only_sets_ratios(*first, path.skip(1));
            law_reset_only_sets_ratios(*second, path.skip(1));
        }
    }
}

/// Setting a ratio sets that of the split at the given place and of no other.
pub proof fn law_ratio_is_set_there(t: LayoutNode, at: Seq<bool>, ratio: Ratio, path: Seq<bool>)
    ensures
        spot(t.with_ratio_at(at, ratio), path) == match spot(t, path) {
            Spot::Split { direction, ratio: own } => Spot::Split {
                direction,
                ratio: if path == at {
                    ratio
                } else {
                    own
                },
            },
            other => other,
        },
    decreases path.len() + at.len(),
{
    if let LayoutNode::Split { first, second, .. } = t {
        if at.len() == 0 && path.len() == 0 {
            assert(path =~= at);
        }
        if at.len() > 0 && path.len() > 0 {
            law_ratio_is_set_there(*first, at.skip(1), ratio, path.skip(1));
            law_ratio_is_set_there(*second, at.skip(1), ratio, path.skip(1));
            if path[0] == at[0] && path.skip(1) == at.skip(1) {
                assert(path =~= seq![path[0]] + path.skip(1));
                assert(at =~= seq![at[0]] + at.skip(1));
            }
        }
    }
}

/// A tree has a pane exactly if the pane stands at some place of it.
pub proof fn law_panes_stand_somewhere(t: LayoutNode, id: PaneId)
    ensures
        t.has(id) <==> exists|path: Seq<bool>|
            (#[trigger] spot(t, path)) is Pane && spot(t, path)->Pane_0.id == id,
    decreases t,
{
    match t {
        LayoutNode::Leaf(p) => {
            assert(spot(t, Seq::empty()) == Spot::Pane(p));
        },
        LayoutNode::Split { first, second, .. } => {
            law_panes_stand_somewhere(*first, id);
            law_panes_stand_somewhere(*second, id);
            assert forall|path: Seq<bool>|
                (#[trigger] spot(t, path)) is Pane && spot(t, path)->Pane_0.id
                    == id implies t.has(id) by {
                assert(path.len() > 0);
                assert(spot(t, path) == if path[0] {
                    spot(*second, path.skip(1))
                } else {
                    spot(*first, path.skip(1))
                });
            }
            if first.has(id) {
                let q = choose|path: Seq<bool>|
                    (#[trigger] spot(*first, path)) is Pane && spot(*first, path)->Pane_0.id == id;
                let path = seq![false] + q;
                assert(path.skip(1) =~= q);
                assert(spot(t, path) == spot(*first, q));
            }
            if second.has(id) {
                let q = choose|path: Seq<bool>|
                    (#[trigger] spot(*second, path)) is Pane && spot(*second, path)->Pane_0.id
                        == id;
                let path = seq![true] + q;
                assert(path.skip(1) =~= q);
                assert(spot(t, path) == spot(*second, q));
            }
        },
        LayoutNode::Empty => {},
    }
}

/// The panes of a split are those of its first half and then those of its second; a
/// pane alone is the only one.
pub proof fn law_panes_in_order(
    direction: SplitDirection,
    ratio: Ratio,
    first: LayoutNode,
    second: LayoutNode,
    pane: PaneState,
)
    ensures
        ({
            let t = LayoutNode::Split {
                direction,
                ratio,
                first: Box::new(first),
                second: Box::new(second),
            };
            &&& t.panes().len() == first.panes().len() + second.panes().len()
            &&& t.panes().take(first.panes().len() as int) == first.panes()
            &&& t.panes().skip(first.panes().len() as int) == second.panes()
        }),
        LayoutNode::Leaf(pane).panes() == seq![pane],
        LayoutNode::Empty.panes().len() == 0,
{
    let t = LayoutNode::Split {
        direction,
        ratio,
        first: Box::new(first),
        second: Box::new(second),
    };
    assert(t.panes().take(first.panes().len() as int) =~= first.panes());
    assert(t.panes().skip(first.panes().len() as int) =~= second.panes());
}

/// The ids are those of the panes, in their order.
pub proof fn law_ids_in_order(t: LayoutNode, k: int)
    requires
        0 <= k < t.panes().len(),
    ensures
        t.ids().len() == t.panes().len(),
        t.ids()[k] == t.panes()[k].id,
{
}

/// A pane is found as the first of the tree that has the id, and none is found
/// exactly where no pane has it.
pub proof fn law_first_pane_is_found(t: LayoutNode, id: PaneId)
    ensures
        t.pane(id) is None <==> forall|k: int|
            0 <= k < t.panes().len() ==> (#[trigger] t.panes()[k]).id != id,
        t.pane(id) is Some ==> exists|k: int|
            {
                &&& 0 <= k < t.panes().len()
                &&& #[trigger] t.panes()[k] == t.pane(id)->0
                &&& t.panes()[k].id == id
                &&& forall|j: int| 0 <= j < k ==> (#[trigger] t.panes()[j]).id != id
            },
    decreases t,
{
    match t {
        LayoutNode::Leaf(p) => {
            assert(t.panes()[0] == p);
        },
        LayoutNode::Split { first, second, .. } => {
            law_first_pane_is_found(*first, id);
            law_first_pane_is_found(*second, id);
            crate::layout::lemma_has_pane(*first, id);
            crate::layout::lemma_has_pane(*second, id);
            let (a, b) = (first.panes(), second.panes());
            let all = t.panes();
            assert forall|j: int| 0 <= j < a.len() implies #[trigger] all[j] == a[j] by {}
            assert forall|j: int| 0 <= j < b.len() implies all[a.len() + j] == #[trigger] b[j] by {}
            if first.pane(id) is Some {
                let k = choose|k: int|
                    {
                        &&& 0 <= k < a.len()
                        &&& #[trigger] a[k] == first.pane(id)->0
                        &&& a[k].id == id
                        &&& forall|j: int| 0 <= j < k ==> (#[trigger] a[j]).id != id
                    };
                assert(all[k] == t.pane(id)->0);
            } else if second.pane(id) is Some {
                let k = choose|k: int|
                    {
                        &&& 0 <= k < b.len()
                        &&& #[trigger] b[k] == second.pane(id)->0
                        &&& b[k].id == id
                        &&& forall|j: int| 0 <= j < k ==> (#[trigger] b[j]).id != id
                    };
                let n = a.len() + k;
                assert forall|j: int| 0 <= j < n implies (#[trigger] all[j]).id != id by {
                    if j >= a.len() {
                        assert(all[j] == b[j - a.len()]);
                    }
                }
                assert(all[n] == t.pane(id)->0);
            } else {
                assert forall|j: int| 0 <= j < all.len() implies (#[trigger] all[j]).id != id by {
                    if j >= a.len() {
                        assert(all[j] == b[j - a.len()]);
                    }
                }
            }
        },
        LayoutNode::Empty => {},
    }
}

/// Whether `p` leads to an earlier place than `q`: where they part, `p` goes to the
/// first half.
pub open spec fn earlier(p: Seq<bool>, q: Seq<bool>) -> bool {
    exists|i: int|
        #![trigger p[i]]
        0 <= i < p.len() && i < q.len() && !p[i] && q[i] && p.take(i) == q.take(i)
}

proof fn lemma_earlier_below(p: Seq<bool>, q: Seq<bool>, b: bool)
    requires
        earlier(p, q),
    ensures
        earlier(seq![b] + p, seq![b] + q),
{
    let i = choose|i: int|
        #![trigger p[i]]
        0 <= i < p.len() && i < q.len() && !p[i] && q[i] && p.take(i) == q.take(i);
    let (pp, qq) = (seq![b] + p, seq![b] + q);
    assert(pp.take(i + 1) =~= seq![b] + p.take(i));
    assert(qq.take(i + 1) =~= seq![b] + q.take(i));
    assert(!pp[i + 1] && qq[i + 1]);
}

proof fn lemma_earlier_half(p: Seq<bool>, q: Seq<bool>)
    ensures
        earlier(seq![false] + p, seq![true] + q),
{
    let (pp, qq) = (seq![false] + p, seq![true] + q);
    assert(pp.take(0) =~= qq.take(0));
    assert(!pp[0] && qq[0]);
}

/// Whether `id` stands at `at`, and at no earlier place.
pub open spec fn first_place(t: LayoutNode, id: PaneId, at: Seq<bool>) -> bool {
    &&& spot(t, at) matches Spot::Pane(p) && p.id == id
    &&& forall|q: Seq<bool>|
        (#[trigger] spot(t, q)) is Pane && spot(t, q)->Pane_0.id == id && q != at ==> earlier(
            at,
            q,
        )
}

/// What stands at a place once the subtree `node` was put to `at`.
pub open spec fn put_at(t: LayoutNode, at: Seq<bool>, node: LayoutNode, path: Seq<bool>) -> Spot {
    if at.is_prefix_of(path) {
        spot(node, path.skip(at.len() as int))
    } else {
        spot(t, path)
    }
}

proof fn lemma_put_below(
    direction: SplitDirection,
    ratio: Ratio,
    first: LayoutNode,
    second: LayoutNode,
    at: Seq<bool>,
    node: LayoutNode,
    b: bool,
    path: Seq<bool>,
)
    ensures
        ({
            let t = LayoutNode::Split {
                direction,
                ratio,
                first: Box::new(first),
                second: Box::new(second),
            };
            put_at(t, seq![b] + at, node, path) == if path.len() > 0 && path[0] == b {
                put_at(
                    if b {
                        second
                    } else {
                        first
                    },
                    at,
                    node,
                    path.skip(1),
                )
            } else {
                spot(t, path)
            }
        }),
{
    let whole = seq![b] + at;
    if path.len() > 0 && path[0] == b {
        let rest = path.skip(1);
        if at.is_prefix_of(rest) {
            assert(whole =~= path.take(whole.len() as int)) by {
                assert(at =~= rest.take(at.len() as int));
            }
            assert(path.skip(whole.len() as int) =~= rest.skip(at.len() as int));
        }
        if whole.is_prefix_of(path) {
            assert(at =~= rest.take(at.len() as int)) by {
                assert(whole =~= path.take(whole.len() as int));
                assert forall|i: int| 0 <= i < at.len() implies at[i] == rest[i] by {
                    assert(whole[i + 1] == path.take(whole.len() as int)[i + 1]);
                }
            }
        }
    } else {
        if whole.is_prefix_of(path) {
            assert(whole[0] == path[0]);
        }
    }
}

/// Replacing a pane puts the new subtree where the first pane of the id stood, and
/// leaves every other place as it was.
pub proof fn law_replaced_in_place(t: LayoutNode, id: PaneId, node: LayoutNode)
    requires
        t.has(id),
    ensures
        exists|at: Seq<bool>|
            {
                &&& #[trigger] first_place(t, id, at)
                &&& forall|path: Seq<bool>| #[trigger]
                    spot(t.replaced(id, node), path) == put_at(t, at, node, path)
            },
    decreases t,
{
    let after = t.replaced(id, node);
    match t {
        LayoutNode::Leaf(p) => {
            let at = Seq::<bool>::empty();
            assert forall|q: Seq<bool>|
                (#[trigger] spot(t, q)) is Pane && spot(t, q)->Pane_0.id == id && q
                    != at implies earlier(at, q) by {
                assert(q.len() == 0);
                assert(q =~= at);
            }
            assert forall|path: Seq<bool>| #[trigger] spot(after, path) == put_at(
                t,
                at,
                node,
                path,
            ) by {
                assert(at =~= path.take(0));
                assert(path.skip(0) =~= path);
            }
            assert(first_place(t, id, at));
        },
        LayoutNode::Split { direction, ratio, first, second } => {
            let b = !first.has(id);
            let half = if b {
                *second
            } else {
                *first
            };
            law_replaced_in_place(half, id, node);
            let at = choose|at: Seq<bool>|
                {
                    &&& #[trigger] first_place(half, id, at)
                    &&& forall|path: Seq<bool>| #[trigger]
                        spot(half.replaced(id, node), path) == put_at(half, at, node, path)
                };
            let whole = seq![b] + at;
            assert(whole.skip(1) =~= at);
            assert(spot(t, whole) == spot(half, at));
            assert forall|q: Seq<bool>|
                (#[trigger] spot(t, q)) is Pane && spot(t, q)->Pane_0.id == id && q
                    != whole implies earlier(whole, q) by {
                let rest = q.skip(1);
                assert(q =~= seq![q[0]] + rest);
                law_panes_stand_somewhere(*first, id);
                if q[0] == b {
                    assert(spot(half, rest) == spot(t, q));
                    assert(rest != at);
                    lemma_earlier_below(at, rest, b);
                } else if b {
                    assert(spot(*first, rest) == spot(t, q));
                } else {
                    lemma_earlier_half(at, rest);
                }
            }
            assert forall|path: Seq<bool>| #[trigger] spot(after, path) == put_at(
                t,
                whole,
                node,
                path,
            ) by {
                lemma_put_below(direction, ratio, *first, *second, at, node, b, path);
                if path.len() > 0 && path[0] == b {
                    assert(spot(half.replaced(id, node), path.skip(1)) == put_at(
                        half,
                        at,
                        node,
                        path.skip(1),
                    ));
                }
            }
            assert(first_place(t, id, whole));
        },
        LayoutNode::Empty => {},
    }
}

/// A split puts, where the pane stood, a split in the given direction and in the
/// middle, with the old pane in its first half and the new one in its second. Every
/// other place stays as it was.
pub proof fn law_split_in_place(
    t: LayoutNode,
    id: PaneId,
    direction: SplitDirection,
    pane: PaneState,
)
    requires
        t.has(id),
    ensures
        ({
            let after = t.replaced(id, LayoutNode::split_of(t.pane(id)->0, direction, pane));
            exists|at: Seq<bool>|
                {
                    &&& #[trigger] first_place(t, id, at)
                    &&& spot(after, at) == Spot::Split { direction, ratio: half() }
                    &&& spot(after, at.push(false)) == spot(t, at)
                    &&& spot(after, at.push(true)) == Spot::Pane(pane)
                    &&& forall|path: Seq<bool>|
                        !at.is_prefix_of(path) ==> #[trigger] spot(after, path) == spot(t, path)
                }
        }),
{
    let node = LayoutNode::split_of(t.pane(id)->0, direction, pane);
    let after = t.replaced(id, node);
    law_replaced_in_place(t, id, node);
    let at = choose|at: Seq<bool>|
        {
            &&& #[trigger] first_place(t, id, at)
            &&& forall|path: Seq<bool>| #[trigger]
                spot(t.replaced(id, node), path) == put_at(t, at, node, path)
        };
    lemma_first_place_is_the_pane(t, id, at);
    let n = at.len() as int;
    assert(at =~= at.take(n));
    assert(at.skip(n) =~= Seq::<bool>::empty());
    let (l, r) = (at.push(false), at.push(true));
    assert(l.take(n) =~= at);
    assert(r.take(n) =~= at);
    assert(l.skip(n) =~= seq![false]);
    assert(r.skip(n) =~= seq![true]);
    assert(seq![false].skip(1) =~= Seq::<bool>::empty());
    assert(seq![true].skip(1) =~= Seq::<bool>::empty());
    reveal_with_fuel(spot, 2);
    assert(spot(after, at) == put_at(t, at, node, at));
    assert(spot(after, l) == put_at(t, at, node, l));
    assert(spot(after, r) == put_at(t, at, node, r));
    assert(spot(node, seq![false]) == Spot::Pane(t.pane(id)->0));
    assert(spot(node, seq![true]) == Spot::Pane(pane));
}

/// The pane that is found by its id is the one at the first place.
pub proof fn lemma_first_place_is_the_pane(t: LayoutNode, id: PaneId, at: Seq<bool>)
    requires
        first_place(t, id, at),
    ensures
        spot(t, at) == Spot::Pane(t.pane(id)->0),
    decreases t,
{
    law_panes_stand_somewhere(t, id);
    match t {
        LayoutNode::Leaf(p) => {},
        LayoutNode::Split { first, second, .. } => {
            law_panes_stand_somewhere(*first, id);
            let b = !first.has(id);
            let half = if b {
                *second
            } else {
                *first
            };
            let rest = at.skip(1);
            assert(at =~= seq![at[0]] + rest);
            if at[0] != b {
                if b {
                    assert(spot(*first, rest) == spot(t, at));
                } else {
                    let q = choose|path: Seq<bool>|
                        (#[trigger] spot(*first, path)) is Pane && spot(*first, path)->Pane_0.id
                            == id;
                    let whole = seq![false] + q;
                    assert(whole.skip(1) =~= q);
                    assert(spot(t, whole) == spot(*first, q));
                    assert(whole[0] != at[0]);
                    assert(earlier(at, whole));
                    let i = choose|i: int|
                        #![trigger at[i]]
                        0 <= i < at.len() && i < whole.len() && !at[i] && whole[i] && at.take(i)
                            == whole.take(i);
                    if i > 0 {
                        assert(at.take(i)[0] == whole.take(i)[0]);
                    }
                }
            } else {
                assert forall|q: Seq<bool>|
                    (#[trigger] spot(half, q)) is Pane && spot(half, q)->Pane_0.id == id && q
                        != rest implies earlier(rest, q) by {
                    let whole = seq![b] + q;
                    assert(whole.skip(1) =~= q);
                    assert(spot(t, whole) == spot(half, q));
                    assert(earlier(at, whole));
                    let i = choose|i: int|
                        #![trigger at[i]]
                        0 <= i < at.len() && i < whole.len() && !at[i] && whole[i] && at.take(i)
                            == whole.take(i);
                    if i == 0 {
                        assert(at[0] == whole[0]);
                    }
                    assert(rest.take(i - 1) =~= q.take(i - 1)) by {
                        assert forall|j: int| 0 <= j < i - 1 implies rest[j] == q[j] by {
                            assert(at.take(i)[j + 1] == whole.take(i)[j + 1]);
                        }
                    }
                    assert(!rest[i - 1] && q[i - 1]);
                }
                assert(first_place(half, id, rest));
                lemma_first_place_is_the_pane(half, id, rest);
            }
        },
        LayoutNode::Empty => {},
    }
}

/// Below a pane there is nothing.
pub proof fn lemma_below_a_pane(t: LayoutNode, at: Seq<bool>, rest: Seq<bool>)
    requires
        spot(t, at) is Pane,
        rest.len() > 0,
    ensures
        spot(t, at + rest) is Outside,
    decreases at.len(),
{
    if at.len() == 0 {
        assert(at + rest =~= rest);
    } else {
        assert((at + rest).skip(1) =~= at.skip(1) + rest);
        if let LayoutNode::Split { first, second, .. } = t {
            if at[0] {
                lemma_below_a_pane(*second, at.skip(1), rest);
            } else {
                lemma_below_a_pane(*first, at.skip(1), rest);
            }
        }
    }
}

/// Whether `at` is the first empty place.
pub open spec fn first_hole(t: LayoutNode, at: Seq<bool>) -> bool {
    &&& spot(t, at) is Empty
    &&& forall|q: Seq<bool>| (#[trigger] spot(t, q)) is Empty && q != at ==> earlier(at, q)
}

/// A tree has an empty place exactly if some path leads to one.
pub proof fn law_holes_are_somewhere(t: LayoutNode)
    ensures
        t.has_hole() <==> exists|path: Seq<bool>| (#[trigger] spot(t, path)) is Empty,
    decreases t,
{
    match t {
        LayoutNode::Split { first, second, .. } => {
            law_holes_are_somewhere(*first);
            law_holes_are_somewhere(*second);
            assert forall|path: Seq<bool>|
                (#[trigger] spot(t, path)) is Empty implies t.has_hole() by {
                assert(path.len() > 0);
                assert(if path[0] {
                    spot(*second, path.skip(1)) is Empty
                } else {
                    spot(*first, path.skip(1)) is Empty
                });
            }
            if first.has_hole() {
                let q = choose|path: Seq<bool>| (#[trigger] spot(*first, path)) is Empty;
                let path = seq![false] + q;
                assert(path.skip(1) =~= q);
                assert(spot(t, path) is Empty);
            }
            if second.has_hole() {
                let q = choose|path: Seq<bool>| (#[trigger] spot(*second, path)) is Empty;
                let path = seq![true] + q;
                assert(path.skip(1) =~= q);
                assert(spot(t, path) is Empty);
            }
        },
        LayoutNode::Leaf(_) => {},
        LayoutNode::Empty => {
            assert(spot(t, Seq::empty()) is Empty);
        },
    }
}

/// Filling a tree puts the pane into its first empty place and leaves every other
/// place as it was.
pub proof fn law_filled_in_place(t: LayoutNode, pane: PaneState)
    requires
        t.has_hole(),
    ensures
        exists|at: Seq<bool>|
            {
                &&& #[trigger] first_hole(t, at)
                &&& spot(t.filled(pane), at) == Spot::Pane(pane)
                &&& forall|path: Seq<bool>|
                    path != at ==> #[trigger] spot(t.filled(pane), path) == spot(t, path)
            },
    decreases t,
{
    let after = t.filled(pane);
    match t {
        LayoutNode::Split { first, second, .. } => {
            let b = !first.has_hole();
            let half = if b {
                *second
            } else {
                *first
            };
            law_filled_in_place(half, pane);
            law_holes_are_somewhere(*first);
            let at = choose|at: Seq<bool>|
                {
                    &&& #[trigger] first_hole(half, at)
                    &&& spot(half.filled(pane), at) == Spot::Pane(pane)
                    &&& forall|path: Seq<bool>|
                        path != at ==> #[trigger] spot(half.filled(pane), path) == spot(half, path)
                };
            let whole = seq![b] + at;
            assert(whole.skip(1) =~= at);
            assert(spot(t, whole) == spot(half, at));
            assert(spot(after, whole) == spot(half.filled(pane), at));
            assert forall|q: Seq<bool>| (#[trigger] spot(t, q)) is Empty && q
                != whole implies earlier(whole, q) by {
                let rest = q.skip(1);
                assert(q =~= seq![q[0]] + rest);
                if q[0] == b {
                    assert(spot(half, rest) == spot(t, q));
                    lemma_earlier_below(at, rest, b);
                } else if b {
                    assert(spot(*first, rest) == spot(t, q));
                } else {
                    lemma_earlier_half(at, rest);
                }
            }
            assert forall|path: Seq<bool>| path != whole implies #[trigger] spot(after, path)
                == spot(t, path) by {
                if path.len() > 0 && path[0] == b {
                    let rest = path.skip(1);
                    assert(path =~= seq![path[0]] + rest);
                    assert(rest != at);
                    assert(spot(half.filled(pane), rest) == spot(half, rest));
                }
            }
            assert(first_hole(t, whole));
        },
        LayoutNode::Leaf(_) => {},
        LayoutNode::Empty => {
            let at = Seq::<bool>::empty();
            assert forall|q: Seq<bool>| (#[trigger] spot(t, q)) is Empty && q != at implies earlier(
                at,
                q,
            ) by {
                assert(q =~= at);
            }
            assert forall|path: Seq<bool>| path != at implies #[trigger] spot(after, path) == spot(
                t,
                path,
            ) by {
                if path.len() == 0 {
                    assert(path =~= at);
                }
            }
            assert(first_hole(t, at));
        },
    }
}

/// Taking a pane out gives its whole split to the other half: what stood below that
/// half stands where the split was. Every place elsewhere stays as it was.
pub proof fn law_removed_in_place(t: LayoutNode, id: PaneId)
    requires
        t.has(id),
    ensures
        t is Leaf ==> t.without(id) is Empty,
        !(t is Leaf) ==> exists|up: Seq<bool>, b: bool|
            {
                &&& #[trigger] first_place(t, id, up.push(b))
                &&& forall|path: Seq<bool>| #[trigger]
                    spot(t.without(id), path) == if up.is_prefix_of(path) {
                        spot(t, up.push(!b) + path.skip(up.len() as int))
                    } else {
                        spot(t, path)
                    }
            },
    decreases t,
{
    if let LayoutNode::Split { first, second, .. } = t {
        let after = t.without(id);
        let side = !first.has(id);
        let half = if side {
            *second
        } else {
            *first
        };
        let other = if side {
            *first
        } else {
            *second
        };
        law_panes_stand_somewhere(*first, id);
        law_removed_in_place(half, id);
        if half is Leaf {
            let up = Seq::<bool>::empty();
            let at = up.push(side);
            assert(at =~= seq![side]);
            assert(at.skip(1) =~= Seq::<bool>::empty());
            assert(spot(t, at) == spot(half, Seq::empty()));
            assert forall|q: Seq<bool>|
                (#[trigger] spot(t, q)) is Pane && spot(t, q)->Pane_0.id == id && q
                    != at implies earlier(at, q) by {
                let rest = q.skip(1);
                assert(q =~= seq![q[0]] + rest);
                if q[0] == side {
                    assert(spot(half, rest) == spot(t, q));
                    assert(rest.len() == 0);
                    assert(q =~= at);
                } else if side {
                    assert(spot(*first, rest) == spot(t, q));
                } else {
                    lemma_earlier_half(Seq::empty(), rest);
                    assert(seq![false] + Seq::<bool>::empty() =~= at);
                }
            }
            assert forall|path: Seq<bool>| #[trigger] spot(after, path) == (if up.is_prefix_of(
                path,
            ) {
                spot(t, up.push(!side) + path.skip(up.len() as int))
            } else {
                spot(t, path)
            }) by {
                assert(up =~= path.take(0));
                let whole = up.push(!side) + path.skip(0);
                assert(whole.skip(1) =~= path);
                assert(spot(t, whole) == spot(other, path));
            }
            assert(first_place(t, id, up.push(side)));
        } else {
            let (up, b) = choose|up: Seq<bool>, b: bool|
                {
                    &&& #[trigger] first_place(half, id, up.push(b))
                    &&& forall|path: Seq<bool>| #[trigger]
                        spot(half.without(id), path) == if up.is_prefix_of(path) {
                            spot(half, up.push(!b) + path.skip(up.len() as int))
                        } else {
                            spot(half, path)
                        }
                };
            let at = up.push(b);
            let top = seq![side] + up;
            let whole = top.push(b);
            assert(whole =~= seq![side] + at);
            assert(whole.skip(1) =~= at);
            assert(spot(t, whole) == spot(half, at));
            assert forall|q: Seq<bool>|
                (#[trigger] spot(t, q)) is Pane && spot(t, q)->Pane_0.id == id && q
                    != whole implies earlier(whole, q) by {
                let rest = q.skip(1);
                assert(q =~= seq![q[0]] + rest);
                if q[0] == side {
                    assert(spot(half, rest) == spot(t, q));
                    lemma_earlier_below(at, rest, side);
                } else if side {
                    assert(spot(*first, rest) == spot(t, q));
                } else {
                    lemma_earlier_half(at, rest);
                }
            }
            assert forall|path: Seq<bool>| #[trigger] spot(after, path) == (if top.is_prefix_of(
                path,
            ) {
                spot(t, top.push(!b) + path.skip(top.len() as int))
            } else {
                spot(t, path)
            }) by {
                if path.len() > 0 && path[0] == side {
                    let rest = path.skip(1);
                    assert(path =~= seq![side] + rest);
                    assert(spot(after, path) == spot(half.without(id), rest));
                    if up.is_prefix_of(rest) {
                        assert(up =~= rest.take(up.len() as int));
                        assert(top =~= path.take(top.len() as int));
                        let deep = top.push(!b) + path.skip(top.len() as int);
                        assert(deep.skip(1) =~= up.push(!b) + rest.skip(up.len() as int));
                        assert(deep[0] == side);
                    }
                    if top.is_prefix_of(path) {
                        assert(top =~= path.take(top.len() as int));
                        assert(up =~= rest.take(up.len() as int)) by {
                            assert forall|i: int| 0 <= i < up.len() implies up[i] == rest[i] by {
                                assert(top[i + 1] == path.take(top.len() as int)[i + 1]);
                            }
                        }
                    }
                } else {
                    if top.is_prefix_of(path) {
                        assert(top[0] == path[0]);
                    }
                }
            }
            assert(first_place(t, id, top.push(b)));
        }
    }
}

/// Tidying up a split whose halves both hold panes keeps it, with its direction and
/// its ratio; a half without panes gives its place to the other. A tree without empty
/// places stays as it is.
pub proof fn law_tidy_keeps_splits(
    direction: SplitDirection,
    ratio: Ratio,
    first: LayoutNode,
    second: LayoutNode,
)
    ensures
        ({
            let t = LayoutNode::Split {
                direction,
                ratio,
                first: Box::new(first),
                second: Box::new(second),
            };
            &&& first.panes().len() > 0 && second.panes().len() > 0 ==> t.without_holes()
                == LayoutNode::Split {
                direction,
                ratio,
                first: Box::new(first.without_holes()),
                second: Box::new(second.without_holes()),
            }
            &&& first.panes().len() == 0 ==> t.without_holes() == second.without_holes()
            &&& second.panes().len() == 0 && first.panes().len() > 0 ==> t.without_holes()
                == first.without_holes()
            &&& !t.has_hole() ==> t.without_holes() == t
        }),
{
    let t = LayoutNode::Split {
        direction,
        ratio,
        first: Box::new(first),
        second: Box::new(second),
    };
    lemma_tidy(first);
    lemma_tidy(second);
    lemma_tidy(t);
}

proof fn lemma_tidy(t: LayoutNode)
    ensures
        t.without_holes() is Empty <==> t.panes().len() == 0,
        !t.has_hole() ==> t.without_holes() == t && t.panes().len() > 0,
    decreases t,
{
    if let LayoutNode::Split { first, second, .. } = t {
        lemma_tidy(*first);
        lemma_tidy(*second);
    }
}

/// The next pane stands one further, the previous one before, around the ends. A pane
/// alone has no neighbour.
pub proof fn law_neighbours(ids: Seq<PaneId>, i: int, direction: FocusDirection)
    requires
        0 <= i < ids.len(),
        forall|j: int, k: int| 0 <= j < k < ids.len() ==> ids[j] != ids[k],
    ensures
        ids.len() > 1 ==> layout_ops::neighbour(ids, ids[i], FocusDirection::Next) == Some(
            ids[(i + 1) % (ids.len() as int)],
        ),
        ids.len() > 1 ==> layout_ops::neighbour(ids, ids[i], FocusDirection::Prev) == Some(
            ids[(i + ids.len() - 1) % (ids.len() as int)],
        ),
        ids.len() == 1 ==> layout_ops::neighbour(ids, ids[i], direction) is None,
{
    let n = ids.len() as int;
    lemma_position_of(ids, ids[i], 0, i);
    if i + 1 < n {
        vstd::arithmetic::div_mod::lemma_small_mod((i + 1) as nat, n as nat);
    } else {
        vstd::arithmetic::div_mod::lemma_mod_self_0(n);
    }
    if i > 0 {
        vstd::arithmetic::div_mod::lemma_mod_add_multiples_vanish(i - 1, n);
        vstd::arithmetic::div_mod::lemma_small_mod((i - 1) as nat, n as nat);
        assert(i + n - 1 == n + (i - 1));
    } else {
        vstd::arithmetic::div_mod::lemma_small_mod((n - 1) as nat, n as nat);
    }
}

/// A pane that is not there has no neighbour.
pub proof fn law_unknown_pane_has_no_neighbour(
    ids: Seq<PaneId>,
    unknown: PaneId,
    direction: FocusDirection,
)
    requires
        !ids.contains(unknown),
    ensures
        layout_ops::neighbour(ids, unknown, direction) is None,
{
    lemma_no_position(ids, unknown, 0);
}

proof fn lemma_position_of(ids: Seq<PaneId>, id: PaneId, from: int, at: int)
    requires
        0 <= from <= at < ids.len(),
        ids[at] == id,
        forall|k: int| from <= k < at ==> ids[k] != id,
    ensures
        layout_ops::position(ids, id, from) == at,
    decreases at - from,
{
    if from < at {
        lemma_position_of(ids, id, from + 1, at);
    }
}

proof fn lemma_no_position(ids: Seq<PaneId>, id: PaneId, from: int)
    requires
        !ids.contains(id),
        0 <= from,
    ensures
        layout_ops::position(ids, id, from) >= ids.len(),
    decreases ids.len() - from,
{
    if from < ids.len() {
        assert(ids.contains(ids[from]));
        lemma_no_position(ids, id, from + 1);
    }
}

/// There are two directions, and each is the other of the other.
pub proof fn law_two_directions(d: SplitDirection)
    ensures
        d.flipped() != d,
        d.flipped().flipped() == d,
{
}

} // verus!
