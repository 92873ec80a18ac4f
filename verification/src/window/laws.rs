//! What the operations keep of a workspace.
use super::restore::LayoutSnapshot;
use super::{App, Workspaces};
use crate::layout;
use crate::layout::{LayoutNode, PaneId, PaneState, Ratio, SplitDirection};
use crate::layout_ops;
use crate::layout_ops::FocusDirection;
use vstd::prelude::*;

verus! {

/// No id occurs twice.
pub open spec fn apart(ids: Seq<PaneId>) -> bool {
    forall|i: int, j: int| 0 <= i < j < ids.len() ==> ids[i] != ids[j]
}

impl Workspaces {
    /// Every pane has an id of its own, and the focus is on one that is shown.
    pub open spec fn sound(self) -> bool {
        apart(self.layout.ids()) && (self.focused matches Some(id) ==> self.layout.has(id))
    }
}

/// Panes with the same ids in the same order are as sound.
proof fn lemma_same_ids(w: Workspaces, t: LayoutNode)
    requires
        w.sound(),
        t.ids() == w.layout.ids(),
    ensures
        (Workspaces { layout: t, ..w }).sound(),
{
    if let Some(id) = w.focused {
        layout::law_ids_are_the_panes(w.layout, id);
        layout::law_ids_are_the_panes(t, id);
    }
}

/// A split of a pane keeps a workspace sound, whether the focus stays or goes to
/// the new pane.
pub proof fn law_split_stays_sound(
    w: Workspaces,
    source: PaneId,
    direction: SplitDirection,
    pane: PaneState,
)
    requires
        w.sound(),
        w.layout.has(source),
        !w.layout.has(pane.id),
    ensures
        App::split_workspaces(Some(w), source, direction, pane)->0.sound(),
        App::with_focus(
            App::split_workspaces(Some(w), source, direction, pane),
            Some(pane.id),
        )->0.sound(),
{
    let t = w.layout;
    let after = t.replaced(source, LayoutNode::split_of(t.pane(source)->0, direction, pane));
    layout_ops::law_split_adds_one(t, source, direction, pane);
    let k = choose|k: int|
        0 <= k < t.panes().len() && t.panes()[k] == t.pane(source)->0 && after.panes()
            == #[trigger] t.panes().insert(k + 1, pane);
    assert(after.ids() =~= t.ids().insert(k + 1, pane.id));
    layout::law_ids_are_the_panes(t, pane.id);
    layout::law_ids_are_the_panes(after, pane.id);
    assert(after.ids()[k + 1] == pane.id);
    assert forall|i: int, j: int| 0 <= i < j < after.ids().len() implies after.ids()[i]
        != after.ids()[j] by {
        let a = if i <= k { i } else { i - 1 };
        let b = if j <= k { j } else { j - 1 };
        if i != k + 1 && j != k + 1 {
            assert(t.ids()[a] != t.ids()[b]);
        }
    }
    if let Some(id) = w.focused {
        layout::law_ids_are_the_panes(t, id);
        layout::law_ids_are_the_panes(after, id);
        let m = choose|m: int| 0 <= m < t.ids().len() && t.ids()[m] == id;
        assert(after.ids()[if m <= k { m } else { m + 1 }] == id);
    }
}

/// Taking a pane out takes exactly that one.
pub proof fn law_remove_takes_one(t: LayoutNode, id: PaneId)
    requires
        t.has(id),
    ensures
        exists|k: int|
            0 <= k < t.panes().len() && t.panes()[k].id == id && t.without(id).panes()
                == #[trigger] t.panes().remove(k),
    decreases t,
{
    match t {
        LayoutNode::Leaf(p) => {
            assert(t.panes()[0] == p);
            assert(t.without(id).panes() =~= t.panes().remove(0));
        },
        LayoutNode::Split { first, second, .. } => {
            if first.has(id) {
                law_remove_takes_one(*first, id);
                let k = choose|k: int|
                    0 <= k < first.panes().len() && first.panes()[k].id == id && first.without(
                        id,
                    ).panes() == #[trigger] first.panes().remove(k);
                assert(t.panes()[k] == first.panes()[k]);
                assert(t.panes().remove(k) =~= first.panes().remove(k) + second.panes());
                assert(t.without(id).panes() =~= t.panes().remove(k));
            } else {
                law_remove_takes_one(*second, id);
                let k = choose|k: int|
                    0 <= k < second.panes().len() && second.panes()[k].id == id && second.without(
                        id,
                    ).panes() == #[trigger] second.panes().remove(k);
                let n = first.panes().len() + k;
                assert(t.panes()[n] == second.panes()[k]);
                assert(t.panes().remove(n) =~= first.panes() + second.panes().remove(k));
                assert(t.without(id).panes() =~= t.panes().remove(n));
            }
        },
        LayoutNode::Empty => {},
    }
}

/// Taking a pane out that does not have the focus keeps a workspace sound.
pub proof fn law_remove_stays_sound(w: Workspaces, pane: PaneId)
    requires
        w.sound(),
        w.layout.has(pane),
        w.focused != Some(pane),
    ensures
        App::workspaces_without(Some(w), pane)->0.sound(),
{
    let t = w.layout;
    let after = t.without(pane);
    law_remove_takes_one(t, pane);
    let k = choose|k: int|
        0 <= k < t.panes().len() && t.panes()[k].id == pane && after.panes()
            == #[trigger] t.panes().remove(k);
    assert(after.ids() =~= t.ids().remove(k));
    assert forall|i: int, j: int| 0 <= i < j < after.ids().len() implies after.ids()[i]
        != after.ids()[j] by {
        let a = if i < k { i } else { i + 1 };
        let b = if j < k { j } else { j + 1 };
        assert(t.ids()[a] != t.ids()[b]);
    }
    if let Some(id) = w.focused {
        layout::law_ids_are_the_panes(t, id);
        layout::law_ids_are_the_panes(after, id);
        let m = choose|m: int| 0 <= m < t.ids().len() && t.ids()[m] == id;
        assert(m != k);
        assert(after.ids()[if m < k { m } else { m - 1 }] == id);
    }
}

/// Swapping two panes keeps a workspace sound, and the focus on the same pane.
pub proof fn law_swap_stays_sound(w: Workspaces, a: PaneId, b: PaneId)
    requires
        w.sound(),
    ensures
        App::swapped_workspaces(Some(w), a, b)->0.sound(),
        App::swapped_workspaces(Some(w), a, b)->0.focused == w.focused,
{
    let t = w.layout;
    if t.has(a) && t.has(b) {
        layout::lemma_has_pane(t, a);
        layout::lemma_has_pane(t, b);
        let after = t.swapped(t.pane(a)->0, t.pane(b)->0);
        layout_ops::law_swap_keeps_panes(t, t.pane(a)->0, t.pane(b)->0);
        assert forall|i: int| 0 <= i < t.ids().len() implies #[trigger] after.ids()[i] == (
        if t.ids()[i] == a {
            b
        } else if t.ids()[i] == b {
            a
        } else {
            t.ids()[i]
        }) by {
            assert(after.panes()[i] == (if t.panes()[i].id == a {
                t.pane(b)->0
            } else if t.panes()[i].id == b {
                t.pane(a)->0
            } else {
                t.panes()[i]
            }));
        }
        assert forall|i: int, j: int| 0 <= i < j < after.ids().len() implies after.ids()[i]
            != after.ids()[j] by {
            assert(t.ids()[i] != t.ids()[j]);
        }
        if let Some(id) = w.focused {
            let from = if id == a {
                b
            } else if id == b {
                a
            } else {
                id
            };
            layout::law_ids_are_the_panes(t, from);
            layout::law_ids_are_the_panes(after, id);
            let m = choose|m: int| 0 <= m < t.ids().len() && t.ids()[m] == from;
            assert(after.ids()[m] == id);
        }
    }
}

proof fn lemma_position_within(ids: Seq<PaneId>, id: PaneId, from: int)
    requires
        0 <= from,
    ensures
        from <= layout_ops::position(ids, id, from) || ids.len() <= from,
        layout_ops::position(ids, id, from) <= ids.len(),
    decreases ids.len() - from,
{
    if from < ids.len() && ids[from] != id {
        lemma_position_within(ids, id, from + 1);
    }
}

/// Moving the focus to the next or previous pane keeps a workspace sound.
pub proof fn law_focus_stays_sound(w: Workspaces, from: PaneId, direction: FocusDirection)
    requires
        w.sound(),
    ensures
        layout_ops::neighbour(w.layout.ids(), from, direction) matches Some(id)
            ==> App::with_focus(Some(w), Some(id))->0.sound(),
{
    let ids = w.layout.ids();
    if let Some(id) = layout_ops::neighbour(ids, from, direction) {
        lemma_position_within(ids, from, 0);
        layout::law_ids_are_the_panes(w.layout, id);
        assert(ids.contains(id));
    }
}

/// The tree with the pane `id` pinned or unpinned.
pub open spec fn pin_toggled(t: LayoutNode, id: PaneId) -> LayoutNode {
    let p = t.pane(id)->0;
    t.replaced(id, LayoutNode::Leaf(PaneState { pinned: !p.pinned, ..p }))
}

proof fn lemma_same_place(t: LayoutNode, id: PaneId, q: PaneState)
    requires
        t.has(id),
        q.id == id,
    ensures
        t.replaced(id, LayoutNode::Leaf(q)).has(id),
        t.replaced(id, LayoutNode::Leaf(q)).pane(id) == Some(q),
        t.replaced(id, LayoutNode::Leaf(q)).ids() == t.ids(),
        t.replaced(id, LayoutNode::Leaf(q)).replaced(id, LayoutNode::Leaf(t.pane(id)->0)) == t,
    decreases t,
{
    match t {
        LayoutNode::Leaf(p) => {
            assert(LayoutNode::Leaf(q).ids() =~= t.ids());
        },
        LayoutNode::Split { first, second, .. } => {
            let after = t.replaced(id, LayoutNode::Leaf(q));
            if first.has(id) {
                lemma_same_place(*first, id, q);
                assert(after.ids() =~= first.replaced(id, LayoutNode::Leaf(q)).ids()
                    + second.ids());
            } else {
                lemma_same_place(*second, id, q);
                assert(after.ids() =~= first.ids() + second.replaced(
                    id,
                    LayoutNode::Leaf(q),
                ).ids());
            }
            assert(t.ids() =~= first.ids() + second.ids());
        },
        LayoutNode::Empty => {},
    }
}

/// Toggling the pin of a pane twice changes nothing.
pub proof fn law_pin_twice(t: LayoutNode, id: PaneId)
    requires
        t.has(id),
    ensures
        pin_toggled(t, id).pane(id)->0.pinned == !t.pane(id)->0.pinned,
        pin_toggled(pin_toggled(t, id), id) == t,
{
    layout::lemma_has_pane(t, id);
    let p = t.pane(id)->0;
    lemma_same_place(t, id, PaneState { pinned: !p.pinned, ..p });
}

/// Pins, ratios and tidying up keep a workspace sound.
pub proof fn law_touches_stay_sound(w: Workspaces, id: PaneId, path: Seq<bool>, ratio: Ratio)
    requires
        w.sound(),
    ensures
        w.layout.has(id) ==> (Workspaces { layout: pin_toggled(w.layout, id), ..w }).sound(),
        (Workspaces { layout: w.layout.with_ratio_at(path, ratio), ..w }).sound(),
        (Workspaces { layout: w.layout.balanced(), ..w }).sound(),
        (Workspaces { layout: w.layout.without_holes().balanced(), ..w }).sound(),
{
    if w.layout.has(id) {
        layout::lemma_has_pane(w.layout, id);
        let p = w.layout.pane(id)->0;
        lemma_same_place(w.layout, id, PaneState { pinned: !p.pinned, ..p });
        lemma_same_ids(w, pin_toggled(w.layout, id));
    }
    layout_ops::law_ratio_keeps_panes(w.layout, path, ratio);
    lemma_same_ids(w, w.layout.with_ratio_at(path, ratio));
    super::tile::lemma_balanced(w.layout);
    lemma_same_ids(w, w.layout.balanced());
    super::tile::law_compact_keeps_panes(w.layout);
    lemma_same_ids(w, w.layout.without_holes().balanced());
}

/// The pane that is zoomed makes a sound workspace by itself.
pub proof fn law_zoom_stays_sound(w: Workspaces)
    requires
        w.sound(),
    ensures
        super::zoom::zoomed_in(Some(w)).workspaces->0.sound(),
{
    if let Some(id) = w.focused {
        layout::lemma_has_pane(w.layout, id);
    }
}

/// A restored layout of panes that have an id of their own is sound, with the
/// focus on the first one.
pub proof fn law_restore_is_sound(w: Workspaces, s: LayoutSnapshot, panes: Seq<PaneState>)
    requires
        panes.len() == s.leaves(),
        apart(panes.map_values(|p: PaneState| p.id)),
    ensures
        (Workspaces {
            layout: s.with_panes(panes),
            focused: Some(s.with_panes(panes).ids()[0]),
            ..w
        }).sound(),
{
    super::restore::law_rebuilt_layout(s, panes);
    let t = s.with_panes(panes);
    assert(t.ids() == panes.map_values(|p: PaneState| p.id));
    layout::law_ids_are_the_panes(t, t.ids()[0]);
    assert(t.ids().contains(t.ids()[0]));
}

} // verus!
