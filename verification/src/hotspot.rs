//! Places on the screen that can be clicked.
use crate::layout::PaneId;
use vstd::prelude::*;

verus! {

/// What a hotspot stands for.
#[derive(Debug, Clone, Copy, PartialEq, Eq, Structural)]
pub enum HotspotKind {
    Url,
    FilePath,
    /// A kind that the window only hands on.
    Other(u32),
}

/// A cell of a pane.
#[derive(Debug, Clone, Copy, PartialEq, Eq, Structural)]
pub struct PaneCell {
    pub pane: PaneId,
    pub row: usize,
    pub col: usize,
}

/// What is known of some cells. No cell occurs twice.
#[derive(Debug)]
pub struct CellMap<V> {
    pub entries: Vec<(PaneCell, V)>,
}

pub open spec fn distinct<V>(entries: Seq<(PaneCell, V)>) -> bool {
    forall|i: int, j: int|
        0 <= i < j < entries.len() ==> (#[trigger] entries[i]).0 != (#[trigger] entries[j]).0
}

pub open spec fn has_cell<V>(entries: Seq<(PaneCell, V)>, cell: PaneCell) -> bool {
    exists|i: int| 0 <= i < entries.len() && (#[trigger] entries[i]).0 == cell
}

pub open spec fn value_of<V>(entries: Seq<(PaneCell, V)>, cell: PaneCell) -> V {
    entries[choose|i: int| 0 <= i < entries.len() && (#[trigger] entries[i]).0 == cell].1
}

impl<V> View for CellMap<V> {
    type V = Map<PaneCell, V>;

    open spec fn view(&self) -> Map<PaneCell, V> {
        Map::new(
            |cell: PaneCell| has_cell(self.entries@, cell),
            |cell: PaneCell| value_of(self.entries@, cell),
        )
    }
}

proof fn lemma_entry<V>(entries: Seq<(PaneCell, V)>, i: int)
    requires
        distinct(entries),
        0 <= i < entries.len(),
    ensures
        has_cell(entries, entries[i].0),
        value_of(entries, entries[i].0) == entries[i].1,
{
    let j = choose|j: int| 0 <= j < entries.len() && (#[trigger] entries[j]).0 == entries[i].0;
    assert(entries[j].0 == entries[i].0);
}

/// What the map holds after the entry for a cell was replaced or added.
proof fn lemma_set<V>(
    before: Seq<(PaneCell, V)>,
    after: Seq<(PaneCell, V)>,
    k: int,
    v: (PaneCell, V),
)
    requires
        distinct(before),
        (0 <= k < before.len() && before[k].0 == v.0 && after == before.update(k, v)) || (k
            == before.len() && !has_cell(before, v.0) && after == before.push(v)),
    ensures
        distinct(after),
        forall|c: PaneCell| #[trigger] has_cell(after, c) <==> (c == v.0 || has_cell(before, c)),
        value_of(after, v.0) == v.1,
        forall|c: PaneCell|
            c != v.0 && has_cell(before, c) ==> #[trigger] value_of(after, c) == value_of(
                before,
                c,
            ),
{
    assert forall|i: int, j: int| 0 <= i < j < after.len() implies (#[trigger] after[i]).0 != (
    #[trigger] after[j]).0 by {
        if k == before.len() && j == k {
            assert(before[i].0 != v.0);
        }
    }
    assert(after[k] == v);
    lemma_entry(after, k);
    assert forall|c: PaneCell| #[trigger] has_cell(after, c) <==> (c == v.0 || has_cell(
        before,
        c,
    )) by {
        if has_cell(after, c) && c != v.0 {
            let i = choose|i: int| 0 <= i < after.len() && (#[trigger] after[i]).0 == c;
            assert(before[i].0 == c);
        }
        if has_cell(before, c) {
            let i = choose|i: int| 0 <= i < before.len() && (#[trigger] before[i]).0 == c;
            assert(after[i].0 == c);
        }
    }
    assert forall|c: PaneCell| c != v.0 && has_cell(before, c) implies #[trigger] value_of(after, c)
        == value_of(before, c) by {
        let i = choose|i: int| 0 <= i < before.len() && (#[trigger] before[i]).0 == c;
        assert(after[i] == before[i]);
        lemma_entry(before, i);
        lemma_entry(after, i);
    }
}

impl<V> CellMap<V> {
    pub open spec fn wf(&self) -> bool {
        distinct(self.entries@)
    }

    pub fn new() -> (r: Self)
        ensures
            r.wf(),
            r@ == Map::<PaneCell, V>::empty(),
    {
        let r = CellMap { entries: Vec::new() };
        assert(r@ =~= Map::<PaneCell, V>::empty());
        r
    }

    fn position(&self, cell: PaneCell) -> (r: Option<usize>)
        requires
            self.wf(),
        ensures
            r is Some <==> self@.dom().contains(cell),
            r matches Some(i) ==> i < self.entries@.len() && self.entries@[i as int].0 == cell
                && self.entries@[i as int].1 == self@[cell],
    {
        let mut i: usize = 0;
        while i < self.entries.len()
            invariant
                self.wf(),
                i <= self.entries@.len(),
                forall|k: int| 0 <= k < i ==> (#[trigger] self.entries@[k]).0 != cell,
            decreases self.entries@.len() - i,
        {
            if self.entries[i].0 == cell {
                proof {
                    lemma_entry(self.entries@, i as int);
                }
                return Some(i);
            }
            i += 1;
        }
        None
    }

    pub fn contains_key(&self, cell: PaneCell) -> (r: bool)
        requires
            self.wf(),
        ensures
            r == self@.dom().contains(cell),
    {
        self.position(cell).is_some()
    }

    pub fn get(&self, cell: PaneCell) -> (r: Option<&V>)
        requires
            self.wf(),
        ensures
            r == (if self@.dom().contains(cell) {
                Some(&self@[cell])
            } else {
                None::<&V>
            }),
    {
        match self.position(cell) {
            Some(i) => Some(&self.entries[i].1),
            None => None,
        }
    }

    /// Sets what is known of a cell.
    pub fn insert(&mut self, cell: PaneCell, value: V)
        requires
            old(self).wf(),
        ensures
            final(self).wf(),
            final(self)@ == old(self)@.insert(cell, value),
    {
        let ghost before = self.entries@;
        match self.position(cell) {
            Some(i) => {
                self.entries.set(i, (cell, value));
                proof {
                    lemma_set(before, self.entries@, i as int, (cell, value));
                }
            },
            None => {
                self.entries.push((cell, value));
                proof {
                    lemma_set(before, self.entries@, before.len() as int, (cell, value));
                }
            },
        }
        assert(self@ =~= old(self)@.insert(cell, value));
    }
}

/// What is known of a cell is what its entry says; nothing is known of a cell without
/// one.
pub proof fn law_entries_are_what_is_known<V>(map: CellMap<V>, i: int, other: PaneCell)
    requires
        map.wf(),
        0 <= i < map.entries@.len(),
        forall|k: int| 0 <= k < map.entries@.len() ==> (#[trigger] map.entries@[k]).0 != other,
    ensures
        map@.dom().contains(map.entries@[i].0),
        map@[map.entries@[i].0] == map.entries@[i].1,
        !map@.dom().contains(other),
{
    let cell = map.entries@[i].0;
    let j = choose|j: int| 0 <= j < map.entries@.len() && (#[trigger] map.entries@[j]).0 == cell;
    assert(map.entries@[j].0 == cell);
}

} // verus!
