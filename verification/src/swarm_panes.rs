//! Which pane follows which subagent.
use crate::layout::PaneId;
use crate::text;
use vstd::prelude::*;

verus! {

/// The panes that follow a subagent, by the subagent's id. No id occurs twice.
#[derive(Debug, Clone, Default)]
pub struct SwarmPanes {
    pub entries: Vec<(String, PaneId)>,
}

pub open spec fn distinct(entries: Seq<(String, PaneId)>) -> bool {
    forall|i: int, j: int|
        0 <= i < j < entries.len() ==> (#[trigger] entries[i]).0@ != (#[trigger] entries[j]).0@
}

pub open spec fn has_agent(entries: Seq<(String, PaneId)>, agent: Seq<char>) -> bool {
    exists|i: int| 0 <= i < entries.len() && (#[trigger] entries[i]).0@ == agent
}

pub open spec fn pane_of(entries: Seq<(String, PaneId)>, agent: Seq<char>) -> PaneId {
    entries[choose|i: int| 0 <= i < entries.len() && (#[trigger] entries[i]).0@ == agent].1
}

impl View for SwarmPanes {
    type V = Map<Seq<char>, PaneId>;

    open spec fn view(&self) -> Map<Seq<char>, PaneId> {
        Map::new(
            |agent: Seq<char>| has_agent(self.entries@, agent),
            |agent: Seq<char>| pane_of(self.entries@, agent),
        )
    }
}

proof fn lemma_entry(entries: Seq<(String, PaneId)>, i: int)
    requires
        distinct(entries),
        0 <= i < entries.len(),
    ensures
        has_agent(entries, entries[i].0@),
        pane_of(entries, entries[i].0@) == entries[i].1,
{
    let j = choose|j: int| 0 <= j < entries.len() && (#[trigger] entries[j]).0@ == entries[i].0@;
    assert(entries[j].0@ == entries[i].0@);
}

impl SwarmPanes {
    pub open spec fn wf(&self) -> bool {
        distinct(self.entries@)
    }

    pub fn new() -> (r: Self)
        ensures
            r.wf(),
            r@ == Map::<Seq<char>, PaneId>::empty(),
    {
        let r = SwarmPanes { entries: Vec::new() };
        assert(r@ =~= Map::<Seq<char>, PaneId>::empty());
        r
    }

    /// The position of a subagent's entry.
    fn position(&self, agent: &str) -> (r: Option<usize>)
        requires
            self.wf(),
        ensures
            r is Some <==> self@.dom().contains(agent@),
            r matches Some(i) ==> i < self.entries@.len() && self.entries@[i as int].0@ == agent@
                && self.entries@[i as int].1 == self@[agent@],
    {
        let mut i: usize = 0;
        while i < self.entries.len()
            invariant
                self.wf(),
                i <= self.entries@.len(),
                forall|k: int| 0 <= k < i ==> (#[trigger] self.entries@[k]).0@ != agent@,
            decreases self.entries@.len() - i,
        {
            if text::str_eq(self.entries[i].0.as_str(), agent) {
                proof {
                    lemma_entry(self.entries@, i as int);
                }
                return Some(i);
            }
            i += 1;
        }
        None
    }

    pub fn contains_key(&self, agent: &str) -> (r: bool)
        requires
            self.wf(),
        ensures
            r == self@.dom().contains(agent@),
    {
        self.position(agent).is_some()
    }

    /// Forgets a subagent; gives the pane that followed it.
    pub fn remove(&mut self, agent: &str) -> (r: Option<PaneId>)
        requires
            old(self).wf(),
        ensures
            final(self).wf(),
            r == (if old(self)@.dom().contains(agent@) {
                Some(old(self)@[agent@])
            } else {
                None::<PaneId>
            }),
            final(self)@ == old(self)@.remove(agent@),
    {
        match self.position(agent) {
            Some(i) => {
                let ghost before = self.entries@;
                let entry = self.entries.remove(i);
                proof {
                    lemma_removed(before, i as int);
                    assert(self@ =~= old(self)@.remove(agent@));
                }
                Some(entry.1)
            },
            None => {
                assert(self@ =~= old(self)@.remove(agent@));
                None
            },
        }
    }

    /// Remembers the pane that follows a subagent.
    pub fn insert(&mut self, agent: String, pane: PaneId)
        requires
            old(self).wf(),
        ensures
            final(self).wf(),
            final(self)@ == old(self)@.insert(agent@, pane),
    {
        let _ = self.remove(agent.as_str());
        let ghost before = self.entries@;
        let ghost rest = self@;
        proof {
            assert(!has_agent(before, agent@)) by {
                assert(!rest.dom().contains(agent@));
            }
        }
        self.entries.push((agent, pane));
        proof {
            let after = self.entries@;
            assert(after[before.len() as int] == (agent, pane));
            assert forall|i: int, j: int| 0 <= i < j < after.len() implies (#[trigger] after[i]).0@
                != (#[trigger] after[j]).0@ by {
                assert(before[i] == after[i]);
                if j < before.len() {
                    assert(before[j] == after[j]);
                }
            }
            lemma_entry(after, before.len() as int);
            assert forall|k: Seq<char>| k != agent@ implies #[trigger] has_agent(after, k)
                == has_agent(before, k) && (has_agent(before, k) ==> pane_of(after, k) == pane_of(
                before,
                k,
            )) by {
                if has_agent(before, k) {
                    let i = choose|i: int|
                        0 <= i < before.len() && (#[trigger] before[i]).0@ == k;
                    assert(after[i] == before[i]);
                    lemma_entry(after, i);
                    lemma_entry(before, i);
                }
                if has_agent(after, k) {
                    let i = choose|i: int| 0 <= i < after.len() && (#[trigger] after[i]).0@ == k;
                    assert(i < before.len());
                    assert(after[i] == before[i]);
                }
            }
            assert(self@ =~= old(self)@.insert(agent@, pane)) by {
                assert forall|k: Seq<char>| #[trigger] self@.dom().contains(k) == old(self)@.insert(
                    agent@,
                    pane,
                ).dom().contains(k) by {
                    if k != agent@ {
                        assert(has_agent(after, k) == has_agent(before, k));
                        assert(rest.dom().contains(k) == has_agent(before, k));
                        assert(rest.dom().contains(k) == old(self)@.dom().contains(k));
                    }
                }
                assert forall|k: Seq<char>| self@.dom().contains(k) implies #[trigger] self@[k]
                    == old(self)@.insert(agent@, pane)[k] by {
                    if k != agent@ {
                        assert(has_agent(after, k) == has_agent(before, k));
                        assert(pane_of(after, k) == pane_of(before, k));
                        assert(rest[k] == pane_of(before, k));
                    }
                }
            }
        }
    }
}

proof fn lemma_removed(entries: Seq<(String, PaneId)>, i: int)
    requires
        distinct(entries),
        0 <= i < entries.len(),
    ensures
        distinct(entries.remove(i)),
        !has_agent(entries.remove(i), entries[i].0@),
        forall|k: Seq<char>|
            k != entries[i].0@ ==> #[trigger] has_agent(entries.remove(i), k) == has_agent(
                entries,
                k,
            ),
        forall|k: Seq<char>|
            k != entries[i].0@ && has_agent(entries, k) ==> #[trigger] pane_of(
                entries.remove(i),
                k,
            ) == pane_of(entries, k),
{
    let rest = entries.remove(i);
    assert forall|a: int, b: int| 0 <= a < b < rest.len() implies (#[trigger] rest[a]).0@ != (
    #[trigger] rest[b]).0@ by {
        let x = if a < i { a } else { a + 1 };
        let y = if b < i { b } else { b + 1 };
        assert(entries[x].0@ != entries[y].0@);
    }
    assert forall|k: int| 0 <= k < rest.len() implies (#[trigger] rest[k]).0@ != entries[i].0@ by {
        let x = if k < i { k } else { k + 1 };
        assert(entries[x].0@ != entries[i].0@);
    }
    assert forall|k: Seq<char>| k != entries[i].0@ implies #[trigger] has_agent(rest, k)
        == has_agent(entries, k) && (has_agent(entries, k) ==> pane_of(rest, k) == pane_of(
        entries,
        k,
    )) by {
        if has_agent(entries, k) {
            let j = choose|j: int| 0 <= j < entries.len() && (#[trigger] entries[j]).0@ == k;
            let x = if j < i { j } else { j - 1 };
            assert(rest[x] == entries[j]);
            lemma_entry(rest, x);
            lemma_entry(entries, j);
        }
        if has_agent(rest, k) {
            let j = choose|j: int| 0 <= j < rest.len() && (#[trigger] rest[j]).0@ == k;
            let x = if j < i { j } else { j + 1 };
            assert(entries[x] == rest[j]);
        }
    }
    assert forall|k: Seq<char>| k != entries[i].0@ && has_agent(entries, k) implies #[trigger]
        pane_of(rest, k) == pane_of(entries, k) by {
        assert(has_agent(rest, k) == has_agent(entries, k));
    }
}

/// The pane of a subagent is what its entry says; one without an entry has none.
pub proof fn law_entries_are_the_panes(map: SwarmPanes, i: int, other: Seq<char>)
    requires
        map.wf(),
        0 <= i < map.entries@.len(),
        forall|k: int| 0 <= k < map.entries@.len() ==> (#[trigger] map.entries@[k]).0@ != other,
    ensures
        map@.dom().contains(map.entries@[i].0@),
        map@[map.entries@[i].0@] == map.entries@[i].1,
        !map@.dom().contains(other),
{
    let agent = map.entries@[i].0@;
    let j = choose|j: int| 0 <= j < map.entries@.len() && (#[trigger] map.entries@[j]).0@ == agent;
    assert(map.entries@[j].0@ == agent);
}

} // verus!
