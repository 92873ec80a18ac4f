//! Which pane of the window shows which pane of the daemon.
use crate::layout::PaneId;
use vstd::prelude::*;

verus! {

/// The number that the daemon gives a pane.
pub type DaemonPaneId = u64;

/// The number of a session of the daemon.
pub type SessionId = u64;

/// The pairs of a pane of the window and the daemon's pane that it shows. No
/// pane of either side is in two pairs.
#[derive(Debug, Clone, Default)]
pub struct PaneIdMap {
    pub pairs: Vec<(PaneId, DaemonPaneId)>,
}

/// The daemon's pane that is paired with `local`.
pub open spec fn daemon_of(
    pairs: Seq<(PaneId, DaemonPaneId)>,
    local: PaneId,
) -> Option<DaemonPaneId> {
    if exists|i: int| 0 <= i < pairs.len() && (#[trigger] pairs[i]).0 == local {
        Some(pairs[choose|i: int| 0 <= i < pairs.len() && (#[trigger] pairs[i]).0 == local].1)
    } else {
        None
    }
}

/// The pane that is paired with the daemon's pane `daemon`.
pub open spec fn local_of(
    pairs: Seq<(PaneId, DaemonPaneId)>,
    daemon: DaemonPaneId,
) -> Option<PaneId> {
    if exists|i: int| 0 <= i < pairs.len() && (#[trigger] pairs[i]).1 == daemon {
        Some(pairs[choose|i: int| 0 <= i < pairs.len() && (#[trigger] pairs[i]).1 == daemon].0)
    } else {
        None
    }
}

/// No pane of either side is in two pairs.
pub open spec fn paired(pairs: Seq<(PaneId, DaemonPaneId)>) -> bool {
    &&& forall|i: int, j: int|
        0 <= i < j < pairs.len() ==> (#[trigger] pairs[i]).0 != (#[trigger] pairs[j]).0
    &&& forall|i: int, j: int|
        0 <= i < j < pairs.len() ==> (#[trigger] pairs[i]).1 != (#[trigger] pairs[j]).1
}

/// A pair is found from either side.
pub proof fn lemma_at(pairs: Seq<(PaneId, DaemonPaneId)>, i: int)
    requires
        paired(pairs),
        0 <= i < pairs.len(),
    ensures
        daemon_of(pairs, pairs[i].0) == Some(pairs[i].1),
        local_of(pairs, pairs[i].1) == Some(pairs[i].0),
{
    let j = choose|j: int| 0 <= j < pairs.len() && (#[trigger] pairs[j]).0 == pairs[i].0;
    let k = choose|k: int| 0 <= k < pairs.len() && (#[trigger] pairs[k]).1 == pairs[i].1;
    assert(pairs[j].0 == pairs[i].0);
    assert(pairs[k].1 == pairs[i].1);
}

/// Looking up either way gives the same pairs.
pub proof fn law_lookups_agree(map: PaneIdMap, local: PaneId, daemon: DaemonPaneId)
    requires
        map.wf(),
    ensures
        map.daemon(local) == Some(daemon) <==> map.local(daemon) == Some(local),
{
    let pairs = map.pairs@;
    if map.daemon(local) is Some {
        let i = choose|i: int| 0 <= i < pairs.len() && (#[trigger] pairs[i]).0 == local;
        assert(pairs[i].0 == local);
        lemma_at(pairs, i);
    }
    if map.local(daemon) is Some {
        let i = choose|i: int| 0 <= i < pairs.len() && (#[trigger] pairs[i]).1 == daemon;
        assert(pairs[i].1 == daemon);
        lemma_at(pairs, i);
    }
}

impl PaneIdMap {
    pub open spec fn wf(&self) -> bool {
        paired(self.pairs@)
    }

    /// The daemon's pane that `local` shows.
    pub open spec fn daemon(&self, local: PaneId) -> Option<DaemonPaneId> {
        daemon_of(self.pairs@, local)
    }

    /// The pane that shows the daemon's pane `daemon`.
    pub open spec fn local(&self, daemon: DaemonPaneId) -> Option<PaneId> {
        local_of(self.pairs@, daemon)
    }

    /// The daemon's pane of the oldest pair.
    pub open spec fn any(&self) -> Option<DaemonPaneId> {
        if self.pairs@.len() > 0 {
            Some(self.pairs@[0].1)
        } else {
            None
        }
    }

    pub fn new() -> (r: Self)
        ensures
            r.wf(),
            r.pairs@.len() == 0,
    {
        PaneIdMap { pairs: Vec::new() }
    }

    pub fn daemon_for_local(&self, local: PaneId) -> (r: Option<DaemonPaneId>)
        requires
            self.wf(),
        ensures
            r == self.daemon(local),
    {
        let mut i: usize = 0;
        while i < self.pairs.len()
            invariant
                self.wf(),
                i <= self.pairs@.len(),
                forall|k: int| 0 <= k < i ==> (#[trigger] self.pairs@[k]).0 != local,
            decreases self.pairs@.len() - i,
        {
            if self.pairs[i].0 == local {
                proof {
                    lemma_at(self.pairs@, i as int);
                }
                return Some(self.pairs[i].1);
            }
            i += 1;
        }
        None
    }

    pub fn local_for_daemon(&self, daemon: DaemonPaneId) -> (r: Option<PaneId>)
        requires
            self.wf(),
        ensures
            r == self.local(daemon),
    {
        let mut i: usize = 0;
        while i < self.pairs.len()
            invariant
                self.wf(),
                i <= self.pairs@.len(),
                forall|k: int| 0 <= k < i ==> (#[trigger] self.pairs@[k]).1 != daemon,
            decreases self.pairs@.len() - i,
        {
            if self.pairs[i].1 == daemon {
                proof {
                    lemma_at(self.pairs@, i as int);
                }
                return Some(self.pairs[i].0);
            }
            i += 1;
        }
        None
    }

    /// Any pane of the daemon that is shown: the one shown for longest.
    pub fn any_daemon_id(&self) -> (r: Option<DaemonPaneId>)
        ensures
            r == self.any(),
    {
        if self.pairs.len() > 0 {
            Some(self.pairs[0].1)
        } else {
            None
        }
    }

    /// The daemon's pane of the oldest pair, from `from` on, that is not
    /// `excluded`.
    pub open spec fn other_from(&self, excluded: Option<DaemonPaneId>, from: int) -> Option<
        DaemonPaneId,
    >
        decreases self.pairs@.len() - from,
    {
        if from >= self.pairs@.len() {
            None
        } else if excluded == Some(self.pairs@[from].1) {
            self.other_from(excluded, from + 1)
        } else {
            Some(self.pairs@[from].1)
        }
    }

    /// Any pane of the daemon that is shown, but not `excluded`: the one shown
    /// for longest.
    pub fn other_daemon_id(&self, excluded: Option<DaemonPaneId>) -> (r: Option<DaemonPaneId>)
        ensures
            r == self.other_from(excluded, 0),
    {
        let mut i: usize = 0;
        while i < self.pairs.len()
            invariant
                i <= self.pairs@.len(),
                self.other_from(excluded, 0) == self.other_from(excluded, i as int),
            decreases self.pairs@.len() - i,
        {
            let daemon: DaemonPaneId = self.pairs[i].1;
            if excluded != Some(daemon) {
                return Some(daemon);
            }
            i += 1;
        }
        None
    }

    /// Every pane of the daemon that is shown.
    pub fn all_daemon_ids(&self) -> (r: Vec<DaemonPaneId>)
        ensures
            r@ == self.pairs@.map_values(|p: (PaneId, DaemonPaneId)| p.1),
    {
        let mut out: Vec<DaemonPaneId> = Vec::new();
        let mut i: usize = 0;
        while i < self.pairs.len()
            invariant
                i <= self.pairs@.len(),
                out@.len() == i,
                forall|k: int| 0 <= k < i ==> out@[k] == self.pairs@[k].1,
            decreases self.pairs@.len() - i,
        {
            out.push(self.pairs[i].1);
            i += 1;
        }
        assert(out@ =~= self.pairs@.map_values(|p: (PaneId, DaemonPaneId)| p.1));
        out
    }

    /// Forgets the pair of `local`.
    pub fn remove_by_local(&mut self, local: PaneId)
        requires
            old(self).wf(),
        ensures
            final(self).wf(),
            final(self).pairs@ == without_local(old(self).pairs@, local),
            final(self).daemon(local) is None,
            forall|l: PaneId|
                l != local ==> #[trigger] final(self).daemon(l) == old(self).daemon(l),
    {
        let ghost before = self.pairs@;
        let mut i: usize = 0;
        while i < self.pairs.len()
            invariant
                paired(before),
                before == old(self).pairs@,
                self.pairs@ == before,
                i <= self.pairs@.len(),
                forall|k: int| 0 <= k < i ==> (#[trigger] self.pairs@[k]).0 != local,
            decreases self.pairs@.len() - i,
        {
            if self.pairs[i].0 == local {
                self.pairs.remove(i);
                proof {
                    lemma_removed(before, i as int);
                }
                return;
            }
            i += 1;
        }
        proof {
            assert(without_local(before, local) == before);
        }
    }

    /// Forgets the pair of the daemon's pane `daemon`.
    fn remove_by_daemon(&mut self, daemon: DaemonPaneId)
        requires
            old(self).wf(),
        ensures
            final(self).wf(),
            final(self).pairs@ == without_daemon(old(self).pairs@, daemon),
            forall|k: int|
                0 <= k < final(self).pairs@.len() ==> (#[trigger] final(self).pairs@[k]).1
                    != daemon,
            forall|l: PaneId| #[trigger]
                final(self).daemon(l) == (if old(self).daemon(l) == Some(daemon) {
                    None::<DaemonPaneId>
                } else {
                    old(self).daemon(l)
                }),
    {
        let ghost before = self.pairs@;
        let mut i: usize = 0;
        while i < self.pairs.len()
            invariant
                paired(before),
                before == old(self).pairs@,
                self.pairs@ == before,
                i <= self.pairs@.len(),
                forall|k: int| 0 <= k < i ==> (#[trigger] self.pairs@[k]).1 != daemon,
            decreases self.pairs@.len() - i,
        {
            if self.pairs[i].1 == daemon {
                self.pairs.remove(i);
                proof {
                    lemma_removed(before, i as int);
                    lemma_at(before, i as int);
                    assert forall|l: PaneId| l != before[i as int].0 implies daemon_of(before, l)
                        != Some(daemon) by {
                        if daemon_of(before, l) == Some(daemon) {
                            let j = choose|j: int|
                                0 <= j < before.len() && (#[trigger] before[j]).0 == l;
                            assert(before[j].1 == daemon);
                        }
                    }
                    assert forall|k: int| 0 <= k < self.pairs@.len() implies (
                    #[trigger] self.pairs@[k]).1 != daemon by {
                        if k < i {
                            assert(before[k].1 != daemon);
                        } else {
                            assert(self.pairs@[k] == before[k + 1]);
                        }
                    }
                }
                return;
            }
            i += 1;
        }
        proof {
            assert forall|l: PaneId| #[trigger] daemon_of(before, l) != Some(daemon) by {
                if daemon_of(before, l) == Some(daemon) {
                    let j = choose|j: int| 0 <= j < before.len() && (#[trigger] before[j]).0 == l;
                    assert(before[j].1 == daemon);
                }
            }
        }
    }

    /// Pairs `local` with `daemon`. Whatever either was paired with before is
    /// forgotten.
    pub fn insert(&mut self, local: PaneId, daemon: DaemonPaneId)
        requires
            old(self).wf(),
        ensures
            final(self).wf(),
            final(self).pairs@ == with_pair(old(self).pairs@, local, daemon),
            final(self).daemon(local) == Some(daemon),
            forall|l: PaneId|
                l != local ==> #[trigger] final(self).daemon(l) == (if old(self).daemon(l) == Some(
                    daemon,
                ) {
                    None::<DaemonPaneId>
                } else {
                    old(self).daemon(l)
                }),
    {
        self.remove_by_local(local);
        let ghost rest = *self;
        self.remove_by_daemon(daemon);
        let ghost freed = *self;
        let ghost before = self.pairs@;
        proof {
            assert(self.daemon(local) is None);
            assert forall|k: int| 0 <= k < before.len() implies (#[trigger] before[k]).0
                != local by {
                lemma_at(before, k);
            }
        }
        self.pairs.push((local, daemon));
        proof {
            let after = self.pairs@;
            assert(after[before.len() as int] == (local, daemon));
            assert forall|i: int, j: int| 0 <= i < j < after.len() implies (#[trigger] after[i]).0
                != (#[trigger] after[j]).0 && after[i].1 != after[j].1 by {
                assert(before[i] == after[i]);
                if j < before.len() {
                    assert(before[j] == after[j]);
                }
            }
            lemma_at(after, before.len() as int);
            assert forall|l: PaneId| l != local implies #[trigger] self.daemon(l) == freed.daemon(
                l,
            ) && old(self).daemon(l) == rest.daemon(l) by {
                if exists|i: int| 0 <= i < before.len() && (#[trigger] before[i]).0 == l {
                    let i = choose|i: int| 0 <= i < before.len() && (#[trigger] before[i]).0 == l;
                    assert(after[i] == before[i]);
                    lemma_at(after, i);
                    lemma_at(before, i);
                } else {
                    assert forall|i: int| 0 <= i < after.len() implies (#[trigger] after[i]).0
                        != l by {
                        if i < before.len() {
                            assert(before[i] == after[i]);
                        }
                    }
                }
            }
        }
    }
}

/// The pairs without that of `local`.
pub open spec fn without_local(
    pairs: Seq<(PaneId, DaemonPaneId)>,
    local: PaneId,
) -> Seq<(PaneId, DaemonPaneId)> {
    if exists|i: int| 0 <= i < pairs.len() && (#[trigger] pairs[i]).0 == local {
        pairs.remove(choose|i: int| 0 <= i < pairs.len() && (#[trigger] pairs[i]).0 == local)
    } else {
        pairs
    }
}

/// The pairs without that of the daemon's pane `daemon`.
pub open spec fn without_daemon(
    pairs: Seq<(PaneId, DaemonPaneId)>,
    daemon: DaemonPaneId,
) -> Seq<(PaneId, DaemonPaneId)> {
    if exists|i: int| 0 <= i < pairs.len() && (#[trigger] pairs[i]).1 == daemon {
        pairs.remove(choose|i: int| 0 <= i < pairs.len() && (#[trigger] pairs[i]).1 == daemon)
    } else {
        pairs
    }
}

/// The pairs with `local` and `daemon` paired, and no other pair of either.
pub open spec fn with_pair(
    pairs: Seq<(PaneId, DaemonPaneId)>,
    local: PaneId,
    daemon: DaemonPaneId,
) -> Seq<(PaneId, DaemonPaneId)> {
    without_daemon(without_local(pairs, local), daemon).push((local, daemon))
}

/// Pairing two panes leaves exactly the pairs that have neither of them, in their
/// order, and puts the new pair behind them.
pub proof fn law_pair_put_in(
    pairs: Seq<(PaneId, DaemonPaneId)>,
    local: PaneId,
    daemon: DaemonPaneId,
)
    requires
        paired(pairs),
    ensures
        with_pair(pairs, local, daemon) == pairs.filter(
            |p: (PaneId, DaemonPaneId)| p.0 != local && p.1 != daemon,
        ).push((local, daemon)),
        paired(with_pair(pairs, local, daemon)),
        forall|p: (PaneId, DaemonPaneId)| #[trigger]
            with_pair(pairs, local, daemon).contains(p) <==> p == (local, daemon) || (
            pairs.contains(p) && p.0 != local && p.1 != daemon),
{
    let keep = |p: (PaneId, DaemonPaneId)| p.0 != local && p.1 != daemon;
    let not_local = |p: (PaneId, DaemonPaneId)| p.0 != local;
    let not_daemon = |p: (PaneId, DaemonPaneId)| p.1 != daemon;
    law_pair_taken_out(pairs, local, daemon);
    let rest = without_local(pairs, local);
    law_pair_taken_out(rest, local, daemon);
    let both = without_daemon(rest, daemon);
    lemma_filter_twice(pairs, not_local, not_daemon, keep);
    assert(both == pairs.filter(keep));
    lemma_filtered(pairs, keep);
    assert forall|k: int| 0 <= k < both.len() implies (#[trigger] both[k]).0 != local && both[k].1
        != daemon by {
        assert(keep(both[k]));
    }
    lemma_pair_behind(both, local, daemon);
    assert forall|p: (PaneId, DaemonPaneId)| #[trigger] both.contains(p) <==> pairs.contains(p)
        && p.0 != local && p.1 != daemon by {
        assert(keep(p) == (p.0 != local && p.1 != daemon));
    }
}

proof fn lemma_filtered<A>(s: Seq<A>, p: spec_fn(A) -> bool)
    ensures
        forall|k: int| 0 <= k < s.filter(p).len() ==> p(#[trigger] s.filter(p)[k]),
        forall|x: A| #[trigger] s.filter(p).contains(x) <==> s.contains(x) && p(x),
    decreases s.len(),
{
    reveal(Seq::filter);
    let f = s.filter(p);
    if s.len() > 0 {
        let rest = s.drop_last();
        let g = rest.filter(p);
        lemma_filtered(rest, p);
        assert forall|x: A| #[trigger] f.contains(x) <==> s.contains(x) && p(x) by {
            if f.contains(x) {
                let k = choose|k: int| 0 <= k < f.len() && f[k] == x;
                if k < g.len() {
                    assert(g[k] == x);
                    assert(g.contains(x));
                    let j = choose|j: int| 0 <= j < rest.len() && rest[j] == x;
                    assert(s[j] == x);
                } else {
                    assert(s[s.len() - 1] == x);
                }
            }
            if s.contains(x) && p(x) {
                let k = choose|k: int| 0 <= k < s.len() && s[k] == x;
                if k < rest.len() {
                    assert(rest[k] == x);
                    assert(g.contains(x));
                    let j = choose|j: int| 0 <= j < g.len() && g[j] == x;
                    assert(f[j] == x);
                } else {
                    assert(f[f.len() - 1] == x);
                }
            }
        }
        assert forall|k: int| 0 <= k < f.len() implies p(#[trigger] f[k]) by {
            if k < g.len() {
                assert(p(g[k]));
            }
        }
    }
}

/// A pair put behind others that have neither of its panes.
proof fn lemma_pair_behind(both: Seq<(PaneId, DaemonPaneId)>, local: PaneId, daemon: DaemonPaneId)
    requires
        paired(both),
        forall|k: int| 0 <= k < both.len() ==> (#[trigger] both[k]).0 != local,
        forall|k: int| 0 <= k < both.len() ==> (#[trigger] both[k]).1 != daemon,
    ensures
        paired(both.push((local, daemon))),
        forall|p: (PaneId, DaemonPaneId)| #[trigger]
            both.push((local, daemon)).contains(p) <==> p == (local, daemon) || both.contains(p),
{
    let after = both.push((local, daemon));
    assert forall|i: int, j: int| 0 <= i < j < after.len() implies (#[trigger] after[i]).0 != (
    #[trigger] after[j]).0 && after[i].1 != after[j].1 by {
        assert(after[i] == both[i]);
        if j < both.len() {
            assert(after[j] == both[j]);
        }
    }
    assert forall|p: (PaneId, DaemonPaneId)| #[trigger] after.contains(p) <==> p == (local, daemon)
        || both.contains(p) by {
        if after.contains(p) {
            let k = choose|k: int| 0 <= k < after.len() && after[k] == p;
            if k < both.len() {
                assert(both[k] == p);
            }
        }
        if p == (local, daemon) {
            assert(after[both.len() as int] == p);
        }
        if both.contains(p) {
            let k = choose|k: int| 0 <= k < both.len() && both[k] == p;
            assert(after[k] == p);
        }
    }
}

proof fn lemma_filter_twice<A>(
    s: Seq<A>,
    p: spec_fn(A) -> bool,
    q: spec_fn(A) -> bool,
    both: spec_fn(A) -> bool,
)
    requires
        forall|x: A| #[trigger] both(x) == (p(x) && q(x)),
    ensures
        s.filter(p).filter(q) == s.filter(both),
    decreases s.len(),
{
    reveal(Seq::filter);
    if s.len() > 0 {
        lemma_filter_twice(s.drop_last(), p, q, both);
        let x = s.last();
        let head = s.drop_last().filter(p);
        assert(both(x) == (p(x) && q(x)));
        if p(x) {
            assert(head.push(x).drop_last() =~= head);
        }
    }
}

/// Taking the pair of a pane out leaves exactly the others, in their order.
pub proof fn law_pair_taken_out(
    pairs: Seq<(PaneId, DaemonPaneId)>,
    local: PaneId,
    daemon: DaemonPaneId,
)
    requires
        paired(pairs),
    ensures
        without_local(pairs, local) == pairs.filter(|p: (PaneId, DaemonPaneId)| p.0 != local),
        without_daemon(pairs, daemon) == pairs.filter(|p: (PaneId, DaemonPaneId)| p.1 != daemon),
        paired(without_local(pairs, local)),
        paired(without_daemon(pairs, daemon)),
{
    let not_local = |p: (PaneId, DaemonPaneId)| p.0 != local;
    let not_daemon = |p: (PaneId, DaemonPaneId)| p.1 != daemon;
    if exists|i: int| 0 <= i < pairs.len() && (#[trigger] pairs[i]).0 == local {
        let i = choose|i: int| 0 <= i < pairs.len() && (#[trigger] pairs[i]).0 == local;
        lemma_removed(pairs, i);
        lemma_filter_but_one(pairs, not_local, i);
    } else {
        lemma_filter_all(pairs, not_local);
    }
    if exists|i: int| 0 <= i < pairs.len() && (#[trigger] pairs[i]).1 == daemon {
        let i = choose|i: int| 0 <= i < pairs.len() && (#[trigger] pairs[i]).1 == daemon;
        lemma_removed(pairs, i);
        lemma_filter_but_one(pairs, not_daemon, i);
    } else {
        lemma_filter_all(pairs, not_daemon);
    }
}

proof fn lemma_filter_all<A>(s: Seq<A>, p: spec_fn(A) -> bool)
    requires
        forall|i: int| 0 <= i < s.len() ==> p(#[trigger] s[i]),
    ensures
        s.filter(p) == s,
    decreases s.len(),
{
    reveal(Seq::filter);
    if s.len() > 0 {
        let rest = s.drop_last();
        assert forall|i: int| 0 <= i < rest.len() implies p(#[trigger] rest[i]) by {
            assert(rest[i] == s[i]);
        }
        lemma_filter_all(rest, p);
        assert(p(s[s.len() - 1]));
        assert(rest.push(s.last()) =~= s);
    }
}

proof fn lemma_filter_but_one<A>(s: Seq<A>, p: spec_fn(A) -> bool, k: int)
    requires
        0 <= k < s.len(),
        forall|i: int| 0 <= i < s.len() ==> p(#[trigger] s[i]) == (i != k),
    ensures
        s.filter(p) == s.remove(k),
    decreases s.len(),
{
    reveal(Seq::filter);
    let rest = s.drop_last();
    assert forall|i: int| 0 <= i < rest.len() implies p(#[trigger] rest[i]) == (i != k) by {
        assert(rest[i] == s[i]);
    }
    assert(p(s[s.len() - 1]) == (s.len() - 1 != k));
    if k == s.len() - 1 {
        lemma_filter_all(rest, p);
        assert(s.remove(k) =~= rest);
    } else {
        lemma_filter_but_one(rest, p, k);
        assert(rest.remove(k).push(s.last()) =~= s.remove(k));
    }
}

/// The daemon's pane that is shown for longest, but for one, is that of the first
/// pair with another.
pub proof fn law_oldest_other(map: PaneIdMap, excluded: Option<DaemonPaneId>, from: int)
    requires
        0 <= from <= map.pairs@.len(),
    ensures
        match map.other_from(excluded, from) {
            Some(d) => excluded != Some(d) && exists|i: int|
                from <= i < map.pairs@.len() && (#[trigger] map.pairs@[i]).1 == d && forall|j: int|
                    from <= j < i ==> excluded == Some((#[trigger] map.pairs@[j]).1),
            None => forall|j: int|
                from <= j < map.pairs@.len() ==> excluded == Some((#[trigger] map.pairs@[j]).1),
        },
    decreases map.pairs@.len() - from,
{
    if from < map.pairs@.len() {
        if excluded == Some(map.pairs@[from].1) {
            law_oldest_other(map, excluded, from + 1);
            if let Some(d) = map.other_from(excluded, from) {
                let i = choose|i: int|
                    from + 1 <= i < map.pairs@.len() && (#[trigger] map.pairs@[i]).1 == d
                        && forall|j: int|
                        from + 1 <= j < i ==> excluded == Some((#[trigger] map.pairs@[j]).1);
                assert(map.pairs@[i].1 == d);
            }
        } else {
            assert(map.pairs@[from].1 == map.other_from(excluded, from)->0);
        }
    }
}

/// Taking the pair of one pane out leaves what the others show.
pub proof fn lemma_daemon_kept(pairs: Seq<(PaneId, DaemonPaneId)>, local: PaneId, other: PaneId)
    requires
        paired(pairs),
        other != local,
    ensures
        daemon_of(without_local(pairs, local), other) == daemon_of(pairs, other),
{
    if exists|i: int| 0 <= i < pairs.len() && (#[trigger] pairs[i]).0 == local {
        let i = choose|i: int| 0 <= i < pairs.len() && (#[trigger] pairs[i]).0 == local;
        lemma_removed(pairs, i);
    }
}

/// Taking one pair out leaves the others.
proof fn lemma_removed(pairs: Seq<(PaneId, DaemonPaneId)>, i: int)
    requires
        paired(pairs),
        0 <= i < pairs.len(),
    ensures
        paired(pairs.remove(i)),
        without_local(pairs, pairs[i].0) == pairs.remove(i),
        without_daemon(pairs, pairs[i].1) == pairs.remove(i),
        daemon_of(pairs.remove(i), pairs[i].0) is None,
        forall|l: PaneId|
            l != pairs[i].0 ==> #[trigger] daemon_of(pairs.remove(i), l) == daemon_of(pairs, l),
{
    let rest = pairs.remove(i);
    assert forall|k: int| 0 <= k < rest.len() implies #[trigger] rest[k] == (if k < i {
        pairs[k]
    } else {
        pairs[k + 1]
    }) by {}
    assert forall|a: int, b: int| 0 <= a < b < rest.len() implies (#[trigger] rest[a]).0 != (
    #[trigger] rest[b]).0 && rest[a].1 != rest[b].1 by {
        let x = if a < i { a } else { a + 1 };
        let y = if b < i { b } else { b + 1 };
        assert(pairs[x].0 != pairs[y].0 && pairs[x].1 != pairs[y].1);
    }
    let j = choose|j: int| 0 <= j < pairs.len() && (#[trigger] pairs[j]).0 == pairs[i].0;
    assert(pairs[j].0 == pairs[i].0);
    assert(j == i);
    let d = choose|d: int| 0 <= d < pairs.len() && (#[trigger] pairs[d]).1 == pairs[i].1;
    assert(pairs[d].1 == pairs[i].1);
    assert(d == i);
    assert forall|k: int| 0 <= k < rest.len() implies (#[trigger] rest[k]).0 != pairs[i].0 by {
        let x = if k < i { k } else { k + 1 };
        assert(pairs[x].0 != pairs[i].0);
    }
    assert forall|l: PaneId| l != pairs[i].0 implies #[trigger] daemon_of(rest, l) == daemon_of(
        pairs,
        l,
    ) by {
        if exists|k: int| 0 <= k < pairs.len() && (#[trigger] pairs[k]).0 == l {
            let k = choose|k: int| 0 <= k < pairs.len() && (#[trigger] pairs[k]).0 == l;
            let x = if k < i { k } else { k - 1 };
            assert(rest[x] == pairs[k]);
            lemma_at(rest, x);
            lemma_at(pairs, k);
        } else {
            assert forall|k: int| 0 <= k < rest.len() implies (#[trigger] rest[k]).0 != l by {
                let x = if k < i { k } else { k + 1 };
                assert(pairs[x].0 != l);
            }
        }
    }
}

/// Any pane of the daemon that is shown is the one that is shown for longest; none is
/// where no pair is.
pub proof fn law_oldest(map: PaneIdMap)
    ensures
        map.any() is None <==> map.pairs@.len() == 0,
        map.any() == map.other_from(None, 0),
        map.any() matches Some(d) ==> map.pairs@[0].1 == d,
{
}

} // verus!
