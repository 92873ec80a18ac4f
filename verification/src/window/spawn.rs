//! Opening several panes in a row, with one layout at the end.
use super::remote;
use super::split::SplitStep;
use super::{App, DaemonSplitOnComplete, Effect};
use crate::ids::DaemonPaneId;
use crate::layout::{LayoutNode, PaneId, PaneState, SplitDirection};
use vstd::prelude::*;

verus! {

/// What is needed next to open several panes.
#[derive(Debug, PartialEq, Eq)]
pub enum SpawnStep {
    Done,
    /// The first of `left` panes is to be opened, by a split.
    Split { left: usize, step: SplitStep },
}

impl App {
    /// `self` is `old` once the next of `n` panes was started, and `r` is what is
    /// needed next. Zoom is left first, so that the new pane joins the whole tree;
    /// the panes are laid out only at the end.
    pub open spec fn spawn_started<C>(self, old: App, n: usize, suited: C, r: SpawnStep) -> bool
        where C: Fn(PaneId, SplitDirection) -> SplitDirection
     {
        let mid = old.unzoomed_app();
        let goal = DaemonSplitOnComplete::FocusAndRelayout;
        if n == 0 || old.workspaces is None {
            r == SpawnStep::Done && self == old
        } else {
            match mid.focus() {
                Some(source) if mid.shows(source) => exists|d: SplitDirection|
                    {
                        &&& #[trigger] call_ensures(
                            suited,
                            (source, old.last_split_direction.flipped()),
                            d,
                        )
                        &&& r == (SpawnStep::Split {
                            left: n,
                            step: mid.split_step(source, d, goal),
                        })
                        &&& self.only_added(mid, mid.split_effects(source, goal))
                    },
                _ => r == (SpawnStep::Split { left: n, step: SplitStep::Done }) && self == mid,
            }
        }
    }

    /// Starts the next of `n` panes that are to be opened one after the other, each
    /// by a split of the focused one in the direction that `suited` gives. Without
    /// a workspace there is nothing to split.
    pub fn spawn_n_panes<C>(&mut self, n: usize, suited: C) -> (r: SpawnStep) where
        C: Fn(PaneId, SplitDirection) -> SplitDirection,

        requires
            old(self).wf(),
            forall|p: PaneId, d: SplitDirection| call_requires(suited, (p, d)),
        ensures
            final(self).wf(),
            final(self).spawn_started(*old(self), n, suited, r),
    {
        if n == 0 || self.workspaces.is_none() {
            return SpawnStep::Done;
        }
        self.leave_zoom_quietly();
        let source: PaneId = match self.focused_pane() {
            Some(id) => id,
            None => {
                return SpawnStep::Split { left: n, step: SplitStep::Done };
            },
        };
        if !self.is_shown(source) {
            return SpawnStep::Split { left: n, step: SplitStep::Done };
        }
        let direction = suited(source, self.last_split_direction.other());
        let step = self.split_focused_pane(direction);
        SpawnStep::Split { left: n, step }
    }

    /// The effects of ending one of `left` panes: the last has the panes laid out
    /// and the workspaces published.
    pub open spec fn spawn_end_effects(left: usize) -> Seq<Effect> {
        if left == 1 {
            seq![Effect::RelayoutAndRedraw, Effect::PublishWorkspaceState]
        } else {
            seq![]
        }
    }

    /// Ends one of `left` panes; gives how many are left then.
    pub fn end_spawn_step(&mut self, left: usize) -> (r: usize)
        requires
            left > 0,
        ensures
            r == left - 1,
            final(self).only_added(*old(self), App::spawn_end_effects(left)),
    {
        if left == 1 {
            self.emit(Effect::RelayoutAndRedraw);
            self.emit(Effect::PublishWorkspaceState);
        }
        assert(self.effects@ =~= old(self).effects@ + App::spawn_end_effects(left));
        left - 1
    }

    /// `self` is `old` with `pane` shown in the new half of `source` and focused,
    /// as one of `left` panes.
    pub open spec fn spawned_from(
        self,
        old: App,
        left: usize,
        source: PaneId,
        direction: SplitDirection,
        pane: PaneState,
    ) -> bool {
        &&& self == (App {
            workspaces: App::with_focus(
                App::split_workspaces(old.workspaces, source, direction, pane),
                Some(pane.id),
            ),
            last_split_direction: direction,
            effects: self.effects,
            ..old
        })
        &&& self.effects@ == old.effects@ + old.select_effects(Some(pane.id))
            + App::spawn_end_effects(left)
    }

    /// Ends one of `left` panes without the daemon, with the pane that was started;
    /// gives how many are left then.
    pub fn finish_spawn_step(
        &mut self,
        left: usize,
        source: PaneId,
        direction: SplitDirection,
        spawned: Option<PaneState>,
    ) -> (r: usize)
        requires
            old(self).wf(),
            left > 0,
        ensures
            final(self).wf(),
            r == left - 1,
            match spawned {
                Some(pane) if old(self).shows(source) => final(self).spawned_from(
                    *old(self),
                    left,
                    source,
                    direction,
                    pane,
                ),
                _ => final(self).only_added(
                    *old(self),
                    seq![Effect::RequestRedraw] + App::spawn_end_effects(left),
                ),
            },
    {
        if let Some(pane) = spawned {
            let new_id: PaneId = pane.id;
            if self.mount(source, direction, pane) {
                self.last_split_direction = direction;
                self.set_focused_pane(Some(new_id));
                return self.end_spawn_step(left);
            }
        }
        self.emit(Effect::RequestRedraw);
        proof {
            lemma_one_after_the_other(
                old(self).effects@,
                seq![Effect::RequestRedraw],
                App::spawn_end_effects(left),
            );
        }
        self.end_spawn_step(left)
    }

    /// `self` is `old` with `pane`, which shows the daemon's new one, in the new
    /// half of `source` and focused, as one of `left` panes.
    pub open spec fn spawn_mounted_from(
        self,
        old: App,
        left: usize,
        source: PaneId,
        direction: SplitDirection,
        pane: PaneState,
        daemon_pane: DaemonPaneId,
    ) -> bool {
        &&& self.mounted_from(old, source, direction, pane, daemon_pane, true)
        &&& self.swarm_panes == old.swarm_panes
        &&& self.effects@ == old.effects@ + old.follow_effects(daemon_pane)
            + App::spawn_end_effects(left)
    }

    /// Ends one of `left` panes of the daemon, with the pane that shows the new
    /// one, if it could be made; gives how many are left then.
    pub fn finish_spawn_mount(
        &mut self,
        left: usize,
        source: PaneId,
        direction: SplitDirection,
        daemon_pane: DaemonPaneId,
        built: Option<PaneState>,
    ) -> (r: usize)
        requires
            old(self).wf(),
            left > 0,
        ensures
            final(self).wf(),
            r == left - 1,
            match built {
                Some(pane) if old(self).shows(source) => final(self).spawn_mounted_from(
                    *old(self),
                    left,
                    source,
                    direction,
                    pane,
                    daemon_pane,
                ),
                _ => final(self).only_added(
                    *old(self),
                    old(self).orphan_effects(daemon_pane) + App::spawn_end_effects(left),
                ),
            },
    {
        if let Some(pane) = built {
            let new_id: PaneId = pane.id;
            if self.mount(source, direction, pane) {
                self.pane_id_map.insert(new_id, daemon_pane);
                self.scrollback_compact_countdown = remote::COMPACT_COUNTDOWN;
                self.last_split_direction = direction;
                self.set_focused_pane(Some(new_id));
                return self.end_spawn_step(left);
            }
        }
        self.give_up_orphan(daemon_pane);
        proof {
            lemma_one_after_the_other(
                old(self).effects@,
                old(self).orphan_effects(daemon_pane),
                App::spawn_end_effects(left),
            );
        }
        self.end_spawn_step(left)
    }

    /// How many panes the screen shows.
    pub open spec fn shown_count(&self) -> nat {
        match self.workspaces {
            Some(w) => w.layout.panes().len(),
            None => 0,
        }
    }
}

proof fn lemma_one_after_the_other(effects: Seq<Effect>, a: Seq<Effect>, b: Seq<Effect>)
    ensures
        (effects + a) + b == effects + (a + b),
{
    assert((effects + a) + b =~= effects + (a + b));
}

/// How often the panes are to be laid out.
pub open spec fn relayouts(effects: Seq<Effect>) -> nat
    decreases effects.len(),
{
    if effects.len() == 0 {
        0
    } else {
        relayouts(effects.drop_last()) + (if effects.last() is RelayoutAndRedraw {
            1nat
        } else {
            0nat
        })
    }
}

proof fn lemma_relayouts_concat(a: Seq<Effect>, b: Seq<Effect>)
    ensures
        relayouts(a + b) == relayouts(a) + relayouts(b),
    decreases b.len(),
{
    if b.len() == 0 {
        assert(a + b =~= a);
    } else {
        assert((a + b).drop_last() =~= a + b.drop_last());
        lemma_relayouts_concat(a, b.drop_last());
    }
}

/// The next of `left` panes was opened from `old` to `new`: zoom was left, what was
/// done on the way laid nothing out, and the focused pane was split, in the window
/// or through the daemon.
pub open spec fn opened(old: App, new: App, left: usize) -> bool {
    exists|started: App| #[trigger]
        ready(old, started) && (opened_here(started, new, left) || opened_there(
            started,
            new,
            left,
        ))
}

/// `started` is `old` with zoom left and maybe more to do, but nothing to lay out.
pub open spec fn ready(old: App, started: App) -> bool {
    &&& started == (App { effects: started.effects, ..old.unzoomed_app() })
    &&& relayouts(started.effects@) == relayouts(old.effects@)
}

/// The focused pane of `started` was split in the window.
pub open spec fn opened_here(started: App, new: App, left: usize) -> bool {
    exists|source: PaneId, direction: SplitDirection, pane: PaneState|
        started.focus() == Some(source) && started.shows(source) && #[trigger] new.spawned_from(
            started,
            left,
            source,
            direction,
            pane,
        )
}

/// The focused pane of `started` was split through the daemon.
pub open spec fn opened_there(started: App, new: App, left: usize) -> bool {
    exists|source: PaneId, direction: SplitDirection, pane: PaneState, daemon_pane: DaemonPaneId|
        started.focus() == Some(source) && started.shows(source)
            && #[trigger] new.spawn_mounted_from(
            started,
            left,
            source,
            direction,
            pane,
            daemon_pane,
        )
}

/// A split tree is no single pane.
proof fn lemma_split_is_no_leaf(t: LayoutNode, id: PaneId, node: LayoutNode)
    requires
        node is Split,
        t.has(id),
    ensures
        t.replaced(id, node) is Split,
{
}

/// `new` shows one pane more than `old`, and never a single one, and has the panes
/// laid out iff it was the last.
spec fn opened_one(old: App, new: App, left: usize) -> bool {
    &&& new.shown_count() == old.shown_count() + 1
    &&& new.workspaces matches Some(w) && w.layout is Split
    &&& relayouts(new.effects@) == relayouts(old.effects@) + (if left == 1 {
        1nat
    } else {
        0nat
    })
    &&& left == 1 ==> new.effects@.len() >= 2 && new.effects@[new.effects@.len() - 2]
        == Effect::RelayoutAndRedraw
}

proof fn lemma_end_relayouts(left: usize)
    ensures
        relayouts(App::spawn_end_effects(left)) == (if left == 1 {
            1nat
        } else {
            0nat
        }),
{
    reveal_with_fuel(relayouts, 3);
    if left == 1 {
        assert(App::spawn_end_effects(left).drop_last() =~= seq![Effect::RelayoutAndRedraw]);
    }
}

/// The effects of opening one of `left` panes lay the panes out iff it is the last.
proof fn lemma_opened_effects(before: Seq<Effect>, told: Seq<Effect>, left: usize)
    requires
        told.len() <= 1,
        told.len() == 1 ==> !(told[0] is RelayoutAndRedraw),
    ensures
        ({
            let after = before + told + App::spawn_end_effects(left);
            &&& relayouts(after) == relayouts(before) + (if left == 1 {
                1nat
            } else {
                0nat
            })
            &&& left == 1 ==> after.len() >= 2 && after[after.len() - 2]
                == Effect::RelayoutAndRedraw
        }),
{
    let end = App::spawn_end_effects(left);
    lemma_end_relayouts(left);
    reveal_with_fuel(relayouts, 2);
    lemma_relayouts_concat(before, told);
    lemma_relayouts_concat(before + told, end);
}

/// A split shows one pane more, and never a single one.
proof fn lemma_counts(app: App, source: PaneId, direction: SplitDirection, pane: PaneState)
    requires
        app.shows(source),
    ensures
        ({
            let split = App::split_workspaces(app.workspaces, source, direction, pane)->0;
            &&& split.layout.panes().len() == app.shown_count() + 1
            &&& split.layout is Split
        }),
{
    let t = app.workspaces->0.layout;
    crate::layout_ops::law_split_adds_one(t, source, direction, pane);
    lemma_split_is_no_leaf(
        t,
        source,
        LayoutNode::split_of(t.pane(source)->0, direction, pane),
    );
}

proof fn lemma_opened_here(started: App, new: App, left: usize)
    requires
        opened_here(started, new, left),
    ensures
        opened_one(started, new, left),
{
    let (source, direction, pane) = choose|
        source: PaneId,
        direction: SplitDirection,
        pane: PaneState,
    |
        started.focus() == Some(source) && started.shows(source) && #[trigger] new.spawned_from(
            started,
            left,
            source,
            direction,
            pane,
        );
    lemma_opened_effects(started.effects@, started.select_effects(Some(pane.id)), left);
    lemma_counts(started, source, direction, pane);
}

proof fn lemma_opened_there(started: App, new: App, left: usize)
    requires
        opened_there(started, new, left),
    ensures
        opened_one(started, new, left),
{
    let (source, direction, pane, daemon_pane) = choose|
        source: PaneId,
        direction: SplitDirection,
        pane: PaneState,
        daemon_pane: DaemonPaneId,
    |
        started.focus() == Some(source) && started.shows(source)
            && #[trigger] new.spawn_mounted_from(
            started,
            left,
            source,
            direction,
            pane,
            daemon_pane,
        );
    lemma_opened_effects(started.effects@, started.follow_effects(daemon_pane), left);
    lemma_counts(started, source, direction, pane);
}

proof fn lemma_opened(old: App, new: App, left: usize)
    requires
        opened(old, new, left),
    ensures
        opened_one(old.unzoomed_app(), new, left),
{
    let started = choose|started: App| #[trigger]
        ready(old, started) && (opened_here(started, new, left) || opened_there(
            started,
            new,
            left,
        ));
    if opened_here(started, new, left) {
        lemma_opened_here(started, new, left);
    } else {
        lemma_opened_there(started, new, left);
    }
}

/// Starting a pane of a run lays nothing out, and one that is to be opened is next
/// to the focused pane.
pub proof fn law_started_is_ready<C>(old: App, started: App, n: usize, suited: C, step: SplitStep)
    where C: Fn(PaneId, SplitDirection) -> SplitDirection
    requires
        n > 0,
        old.workspaces is Some,
        started.spawn_started(old, n, suited, SpawnStep::Split { left: n, step }),
    ensures
        ready(old, started),
        match step {
            SplitStep::SpawnLocal { source, .. } => started.focus() == Some(source)
                && started.shows(source),
            SplitStep::AskDaemon { source, .. } => started.focus() == Some(source)
                && started.shows(source),
            SplitStep::Done => true,
        },
{
    let mid = old.unzoomed_app();
    let goal = DaemonSplitOnComplete::FocusAndRelayout;
    if mid.focus() is Some && mid.shows(mid.focus()->0) {
        let told = mid.split_effects(mid.focus()->0, goal);
        assert(relayouts(told) == 0) by {
            reveal_with_fuel(relayouts, 2);
        }
        lemma_relayouts_concat(mid.effects@, told);
    }
}

/// The panes of `states` were opened one after the other, `n` in all.
pub open spec fn opened_at(states: Seq<App>, n: usize, i: int) -> bool {
    opened(states[i], states[i + 1], (n - i) as usize)
}

proof fn lemma_run(states: Seq<App>, n: usize, k: int)
    requires
        states.len() == n + 1,
        forall|i: int| 0 <= i < n ==> #[trigger] opened_at(states, n, i),
        0 <= k <= n,
    ensures
        states[k].unzoomed_app().shown_count() == states[0].unzoomed_app().shown_count() + k,
        relayouts(states[k].effects@) == relayouts(states[0].effects@) + (if k == n && n > 0 {
            1nat
        } else {
            0nat
        }),
    decreases k,
{
    if k > 0 {
        lemma_run(states, n, k - 1);
        assert(opened_at(states, n, k - 1));
        lemma_opened(states[k - 1], states[k], (n - (k - 1)) as usize);
    }
}

/// After `n` panes were opened in a row the screen shows `n` panes more than the
/// whole tree had before, and the panes were laid out once, behind the last one.
pub proof fn law_n_panes_one_relayout(states: Seq<App>, n: usize)
    requires
        n > 0,
        states.len() == n + 1,
        forall|i: int| 0 <= i < n ==> #[trigger] opened_at(states, n, i),
    ensures
        states[n as int].shown_count() == states[0].unzoomed_app().shown_count() + n,
        relayouts(states[n as int].effects@) == relayouts(states[0].effects@) + 1,
        forall|k: int|
            0 <= k < n ==> relayouts((#[trigger] states[k]).effects@) == relayouts(
                states[0].effects@,
            ),
        ({
            let effects = states[n as int].effects@;
            effects.len() >= 2 && effects[effects.len() - 2] == Effect::RelayoutAndRedraw
        }),
{
    lemma_run(states, n, n as int);
    assert(opened_at(states, n, n - 1));
    lemma_opened(states[n - 1], states[n as int], 1);
    assert forall|k: int| 0 <= k < n implies relayouts((#[trigger] states[k]).effects@)
        == relayouts(states[0].effects@) by {
        lemma_run(states, n, k);
    }
}

} // verus!
