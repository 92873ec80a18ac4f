//! Panes for subagents, and what a pane reports to the event loop.
use super::close::CloseStep;
use super::tile;
use super::{App, Effect};
use crate::layout::{LayoutNode, PaneId, PaneState, SplitDirection};
use crate::text;
use vstd::prelude::*;

verus! {

/// What was seen of a subagent.
#[derive(Debug, PartialEq, Eq)]
pub enum SwarmWatcherEvent {
    /// It works, and writes a transcript if `jsonl_path` is there.
    SpawnSubagent { agent_id: String, jsonl_path: Option<String> },
    /// It is done.
    ReclaimSubagent { agent_id: String },
}

/// What is needed next for a subagent.
#[derive(Debug, PartialEq, Eq)]
pub enum SubagentStep {
    Done,
    /// A pane is to be made in a split of `source`: one that follows the
    /// transcript, or without one a shell.
    Spawn {
        agent_id: String,
        jsonl_path: Option<String>,
        source: PaneId,
        direction: SplitDirection,
    },
    /// The subagent's pane is being closed.
    Close { pane: PaneId, step: CloseStep },
}

/// An event of the window's own.
#[derive(Debug, PartialEq, Eq)]
pub enum UserEvent {
    PtyOutput,
    PaneExited(PaneId),
    Bell(PaneId),
    DesktopNotification { title: String, body: String, source: NotificationSource },
    SwarmWatcherTick,
}

/// Where a notification is from.
#[derive(Debug, Clone, Copy, PartialEq, Eq, Structural)]
pub enum NotificationSource {
    Osc9,
}

/// The events that a pane sends.
#[derive(Debug, PartialEq, Eq)]
pub struct PaneCallbacks {
    pub wake: UserEvent,
    pub on_exit: UserEvent,
    pub on_bell: UserEvent,
}

/// The events that the pane `pane_id` sends.
pub fn make_pane_callbacks(pane_id: PaneId) -> (r: PaneCallbacks)
    ensures
        r == (PaneCallbacks {
            wake: UserEvent::PtyOutput,
            on_exit: UserEvent::PaneExited(pane_id),
            on_bell: UserEvent::Bell(pane_id),
        }),
{
    PaneCallbacks {
        wake: UserEvent::PtyOutput,
        on_exit: UserEvent::PaneExited(pane_id),
        on_bell: UserEvent::Bell(pane_id),
    }
}

/// The event by which a pane notifies the user.
pub fn notification_event(body: String) -> (r: UserEvent)
    ensures
        r matches UserEvent::DesktopNotification { title, body: b, source } && title@
            == "Therminal"@ && b == body && source == NotificationSource::Osc9,
{
    UserEvent::DesktopNotification {
        title: String::from_str("Therminal"),
        body,
        source: NotificationSource::Osc9,
    }
}

/// The session of the agent in a pane, as a text.
pub open spec fn session_of(p: PaneState) -> Option<Seq<char>> {
    match p.claude_session_id {
        Some(s) => Some(s@),
        None => None,
    }
}

/// Whether one of the panes runs the agent session `s`.
pub open spec fn runs_session(panes: Seq<PaneState>, s: Seq<char>) -> bool {
    exists|i: int| 0 <= i < panes.len() && session_of(#[trigger] panes[i]) == Some(s)
}

/// No text occurs twice.
pub open spec fn no_duplicates(v: Seq<Seq<char>>) -> bool {
    forall|i: int, j: int| 0 <= i < j < v.len() ==> v[i] != v[j]
}

/// Adds a text to a list that has each once.
fn add_unique(out: &mut Vec<String>, s: &String)
    requires
        no_duplicates(text::texts(old(out)@)),
    ensures
        no_duplicates(text::texts(final(out)@)),
        forall|t: Seq<char>| #[trigger]
            text::texts(final(out)@).contains(t) <==> (text::texts(old(out)@).contains(t) || t
                == s@),
{
    let mut i: usize = 0;
    while i < out.len()
        invariant
            i <= out@.len(),
            *out == *old(out),
            no_duplicates(text::texts(out@)),
            forall|k: int| 0 <= k < i ==> (#[trigger] out@[k])@ != s@,
        decreases out@.len() - i,
    {
        if text::str_eq(out[i].as_str(), s.as_str()) {
            proof {
                assert(text::texts(out@)[i as int] == s@);
            }
            return;
        }
        i += 1;
    }
    let ghost before = text::texts(out@);
    out.push(s.clone());
    proof {
        let after = text::texts(out@);
        assert(after =~= before.push(s@));
        assert forall|a: int, b: int| 0 <= a < b < after.len() implies after[a] != after[b] by {
            if b == before.len() {
                assert(old(out)@[a]@ != s@);
            } else {
                assert(before[a] != before[b]);
            }
        }
        assert forall|t: Seq<char>| #[trigger] after.contains(t) <==> (before.contains(t) || t
            == s@) by {
            if before.contains(t) {
                let k = choose|k: int| 0 <= k < before.len() && before[k] == t;
                assert(after[k] == t);
            }
            if t == s@ {
                assert(after[before.len() as int] == t);
            }
            if after.contains(t) {
                let k = choose|k: int| 0 <= k < after.len() && after[k] == t;
                if k < before.len() {
                    assert(before[k] == t);
                }
            }
        }
    }
}

/// Adds the agent sessions of a tree to a list that has each once.
fn add_sessions(out: &mut Vec<String>, t: &LayoutNode)
    requires
        no_duplicates(text::texts(old(out)@)),
    ensures
        no_duplicates(text::texts(final(out)@)),
        forall|s: Seq<char>| #[trigger]
            text::texts(final(out)@).contains(s) <==> (text::texts(old(out)@).contains(s)
                || runs_session(t.panes(), s)),
    decreases t,
{
    match t {
        LayoutNode::Leaf(p) => {
            match &p.claude_session_id {
                Some(id) => {
                    add_unique(out, id);
                },
                None => {},
            }
            proof {
                assert(t.panes()[0] == *p);
                assert forall|s: Seq<char>| runs_session(t.panes(), s) <==> session_of(*p) == Some(
                    s,
                ) by {
                    if session_of(*p) == Some(s) {
                        assert(session_of(t.panes()[0]) == Some(s));
                    }
                }
            }
        },
        LayoutNode::Split { first, second, .. } => {
            add_sessions(out, first);
            let ghost mid = text::texts(out@);
            add_sessions(out, second);
            proof {
                assert forall|s: Seq<char>| runs_session(t.panes(), s) <==> (runs_session(
                    first.panes(),
                    s,
                ) || runs_session(second.panes(), s)) by {
                    lemma_runs_concat(first.panes(), second.panes(), s);
                }
                assert forall|s: Seq<char>| #[trigger] text::texts(out@).contains(s) <==> (
                text::texts(old(out)@).contains(s) || runs_session(t.panes(), s)) by {
                    assert(mid.contains(s) <==> (text::texts(old(out)@).contains(s) || runs_session(
                        first.panes(),
                        s,
                    )));
                }
            }
        },
        LayoutNode::Empty => {},
    }
}

proof fn lemma_runs_concat(a: Seq<PaneState>, b: Seq<PaneState>, s: Seq<char>)
    ensures
        runs_session(a + b, s) <==> (runs_session(a, s) || runs_session(b, s)),
{
    let c = a + b;
    if runs_session(a, s) {
        let i = choose|i: int| 0 <= i < a.len() && session_of(#[trigger] a[i]) == Some(s);
        assert(session_of(c[i]) == Some(s));
    }
    if runs_session(b, s) {
        let i = choose|i: int| 0 <= i < b.len() && session_of(#[trigger] b[i]) == Some(s);
        assert(session_of(c[a.len() + i]) == Some(s));
    }
    if runs_session(c, s) {
        let i = choose|i: int| 0 <= i < c.len() && session_of(#[trigger] c[i]) == Some(s);
        if i < a.len() {
            assert(session_of(a[i]) == Some(s));
        } else {
            assert(session_of(b[i - a.len()]) == Some(s));
        }
    }
}

/// Whether a pane of the first `n` trees runs the agent session `s`.
pub open spec fn runs_in(trees: Seq<LayoutNode>, n: int, s: Seq<char>) -> bool {
    exists|k: int| 0 <= k < n && runs_session((#[trigger] trees[k]).panes(), s)
}

impl App {
    /// Whether a pane runs the agent session `s`, on the screen or in one of
    /// the `hidden` workspaces.
    pub open spec fn has_session(&self, hidden: Seq<LayoutNode>, s: Seq<char>) -> bool {
        (self.workspaces matches Some(w) && runs_session(w.layout.panes(), s)) || (
        self.workspaces is Some && runs_in(hidden, hidden.len() as int, s))
    }

    /// The agent sessions that run in any pane, each once. `hidden` are the
    /// trees of the workspaces that are not on the screen.
    pub fn collect_all_claude_session_ids(&self, hidden: &Vec<LayoutNode>) -> (r: Vec<String>)
        ensures
            no_duplicates(text::texts(r@)),
            forall|s: Seq<char>| #[trigger]
                text::texts(r@).contains(s) <==> self.has_session(hidden@, s),
    {
        let mut out: Vec<String> = Vec::new();
        proof {
            assert forall|s: Seq<char>| !#[trigger] text::texts(out@).contains(s) by {}
        }
        match &self.workspaces {
            Some(w) => {
                add_sessions(&mut out, &w.layout);
                let mut i: usize = 0;
                while i < hidden.len()
                    invariant
                        i <= hidden@.len(),
                        no_duplicates(text::texts(out@)),
                        forall|s: Seq<char>| #[trigger]
                            text::texts(out@).contains(s) <==> (runs_session(w.layout.panes(), s)
                                || runs_in(hidden@, i as int, s)),
                    decreases hidden@.len() - i,
                {
                    let ghost before = text::texts(out@);
                    add_sessions(&mut out, &hidden[i]);
                    proof {
                        assert forall|s: Seq<char>| #[trigger] text::texts(out@).contains(s) <==> (
                        runs_session(w.layout.panes(), s) || runs_in(
                            hidden@,
                            i as int + 1,
                            s,
                        )) by {
                            assert(before.contains(s) <==> (runs_session(w.layout.panes(), s)
                                || runs_in(hidden@, i as int, s)));
                            if runs_in(hidden@, i as int, s) {
                                let k = choose|k: int|
                                    0 <= k < i && runs_session(
                                        (#[trigger] hidden@[k]).panes(),
                                        s,
                                    );
                                assert(runs_session(hidden@[k].panes(), s));
                            }
                            if runs_session(hidden@[i as int].panes(), s) {
                                assert(runs_in(hidden@, i as int + 1, s));
                            }
                            if runs_in(hidden@, i as int + 1, s) {
                                let k = choose|k: int|
                                    0 <= k < i + 1 && runs_session(
                                        (#[trigger] hidden@[k]).panes(),
                                        s,
                                    );
                                if k < i {
                                    assert(runs_in(hidden@, i as int, s));
                                }
                            }
                        }
                    }
                    i += 1;
                }
            },
            None => {},
        }
        out
    }

    /// The event that wakes the window for a subagent, if subagents are
    /// followed.
    pub fn swarm_wake_callback(&self) -> (r: Option<UserEvent>)
        ensures
            r == if self.swarm_debouncer_tx {
                Some(UserEvent::SwarmWatcherTick)
            } else {
                None
            },
    {
        if !self.swarm_debouncer_tx {
            return None;
        }
        Some(UserEvent::SwarmWatcherTick)
    }

    /// Starts to open a pane for a subagent, off the largest one. A subagent
    /// that has a pane gets no second one. Zoom is left first, so that the new
    /// pane joins the whole tree.
    pub fn spawn_subagent_pane<L, C>(
        &mut self,
        agent_id: String,
        jsonl_path: Option<String>,
        largest: L,
        suited: C,
    ) -> (r: SubagentStep) where
        L: Fn(&LayoutNode) -> Option<PaneId>,
        C: Fn(PaneId, SplitDirection) -> SplitDirection,

        requires
            old(self).wf(),
            forall|t: &LayoutNode| call_requires(largest, (t,)),
            forall|p: PaneId, d: SplitDirection| call_requires(suited, (p, d)),
        ensures
            final(self).wf(),
            final(self).subagent_started(
                *old(self),
                agent_id,
                jsonl_path,
                largest,
                suited,
                r,
            ),
    {
        if self.swarm_panes.contains_key(agent_id.as_str()) {
            return SubagentStep::Done;
        }
        self.leave_zoom();
        let found = self.largest_pane(&largest);
        assert(tile::largest_gives(largest, self.workspaces, found));
        let source: PaneId = match found {
            Some(id) => id,
            None => {
                return SubagentStep::Done;
            },
        };
        if !self.has_renderer || !self.is_shown(source) {
            return SubagentStep::Done;
        }
        let direction = self.suited_direction(&suited, source);
        assert(tile::suited_gives(suited, *self, source, direction));
        SubagentStep::Spawn { agent_id, jsonl_path, source, direction }
    }

    /// `self` is `old` once a pane for a subagent was started, and `step` is
    /// what is needed next.
    pub open spec fn subagent_started<L, C>(
        self,
        old: App,
        agent_id: String,
        jsonl_path: Option<String>,
        largest: L,
        suited: C,
        step: SubagentStep,
    ) -> bool where
        L: Fn(&LayoutNode) -> Option<PaneId>,
        C: Fn(PaneId, SplitDirection) -> SplitDirection,
     {
        if old.swarm_panes@.dom().contains(agent_id@) {
            step == SubagentStep::Done && self == old
        } else {
            &&& self.is_unzoomed_from(old)
            &&& exists|found: Option<PaneId>| #[trigger]
                tile::largest_gives(largest, self.workspaces, found) && match found {
                    Some(source) if self.has_renderer && self.shows(source) => exists|
                        d: SplitDirection,
                    | #[trigger]
                        tile::suited_gives(suited, self, source, d) && step == (
                        SubagentStep::Spawn { agent_id, jsonl_path, source, direction: d }),
                    _ => step == SubagentStep::Done,
                }
        }
    }

    /// Ends the opening of a subagent's pane, with the pane if it could be
    /// made. The focus stays where it is.
    pub fn finish_spawn_subagent(
        &mut self,
        agent_id: String,
        source: PaneId,
        direction: SplitDirection,
        spawned: Option<PaneState>,
    )
        requires
            old(self).wf(),
        ensures
            final(self).wf(),
            match spawned {
                Some(pane) if old(self).shows(source) => {
                    &&& *final(self) == (App {
                        workspaces: App::split_workspaces(
                            old(self).workspaces,
                            source,
                            direction,
                            pane,
                        ),
                        swarm_panes: final(self).swarm_panes,
                        effects: final(self).effects,
                        ..*old(self)
                    })
                    &&& final(self).swarm_panes@ == old(self).swarm_panes@.insert(
                        agent_id@,
                        pane.id,
                    )
                    &&& final(self).effects@ == old(self).effects@.push(Effect::RelayoutAndRedraw)
                },
                _ => *final(self) == *old(self),
            },
    {
        if let Some(pane) = spawned {
            let new_id: PaneId = pane.id;
            if !self.is_shown(source) {
                return;
            }
            let _ = self.mount(source, direction, pane);
            self.swarm_panes.insert(agent_id, new_id);
            self.effects.push(Effect::RelayoutAndRedraw);
        }
    }

    /// Starts to close the pane of a subagent that is done; nothing happens for
    /// one that has no pane. Once it is closed the tree is tidied up.
    pub fn reclaim_subagent_pane(&mut self, agent_id: &str, now_ms: u64) -> (r: SubagentStep)
        requires
            old(self).wf(),
        ensures
            final(self).wf(),
            final(self).subagent_reclaimed(*old(self), agent_id@, now_ms, r),
    {
        let pane: PaneId = match self.swarm_panes.remove(agent_id) {
            Some(id) => id,
            None => {
                return SubagentStep::Done;
            },
        };
        let ghost forgotten = *self;
        let step = self.close_pane_by_id(pane, now_ms);
        assert(forgotten.forgets_agent(*old(self), agent_id@));
        assert(self.close_started(forgotten, pane, now_ms, step));
        SubagentStep::Close { pane, step }
    }

    /// `self` is `old` without the subagent `agent`.
    pub open spec fn forgets_agent(self, old: App, agent: Seq<char>) -> bool {
        &&& self == (App { swarm_panes: self.swarm_panes, ..old })
        &&& self.swarm_panes@ == old.swarm_panes@.remove(agent)
    }

    /// `self` is `old` once the close of a subagent's pane was started, and
    /// `step` is what is needed next.
    pub open spec fn subagent_reclaimed(
        self,
        old: App,
        agent: Seq<char>,
        now_ms: u64,
        step: SubagentStep,
    ) -> bool {
        if old.swarm_panes@.dom().contains(agent) {
            let pane = old.swarm_panes@[agent];
            exists|forgotten: App, close: CloseStep| #[trigger]
                forgotten.forgets_agent(old, agent) && #[trigger] self.close_started(
                    forgotten,
                    pane,
                    now_ms,
                    close,
                ) && step == (SubagentStep::Close { pane, step: close })
        } else {
            &&& step == SubagentStep::Done
            &&& self.forgets_agent(old, agent)
        }
    }

    /// Starts what an event of a subagent asks for.
    pub fn poll_swarm_watcher<L, C>(
        &mut self,
        event: SwarmWatcherEvent,
        largest: L,
        suited: C,
        now_ms: u64,
    ) -> (r: SubagentStep) where
        L: Fn(&LayoutNode) -> Option<PaneId>,
        C: Fn(PaneId, SplitDirection) -> SplitDirection,

        requires
            old(self).wf(),
            forall|t: &LayoutNode| call_requires(largest, (t,)),
            forall|p: PaneId, d: SplitDirection| call_requires(suited, (p, d)),
        ensures
            final(self).wf(),
            match event {
                SwarmWatcherEvent::SpawnSubagent { agent_id, jsonl_path } => final(
                    self
                ).subagent_started(*old(self), agent_id, jsonl_path, largest, suited, r),
                SwarmWatcherEvent::ReclaimSubagent { agent_id } => final(self).subagent_reclaimed(
                    *old(self),
                    agent_id@,
                    now_ms,
                    r,
                ),
            },
    {
        match event {
            SwarmWatcherEvent::SpawnSubagent { agent_id, jsonl_path } => self.spawn_subagent_pane(
                agent_id,
                jsonl_path,
                largest,
                suited,
            ),
            SwarmWatcherEvent::ReclaimSubagent { agent_id } => self.reclaim_subagent_pane(
                agent_id.as_str(),
                now_ms,
            ),
        }
    }
}

/// Texts that are said to occur once have no duplicates.
pub proof fn law_no_text_twice(v: Seq<Seq<char>>)
    ensures
        no_duplicates(v) <==> v.no_duplicates(),
{
}

} // verus!
