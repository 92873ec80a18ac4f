//! Panes that open and close by themselves, with the activity of agents.
use super::close::CloseStep;
use super::split::SplitStep;
use super::{App, DaemonSplitOnComplete, Effect, Workspaces};
use crate::layout::{LayoutNode, PaneId, PaneState, SplitDirection};
use vstd::prelude::*;

verus! {

/// What the activity of an agent asks for.
#[derive(Debug, Clone, Copy, PartialEq, Eq, Structural)]
pub enum AutoTileAction {
    /// A pane for what the agent in `parent_pane_id` does.
    Split { parent_pane_id: PaneId },
    /// The pane is no longer needed.
    Reclaim { pane_id: PaneId },
}

/// What is needed next for such an action.
#[derive(Debug, PartialEq, Eq)]
pub enum TileStep {
    Split { parent: PaneId, step: SplitStep },
    Close { pane: PaneId, step: CloseStep },
}

/// Whether `largest` can give `found` of the tree.
pub open spec fn largest_gives<L: Fn(&LayoutNode) -> Option<PaneId>>(
    largest: L,
    w: Option<Workspaces>,
    found: Option<PaneId>,
) -> bool {
    match w {
        Some(ws) => call_ensures(largest, (&ws.layout,), found),
        None => found is None,
    }
}

/// Whether `suited` can give `direction` for `pane`, if the screen shows it;
/// otherwise panes go side by side.
pub open spec fn suited_gives<C: Fn(PaneId, SplitDirection) -> SplitDirection>(
    suited: C,
    app: App,
    pane: PaneId,
    direction: SplitDirection,
) -> bool {
    if app.shows(pane) {
        call_ensures(suited, (pane, SplitDirection::Horizontal), direction)
    } else {
        direction == SplitDirection::Horizontal
    }
}

/// The pane that is split for an agent: the one found, or the agent's own.
pub open spec fn or_parent(found: Option<PaneId>, parent: PaneId) -> PaneId {
    match found {
        Some(id) => id,
        None => parent,
    }
}

impl LayoutNode {
    /// The tree without its empty places.
    pub open spec fn without_holes(self) -> LayoutNode
        decreases self,
    {
        match self {
            LayoutNode::Split { direction, ratio, first, second } => {
                let a = first.without_holes();
                let b = second.without_holes();
                if a is Empty {
                    b
                } else if b is Empty {
                    a
                } else {
                    LayoutNode::Split { direction, ratio, first: Box::new(a), second: Box::new(b) }
                }
            },
            _ => self,
        }
    }

    fn drop_holes(self) -> (r: LayoutNode)
        ensures
            r == self.without_holes(),
        decreases self,
    {
        match self {
            LayoutNode::Split { direction, ratio, first, second } => {
                let a = (*first).drop_holes();
                let b = (*second).drop_holes();
                if matches!(a, LayoutNode::Empty) {
                    b
                } else if matches!(b, LayoutNode::Empty) {
                    a
                } else {
                    LayoutNode::Split { direction, ratio, first: Box::new(a), second: Box::new(b) }
                }
            },
            other => other,
        }
    }

    /// Takes the empty places out of the tree and sets every split to the
    /// middle.
    pub fn compact_layout(&mut self)
        ensures
            *final(self) == old(self).without_holes().balanced(),
    {
        let mut node = LayoutNode::Empty;
        core::mem::swap(self, &mut node);
        let mut solid = node.drop_holes();
        solid.reset_all_ratios();
        *self = solid;
    }
}

/// Compacting loses no pane and leaves no empty place, unless nothing is left.
pub proof fn law_compact_keeps_panes(t: LayoutNode)
    ensures
        t.without_holes().balanced().panes() == t.panes(),
        t.without_holes().has_hole() ==> t.without_holes() is Empty,
        t.without_holes().balanced().has_hole() == t.without_holes().has_hole(),
    decreases t,
{
    lemma_balanced(t.without_holes());
    match t {
        LayoutNode::Split { first, second, .. } => {
            law_compact_keeps_panes(*first);
            law_compact_keeps_panes(*second);
            lemma_balanced(first.without_holes());
            lemma_balanced(second.without_holes());
            assert(t.without_holes().panes() =~= t.panes());
        },
        _ => {},
    }
}

/// Setting every split to the middle moves no pane.
pub proof fn lemma_balanced(t: LayoutNode)
    ensures
        t.balanced().panes() == t.panes(),
        t.balanced().has_hole() == t.has_hole(),
    decreases t,
{
    match t {
        LayoutNode::Split { first, second, .. } => {
            lemma_balanced(*first);
            lemma_balanced(*second);
        },
        _ => {},
    }
}

impl App {
    pub(crate) fn largest_pane<L>(&self, largest: &L) -> (r: Option<PaneId>) where
        L: Fn(&LayoutNode) -> Option<PaneId>,

        requires
            forall|t: &LayoutNode| call_requires(*largest, (t,)),
        ensures
            largest_gives(*largest, self.workspaces, r),
    {
        match &self.workspaces {
            Some(w) => largest(&w.layout),
            None => None,
        }
    }

    pub(crate) fn suited_direction<C>(&self, suited: &C, pane: PaneId) -> (r: SplitDirection) where
        C: Fn(PaneId, SplitDirection) -> SplitDirection,

        requires
            forall|p: PaneId, d: SplitDirection| call_requires(*suited, (p, d)),
        ensures
            suited_gives(*suited, *self, pane, r),
    {
        if self.is_shown(pane) {
            suited(pane, SplitDirection::Horizontal)
        } else {
            SplitDirection::Horizontal
        }
    }

    /// What a split for an agent needs first. The screen is not redrawn where
    /// there is nothing to split.
    pub open spec fn tile_step(
        &self,
        target: PaneId,
        direction: SplitDirection,
        parent: PaneId,
    ) -> SplitStep {
        if self.daemon_mode() {
            self.remote_step(
                target,
                direction,
                DaemonSplitOnComplete::AutoTile { parent_pane_id: parent },
            )
        } else {
            self.local_step(target, direction)
        }
    }

    /// Starts what the activity of an agent asks for. A new pane is split off
    /// the largest one, so that panes do not get ever smaller, or off the
    /// agent's own where none is known.
    pub fn poll_auto_tile<L, C>(
        &mut self,
        action: AutoTileAction,
        largest: L,
        suited: C,
        now_ms: u64,
    ) -> (r: TileStep) where
        L: Fn(&LayoutNode) -> Option<PaneId>,
        C: Fn(PaneId, SplitDirection) -> SplitDirection,

        requires
            old(self).wf(),
            forall|t: &LayoutNode| call_requires(largest, (t,)),
            forall|p: PaneId, d: SplitDirection| call_requires(suited, (p, d)),
        ensures
            final(self).wf(),
            match action {
                AutoTileAction::Split { parent_pane_id } => {
                    &&& final(self).only_added(*old(self), seq![])
                    &&& exists|found: Option<PaneId>, direction: SplitDirection|
                        {
                            &&& #[trigger] largest_gives(largest, old(self).workspaces, found)
                            &&& #[trigger] suited_gives(
                                suited,
                                *old(self),
                                or_parent(found, parent_pane_id),
                                direction,
                            )
                            &&& r == (TileStep::Split {
                                parent: parent_pane_id,
                                step: old(self).tile_step(
                                    or_parent(found, parent_pane_id),
                                    direction,
                                    parent_pane_id,
                                ),
                            })
                        }
                },
                AutoTileAction::Reclaim { pane_id } => exists|step: CloseStep|
                    r == (TileStep::Close { pane: pane_id, step }) && #[trigger]
                    final(self).close_started(*old(self), pane_id, now_ms, step),
            },
    {
        match action {
            AutoTileAction::Split { parent_pane_id } => {
                let found = self.largest_pane(&largest);
                let target: PaneId = match found {
                    Some(id) => id,
                    None => parent_pane_id,
                };
                let direction = self.suited_direction(&suited, target);
                let on_complete = DaemonSplitOnComplete::AutoTile { parent_pane_id };
                assert(old(self).effects@ + Seq::<Effect>::empty() =~= old(self).effects@);
                let step = if self.is_daemon_mode() {
                    self.split_pane_remote(target, direction, on_complete)
                } else if self.has_renderer && self.is_shown(target) {
                    SplitStep::SpawnLocal { source: target, direction }
                } else {
                    SplitStep::Done
                };
                proof {
                    assert(largest_gives(largest, old(self).workspaces, found));
                    assert(target == or_parent(found, parent_pane_id));
                    assert(suited_gives(
                        suited,
                        *old(self),
                        or_parent(found, parent_pane_id),
                        direction,
                    ));
                    assert(step == old(self).tile_step(target, direction, parent_pane_id));
                    assert(self.only_added(*old(self), seq![]));
                }
                TileStep::Split { parent: parent_pane_id, step }
            },
            AutoTileAction::Reclaim { pane_id } => {
                let step = self.close_pane_by_id(pane_id, now_ms);
                assert(self.close_started(*old(self), pane_id, now_ms, step));
                TileStep::Close { pane: pane_id, step }
            },
        }
    }

    /// Ends a split for an agent without the daemon. The focus stays where it
    /// is.
    pub fn finish_auto_tile_local(
        &mut self,
        parent: PaneId,
        source: PaneId,
        direction: SplitDirection,
        spawned: Option<PaneState>,
    )
        ensures
            match spawned {
                Some(pane) if old(self).shows(source) => {
                    &&& *final(self) == (App {
                        workspaces: App::split_workspaces(
                            old(self).workspaces,
                            source,
                            direction,
                            pane,
                        ),
                        effects: final(self).effects,
                        ..*old(self)
                    })
                    &&& final(self).effects@ == old(self).effects@ + (if old(
                        self,
                    ).auto_tile_debouncer {
                        seq![
                            Effect::RegisterAutoTiled { parent, pane: pane.id },
                            Effect::RelayoutAndRedraw,
                        ]
                    } else {
                        seq![Effect::RelayoutAndRedraw]
                    })
                },
                _ => *final(self) == *old(self),
            },
    {
        if let Some(pane) = spawned {
            let new_id: PaneId = pane.id;
            if !self.is_shown(source) {
                return;
            }
            let _ = self.mount(source, direction, pane);
            if self.auto_tile_debouncer {
                self.emit(Effect::RegisterAutoTiled { parent, pane: new_id });
            }
            self.emit(Effect::RelayoutAndRedraw);
            assert(self.effects@ =~= old(self).effects@ + (if old(self).auto_tile_debouncer {
                seq![
                    Effect::RegisterAutoTiled { parent, pane: new_id },
                    Effect::RelayoutAndRedraw,
                ]
            } else {
                seq![Effect::RelayoutAndRedraw]
            }));
        }
    }

    /// Tidies the tree up once a pane that was no longer needed is closed.
    pub fn compact_after_reclaim(&mut self)
        ensures
            *final(self) == (App {
                workspaces: match old(self).workspaces {
                    Some(w) => Some(
                        Workspaces { layout: w.layout.without_holes().balanced(), ..w },
                    ),
                    None => None,
                },
                ..*old(self)
            }),
    {
        if let Some(w) = &mut self.workspaces {
            w.layout.compact_layout();
        }
    }
}

} // verus!
