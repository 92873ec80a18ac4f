//! Splitting panes in the window, and the way there.
use super::{App, DaemonSplitOnComplete, Effect, Workspaces};
use crate::ids::DaemonPaneId;
use crate::layout;
use crate::layout::{LayoutNode, PaneId, PaneState, SplitDirection};
use vstd::prelude::*;

verus! {

/// What is needed next to split a pane.
#[derive(Debug, PartialEq, Eq)]
pub enum SplitStep {
    Done,
    /// A shell is to be started for the new pane.
    SpawnLocal { source: PaneId, direction: SplitDirection },
    /// The daemon is to be asked, once the directory of `source` is looked up.
    AskDaemon {
        source: PaneId,
        daemon_source: DaemonPaneId,
        direction: SplitDirection,
        on_complete: DaemonSplitOnComplete,
    },
}

/// The least number of columns of a terminal pane.
pub const MIN_COLS: usize = 2;

/// The least number of rows of a terminal pane.
pub const MIN_ROWS: usize = 1;

/// The least number of columns of a pane that follows a transcript.
pub const MIN_TAIL_COLS: usize = 20;

/// The least number of rows of a pane that follows a transcript.
pub const MIN_TAIL_ROWS: usize = 3;

pub open spec fn at_least(n: usize, least: usize) -> usize {
    if n < least {
        least
    } else {
        n
    }
}

/// The size of a terminal pane in a grid of `cols` and `rows`.
pub fn terminal_size(cols: usize, rows: usize) -> (r: (usize, usize))
    ensures
        r == (at_least(cols, MIN_COLS), at_least(rows, MIN_ROWS)),
{
    (
        if cols < MIN_COLS {
            MIN_COLS
        } else {
            cols
        },
        if rows < MIN_ROWS {
            MIN_ROWS
        } else {
            rows
        },
    )
}

/// The size of a pane that follows a transcript in a grid of `cols` and `rows`.
pub fn tail_size(cols: usize, rows: usize) -> (r: (usize, usize))
    ensures
        r == (at_least(cols, MIN_TAIL_COLS), at_least(rows, MIN_TAIL_ROWS)),
{
    (
        if cols < MIN_TAIL_COLS {
            MIN_TAIL_COLS
        } else {
            cols
        },
        if rows < MIN_TAIL_ROWS {
            MIN_TAIL_ROWS
        } else {
            rows
        },
    )
}

impl App {
    /// Whether the screen shows `pane`.
    pub open spec fn shows(&self, pane: PaneId) -> bool {
        self.workspaces matches Some(w) && w.layout.has(pane)
    }

    /// The workspaces with `source` split and `pane` in the new half.
    pub open spec fn split_workspaces(
        w: Option<Workspaces>,
        source: PaneId,
        direction: SplitDirection,
        pane: PaneState,
    ) -> Option<Workspaces> {
        match w {
            Some(ws) => if ws.layout.has(source) {
                Some(
                    Workspaces {
                        layout: ws.layout.replaced(
                            source,
                            LayoutNode::split_of(ws.layout.pane(source)->0, direction, pane),
                        ),
                        ..ws
                    },
                )
            } else {
                w
            },
            None => None,
        }
    }

    /// Whether the screen shows `pane`.
    pub(crate) fn is_shown(&self, pane: PaneId) -> (r: bool)
        ensures
            r == self.shows(pane),
    {
        match &self.workspaces {
            Some(w) => w.layout.contains(pane),
            None => false,
        }
    }

    /// Puts `pane` into the new half of a split of `source`; says whether the
    /// screen shows `source`.
    pub(crate) fn mount(
        &mut self,
        source: PaneId,
        direction: SplitDirection,
        pane: PaneState,
    ) -> (r: bool)
        ensures
            r == old(self).shows(source),
            *final(self) == (App {
                workspaces: App::split_workspaces(
                    old(self).workspaces,
                    source,
                    direction,
                    pane,
                ),
                ..*old(self)
            }),
    {
        match &mut self.workspaces {
            Some(w) => w.layout.split_pane(source, direction, pane),
            None => false,
        }
    }

    /// What a split without the daemon needs first.
    pub open spec fn local_step(&self, source: PaneId, direction: SplitDirection) -> SplitStep {
        if self.has_renderer && self.shows(source) {
            SplitStep::SpawnLocal { source, direction }
        } else {
            SplitStep::Done
        }
    }

    /// The effects of starting a split without the daemon: where the pane is
    /// not on the screen there is nothing to split, but the screen is redrawn.
    pub open spec fn local_effects(&self, source: PaneId) -> Seq<Effect> {
        if self.has_renderer && self.workspaces is Some && !self.shows(source) {
            seq![Effect::RequestRedraw]
        } else {
            seq![]
        }
    }

    /// Starts to split `target_id` without the daemon.
    pub fn split_pane_by_id_local(
        &mut self,
        target_id: PaneId,
        direction: SplitDirection,
    ) -> (r: SplitStep)
        ensures
            r == old(self).local_step(target_id, direction),
            final(self).only_added(*old(self), old(self).local_effects(target_id)),
    {
        assert(old(self).effects@ + Seq::<Effect>::empty() =~= old(self).effects@);
        if !self.has_renderer || self.workspaces.is_none() {
            return SplitStep::Done;
        }
        if !self.is_shown(target_id) {
            self.emit(Effect::RequestRedraw);
            return SplitStep::Done;
        }
        SplitStep::SpawnLocal { source: target_id, direction }
    }

    /// What a split needs first, with or without the daemon.
    pub open spec fn split_step(
        &self,
        source: PaneId,
        direction: SplitDirection,
        on_complete: DaemonSplitOnComplete,
    ) -> SplitStep {
        if self.daemon_mode() {
            self.remote_step(source, direction, on_complete)
        } else {
            self.local_step(source, direction)
        }
    }

    /// The effects of starting a split, with or without the daemon.
    pub open spec fn split_effects(
        &self,
        source: PaneId,
        on_complete: DaemonSplitOnComplete,
    ) -> Seq<Effect> {
        if self.daemon_mode() {
            self.remote_effects(source, on_complete)
        } else {
            self.local_effects(source)
        }
    }

    /// Starts to split `target_id`.
    pub fn split_pane_by_id(&mut self, target_id: PaneId, direction: SplitDirection) -> (r:
        SplitStep)
        requires
            old(self).wf(),
        ensures
            final(self).wf(),
            r == old(self).split_step(
                target_id,
                direction,
                DaemonSplitOnComplete::FocusAndRelayout,
            ),
            final(self).only_added(
                *old(self),
                old(self).split_effects(target_id, DaemonSplitOnComplete::FocusAndRelayout),
            ),
    {
        if self.is_daemon_mode() {
            return self.split_pane_remote(
                target_id,
                direction,
                DaemonSplitOnComplete::FocusAndRelayout,
            );
        }
        self.split_pane_by_id_local(target_id, direction)
    }

    /// Starts to split the focused pane. `on_complete` says what the daemon's
    /// new pane is for.
    pub fn split_focused_pane_with(
        &mut self,
        direction: SplitDirection,
        on_complete: DaemonSplitOnComplete,
    ) -> (r: SplitStep)
        requires
            old(self).wf(),
        ensures
            final(self).wf(),
            match old(self).focus() {
                Some(source) => {
                    &&& r == old(self).split_step(source, direction, on_complete)
                    &&& final(self).only_added(
                        *old(self),
                        old(self).split_effects(source, on_complete),
                    )
                },
                None => r == SplitStep::Done && *final(self) == *old(self),
            },
    {
        let source: PaneId = match self.focused_pane() {
            Some(id) => id,
            None => {
                return SplitStep::Done;
            },
        };
        if self.is_daemon_mode() {
            return self.split_pane_remote(source, direction, on_complete);
        }
        self.split_pane_by_id_local(source, direction)
    }

    /// Starts to split the focused pane.
    pub fn split_focused_pane(&mut self, direction: SplitDirection) -> (r: SplitStep)
        requires
            old(self).wf(),
        ensures
            final(self).wf(),
            match old(self).focus() {
                Some(source) => {
                    &&& r == old(self).split_step(
                        source,
                        direction,
                        DaemonSplitOnComplete::FocusAndRelayout,
                    )
                    &&& final(self).only_added(
                        *old(self),
                        old(self).split_effects(source, DaemonSplitOnComplete::FocusAndRelayout),
                    )
                },
                None => r == SplitStep::Done && *final(self) == *old(self),
            },
    {
        self.split_focused_pane_with(direction, DaemonSplitOnComplete::FocusAndRelayout)
    }

    /// The window with zoom left.
    pub open spec fn is_unzoomed_from(self, old: App) -> bool {
        let z = old.after_unzoom();
        &&& self == (App {
            workspaces: z.workspaces,
            zoomed_layout: z.saved,
            effects: self.effects,
            ..old
        })
        &&& self.effects@ == old.effects@ + App::relayout_if(z.changed)
    }

    /// `self` is `old` after a split of the focused pane, in the direction that
    /// `suited` gives, was started and ended with the step `r`.
    pub open spec fn auto_split_from<C>(
        self,
        old: App,
        suited: C,
        on_complete: DaemonSplitOnComplete,
        r: SplitStep,
    ) -> bool where C: Fn(PaneId, SplitDirection) -> SplitDirection {
        exists|mid: App| #[trigger]
            mid.is_unzoomed_from(old) && match mid.focus() {
                Some(source) if mid.shows(source) => exists|d: SplitDirection|
                    {
                        &&& #[trigger] call_ensures(
                            suited,
                            (source, old.last_split_direction.flipped()),
                            d,
                        )
                        &&& r == mid.split_step(source, d, on_complete)
                        &&& self.only_added(mid, mid.split_effects(source, on_complete))
                    },
                _ => r == SplitStep::Done && self == mid,
            }
    }

    /// Starts to split the focused pane in the direction that suits its shape:
    /// `suited` gives it, from the pane and from what to take where the shape
    /// does not decide, the other direction than last time. Zoom is left
    /// first, so that the new pane joins the whole tree.
    pub fn split_focused_pane_auto_with<C>(
        &mut self,
        suited: C,
        on_complete: DaemonSplitOnComplete,
    ) -> (r: SplitStep) where C: Fn(PaneId, SplitDirection) -> SplitDirection
        requires
            old(self).wf(),
            forall|p: PaneId, d: SplitDirection| call_requires(suited, (p, d)),
        ensures
            final(self).wf(),
            final(self).auto_split_from(*old(self), suited, on_complete, r),
    {
        self.leave_zoom();
        let ghost mid = *self;
        assert(mid.is_unzoomed_from(*old(self)));
        let source: PaneId = match self.focused_pane() {
            Some(id) => id,
            None => {
                return SplitStep::Done;
            },
        };
        if !self.is_shown(source) {
            return SplitStep::Done;
        }
        let fallback = self.last_split_direction.other();
        let direction = suited(source, fallback);
        self.split_focused_pane_with(direction, on_complete)
    }

    /// Starts to split the focused pane in the direction that suits its shape.
    pub fn split_focused_pane_auto<C>(&mut self, suited: C) -> (r: SplitStep) where
        C: Fn(PaneId, SplitDirection) -> SplitDirection,

        requires
            old(self).wf(),
            forall|p: PaneId, d: SplitDirection| call_requires(suited, (p, d)),
        ensures
            final(self).wf(),
            final(self).auto_split_from(
                *old(self),
                suited,
                DaemonSplitOnComplete::FocusAndRelayout,
                r,
            ),
    {
        self.split_focused_pane_auto_with(suited, DaemonSplitOnComplete::FocusAndRelayout)
    }

    /// Ends a split without the daemon, with the pane that was started.
    pub fn finish_split_local(
        &mut self,
        source: PaneId,
        direction: SplitDirection,
        spawned: Option<PaneState>,
    )
        requires
            old(self).wf(),
        ensures
            final(self).wf(),
            match spawned {
                Some(pane) if old(self).shows(source) => {
                    &&& *final(self) == (App {
                        workspaces: App::with_focus(
                            App::split_workspaces(
                                old(self).workspaces,
                                source,
                                direction,
                                pane,
                            ),
                            Some(pane.id),
                        ),
                        last_split_direction: direction,
                        effects: final(self).effects,
                        ..*old(self)
                    })
                    &&& final(self).effects@ == old(self).effects@ + old(self).select_effects(
                        Some(pane.id),
                    ) + seq![Effect::RelayoutAndRedraw, Effect::PublishWorkspaceState]
                },
                _ => final(self).only_added(*old(self), seq![Effect::RequestRedraw]),
            },
    {
        if let Some(pane) = spawned {
            let new_id: PaneId = pane.id;
            if self.mount(source, direction, pane) {
                self.last_split_direction = direction;
                self.set_focused_pane(Some(new_id));
                self.emit(Effect::RelayoutAndRedraw);
                self.emit(Effect::PublishWorkspaceState);
                assert(self.effects@ =~= old(self).effects@ + old(self).select_effects(
                    Some(new_id),
                ) + seq![Effect::RelayoutAndRedraw, Effect::PublishWorkspaceState]);
                return;
            }
        }
        self.emit(Effect::RequestRedraw);
    }
}

} // verus!
