//! Switching between workspaces and sending panes to them.
use super::split::SplitStep;
use super::{App, DaemonSplitOnComplete, Effect, Workspaces};
use crate::ids;
use crate::ids::DaemonPaneId;
use crate::ipc::IpcRequest;
use crate::layout::{PaneId, PaneState, SplitDirection};
use vstd::prelude::*;

verus! {

/// What is needed next to switch to another workspace.
#[derive(Debug, PartialEq, Eq)]
pub enum SwitchStep {
    Done,
    /// The workspace is there; it is to be shown.
    SwitchTo { workspace: u8 },
    /// The workspace is to be shown; if it is not there, a shell is to be
    /// started for it.
    SwitchOrSpawn { workspace: u8 },
    /// The daemon is to start a session for the new workspace.
    FreshSession { workspace: u8 },
    /// The daemon is to split a pane for the new workspace.
    Split(SplitStep),
}

/// What is needed next to send a pane to another workspace.
#[derive(Debug, PartialEq, Eq)]
pub enum SendStep {
    Done,
    /// The pane is to be moved; if its workspace would be empty, a shell is to
    /// be started there.
    MoveOrSpawn { pane: PaneId, workspace: u8 },
    /// The pane is to be moved. Its workspace keeps other panes.
    Move { pane: PaneId, workspace: u8 },
    /// The daemon is to split `anchor` first, for the workspace that the pane
    /// leaves.
    ReplaceOffExisting { pane: PaneId, workspace: u8, anchor: DaemonPaneId },
    /// The daemon is to start a session first, for the workspace that the pane
    /// leaves.
    ReplaceFreshSession { pane: PaneId, workspace: u8 },
}

/// The numbers that a workspace can have.
pub open spec fn is_workspace_number(n: u8) -> bool {
    1 <= n <= 9
}

/// The lowest number at or above `from` that no workspace has.
pub open spec fn lowest_unused(used: Seq<u8>, from: u8) -> Option<u8>
    decreases 10 - from,
{
    if from > 9 {
        None
    } else if used.contains(from) {
        lowest_unused(used, (from + 1) as u8)
    } else {
        Some(from)
    }
}

/// A new workspace gets the lowest number that is free; none is free only if
/// all are in use.
pub proof fn law_lowest_unused(used: Seq<u8>, from: u8)
    requires
        from <= 10,
    ensures
        lowest_unused(used, from) matches Some(n) ==> from <= n <= 9 && !used.contains(n)
            && forall|m: u8| from <= m < n ==> #[trigger] used.contains(m),
        lowest_unused(used, from) is None ==> forall|m: u8|
            from <= m <= 9 ==> #[trigger] used.contains(m),
    decreases 10 - from,
{
    if from <= 9 && used.contains(from) {
        law_lowest_unused(used, (from + 1) as u8);
    }
}

fn contains_id(ids: &Vec<u8>, n: u8) -> (r: bool)
    ensures
        r == ids@.contains(n),
{
    let mut i: usize = 0;
    while i < ids.len()
        invariant
            i <= ids@.len(),
            forall|k: int| 0 <= k < i ==> ids@[k] != n,
        decreases ids@.len() - i,
    {
        if ids[i] == n {
            return true;
        }
        i += 1;
    }
    false
}

impl App {
    /// The workspace on the screen.
    pub open spec fn active_number(&self) -> Option<u8> {
        match self.workspaces {
            Some(w) => Some(w.active_id),
            None => None,
        }
    }

    /// The numbers of the workspaces.
    pub open spec fn numbers(&self) -> Seq<u8> {
        match self.workspaces {
            Some(w) => w.ids@,
            None => seq![],
        }
    }

    /// What switching to `n` needs first, with zoom already left.
    pub open spec fn switch_step(&self, n: u8) -> SwitchStep {
        if !self.has_layout_rect {
            SwitchStep::Done
        } else if self.daemon_mode() {
            if self.active_number() == Some(n) || !is_workspace_number(n) {
                SwitchStep::Done
            } else if self.numbers().contains(n) {
                SwitchStep::SwitchTo { workspace: n }
            } else {
                match self.pane_id_map.any() {
                    Some(anchor) => SwitchStep::Split(
                        SplitStep::AskDaemon {
                            source: self.pane_id_map.local(anchor)->0,
                            daemon_source: anchor,
                            direction: SplitDirection::Horizontal,
                            on_complete: DaemonSplitOnComplete::NewWorkspace { workspace_id: n },
                        },
                    ),
                    None => SwitchStep::FreshSession { workspace: n },
                }
            }
        } else if self.workspaces is Some && self.has_renderer {
            SwitchStep::SwitchOrSpawn { workspace: n }
        } else {
            SwitchStep::Done
        }
    }

    /// Starts to switch to workspace `n`. Zoom is left first, so that the tree
    /// kept aside goes back to the workspace that it is from.
    pub fn switch_workspace(&mut self, n: u8) -> (r: SwitchStep)
        requires
            old(self).wf(),
        ensures
            final(self).wf(),
            final(self).is_unzoomed_from(*old(self)),
            r == final(self).switch_step(n),
    {
        self.leave_zoom();
        if !self.has_layout_rect {
            return SwitchStep::Done;
        }
        if self.is_daemon_mode() {
            let (already_on_n, target_exists) = match &self.workspaces {
                Some(w) => (w.active_id == n, contains_id(&w.ids, n)),
                None => (false, false),
            };
            if already_on_n || n < 1 || n > 9 {
                return SwitchStep::Done;
            }
            if target_exists {
                return SwitchStep::SwitchTo { workspace: n };
            }
            let anchor: DaemonPaneId = match self.pane_id_map.any_daemon_id() {
                Some(a) => a,
                None => {
                    return SwitchStep::FreshSession { workspace: n };
                },
            };
            proof {
                ids::lemma_at(self.pane_id_map.pairs@, 0);
            }
            let source: PaneId = match self.pane_id_map.local_for_daemon(anchor) {
                Some(l) => l,
                None => {
                    return SwitchStep::Done;
                },
            };
            proof {
                ids::law_lookups_agree(self.pane_id_map, source, anchor);
            }
            let ghost before = *self;
            let step = self.split_pane_remote(
                source,
                SplitDirection::Horizontal,
                DaemonSplitOnComplete::NewWorkspace { workspace_id: n },
            );
            assert(self.effects@ =~= before.effects@);
            return SwitchStep::Split(step);
        }
        if self.workspaces.is_none() || !self.has_renderer {
            return SwitchStep::Done;
        }
        SwitchStep::SwitchOrSpawn { workspace: n }
    }

    /// Starts to make a new workspace, with the lowest number that is free.
    pub fn create_new_workspace(&mut self) -> (r: SwitchStep)
        requires
            old(self).wf(),
        ensures
            final(self).wf(),
            match lowest_unused(old(self).numbers(), 1) {
                Some(n) => final(self).is_unzoomed_from(*old(self))
                    && r == final(self).switch_step(n),
                None => r == SwitchStep::Done && *final(self) == *old(self),
            },
    {
        let mut n: u8 = 1;
        while n <= 9
            invariant
                1 <= n <= 10,
                self.wf(),
                *self == *old(self),
                lowest_unused(self.numbers(), 1) == lowest_unused(self.numbers(), n),
            decreases 10 - n,
        {
            let used = match &self.workspaces {
                Some(w) => contains_id(&w.ids, n),
                None => false,
            };
            if !used {
                return self.switch_workspace(n);
            }
            n += 1;
        }
        SwitchStep::Done
    }

    /// Whether the workspace on the screen holds only `pane`.
    pub open spec fn is_only_pane(&self, pane: PaneId) -> bool {
        self.workspaces matches Some(w) && w.layout.ids() == seq![pane]
    }

    /// The pane of the daemon to split for a workspace that `moving` leaves
    /// empty: any, but not the one that `moving` shows.
    pub open spec fn replacement_anchor(&self, moving: PaneId) -> Option<DaemonPaneId> {
        self.pane_id_map.other_from(self.pane_id_map.daemon(moving), 0)
    }

    /// What sending the focused pane to `n` needs first.
    pub open spec fn send_step(&self, n: u8) -> SendStep {
        match self.focus() {
            Some(pane) => if !self.has_layout_rect {
                SendStep::Done
            } else if self.daemon_mode() {
                if !is_workspace_number(n) || self.active_number() == Some(n) {
                    SendStep::Done
                } else if !self.is_only_pane(pane) {
                    SendStep::Move { pane, workspace: n }
                } else {
                    match self.replacement_anchor(pane) {
                        Some(anchor) => SendStep::ReplaceOffExisting {
                            pane,
                            workspace: n,
                            anchor,
                        },
                        None => SendStep::ReplaceFreshSession { pane, workspace: n },
                    }
                }
            } else if self.has_renderer {
                SendStep::MoveOrSpawn { pane, workspace: n }
            } else {
                SendStep::Done
            },
            None => SendStep::Done,
        }
    }

    /// Starts to send the focused pane to workspace `n`.
    pub fn send_to_workspace(&self, n: u8) -> (r: SendStep)
        requires
            self.wf(),
        ensures
            r == self.send_step(n),
    {
        let pane: PaneId = match self.focused_pane() {
            Some(id) => id,
            None => {
                return SendStep::Done;
            },
        };
        if !self.has_layout_rect {
            return SendStep::Done;
        }
        if self.is_daemon_mode() {
            if n < 1 || n > 9 {
                return SendStep::Done;
            }
            let mut alone = false;
            if let Some(w) = &self.workspaces {
                if w.active_id == n {
                    return SendStep::Done;
                }
                let ids = w.layout.pane_ids();
                alone = ids.len() == 1 && ids[0] == pane;
                proof {
                    if alone {
                        assert(ids@ =~= seq![pane]);
                    }
                }
            }
            if !alone {
                return SendStep::Move { pane, workspace: n };
            }
            let own = self.pane_id_map.daemon_for_local(pane);
            return match self.pane_id_map.other_daemon_id(own) {
                Some(anchor) => SendStep::ReplaceOffExisting { pane, workspace: n, anchor },
                None => SendStep::ReplaceFreshSession { pane, workspace: n },
            };
        }
        if self.workspaces.is_none() || !self.has_renderer {
            return SendStep::Done;
        }
        SendStep::MoveOrSpawn { pane, workspace: n }
    }

    /// Ends sending `pane` to workspace `n` through the daemon. `moved` is what
    /// the screen shows afterwards, if the pane was moved; `unused` is the pane
    /// that was made to take its place, if it was not needed.
    pub fn finish_send_to_workspace(
        &mut self,
        pane: PaneId,
        n: u8,
        moved: Option<Workspaces>,
        unused: Option<PaneState>,
    )
        requires
            old(self).wf(),
        ensures
            final(self).wf(),
            match moved {
                Some(w) => {
                    &&& *final(self) == (App {
                        workspaces: Some(w),
                        effects: final(self).effects,
                        ..*old(self)
                    })
                    &&& final(self).effects@ == old(self).effects@ + (match old(
                        self,
                    ).pane_id_map.daemon(pane) {
                        Some(d) => seq![
                            Effect::Ask(
                                IpcRequest::MovePane { pane_id: d, target_workspace_id: n },
                            ),
                        ],
                        None => seq![],
                    }) + seq![Effect::RelayoutAndRedraw, Effect::PublishWorkspaceState]
                },
                None => match unused {
                    Some(spare) => match old(self).pane_id_map.daemon(spare.id) {
                        Some(d) => {
                            &&& *final(self) == (App {
                                pane_id_map: final(self).pane_id_map,
                                effects: final(self).effects,
                                ..*old(self)
                            })
                            &&& final(self).pane_id_map.pairs@ == ids::without_local(
                                old(self).pane_id_map.pairs@,
                                spare.id,
                            )
                            &&& final(self).effects@ == old(self).effects@ + seq![
                                Effect::Ask(IpcRequest::KillPane { pane_id: d }),
                            ]
                        },
                        None => *final(self) == *old(self),
                    },
                    None => *final(self) == *old(self),
                },
            },
    {
        match moved {
            Some(w) => {
                let request = match self.pane_id_map.daemon_for_local(pane) {
                    Some(d) => Some(
                        IpcRequest::MovePane { pane_id: d, target_workspace_id: n },
                    ),
                    None => None,
                };
                self.workspaces = Some(w);
                if let Some(request) = request {
                    self.emit(Effect::Ask(request));
                }
                self.emit(Effect::RelayoutAndRedraw);
                self.emit(Effect::PublishWorkspaceState);
                assert(self.effects@ =~= old(self).effects@ + (match old(self).pane_id_map.daemon(
                    pane,
                ) {
                    Some(d) => seq![
                        Effect::Ask(IpcRequest::MovePane { pane_id: d, target_workspace_id: n }),
                    ],
                    None => seq![],
                }) + seq![Effect::RelayoutAndRedraw, Effect::PublishWorkspaceState]);
            },
            None => {
                if let Some(spare) = unused {
                    if let Some(d) = self.pane_id_map.daemon_for_local(spare.id) {
                        self.emit(Effect::Ask(IpcRequest::KillPane { pane_id: d }));
                        self.pane_id_map.remove_by_local(spare.id);
                    }
                }
            },
        }
    }
}

proof fn lemma_other(map: ids::PaneIdMap, excluded: Option<DaemonPaneId>, from: int)
    requires
        0 <= from,
    ensures
        map.other_from(excluded, from) matches Some(d) ==> excluded != Some(d),
        map.other_from(excluded, from) is None <==> forall|i: int|
            from <= i < map.pairs@.len() ==> excluded == Some((#[trigger] map.pairs@[i]).1),
    decreases map.pairs@.len() - from,
{
    if from < map.pairs@.len() {
        lemma_other(map, excluded, from + 1);
    }
}

/// A fresh session takes the place of a pane that is moved only if the window
/// shows no other pane of the daemon.
pub proof fn law_fresh_session_is_the_last_resort(app: App, n: u8)
    ensures
        app.send_step(n) matches SendStep::ReplaceFreshSession { pane, .. } ==> forall|i: int|
            0 <= i < app.pane_id_map.pairs@.len() ==> app.pane_id_map.daemon(pane) == Some(
                (#[trigger] app.pane_id_map.pairs@[i]).1,
            ),
{
    if let SendStep::ReplaceFreshSession { pane, .. } = app.send_step(n) {
        lemma_other(app.pane_id_map, app.pane_id_map.daemon(pane), 0);
    }
}

/// The daemon is never asked to split the very pane that is being moved.
pub proof fn law_never_split_the_moving_pane(app: App, n: u8)
    requires
        app.wf(),
    ensures
        app.send_step(n) matches SendStep::ReplaceOffExisting { pane, anchor, .. }
            ==> app.pane_id_map.daemon(pane) != Some(anchor) && app.pane_id_map.local(anchor)
            != Some(pane),
{
    if app.send_step(n) is ReplaceOffExisting {
        let pane = app.send_step(n)->ReplaceOffExisting_pane;
        let anchor = app.send_step(n)->anchor;
        lemma_other(app.pane_id_map, app.pane_id_map.daemon(pane), 0);
        ids::law_lookups_agree(app.pane_id_map, pane, anchor);
    }
}

} // verus!
