//! Closing panes.
use super::{App, Effect, Notice, Workspaces};
use crate::ids;
use crate::ipc::{IpcRequest, IpcResponse, Reply};
use crate::layout::PaneId;
use vstd::prelude::*;

verus! {

/// How long after a close another one is ignored, in milliseconds. A key that
/// repeats would close two panes.
pub const CLOSE_COOLDOWN_MS: u64 = 100;

/// What is needed next to close a pane.
#[derive(Debug, PartialEq, Eq)]
pub enum CloseStep {
    Done,
    /// The daemon is to kill the pane first.
    Kill { pane: PaneId, request: IpcRequest },
    /// The pane is to be taken out of whatever workspace holds it.
    Remove { pane: PaneId },
}

/// What became of a pane that was to be taken out.
#[derive(Debug, PartialEq, Eq)]
pub enum Removal {
    /// It was the last of its workspace, which is gone. The workspaces that
    /// are left, if any pane is left.
    LastInWorkspace { remaining: Option<Workspaces> },
    /// It is gone from a workspace with other panes.
    Removed { workspaces: Workspaces },
    NotFound,
}

/// Whether `now` is so soon after `last` that a close is ignored.
pub open spec fn too_soon(last: Option<u64>, now: u64) -> bool {
    last matches Some(at) && now - at < CLOSE_COOLDOWN_MS
}

/// The id of the first pane of the tree.
pub open spec fn first_pane(w: Workspaces) -> Option<PaneId> {
    if w.layout.ids().len() > 0 {
        Some(w.layout.ids()[0])
    } else {
        None
    }
}

/// The answer to the request to kill a pane allows to close it.
pub open spec fn killed(reply: Reply) -> bool {
    reply matches Reply::Ok(r) && r is PaneKilled
}

/// What the user is told when a pane could not be killed.
pub open spec fn kill_effects(reply: Reply) -> Seq<Effect> {
    match reply {
        Reply::Ok(IpcResponse::Error { message }) => seq![
            Effect::Toast(Notice::KillFailed(message)),
        ],
        Reply::Ok(_) => seq![],
        Reply::Err(_) => seq![Effect::Toast(Notice::DaemonKillFailed)],
    }
}

impl App {
    fn close_is_too_soon(&self, now_ms: u64) -> (r: bool)
        ensures
            r == too_soon(self.last_close_action, now_ms),
    {
        match self.last_close_action {
            Some(last) => now_ms.saturating_sub(last) < CLOSE_COOLDOWN_MS,
            None => false,
        }
    }

    /// The request that kills the daemon's pane behind `source_local`; none for
    /// a pane that only the window knows.
    pub fn kill_pane_remote(&self, source_local: PaneId) -> (r: Option<IpcRequest>)
        requires
            self.wf(),
        ensures
            r == match self.pane_id_map.daemon(source_local) {
                Some(d) => Some(IpcRequest::KillPane { pane_id: d }),
                None => None,
            },
    {
        match self.pane_id_map.daemon_for_local(source_local) {
            Some(d) => Some(IpcRequest::KillPane { pane_id: d }),
            None => None,
        }
    }

    /// Takes the answer to the request to kill a pane; says whether the pane
    /// may be closed. On a failure it stays, so that window and daemon agree.
    pub fn kill_pane_answered(&mut self, reply: Reply) -> (r: bool)
        ensures
            r == killed(reply),
            final(self).only_added(*old(self), kill_effects(reply)),
    {
        assert(old(self).effects@ + Seq::<Effect>::empty() =~= old(self).effects@);
        match reply {
            Ok(IpcResponse::PaneKilled) => true,
            Ok(IpcResponse::Error { message }) => {
                self.emit(Effect::Toast(Notice::KillFailed(message)));
                false
            },
            Ok(_) => false,
            Err(_) => {
                self.emit(Effect::Toast(Notice::DaemonKillFailed));
                false
            },
        }
    }

    /// Starts to close the focused pane.
    pub fn close_focused_pane(&mut self, now_ms: u64) -> (r: CloseStep)
        requires
            old(self).wf(),
        ensures
            too_soon(old(self).last_close_action, now_ms) ==> r == CloseStep::Done && *final(self)
                == *old(self),
            !too_soon(old(self).last_close_action, now_ms) ==> {
                let z = old(self).after_unzoom();
                let focus = match z.workspaces {
                    Some(w) => w.focused,
                    None => None,
                };
                &&& *final(self) == (App {
                    last_close_action: Some(now_ms),
                    workspaces: z.workspaces,
                    zoomed_layout: z.saved,
                    pane_id_map: final(self).pane_id_map,
                    effects: final(self).effects,
                    ..*old(self)
                })
                &&& final(self).effects@ == old(self).effects@ + App::relayout_if(z.changed)
                &&& match focus {
                    Some(pane) => match old(self).pane_id_map.daemon(pane) {
                        Some(d) if old(self).daemon_mode() => {
                            &&& r == (CloseStep::Kill {
                                pane,
                                request: IpcRequest::KillPane { pane_id: d },
                            })
                            &&& final(self).pane_id_map == old(self).pane_id_map
                        },
                        _ => {
                            &&& r == (CloseStep::Remove { pane })
                            &&& final(self).pane_id_map.pairs@ == ids::without_local(
                                old(self).pane_id_map.pairs@,
                                pane,
                            )
                        },
                    },
                    None => r == CloseStep::Done && final(self).pane_id_map
                        == old(self).pane_id_map,
                }
            },
            final(self).wf(),
    {
        if self.close_is_too_soon(now_ms) {
            return CloseStep::Done;
        }
        self.last_close_action = Some(now_ms);
        self.leave_zoom();
        let pane: PaneId = match self.focused_pane() {
            Some(id) => id,
            None => {
                return CloseStep::Done;
            },
        };
        if self.is_daemon_mode() {
            if let Some(request) = self.kill_pane_remote(pane) {
                return CloseStep::Kill { pane, request };
            }
        }
        self.pane_id_map.remove_by_local(pane);
        CloseStep::Remove { pane }
    }

    /// Goes on to close `pane` once the daemon has answered.
    pub fn close_focused_pane_killed(&mut self, pane: PaneId, reply: Reply) -> (r: CloseStep)
        requires
            old(self).wf(),
        ensures
            *final(self) == (App {
                pane_id_map: final(self).pane_id_map,
                effects: final(self).effects,
                ..*old(self)
            }),
            final(self).effects@ == old(self).effects@ + kill_effects(reply),
            killed(reply) ==> final(self).pane_id_map.pairs@ == ids::without_local(
                old(self).pane_id_map.pairs@,
                pane,
            ),
            !killed(reply) ==> final(self).pane_id_map == old(self).pane_id_map,
            r == if killed(reply) && old(self).workspaces is Some {
                CloseStep::Remove { pane }
            } else {
                CloseStep::Done
            },
            final(self).wf(),
    {
        if !self.kill_pane_answered(reply) {
            return CloseStep::Done;
        }
        self.pane_id_map.remove_by_local(pane);
        if self.workspaces.is_none() {
            return CloseStep::Done;
        }
        CloseStep::Remove { pane }
    }

    /// What the window shows once a workspace is gone: what is left, or
    /// nothing, which ends the program.
    fn show_remaining(&mut self, remaining: Option<Workspaces>)
        requires
            old(self).wf(),
        ensures
            *final(self) == (App {
                workspaces: remaining,
                effects: final(self).effects,
                ..*old(self)
            }),
            final(self).effects@ == old(self).effects@ + old(self).remaining_effects(remaining),
    {
        match remaining {
            Some(w) => {
                let focus = w.focused;
                self.workspaces = Some(w);
                self.set_focused_pane(focus);
                self.emit(Effect::RelayoutAndRedraw);
                assert(self.workspaces == Some(w));
            },
            None => {
                self.workspaces = None;
                self.emit(Effect::RequestRedraw);
            },
        }
        assert(self.effects@ =~= old(self).effects@ + old(self).remaining_effects(remaining));
    }

    /// The effects of showing what is left.
    pub open spec fn remaining_effects(&self, remaining: Option<Workspaces>) -> Seq<Effect> {
        match remaining {
            Some(w) => self.select_effects(w.focused).push(Effect::RelayoutAndRedraw),
            None => seq![Effect::RequestRedraw],
        }
    }

    /// Ends the close of the focused pane.
    pub fn finish_close_focused_pane(&mut self, removal: Removal)
        requires
            old(self).wf(),
        ensures
            final(self).wf(),
            *final(self) == (App {
                workspaces: match removal {
                    Removal::LastInWorkspace { remaining } => remaining,
                    Removal::Removed { workspaces } => Some(
                        Workspaces { focused: first_pane(workspaces), ..workspaces },
                    ),
                    Removal::NotFound => old(self).workspaces,
                },
                effects: final(self).effects,
                ..*old(self)
            }),
            final(self).effects@ == old(self).effects@ + (match removal {
                Removal::LastInWorkspace { remaining } => old(self).remaining_effects(remaining),
                Removal::Removed { workspaces } => old(self).select_effects(
                    first_pane(workspaces),
                ).push(Effect::RelayoutAndRedraw),
                Removal::NotFound => seq![],
            }).push(Effect::PublishWorkspaceState),
    {
        match removal {
            Removal::LastInWorkspace { remaining } => {
                self.show_remaining(remaining);
            },
            Removal::Removed { workspaces } => {
                let first = workspaces.layout.first_id();
                self.workspaces = Some(workspaces);
                self.set_focused_pane(first);
                self.emit(Effect::RelayoutAndRedraw);
            },
            Removal::NotFound => {},
        }
        self.emit(Effect::PublishWorkspaceState);
        assert(self.effects@ =~= old(self).effects@ + (match removal {
            Removal::LastInWorkspace { remaining } => old(self).remaining_effects(remaining),
            Removal::Removed { workspaces } => old(self).select_effects(
                first_pane(workspaces),
            ).push(Effect::RelayoutAndRedraw),
            Removal::NotFound => seq![],
        }).push(Effect::PublishWorkspaceState));
    }

    /// `self` is `old` once the close of `target` has started, and `step` is
    /// what is needed next.
    pub open spec fn close_started(
        self,
        old: App,
        target: PaneId,
        now_ms: u64,
        step: CloseStep,
    ) -> bool {
        let z = old.after_unzoom();
        &&& self.pane_id_map.pairs@ == ids::without_local(old.pane_id_map.pairs@, target)
        &&& self.pane_id_map.daemon(target) is None
        &&& if too_soon(old.last_close_action, now_ms) {
            step == CloseStep::Done && self == (App { pane_id_map: self.pane_id_map, ..old })
        } else {
            &&& self == (App {
                last_close_action: Some(now_ms),
                workspaces: z.workspaces,
                zoomed_layout: z.saved,
                pane_id_map: self.pane_id_map,
                effects: self.effects,
                ..old
            })
            &&& self.effects@ == old.effects@ + old.kill_ask(target) + App::relayout_if(z.changed)
            &&& step == if old.workspaces is Some {
                CloseStep::Remove { pane: target }
            } else {
                CloseStep::Done
            }
        }
    }

    /// The request that kills what `target` shows, if panes live in the daemon.
    pub open spec fn kill_ask(&self, target: PaneId) -> Seq<Effect> {
        match self.pane_id_map.daemon(target) {
            Some(d) if self.daemon_mode() => seq![
                Effect::Ask(IpcRequest::KillPane { pane_id: d }),
            ],
            _ => seq![],
        }
    }

    /// Starts to close the pane `target_id`. It no longer stands for a pane of
    /// the daemon even when the close itself comes too soon: two panes that
    /// exit at once must both be forgotten.
    pub fn close_pane_by_id(&mut self, target_id: PaneId, now_ms: u64) -> (r: CloseStep)
        requires
            old(self).wf(),
        ensures
            final(self).close_started(*old(self), target_id, now_ms, r),
            final(self).wf(),
    {
        let request = if self.is_daemon_mode() {
            self.kill_pane_remote(target_id)
        } else {
            None
        };
        self.pane_id_map.remove_by_local(target_id);
        if self.close_is_too_soon(now_ms) {
            return CloseStep::Done;
        }
        self.last_close_action = Some(now_ms);
        if let Some(request) = request {
            self.emit(Effect::Ask(request));
        }
        self.leave_zoom();
        proof {
            assert(self.effects@ =~= old(self).effects@ + old(self).kill_ask(target_id)
                + App::relayout_if(old(self).after_unzoom().changed));
        }
        if self.workspaces.is_none() {
            return CloseStep::Done;
        }
        CloseStep::Remove { pane: target_id }
    }

    /// The workspaces after `target` was taken out: the focus moves only if it
    /// was on that pane.
    pub open spec fn refocused(w: Workspaces, target: PaneId) -> Workspaces {
        if w.focused == Some(target) {
            Workspaces { focused: first_pane(w), ..w }
        } else {
            w
        }
    }

    /// Ends the close of the pane `target_id`.
    pub fn finish_close_pane_by_id(&mut self, target_id: PaneId, removal: Removal)
        requires
            old(self).wf(),
        ensures
            final(self).wf(),
            *final(self) == (App {
                workspaces: match removal {
                    Removal::LastInWorkspace { remaining } => remaining,
                    Removal::Removed { workspaces } => Some(
                        App::refocused(workspaces, target_id),
                    ),
                    Removal::NotFound => old(self).workspaces,
                },
                effects: final(self).effects,
                ..*old(self)
            }),
            final(self).effects@ == old(self).effects@ + (match removal {
                Removal::LastInWorkspace { remaining } => old(self).remaining_effects(remaining),
                Removal::Removed { workspaces } => (if workspaces.focused == Some(target_id) {
                    old(self).select_effects(first_pane(workspaces))
                } else {
                    seq![]
                }).push(Effect::RelayoutAndRedraw),
                Removal::NotFound => seq![],
            }).push(Effect::PublishWorkspaceState),
    {
        match removal {
            Removal::LastInWorkspace { remaining } => {
                self.show_remaining(remaining);
            },
            Removal::Removed { workspaces } => {
                let first = workspaces.layout.first_id();
                let was_focused = match workspaces.focused {
                    Some(id) => id == target_id,
                    None => false,
                };
                self.workspaces = Some(workspaces);
                if was_focused {
                    self.set_focused_pane(first);
                }
                self.emit(Effect::RelayoutAndRedraw);
            },
            Removal::NotFound => {},
        }
        self.emit(Effect::PublishWorkspaceState);
        assert(self.effects@ =~= old(self).effects@ + (match removal {
            Removal::LastInWorkspace { remaining } => old(self).remaining_effects(remaining),
            Removal::Removed { workspaces } => (if workspaces.focused == Some(target_id) {
                old(self).select_effects(first_pane(workspaces))
            } else {
                seq![]
            }).push(Effect::RelayoutAndRedraw),
            Removal::NotFound => seq![],
        }).push(Effect::PublishWorkspaceState));
    }

    /// Starts to close every pane of the workspace on the screen; says whether
    /// its panes are to be dropped.
    pub fn close_all_panes(&mut self, now_ms: u64) -> (r: bool)
        ensures
            r == (!too_soon(old(self).last_close_action, now_ms) && old(self).workspaces is Some),
            *final(self) == (App {
                last_close_action: if too_soon(old(self).last_close_action, now_ms) {
                    old(self).last_close_action
                } else {
                    Some(now_ms)
                },
                ..*old(self)
            }),
    {
        if self.close_is_too_soon(now_ms) {
            return false;
        }
        self.last_close_action = Some(now_ms);
        self.workspaces.is_some()
    }

    /// Ends the close of a whole workspace. The panes that zoom hides are closed
    /// with it.
    pub fn finish_close_all_panes(&mut self, remaining: Option<Workspaces>)
        requires
            old(self).wf(),
        ensures
            final(self).wf(),
            *final(self) == (App {
                workspaces: remaining,
                zoomed_layout: None,
                selection_pane: None,
                selection_in_progress: false,
                effects: final(self).effects,
                ..*old(self)
            }),
            final(self).effects@ == old(self).effects@ + old(self).remaining_effects(
                remaining,
            ).push(Effect::PublishWorkspaceState),
    {
        self.show_remaining(remaining);
        self.zoomed_layout = None;
        self.selection_pane = None;
        self.selection_in_progress = false;
        self.emit(Effect::PublishWorkspaceState);
        assert(self.effects@ =~= old(self).effects@ + old(self).remaining_effects(remaining).push(
            Effect::PublishWorkspaceState,
        ));
    }
}

} // verus!
