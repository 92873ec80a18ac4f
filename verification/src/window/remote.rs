//! Splitting panes of the daemon.
use super::split::SplitStep;
use super::{App, DaemonSplitOnComplete, DaemonSplitResult, Effect, Notice, Workspaces};
use crate::ids;
use crate::ids::{DaemonPaneId, SessionId};
use crate::ipc::{IpcRequest, IpcResponse, Reply, RpcAttempt};
use crate::layout::{PaneId, PaneState, SplitDirection};
use crate::shell;
use vstd::prelude::*;

verus! {

/// What becomes of a split of a pane that the daemon does not know.
#[derive(Debug, Clone, Copy, PartialEq, Eq, Structural)]
pub enum NoDaemonMappingDecision {
    /// Split it in the window alone.
    FallbackLocal,
    /// Do nothing: what the new pane is for needs the daemon.
    Bail,
}

pub open spec fn no_mapping(on_complete: DaemonSplitOnComplete) -> NoDaemonMappingDecision {
    if on_complete is FocusAndRelayout {
        NoDaemonMappingDecision::FallbackLocal
    } else {
        NoDaemonMappingDecision::Bail
    }
}

/// What becomes of a split of a pane that the daemon does not know, such as
/// one that shows a web page.
pub fn decide_no_daemon_mapping(on_complete: &DaemonSplitOnComplete) -> (r: NoDaemonMappingDecision)
    ensures
        r == no_mapping(*on_complete),
{
    match on_complete {
        DaemonSplitOnComplete::FocusAndRelayout => NoDaemonMappingDecision::FallbackLocal,
        DaemonSplitOnComplete::AutoTile { .. } => NoDaemonMappingDecision::Bail,
        DaemonSplitOnComplete::SwarmTail { .. } => NoDaemonMappingDecision::Bail,
        DaemonSplitOnComplete::WriteBytesAndFocus { .. } => NoDaemonMappingDecision::Bail,
        DaemonSplitOnComplete::NewWorkspace { .. } => NoDaemonMappingDecision::Bail,
    }
}

/// How many frames after a split the new pane's scrollback is compacted.
pub const COMPACT_COUNTDOWN: u32 = 30;

/// What is needed next once the daemon has split a pane.
#[derive(Debug, PartialEq, Eq)]
pub enum MountStep {
    Done,
    /// A pane is to be made that shows the daemon's new one, next to `source`.
    BuildPane {
        source: PaneId,
        daemon_pane: DaemonPaneId,
        direction: SplitDirection,
        cwd: Option<String>,
        on_complete: DaemonSplitOnComplete,
    },
    /// A pane is to be made that shows the daemon's new one, for a workspace of
    /// its own.
    BuildWorkspace { daemon_pane: DaemonPaneId, workspace_id: u8 },
}

/// Why the daemon has not split a pane, as a text for a log.
pub open spec fn split_failure(attempt: RpcAttempt) -> Seq<char> {
    match attempt {
        RpcAttempt::Answered { response: IpcResponse::Error { message }, .. } => message@,
        RpcAttempt::Answered { printed, .. } => "unexpected response: "@ + printed@,
        RpcAttempt::Failed(e) => "rpc error: "@ + e@,
        RpcAttempt::TimedOut => "rpc timed out after 5s"@,
    }
}

/// The daemon's new pane, or why there is none, given how the request ended.
pub fn split_answer(attempt: RpcAttempt) -> (r: Result<DaemonPaneId, String>)
    ensures
        match attempt {
            RpcAttempt::Answered { response: IpcResponse::PaneSplit { new_pane_id }, .. } => r
                == Ok::<DaemonPaneId, String>(new_pane_id),
            _ => r matches Err(e) && e@ == split_failure(attempt),
        },
{
    match attempt {
        RpcAttempt::Answered { response: IpcResponse::PaneSplit { new_pane_id }, .. } => Ok(
            new_pane_id,
        ),
        RpcAttempt::Answered { response: IpcResponse::Error { message }, .. } => Err(message),
        RpcAttempt::Answered { printed, .. } => Err(
            String::from_str("unexpected response: ").concat(printed.as_str()),
        ),
        RpcAttempt::Failed(e) => Err(String::from_str("rpc error: ").concat(e.as_str())),
        RpcAttempt::TimedOut => Err(String::from_str("rpc timed out after 5s")),
    }
}

impl App {
    /// What a split through the daemon needs first.
    pub open spec fn remote_step(
        &self,
        source: PaneId,
        direction: SplitDirection,
        on_complete: DaemonSplitOnComplete,
    ) -> SplitStep {
        match self.pane_id_map.daemon(source) {
            Some(d) => if self.daemon_client && self.daemon_runtime {
                SplitStep::AskDaemon { source, daemon_source: d, direction, on_complete }
            } else {
                SplitStep::Done
            },
            None => if no_mapping(on_complete) == NoDaemonMappingDecision::FallbackLocal {
                self.local_step(source, direction)
            } else {
                SplitStep::Done
            },
        }
    }

    /// The effects of starting a split through the daemon.
    pub open spec fn remote_effects(
        &self,
        source: PaneId,
        on_complete: DaemonSplitOnComplete,
    ) -> Seq<Effect> {
        if self.pane_id_map.daemon(source) is None && no_mapping(on_complete)
            == NoDaemonMappingDecision::FallbackLocal {
            self.local_effects(source)
        } else {
            seq![]
        }
    }

    /// Starts to split `source_local` through the daemon. A pane that the
    /// daemon does not know is split in the window, if that can serve.
    pub fn split_pane_remote(
        &mut self,
        source_local: PaneId,
        direction: SplitDirection,
        on_complete: DaemonSplitOnComplete,
    ) -> (r: SplitStep)
        requires
            old(self).wf(),
        ensures
            final(self).wf(),
            r == old(self).remote_step(source_local, direction, on_complete),
            final(self).only_added(
                *old(self),
                old(self).remote_effects(source_local, on_complete),
            ),
    {
        assert(old(self).effects@ + Seq::<Effect>::empty() =~= old(self).effects@);
        let daemon_source: DaemonPaneId = match self.pane_id_map.daemon_for_local(source_local) {
            Some(d) => d,
            None => {
                return match decide_no_daemon_mapping(&on_complete) {
                    NoDaemonMappingDecision::FallbackLocal => self.split_pane_by_id_local(
                        source_local,
                        direction,
                    ),
                    NoDaemonMappingDecision::Bail => SplitStep::Done,
                };
            },
        };
        if !self.daemon_client || !self.daemon_runtime {
            return SplitStep::Done;
        }
        SplitStep::AskDaemon { source: source_local, daemon_source, direction, on_complete }
    }

    /// Asks the daemon for a split, in the directory `inherited_cwd`.
    pub fn request_split(
        &mut self,
        source: PaneId,
        daemon_source: DaemonPaneId,
        direction: SplitDirection,
        inherited_cwd: Option<String>,
        on_complete: DaemonSplitOnComplete,
    )
        ensures
            final(self).only_added(
                *old(self),
                seq![
                    Effect::SplitRemote {
                        request: IpcRequest::SplitPane {
                            pane_id: daemon_source,
                            horizontal: direction == SplitDirection::Horizontal,
                            cwd: inherited_cwd,
                        },
                        source_local: source,
                        direction,
                        inherited_cwd,
                        on_complete,
                    },
                ],
            ),
    {
        let cwd = match &inherited_cwd {
            Some(c) => Some(c.clone()),
            None => None,
        };
        self.emit(
            Effect::SplitRemote {
                request: IpcRequest::SplitPane {
                    pane_id: daemon_source,
                    horizontal: matches!(direction, SplitDirection::Horizontal),
                    cwd,
                },
                source_local: source,
                direction,
                inherited_cwd,
                on_complete,
            },
        );
    }

    /// What is needed next for the daemon's new pane `daemon_pane`, unless nothing
    /// can be made of it.
    pub open spec fn mount_step(
        &self,
        daemon_pane: DaemonPaneId,
        result: DaemonSplitResult,
    ) -> MountStep {
        match result.on_complete {
            DaemonSplitOnComplete::NewWorkspace { workspace_id } => self.workspace_step(
                daemon_pane,
                workspace_id,
            ),
            _ => if self.can_build() && self.shows(result.source_local) {
                MountStep::BuildPane {
                    source: result.source_local,
                    daemon_pane,
                    direction: result.direction,
                    cwd: result.inherited_cwd,
                    on_complete: result.on_complete,
                }
            } else {
                MountStep::Done
            },
        }
    }

    /// What is needed next for a new workspace with the daemon's new pane.
    pub open spec fn workspace_step(
        &self,
        daemon_pane: DaemonPaneId,
        workspace_id: u8,
    ) -> MountStep {
        if self.can_build() && self.has_layout_rect {
            MountStep::BuildWorkspace { daemon_pane, workspace_id }
        } else {
            MountStep::Done
        }
    }

    /// The effects of going on with `step`: a pane of the daemon of which nothing
    /// can be made is given up.
    pub open spec fn mount_effects(&self, daemon_pane: DaemonPaneId, step: MountStep) -> Seq<
        Effect,
    > {
        if step is Done {
            self.orphan_effects(daemon_pane)
        } else {
            seq![]
        }
    }

    /// Takes the daemon's answer to a split. A new pane of the daemon that cannot
    /// be shown, such as one next to a pane that is gone by now, is given up.
    pub fn finish_split_pane_remote(&mut self, result: DaemonSplitResult) -> (r: MountStep)
        ensures
            match result.rpc_result {
                Err(_) => {
                    &&& r == MountStep::Done
                    &&& final(self).only_added(
                        *old(self),
                        seq![Effect::Toast(Notice::DaemonSplitFailed)],
                    )
                },
                Ok(daemon_pane) => {
                    &&& r == old(self).mount_step(daemon_pane, result)
                    &&& final(self).only_added(
                        *old(self),
                        old(self).mount_effects(daemon_pane, r),
                    )
                },
            },
    {
        assert(old(self).effects@ + Seq::<Effect>::empty() =~= old(self).effects@);
        let daemon_pane: DaemonPaneId = match result.rpc_result {
            Ok(id) => id,
            Err(_) => {
                self.emit(Effect::Toast(Notice::DaemonSplitFailed));
                return MountStep::Done;
            },
        };
        if let DaemonSplitOnComplete::NewWorkspace { workspace_id } = result.on_complete {
            return self.finish_new_workspace_remote(daemon_pane, workspace_id);
        }
        if !self.daemon_client || !self.daemon_runtime || !self.has_renderer || !self.is_shown(
            result.source_local,
        ) {
            self.give_up_orphan(daemon_pane);
            return MountStep::Done;
        }
        MountStep::BuildPane {
            source: result.source_local,
            daemon_pane,
            direction: result.direction,
            cwd: result.inherited_cwd,
            on_complete: result.on_complete,
        }
    }

    /// Whether a pane that shows one of the daemon can be made.
    pub open spec fn can_build(&self) -> bool {
        self.daemon_client && self.daemon_runtime && self.has_renderer
    }

    /// Starts to make the daemon's new pane the only one of a new workspace.
    pub fn finish_new_workspace_remote(
        &mut self,
        daemon_pane: DaemonPaneId,
        workspace_id: u8,
    ) -> (r: MountStep)
        ensures
            r == old(self).workspace_step(daemon_pane, workspace_id),
            final(self).only_added(*old(self), old(self).mount_effects(daemon_pane, r)),
    {
        assert(old(self).effects@ + Seq::<Effect>::empty() =~= old(self).effects@);
        if !self.has_layout_rect || !self.has_renderer || !self.daemon_client
            || !self.daemon_runtime {
            self.give_up_orphan(daemon_pane);
            return MountStep::Done;
        }
        MountStep::BuildWorkspace { daemon_pane, workspace_id }
    }

    /// The effects of giving up a pane of the daemon that cannot be shown: the
    /// daemon is to kill it, so that it does not linger.
    pub open spec fn orphan_effects(&self, daemon_pane: DaemonPaneId) -> Seq<Effect> {
        if self.daemon_client && self.daemon_runtime {
            seq![Effect::Notify(IpcRequest::KillPane { pane_id: daemon_pane })]
        } else {
            seq![]
        }
    }

    pub(crate) fn give_up_orphan(&mut self, daemon_pane: DaemonPaneId)
        ensures
            final(self).only_added(*old(self), old(self).orphan_effects(daemon_pane)),
    {
        if self.daemon_client && self.daemon_runtime {
            self.emit(Effect::Notify(IpcRequest::KillPane { pane_id: daemon_pane }));
        } else {
            assert(old(self).effects@ + Seq::<Effect>::empty() =~= old(self).effects@);
        }
    }

    /// What the daemon is told when the focus goes to a pane that shows its
    /// pane `daemon_pane`.
    pub open spec fn follow_effects(&self, daemon_pane: DaemonPaneId) -> Seq<Effect> {
        if self.daemon_mode() {
            seq![Effect::Notify(IpcRequest::SelectPane { pane_id: daemon_pane })]
        } else {
            seq![]
        }
    }

    /// `self` is `old` with `pane` shown in the new half of `source`, paired
    /// with the daemon's pane, and with the remaining fields as in `rest`.
    pub open spec fn mounted_from(
        self,
        old: App,
        source: PaneId,
        direction: SplitDirection,
        pane: PaneState,
        daemon_pane: DaemonPaneId,
        focused: bool,
    ) -> bool {
        let split = App::split_workspaces(old.workspaces, source, direction, pane);
        &&& self == (App {
            workspaces: if focused {
                App::with_focus(split, Some(pane.id))
            } else {
                split
            },
            last_split_direction: if focused {
                direction
            } else {
                old.last_split_direction
            },
            pane_id_map: self.pane_id_map,
            scrollback_compact_countdown: COMPACT_COUNTDOWN,
            swarm_panes: self.swarm_panes,
            effects: self.effects,
            ..old
        })
        &&& self.pane_id_map.pairs@ == ids::with_pair(old.pane_id_map.pairs@, pane.id, daemon_pane)
        &&& self.pane_id_map.daemon(pane.id) == Some(daemon_pane)
        &&& self.wf()
    }

    /// Gives the focus to a pane that was just mounted.
    fn focus_mounted(&mut self, pane: PaneId, direction: SplitDirection, daemon_pane: DaemonPaneId)
        requires
            old(self).wf(),
            old(self).pane_id_map.daemon(pane) == Some(daemon_pane),
        ensures
            *final(self) == (App {
                workspaces: App::with_focus(old(self).workspaces, Some(pane)),
                last_split_direction: direction,
                effects: final(self).effects,
                ..*old(self)
            }),
            final(self).effects@ == old(self).effects@ + old(self).focus_effects(daemon_pane),
    {
        self.last_split_direction = direction;
        self.set_focused_pane(Some(pane));
        self.emit(Effect::RelayoutAndRedraw);
        self.emit(Effect::PublishWorkspaceState);
        assert(self.effects@ =~= old(self).effects@ + old(self).focus_effects(daemon_pane));
    }

    /// The effects of a pane that was opened for what happens in `parent`.
    pub open spec fn auto_tile_effects(&self, parent: PaneId, pane: PaneId) -> Seq<Effect> {
        (if self.auto_tile_debouncer {
            seq![Effect::RegisterAutoTiled { parent, pane }]
        } else {
            seq![]
        }) + seq![Effect::RelayoutAndRedraw, Effect::PublishWorkspaceState]
    }

    fn complete_auto_tile(&mut self, parent: PaneId, pane: PaneId)
        ensures
            final(self).only_added(*old(self), old(self).auto_tile_effects(parent, pane)),
    {
        if self.auto_tile_debouncer {
            self.emit(Effect::RegisterAutoTiled { parent, pane });
        }
        self.emit(Effect::RelayoutAndRedraw);
        self.emit(Effect::PublishWorkspaceState);
        assert(self.effects@ =~= old(self).effects@ + old(self).auto_tile_effects(parent, pane));
    }

    /// The effects of a pane that follows the file `path`.
    pub open spec fn tail_effects(daemon_pane: DaemonPaneId, keys: Vec<u8>) -> Seq<Effect> {
        seq![
            Effect::Ask(IpcRequest::SendKeys { pane_id: daemon_pane, keys }),
            Effect::RelayoutAndRedraw,
            Effect::PublishWorkspaceState,
        ]
    }

    fn complete_tail(
        &mut self,
        agent_id: String,
        path: String,
        pane: PaneId,
        daemon_pane: DaemonPaneId,
    )
        requires
            old(self).swarm_panes.wf(),
        ensures
            *final(self) == (App {
                swarm_panes: final(self).swarm_panes,
                effects: final(self).effects,
                ..*old(self)
            }),
            final(self).swarm_panes.wf(),
            final(self).swarm_panes@ == old(self).swarm_panes@.insert(agent_id@, pane),
            exists|keys: Vec<u8>|
                keys@ == vstd::utf8::encode_utf8(shell::tail_command_text(path@))
                    && final(self).effects@ == old(self).effects@ + #[trigger] App::tail_effects(
                    daemon_pane,
                    keys,
                ),
    {
        let command = shell::tail_command(path.as_str());
        let keys = command.as_str().as_bytes_vec();
        let ghost sent = keys;
        self.emit(Effect::Ask(IpcRequest::SendKeys { pane_id: daemon_pane, keys }));
        self.swarm_panes.insert(agent_id, pane);
        self.emit(Effect::RelayoutAndRedraw);
        self.emit(Effect::PublishWorkspaceState);
        assert(self.effects@ =~= old(self).effects@ + App::tail_effects(daemon_pane, sent));
    }

    /// The effects of typing into a new pane.
    pub open spec fn keys_effects(
        daemon_pane: DaemonPaneId,
        bytes: Vec<u8>,
        toast: Option<String>,
    ) -> Seq<Effect> {
        (match toast {
            Some(text) => seq![Effect::Toast(Notice::Text(text))],
            None => seq![],
        }) + seq![Effect::Ask(IpcRequest::SendKeys { pane_id: daemon_pane, keys: bytes })]
    }

    fn complete_keys(&mut self, bytes: Vec<u8>, toast: Option<String>, daemon_pane: DaemonPaneId)
        ensures
            final(self).only_added(*old(self), App::keys_effects(daemon_pane, bytes, toast)),
    {
        if let Some(text) = toast {
            self.emit(Effect::Toast(Notice::Text(text)));
        }
        self.emit(Effect::Ask(IpcRequest::SendKeys { pane_id: daemon_pane, keys: bytes }));
        assert(self.effects@ =~= old(self).effects@ + App::keys_effects(
            daemon_pane,
            bytes,
            toast,
        ));
    }

    /// The effects of showing a new pane and giving it the focus.
    pub open spec fn focus_effects(&self, daemon_pane: DaemonPaneId) -> Seq<Effect> {
        self.follow_effects(daemon_pane) + seq![
            Effect::RelayoutAndRedraw,
            Effect::PublishWorkspaceState,
        ]
    }

    /// Ends a split through the daemon with the pane that shows the new one, if
    /// it could be made.
    #[verifier::rlimit(40)]
    pub fn finish_mount(
        &mut self,
        source: PaneId,
        direction: SplitDirection,
        daemon_pane: DaemonPaneId,
        built: Option<PaneState>,
        on_complete: DaemonSplitOnComplete,
    )
        requires
            old(self).wf(),
            !(on_complete is NewWorkspace),
        ensures
            final(self).wf(),
            match built {
                Some(pane) if old(self).shows(source) => {
                    &&& final(self).mounted_from(
                        *old(self),
                        source,
                        direction,
                        pane,
                        daemon_pane,
                        on_complete is FocusAndRelayout || on_complete is WriteBytesAndFocus,
                    )
                    &&& match on_complete {
                        DaemonSplitOnComplete::SwarmTail { agent_id, jsonl_path } => {
                            &&& final(self).swarm_panes@ == old(self).swarm_panes@.insert(
                                agent_id@,
                                pane.id,
                            )
                            &&& exists|keys: Vec<u8>|
                                keys@ == vstd::utf8::encode_utf8(
                                    shell::tail_command_text(jsonl_path@),
                                ) && final(self).effects@ == old(self).effects@
                                    + #[trigger] App::tail_effects(daemon_pane, keys)
                        },
                        _ => final(self).swarm_panes == old(self).swarm_panes,
                    }
                    &&& match on_complete {
                        DaemonSplitOnComplete::FocusAndRelayout => final(self).effects@
                            == old(self).effects@ + old(self).focus_effects(daemon_pane),
                        DaemonSplitOnComplete::AutoTile { parent_pane_id } => final(self).effects@
                            == old(self).effects@ + old(self).auto_tile_effects(
                            parent_pane_id,
                            pane.id,
                        ),
                        DaemonSplitOnComplete::WriteBytesAndFocus { bytes, toast } => {
                            final(self).effects@ == old(self).effects@ + old(self).focus_effects(
                                daemon_pane,
                            ) + App::keys_effects(daemon_pane, bytes, toast)
                        },
                        _ => true,
                    }
                },
                _ => final(self).only_added(*old(self), old(self).orphan_effects(daemon_pane)),
            },
    {
        let pane = match built {
            Some(p) => p,
            None => {
                self.give_up_orphan(daemon_pane);
                return;
            },
        };
        let new_id: PaneId = pane.id;
        if !self.mount(source, direction, pane) {
            self.give_up_orphan(daemon_pane);
            return;
        }
        self.pane_id_map.insert(new_id, daemon_pane);
        self.scrollback_compact_countdown = COMPACT_COUNTDOWN;
        match on_complete {
            DaemonSplitOnComplete::FocusAndRelayout => {
                self.focus_mounted(new_id, direction, daemon_pane);
            },
            DaemonSplitOnComplete::AutoTile { parent_pane_id } => {
                self.complete_auto_tile(parent_pane_id, new_id);
            },
            DaemonSplitOnComplete::SwarmTail { agent_id, jsonl_path } => {
                self.complete_tail(agent_id, jsonl_path, new_id, daemon_pane);
            },
            DaemonSplitOnComplete::WriteBytesAndFocus { bytes, toast } => {
                self.focus_mounted(new_id, direction, daemon_pane);
                self.complete_keys(bytes, toast, daemon_pane);
            },
            DaemonSplitOnComplete::NewWorkspace { .. } => {},
        }
    }

    /// Goes on to make a new workspace with the pane that shows the daemon's,
    /// if it could be made; gives it back for the new workspace.
    pub fn workspace_pane_built(
        &mut self,
        daemon_pane: DaemonPaneId,
        built: Option<PaneState>,
    ) -> (r: Option<PaneState>)
        requires
            old(self).wf(),
        ensures
            r == built,
            final(self).wf(),
            match built {
                Some(pane) => {
                    &&& *final(self) == (App {
                        pane_id_map: final(self).pane_id_map,
                        ..*old(self)
                    })
                    &&& final(self).pane_id_map.pairs@ == ids::with_pair(
                        old(self).pane_id_map.pairs@,
                        pane.id,
                        daemon_pane,
                    )
                },
                None => final(self).only_added(
                    *old(self),
                    old(self).orphan_effects(daemon_pane).push(Effect::Toast(Notice::NewTabFailed)),
                ),
            },
    {
        match built {
            Some(pane) => {
                self.pane_id_map.insert(pane.id, daemon_pane);
                Some(pane)
            },
            None => {
                self.give_up_orphan(daemon_pane);
                self.emit(Effect::Toast(Notice::NewTabFailed));
                assert(self.effects@ =~= old(self).effects@ + old(self).orphan_effects(
                    daemon_pane,
                ).push(Effect::Toast(Notice::NewTabFailed)));
                None
            },
        }
    }

    /// Shows the workspace that was switched to, if any was.
    pub fn workspace_switched(&mut self, switched: Option<Workspaces>)
        ensures
            match switched {
                Some(w) => {
                    &&& *final(self) == (App {
                        workspaces: Some(w),
                        effects: final(self).effects,
                        ..*old(self)
                    })
                    &&& final(self).effects@ == old(self).effects@ + seq![
                        Effect::RelayoutAndRedraw,
                        Effect::PublishWorkspaceState,
                    ]
                },
                None => *final(self) == *old(self),
            },
    {
        if let Some(w) = switched {
            self.workspaces = Some(w);
            self.emit(Effect::RelayoutAndRedraw);
            self.emit(Effect::PublishWorkspaceState);
            assert(self.effects@ =~= old(self).effects@ + seq![
                Effect::RelayoutAndRedraw,
                Effect::PublishWorkspaceState,
            ]);
        }
    }

    /// The request for a pane of the daemon next to `anchor`, not yet in any
    /// layout.
    pub fn spawn_remote_pane_off_existing(&self, anchor: DaemonPaneId) -> (r: IpcRequest)
        ensures
            r == (IpcRequest::SplitPane { pane_id: anchor, horizontal: true, cwd: None }),
    {
        IpcRequest::SplitPane { pane_id: anchor, horizontal: true, cwd: None }
    }

    /// Takes the answer to that request: the new pane of the daemon, if it can be
    /// shown; if not, the daemon is to kill it.
    pub fn off_existing_answered(&mut self, reply: Reply) -> (r: Option<DaemonPaneId>)
        ensures
            r == match reply {
                Reply::Ok(IpcResponse::PaneSplit { new_pane_id }) => if old(self).can_build() {
                    Some(new_pane_id)
                } else {
                    None
                },
                _ => None,
            },
            final(self).only_added(
                *old(self),
                match reply {
                    Reply::Ok(IpcResponse::PaneSplit { new_pane_id }) => if old(
                        self,
                    ).can_build() {
                        seq![]
                    } else {
                        seq![Effect::Ask(IpcRequest::KillPane { pane_id: new_pane_id })]
                    },
                    Reply::Ok(IpcResponse::Error { message }) => seq![
                        Effect::Toast(Notice::SplitFailed(message)),
                    ],
                    Reply::Ok(_) => seq![],
                    Reply::Err(_) => seq![Effect::Toast(Notice::DaemonSplitFailed)],
                },
            ),
    {
        assert(old(self).effects@ + Seq::<Effect>::empty() =~= old(self).effects@);
        match reply {
            Ok(IpcResponse::PaneSplit { new_pane_id }) => if self.has_renderer && self.daemon_client
                && self.daemon_runtime {
                Some(new_pane_id)
            } else {
                self.emit(Effect::Ask(IpcRequest::KillPane { pane_id: new_pane_id }));
                None
            },
            Ok(IpcResponse::Error { message }) => {
                self.emit(Effect::Toast(Notice::SplitFailed(message)));
                None
            },
            Ok(_) => None,
            Err(_) => {
                self.emit(Effect::Toast(Notice::DaemonSplitFailed));
                None
            },
        }
    }

    /// Ends it with the pane that shows the new one, if it could be made; if
    /// not, the daemon is to kill its pane.
    pub fn off_existing_built(
        &mut self,
        daemon_pane: DaemonPaneId,
        built: Option<PaneState>,
    ) -> (r: Option<PaneState>)
        requires
            old(self).wf(),
        ensures
            r == built,
            final(self).wf(),
            match built {
                Some(pane) => {
                    &&& *final(self) == (App {
                        pane_id_map: final(self).pane_id_map,
                        ..*old(self)
                    })
                    &&& final(self).pane_id_map.pairs@ == ids::with_pair(
                        old(self).pane_id_map.pairs@,
                        pane.id,
                        daemon_pane,
                    )
                    &&& final(self).pane_id_map.daemon(pane.id) == Some(daemon_pane)
                },
                None => final(self).only_added(
                    *old(self),
                    seq![Effect::Ask(IpcRequest::KillPane { pane_id: daemon_pane })],
                ),
            },
    {
        match built {
            Some(pane) => {
                self.pane_id_map.insert(pane.id, daemon_pane);
                Some(pane)
            },
            None => {
                self.emit(Effect::Ask(IpcRequest::KillPane { pane_id: daemon_pane }));
                None
            },
        }
    }

    /// Whether a new session of the daemon, with one pane, can be asked for.
    pub fn can_start_session(&self) -> (r: bool)
        ensures
            r == self.can_build(),
    {
        self.has_renderer && self.daemon_client && self.daemon_runtime
    }

    /// Takes a new session of the daemon and the pane that shows its pane, if
    /// they could be made. The session becomes that of the window if it had
    /// none. The user is told of every failure, also where no session can be
    /// asked for.
    pub fn spawn_remote_pane_fresh_session(
        &mut self,
        started: Result<(PaneState, SessionId, DaemonPaneId), String>,
    ) -> (r: Option<PaneState>)
        requires
            old(self).wf(),
        ensures
            final(self).wf(),
            match started {
                Ok((pane, session, daemon_pane)) if old(self).can_build() => {
                    &&& r == Some(pane)
                    &&& *final(self) == (App {
                        pane_id_map: final(self).pane_id_map,
                        daemon_session_id: match old(self).daemon_session_id {
                            Some(s) => Some(s),
                            None => Some(session),
                        },
                        ..*old(self)
                    })
                    &&& final(self).pane_id_map.pairs@ == ids::with_pair(
                        old(self).pane_id_map.pairs@,
                        pane.id,
                        daemon_pane,
                    )
                    &&& final(self).pane_id_map.daemon(pane.id) == Some(daemon_pane)
                },
                _ => {
                    &&& r is None
                    &&& final(self).only_added(
                        *old(self),
                        seq![Effect::Toast(Notice::SessionCreateFailed)],
                    )
                },
            },
    {
        if !self.can_start_session() {
            self.emit(Effect::Toast(Notice::SessionCreateFailed));
            return None;
        }
        match started {
            Ok((pane, session, daemon_pane)) => {
                self.pane_id_map.insert(pane.id, daemon_pane);
                if self.daemon_session_id.is_none() {
                    self.daemon_session_id = Some(session);
                }
                Some(pane)
            },
            Err(_) => {
                self.emit(Effect::Toast(Notice::SessionCreateFailed));
                None
            },
        }
    }
}

} // verus!
