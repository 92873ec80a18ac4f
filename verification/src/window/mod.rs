//! The state of the window and the operations on its panes.
//!
//! An operation changes the state and lists in `effects` what is to be done
//! outside of it, in order. Where it needs an answer from outside, it ends with
//! a value that says what to find out, and a second operation takes the answer.
pub mod clipboard;
pub mod close;
pub mod editing;
pub mod focus;
pub mod input_laws;
pub mod laws;
pub mod motion;
pub mod mouse;
pub mod outcomes;
pub mod pointer;
pub mod reconcile;
pub mod remote;
pub mod restore;
pub mod spawn;
pub mod split;
pub mod steps;
pub mod swarm;
pub mod tail;
pub mod tile;
pub mod workspace;
pub mod zoom;

use crate::hotspot::HotspotKind;
use crate::ids::{DaemonPaneId, PaneIdMap, SessionId};
use crate::ipc::{IpcRequest, Reply, RpcAttempt, RpcFailure};
use crate::layout::{LayoutNode, PaneId, SplitDirection};
use crate::swarm_panes::SwarmPanes;
use pointer::{CursorIcon, MouseReport, Screen, SelectionKind};
use vstd::prelude::*;

verus! {

/// A message shown to the user.
#[derive(Debug, PartialEq, Eq)]
pub enum Notice {
    KillFailed(String),
    DaemonKillFailed,
    SwapFailed(String),
    DaemonSwapFailed,
    SplitFailed(String),
    DaemonSplitFailed,
    NewTabFailed,
    SessionCreateFailed,
    NoTranscript,
    TailPaneFailed,
    WebViewSplitFailed,
    WebViewFailed(String),
    EditorSplitFailed,
    EditorLaunchFailed(String),
    FallbackFailed,
    CouldNotOpen(String),
    NoErrorRegion,
    NoMoreRegion,
    /// A text that came from elsewhere.
    Text(String),
}

impl Notice {
    /// The text of the message; `agent` is the name of the agent whose
    /// transcripts can be followed.
    pub open spec fn text(self, agent: Seq<char>) -> Seq<char> {
        match self {
            Notice::KillFailed(m) => "kill failed: "@ + m@,
            Notice::DaemonKillFailed => "daemon kill failed"@,
            Notice::SwapFailed(m) => "swap failed: "@ + m@,
            Notice::DaemonSwapFailed => "daemon swap failed"@,
            Notice::SplitFailed(m) => "split failed: "@ + m@,
            Notice::DaemonSplitFailed => "daemon split failed"@,
            Notice::NewTabFailed => "new tab failed"@,
            Notice::SessionCreateFailed => "daemon session create failed"@,
            Notice::NoTranscript => "no "@ + agent + " session transcript found"@,
            Notice::TailPaneFailed => "failed to open JSONL tail pane"@,
            Notice::WebViewSplitFailed => "failed to split for webview pane"@,
            Notice::WebViewFailed(e) => "WebView failed: "@ + e@,
            Notice::EditorSplitFailed => "failed to split pane for editor"@,
            Notice::EditorLaunchFailed(e) => "$EDITOR ("@ + e@ + ") failed to launch"@,
            Notice::FallbackFailed => "no $EDITOR set, and fallback failed"@,
            Notice::CouldNotOpen(p) => "could not open "@ + p@,
            Notice::NoErrorRegion => "no error region"@,
            Notice::NoMoreRegion => "no more region"@,
            Notice::Text(t) => t@,
        }
    }

    /// The text of the message; `agent` is the name of the agent whose
    /// transcripts can be followed.
    pub fn message(&self, agent: &str) -> (r: String)
        ensures
            r@ == self.text(agent@),
    {
        match self {
            Notice::KillFailed(m) => String::from_str("kill failed: ").concat(m.as_str()),
            Notice::DaemonKillFailed => String::from_str("daemon kill failed"),
            Notice::SwapFailed(m) => String::from_str("swap failed: ").concat(m.as_str()),
            Notice::DaemonSwapFailed => String::from_str("daemon swap failed"),
            Notice::SplitFailed(m) => String::from_str("split failed: ").concat(m.as_str()),
            Notice::DaemonSplitFailed => String::from_str("daemon split failed"),
            Notice::NewTabFailed => String::from_str("new tab failed"),
            Notice::SessionCreateFailed => String::from_str("daemon session create failed"),
            Notice::NoTranscript => String::from_str("no ").concat(agent).concat(
                " session transcript found",
            ),
            Notice::TailPaneFailed => String::from_str("failed to open JSONL tail pane"),
            Notice::WebViewSplitFailed => String::from_str("failed to split for webview pane"),
            Notice::WebViewFailed(e) => String::from_str("WebView failed: ").concat(e.as_str()),
            Notice::EditorSplitFailed => String::from_str("failed to split pane for editor"),
            Notice::EditorLaunchFailed(e) => String::from_str("$EDITOR (").concat(
                e.as_str(),
            ).concat(") failed to launch"),
            Notice::FallbackFailed => String::from_str("no $EDITOR set, and fallback failed"),
            Notice::CouldNotOpen(p) => String::from_str("could not open ").concat(p.as_str()),
            Notice::NoErrorRegion => String::from_str("no error region"),
            Notice::NoMoreRegion => String::from_str("no more region"),
            Notice::Text(t) => t.clone(),
        }
    }
}

/// What to do once the daemon has split a pane and the new one is shown.
#[derive(Debug, PartialEq, Eq)]
pub enum DaemonSplitOnComplete {
    /// Focus the new pane.
    FocusAndRelayout,
    /// Register the new pane as one that an agent's activity opened.
    AutoTile { parent_pane_id: PaneId },
    /// Follow an agent's transcript in the new pane.
    SwarmTail { agent_id: String, jsonl_path: String },
    /// Focus the new pane and type into it.
    WriteBytesAndFocus { bytes: Vec<u8>, toast: Option<String> },
    /// Make the new pane the only one of a new workspace.
    NewWorkspace { workspace_id: u8 },
}

impl Default for DaemonSplitOnComplete {
    fn default() -> (r: Self)
        ensures
            r == DaemonSplitOnComplete::FocusAndRelayout,
    {
        DaemonSplitOnComplete::FocusAndRelayout
    }
}

/// Something to be done outside of the state, in the order of the list.
#[derive(Debug, PartialEq, Eq)]
pub enum Effect {
    RequestRedraw,
    /// Lay the panes out anew and redraw.
    RelayoutAndRedraw,
    /// Tell the daemon how the workspaces are laid out.
    PublishWorkspaceState,
    Toast(Notice),
    /// Send a request and wait; what comes back does not matter.
    Ask(IpcRequest),
    /// Send a request without waiting.
    Notify(IpcRequest),
    /// Ask the daemon for a split without waiting. The answer comes back as a
    /// [`DaemonSplitResult`].
    SplitRemote {
        request: IpcRequest,
        source_local: PaneId,
        direction: SplitDirection,
        inherited_cwd: Option<String>,
        on_complete: DaemonSplitOnComplete,
    },
    /// Remember that `pane` was opened for what happens in `parent`.
    RegisterAutoTiled { parent: PaneId, pane: PaneId },
    /// Give every pane its area.
    LayoutPanes,
    /// Tell every pane its size.
    ResizePanes,
    /// Take the keyboard back from a web page, now and while it loads.
    RestoreMainFocus,
    /// Send bytes to the pane's terminal.
    WritePty { pane: PaneId, bytes: Vec<u8> },
    /// Unmark the selected text of the pane.
    ClearTermSelection { pane: PaneId },
    /// Put the selected text of the pane on the clipboard.
    CopySelection { pane: PaneId },
    /// Mark text of the pane, from the cell on.
    StartSelection { pane: PaneId, col: usize, row: usize, kind: SelectionKind },
    /// Move the end of the marked text to the cell.
    UpdateSelection { pane: PaneId, col: usize, row: usize },
    /// Tell the program in the pane of the mouse.
    ReportMouse { pane: PaneId, report: MouseReport, col: usize, row: usize, times: usize },
    /// Scroll the pane's history by so many lines, upwards if positive.
    ScrollDisplay { pane: PaneId, lines: i32 },
    SetCursor(CursorIcon),
    OpenUrl(String),
    /// Offer what can be done with a hotspot, at the pointer.
    OpenHotspotPalette { kind: HotspotKind, text: String },
}

/// The answer to a split that the daemon was asked for.
#[derive(Debug, PartialEq, Eq)]
pub struct DaemonSplitResult {
    /// The pane that was to be split.
    pub source_local: PaneId,
    pub direction: SplitDirection,
    /// The daemon's new pane, or why there is none.
    pub rpc_result: Result<DaemonPaneId, String>,
    /// The directory that the daemon was given for the new pane.
    pub inherited_cwd: Option<String>,
    pub on_complete: DaemonSplitOnComplete,
}

/// Where a new pane starts.
#[derive(Debug, Clone, Copy, PartialEq, Eq, Structural)]
pub enum NewPaneCwd {
    Inherit,
    Home,
}

/// The workspace on the screen, and which others there are.
#[derive(Debug, PartialEq, Eq)]
pub struct Workspaces {
    pub active_id: u8,
    pub ids: Vec<u8>,
    pub layout: LayoutNode,
    pub focused: Option<PaneId>,
}

/// The window.
#[derive(Debug)]
pub struct App {
    /// Whether the configuration asks for a daemon.
    pub attach_remote: bool,
    /// Whether a daemon is connected.
    pub daemon_client: bool,
    /// Whether requests to the daemon can be run.
    pub daemon_runtime: bool,
    pub daemon_session_id: Option<SessionId>,
    /// Whether panes can be drawn, and so sized.
    pub has_renderer: bool,
    pub has_window: bool,
    /// Whether the area for the panes is known.
    pub has_layout_rect: bool,
    /// Whether panes are opened for the activity of agents.
    pub auto_tile_debouncer: bool,
    /// Whether the activity of subagents is followed.
    pub swarm_debouncer_tx: bool,
    pub new_pane_cwd: NewPaneCwd,
    pub pane_id_map: PaneIdMap,
    pub workspaces: Option<Workspaces>,
    /// While a pane is zoomed, the tree that it was taken out of.
    pub zoomed_layout: Option<LayoutNode>,
    /// When a pane was last closed, in milliseconds.
    pub last_close_action: Option<u64>,
    pub last_split_direction: SplitDirection,
    pub scrollback_compact_countdown: u32,
    /// The panes that follow a subagent, by its id.
    pub swarm_panes: SwarmPanes,
    /// The pane with the selected text.
    pub selection_pane: Option<PaneId>,
    pub selection_in_progress: bool,
    /// The frame of the window, the pointer, and what it can be over.
    pub screen: Screen,
    pub effects: Vec<Effect>,
}

impl App {
    pub open spec fn wf(&self) -> bool {
        self.pane_id_map.wf() && self.swarm_panes.wf() && self.screen.wf()
    }

    /// Whether panes live in the daemon.
    pub open spec fn daemon_mode(&self) -> bool {
        self.attach_remote && self.daemon_client && self.daemon_session_id is Some
            && self.daemon_runtime
    }

    /// The pane that the keyboard goes to.
    pub open spec fn focus(&self) -> Option<PaneId> {
        match self.workspaces {
            Some(w) => w.focused,
            None => None,
        }
    }

    /// The workspaces with the focus on `pane`.
    pub open spec fn with_focus(w: Option<Workspaces>, pane: Option<PaneId>) -> Option<Workspaces> {
        match w {
            Some(w) => Some(Workspaces { focused: pane, ..w }),
            None => None,
        }
    }

    /// What the daemon is told when the focus goes to `pane`.
    pub open spec fn select_effects(&self, pane: Option<PaneId>) -> Seq<Effect> {
        match pane {
            Some(id) => match self.pane_id_map.daemon(id) {
                Some(d) => if self.daemon_mode() {
                    seq![Effect::Notify(IpcRequest::SelectPane { pane_id: d })]
                } else {
                    seq![]
                },
                None => seq![],
            },
            None => seq![],
        }
    }

    /// `self` is `old` with the effects `added` behind the others.
    pub open spec fn only_added(self, old: App, added: Seq<Effect>) -> bool {
        &&& self == (App { effects: self.effects, ..old })
        &&& self.effects@ == old.effects@ + added
    }

    /// Whether panes live in the daemon.
    pub fn is_daemon_mode(&self) -> (r: bool)
        ensures
            r == self.daemon_mode(),
    {
        self.attach_remote && self.daemon_client && self.daemon_session_id.is_some()
            && self.daemon_runtime
    }

    /// The answer to a request, given how it ended; none can be made without a
    /// connection and something to run it on.
    pub fn daemon_rpc_blocking(&self, attempt: RpcAttempt) -> (r: Reply)
        ensures
            !self.daemon_client ==> r == Reply::Err(RpcFailure::NoClient),
            self.daemon_client && !self.daemon_runtime ==> r == Reply::Err(RpcFailure::NoRuntime),
            self.daemon_client && self.daemon_runtime ==> r == match attempt {
                RpcAttempt::Answered { response, .. } => Reply::Ok(response),
                RpcAttempt::Failed(e) => Reply::Err(RpcFailure::Failed(e)),
                RpcAttempt::TimedOut => Reply::Err(RpcFailure::TimedOut),
            },
    {
        if !self.daemon_client {
            return Err(RpcFailure::NoClient);
        }
        if !self.daemon_runtime {
            return Err(RpcFailure::NoRuntime);
        }
        match attempt {
            RpcAttempt::Answered { response, .. } => Ok(response),
            RpcAttempt::Failed(e) => Err(RpcFailure::Failed(e)),
            RpcAttempt::TimedOut => Err(RpcFailure::TimedOut),
        }
    }

    pub fn focused_pane(&self) -> (r: Option<PaneId>)
        ensures
            r == self.focus(),
    {
        match &self.workspaces {
            Some(w) => w.focused,
            None => None,
        }
    }

    pub(crate) fn emit(&mut self, effect: Effect)
        ensures
            final(self).only_added(*old(self), seq![effect]),
    {
        self.effects.push(effect);
        assert(self.effects@ =~= old(self).effects@ + seq![effect]);
    }

    /// Lets the daemon know that `local_id` has the focus, if it shows a pane
    /// of the daemon.
    pub fn select_pane_remote(&mut self, local_id: PaneId)
        requires
            old(self).wf(),
        ensures
            final(self).wf(),
            final(self).only_added(*old(self), old(self).select_effects(Some(local_id))),
    {
        if self.is_daemon_mode() {
            if let Some(daemon_id) = self.pane_id_map.daemon_for_local(local_id) {
                self.emit(Effect::Notify(IpcRequest::SelectPane { pane_id: daemon_id }));
                return;
            }
        }
        assert(self.effects@ =~= old(self).effects@ + Seq::<Effect>::empty());
    }

    /// Gives `pane` the focus in the workspace on the screen.
    pub fn set_focused_pane(&mut self, pane: Option<PaneId>)
        requires
            old(self).wf(),
        ensures
            final(self).wf(),
            *final(self) == (App {
                workspaces: App::with_focus(old(self).workspaces, pane),
                effects: final(self).effects,
                ..*old(self)
            }),
            final(self).effects@ == old(self).effects@ + old(self).select_effects(pane),
    {
        if let Some(w) = &mut self.workspaces {
            w.focused = pane;
        }
        match pane {
            Some(id) => self.select_pane_remote(id),
            None => {
                assert(self.effects@ =~= old(self).effects@ + Seq::<Effect>::empty());
            },
        }
    }
}

} // verus!
