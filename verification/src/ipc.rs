//! What the window asks of the daemon, and what the daemon answers.
use crate::ids::{DaemonPaneId, SessionId};
use crate::layout::{PaneId, Ratio, SplitDirection};
use vstd::prelude::*;

verus! {

#[derive(Debug, PartialEq, Eq)]
pub enum IpcRequest {
    SplitPane { pane_id: DaemonPaneId, horizontal: bool, cwd: Option<String> },
    KillPane { pane_id: DaemonPaneId },
    SwapPane { a: DaemonPaneId, b: DaemonPaneId },
    SelectPane { pane_id: DaemonPaneId },
    MovePane { pane_id: DaemonPaneId, target_workspace_id: u8 },
    SendKeys { pane_id: DaemonPaneId, keys: Vec<u8> },
    /// Tags the pane with `pinned=true`.
    TagPinned { pane_id: DaemonPaneId },
    /// Takes the tag `pinned` off the pane.
    UntagPinned { pane_id: DaemonPaneId },
    AckWebViewPaneSpawn { request_id: u64, pane_id: Option<PaneId>, error: Option<WebViewError> },
    GetWorkspaces { session_id: SessionId },
    ListPanes { session_id: SessionId },
}

#[derive(Debug, PartialEq, Eq)]
pub enum IpcResponse {
    PaneSplit { new_pane_id: DaemonPaneId },
    PaneKilled,
    PaneSwapped,
    PaneMoved,
    Workspaces { workspaces: Vec<WorkspaceInfo>, active_workspace: u8 },
    Panes { panes: Vec<PaneSummary> },
    Error { message: String },
    /// An answer of another kind.
    Other,
}

/// What the daemon knows of a pane.
#[derive(Debug, Clone, Copy, PartialEq, Eq, Structural)]
pub struct PaneSummary {
    pub pane_id: DaemonPaneId,
    pub pinned: bool,
}

/// A workspace as the daemon stores it.
#[derive(Debug, PartialEq, Eq)]
pub struct WorkspaceInfo {
    pub id: u8,
    pub layout: Option<DaemonLayout>,
    pub pane_ids: Vec<DaemonPaneId>,
}

/// The tree of the daemon's panes in a workspace.
#[derive(Debug, PartialEq, Eq)]
pub enum DaemonLayout {
    Leaf { pane_id: DaemonPaneId },
    Split {
        direction: SplitDirection,
        ratio: Ratio,
        first: Box<DaemonLayout>,
        second: Box<DaemonLayout>,
    },
}

/// How a request to the daemon ended.
#[derive(Debug, PartialEq, Eq)]
pub enum RpcAttempt {
    /// An answer came; `printed` is how it is printed for a log.
    Answered { response: IpcResponse, printed: String },
    /// The connection failed, with its message.
    Failed(String),
    TimedOut,
}

/// Why a request to the daemon has no answer.
#[derive(Debug, PartialEq, Eq)]
pub enum RpcFailure {
    NoClient,
    NoRuntime,
    Failed(String),
    TimedOut,
}

impl RpcFailure {
    pub open spec fn text(self) -> Seq<char> {
        match self {
            RpcFailure::NoClient => "no daemon client"@,
            RpcFailure::NoRuntime => "no daemon runtime handle"@,
            RpcFailure::Failed(e) => "daemon rpc error: "@ + e@,
            RpcFailure::TimedOut => "daemon rpc timed out after 5s"@,
        }
    }

    pub fn message(&self) -> (r: String)
        ensures
            r@ == self.text(),
    {
        match self {
            RpcFailure::NoClient => String::from_str("no daemon client"),
            RpcFailure::NoRuntime => String::from_str("no daemon runtime handle"),
            RpcFailure::Failed(e) => {
                let mut out = String::from_str("daemon rpc error: ");
                out.append(e.as_str());
                out
            },
            RpcFailure::TimedOut => String::from_str("daemon rpc timed out after 5s"),
        }
    }
}

/// Why a web page is not shown.
#[derive(Debug, PartialEq, Eq)]
pub enum WebViewError {
    NoFocusedPane,
    EmptyUrl,
    SplitFailed,
    NoWindow,
    NativeFailed(String),
}

impl WebViewError {
    pub open spec fn text(self) -> Seq<char> {
        match self {
            WebViewError::NoFocusedPane => "no focused pane to split from"@,
            WebViewError::EmptyUrl => "url is empty"@,
            WebViewError::SplitFailed => "failed to split for webview pane"@,
            WebViewError::NoWindow => "no active window to attach webview to"@,
            WebViewError::NativeFailed(e) => "failed to create native webview: "@ + e@,
        }
    }

    pub fn message(&self) -> (r: String)
        ensures
            r@ == self.text(),
    {
        match self {
            WebViewError::NoFocusedPane => String::from_str("no focused pane to split from"),
            WebViewError::EmptyUrl => String::from_str("url is empty"),
            WebViewError::SplitFailed => String::from_str("failed to split for webview pane"),
            WebViewError::NoWindow => String::from_str("no active window to attach webview to"),
            WebViewError::NativeFailed(e) => String::from_str(
                "failed to create native webview: ",
            ).concat(e.as_str()),
        }
    }
}

/// The answer to a blocking request, or why there is none.
pub type Reply = Result<IpcResponse, RpcFailure>;

/// How long a request of the user interface may take, in milliseconds.
pub const DAEMON_OP_TIMEOUT_MS: u64 = 5000;

/// How long the request to follow the focus may take, in milliseconds.
pub const SELECT_TIMEOUT_MS: u64 = 2000;

} // verus!
