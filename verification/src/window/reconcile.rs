//! Following the daemon when something else changed its workspaces.
use super::{App, Effect, Workspaces};
use crate::ids;
use crate::ids::{DaemonPaneId, PaneIdMap, SessionId};
use crate::ipc::{DaemonLayout, IpcResponse, PaneSummary, RpcAttempt, WorkspaceInfo};
use crate::layout::{PaneId, PaneState};
use vstd::prelude::*;

verus! {

/// The grid of a pane that is made before its place is known.
pub const PLACEHOLDER_COLS: usize = 80;

pub const PLACEHOLDER_ROWS: usize = 24;

impl DaemonLayout {
    /// The daemon's panes, first halves before second halves.
    pub open spec fn ids(self) -> Seq<DaemonPaneId>
        decreases self,
    {
        match self {
            DaemonLayout::Leaf { pane_id } => seq![pane_id],
            DaemonLayout::Split { first, second, .. } => first.ids() + second.ids(),
        }
    }
}

impl WorkspaceInfo {
    /// The daemon's panes in the workspace: those of its tree, or those listed
    /// where it has none.
    pub open spec fn all_ids(self) -> Seq<DaemonPaneId> {
        match self.layout {
            Some(t) => t.ids(),
            None => self.pane_ids@,
        }
    }
}

/// The daemon's panes in the first `n` workspaces.
pub open spec fn ids_in(workspaces: Seq<WorkspaceInfo>, n: int) -> Seq<DaemonPaneId>
    decreases n,
{
    if n <= 0 {
        seq![]
    } else {
        ids_in(workspaces, n - 1) + workspaces[n - 1].all_ids()
    }
}

/// All panes of the daemon.
pub open spec fn daemon_ids(workspaces: Seq<WorkspaceInfo>) -> Seq<DaemonPaneId> {
    ids_in(workspaces, workspaces.len() as int)
}

fn push_snapshot_ids(t: &DaemonLayout, out: &mut Vec<DaemonPaneId>)
    ensures
        final(out)@ == old(out)@ + t.ids(),
    decreases t,
{
    match t {
        DaemonLayout::Leaf { pane_id } => {
            out.push(*pane_id);
            assert(out@ =~= old(out)@ + t.ids());
        },
        DaemonLayout::Split { first, second, .. } => {
            push_snapshot_ids(first, out);
            push_snapshot_ids(second, out);
            assert(out@ =~= old(out)@ + t.ids());
        },
    }
}

/// The daemon's panes in a tree, first halves before second halves.
pub fn collect_pane_ids_from_snapshot(t: &DaemonLayout) -> (r: Vec<DaemonPaneId>)
    ensures
        r@ == t.ids(),
{
    let mut out: Vec<DaemonPaneId> = Vec::new();
    push_snapshot_ids(t, &mut out);
    assert(out@ =~= t.ids());
    out
}

/// The daemon's panes in a workspace.
pub fn collect_pane_ids_from_workspace(ws: &WorkspaceInfo) -> (r: Vec<DaemonPaneId>)
    ensures
        r@ == ws.all_ids(),
{
    match &ws.layout {
        Some(t) => collect_pane_ids_from_snapshot(t),
        None => {
            let mut out: Vec<DaemonPaneId> = Vec::new();
            let mut i: usize = 0;
            while i < ws.pane_ids.len()
                invariant
                    i <= ws.pane_ids@.len(),
                    out@ == ws.pane_ids@.take(i as int),
                decreases ws.pane_ids@.len() - i,
            {
                out.push(ws.pane_ids[i]);
                assert(out@ =~= ws.pane_ids@.take(i as int + 1));
                i += 1;
            }
            assert(out@ =~= ws.pane_ids@);
            out
        },
    }
}

fn has_id(ids: &Vec<DaemonPaneId>, id: DaemonPaneId) -> (r: bool)
    ensures
        r == ids@.contains(id),
{
    let mut i: usize = 0;
    while i < ids.len()
        invariant
            i <= ids@.len(),
            forall|k: int| 0 <= k < i ==> ids@[k] != id,
        decreases ids@.len() - i,
    {
        if ids[i] == id {
            return true;
        }
        i += 1;
    }
    false
}

/// Every number occurs once.
pub open spec fn once_each(s: Seq<DaemonPaneId>) -> bool {
    forall|i: int, j: int| 0 <= i < j < s.len() ==> s[i] != s[j]
}

/// The numbers of `a` that are not in `b`, each once.
fn difference(a: &Vec<DaemonPaneId>, b: &Vec<DaemonPaneId>) -> (r: Vec<DaemonPaneId>)
    ensures
        once_each(r@),
        forall|x: DaemonPaneId| #[trigger]
            r@.contains(x) <==> a@.contains(x) && !b@.contains(x),
{
    let mut out: Vec<DaemonPaneId> = Vec::new();
    let mut i: usize = 0;
    while i < a.len()
        invariant
            i <= a@.len(),
            once_each(out@),
            forall|x: DaemonPaneId| #[trigger]
                out@.contains(x) <==> a@.take(i as int).contains(x) && !b@.contains(x),
        decreases a@.len() - i,
    {
        let x: DaemonPaneId = a[i];
        let ghost before = out@;
        let ghost seen = a@.take(i as int);
        let ghost more = a@.take(i as int + 1);
        proof {
            assert(more =~= seen.push(x));
            assert forall|y: DaemonPaneId| #[trigger] more.contains(y) <==> (seen.contains(y) || y
                == x) by {
                if seen.contains(y) {
                    let k = choose|k: int| 0 <= k < seen.len() && seen[k] == y;
                    assert(more[k] == y);
                }
                if y == x {
                    assert(more[i as int] == y);
                }
                if more.contains(y) {
                    let k = choose|k: int| 0 <= k < more.len() && more[k] == y;
                    if k < seen.len() {
                        assert(seen[k] == y);
                    }
                }
            }
        }
        if !has_id(b, x) && !has_id(&out, x) {
            out.push(x);
            proof {
                assert forall|y: DaemonPaneId| #[trigger] out@.contains(y) <==> (before.contains(y)
                    || y == x) by {
                    if before.contains(y) {
                        let k = choose|k: int| 0 <= k < before.len() && before[k] == y;
                        assert(out@[k] == y);
                    }
                    if y == x {
                        assert(out@[before.len() as int] == y);
                    }
                    if out@.contains(y) {
                        let k = choose|k: int| 0 <= k < out@.len() && out@[k] == y;
                        if k < before.len() {
                            assert(before[k] == y);
                        }
                    }
                }
                assert forall|p: int, q: int| 0 <= p < q < out@.len() implies out@[p]
                    != out@[q] by {
                    if q == before.len() {
                        assert(before.contains(before[p]));
                    }
                }
            }
        }
        i += 1;
    }
    assert(a@.take(i as int) =~= a@);
    out
}

/// What changed: the daemon's panes that the window does not show yet, and
/// those shown that the daemon no longer has.
#[derive(Debug, PartialEq, Eq)]
pub struct PaneDiff {
    pub new: Vec<DaemonPaneId>,
    pub removed: Vec<DaemonPaneId>,
}

/// What changed between the panes that the window shows and those of the
/// daemon.
pub fn pane_diff(workspaces: &Vec<WorkspaceInfo>, known: &Vec<DaemonPaneId>) -> (r: PaneDiff)
    ensures
        once_each(r.new@),
        once_each(r.removed@),
        forall|x: DaemonPaneId| #[trigger]
            r.new@.contains(x) <==> daemon_ids(workspaces@).contains(x) && !known@.contains(x),
        forall|x: DaemonPaneId| #[trigger]
            r.removed@.contains(x) <==> known@.contains(x) && !daemon_ids(workspaces@).contains(x),
        forall|i: int, x: DaemonPaneId|
            0 <= i < workspaces@.len() && #[trigger] workspaces@[i].all_ids().contains(x)
                ==> !r.removed@.contains(x) && (known@.contains(x) || r.new@.contains(x)),
{
    let mut all: Vec<DaemonPaneId> = Vec::new();
    let mut i: usize = 0;
    while i < workspaces.len()
        invariant
            i <= workspaces@.len(),
            all@ == ids_in(workspaces@, i as int),
        decreases workspaces@.len() - i,
    {
        let mut ids = collect_pane_ids_from_workspace(&workspaces[i]);
        all.append(&mut ids);
        i += 1;
    }
    proof {
        assert forall|i: int, x: DaemonPaneId|
            0 <= i < workspaces@.len() && #[trigger] workspaces@[i].all_ids().contains(
                x,
            ) implies daemon_ids(workspaces@).contains(x) by {
            law_all_workspaces_count(workspaces@, x);
        }
    }
    PaneDiff { new: difference(&all, known), removed: difference(known, &all) }
}

/// The daemon's pane at the place that `path` leads to: at each split to its first
/// half or, where it is true, to its second.
pub open spec fn leaf_at(t: DaemonLayout, path: Seq<bool>) -> Option<DaemonPaneId>
    decreases path.len(),
{
    match t {
        DaemonLayout::Leaf { pane_id } => if path.len() == 0 {
            Some(pane_id)
        } else {
            None
        },
        DaemonLayout::Split { first, second, .. } => if path.len() == 0 {
            None
        } else if path[0] {
            leaf_at(*second, path.skip(1))
        } else {
            leaf_at(*first, path.skip(1))
        },
    }
}

/// A tree lists exactly the panes that stand at a place of it.
pub proof fn law_every_leaf_is_listed(t: DaemonLayout, id: DaemonPaneId)
    ensures
        t.ids().contains(id) <==> exists|path: Seq<bool>| #[trigger] leaf_at(t, path) == Some(id),
    decreases t,
{
    match t {
        DaemonLayout::Leaf { pane_id } => {
            assert(t.ids()[0] == pane_id);
            assert(leaf_at(t, Seq::empty()) == Some(pane_id));
        },
        DaemonLayout::Split { first, second, .. } => {
            law_every_leaf_is_listed(*first, id);
            law_every_leaf_is_listed(*second, id);
            let (a, b) = (first.ids(), second.ids());
            assert forall|path: Seq<bool>| #[trigger] leaf_at(t, path) == Some(id) implies t.ids()
                .contains(id) by {
                let rest = path.skip(1);
                if path[0] {
                    assert(leaf_at(*second, rest) == Some(id));
                    let k = choose|k: int| 0 <= k < b.len() && b[k] == id;
                    assert(t.ids()[a.len() + k] == id);
                } else {
                    assert(leaf_at(*first, rest) == Some(id));
                    let k = choose|k: int| 0 <= k < a.len() && a[k] == id;
                    assert(t.ids()[k] == id);
                }
            }
            if t.ids().contains(id) {
                let k = choose|k: int| 0 <= k < t.ids().len() && t.ids()[k] == id;
                if k < a.len() {
                    assert(a[k] == id);
                    let q = choose|path: Seq<bool>| #[trigger] leaf_at(*first, path) == Some(id);
                    let path = seq![false] + q;
                    assert(path.skip(1) =~= q);
                    assert(leaf_at(t, path) == Some(id));
                } else {
                    assert(b[k - a.len()] == id);
                    let q = choose|path: Seq<bool>| #[trigger] leaf_at(*second, path) == Some(id);
                    let path = seq![true] + q;
                    assert(path.skip(1) =~= q);
                    assert(leaf_at(t, path) == Some(id));
                }
            }
        },
    }
}

/// The panes of a workspace are those of its tree; only where it has none, those
/// listed.
pub proof fn law_the_tree_counts(ws: WorkspaceInfo, id: DaemonPaneId)
    ensures
        match ws.layout {
            Some(t) => ws.all_ids().contains(id) <==> exists|path: Seq<bool>| #[trigger]
                leaf_at(t, path) == Some(id),
            None => ws.all_ids() == ws.pane_ids@,
        },
{
    if let Some(t) = ws.layout {
        law_every_leaf_is_listed(t, id);
    }
}

proof fn lemma_in_the_first(workspaces: Seq<WorkspaceInfo>, n: int, id: DaemonPaneId)
    requires
        0 <= n <= workspaces.len(),
    ensures
        ids_in(workspaces, n).contains(id) <==> exists|i: int|
            0 <= i < n && (#[trigger] workspaces[i]).all_ids().contains(id),
    decreases n,
{
    if n > 0 {
        lemma_in_the_first(workspaces, n - 1, id);
        let a = ids_in(workspaces, n - 1);
        let b = workspaces[n - 1].all_ids();
        let all = ids_in(workspaces, n);
        if a.contains(id) {
            let k = choose|k: int| 0 <= k < a.len() && a[k] == id;
            assert(all[k] == id);
        }
        if b.contains(id) {
            let k = choose|k: int| 0 <= k < b.len() && b[k] == id;
            assert(all[a.len() + k] == id);
        }
        if all.contains(id) {
            let k = choose|k: int| 0 <= k < all.len() && all[k] == id;
            if k < a.len() {
                assert(a[k] == id);
            } else {
                assert(b[k - a.len()] == id);
                assert(workspaces[n - 1].all_ids().contains(id));
            }
        }
    }
}

/// The daemon has a pane exactly if one of its workspaces holds it.
pub proof fn law_all_workspaces_count(workspaces: Seq<WorkspaceInfo>, id: DaemonPaneId)
    ensures
        daemon_ids(workspaces).contains(id) <==> exists|i: int|
            0 <= i < workspaces.len() && (#[trigger] workspaces[i]).all_ids().contains(id),
{
    lemma_in_the_first(workspaces, workspaces.len() as int, id);
}

/// A pane that any workspace of the daemon holds, whether in its tree or, without a
/// tree, in its list, is not removed; and if the window does not show it, it is new.
pub proof fn law_held_panes_stay(
    workspaces: Seq<WorkspaceInfo>,
    known: Seq<DaemonPaneId>,
    diff: PaneDiff,
    i: int,
    path: Seq<bool>,
    id: DaemonPaneId,
)
    requires
        forall|y: DaemonPaneId| #[trigger]
            diff.new@.contains(y) <==> daemon_ids(workspaces).contains(y) && !known.contains(y),
        forall|y: DaemonPaneId| #[trigger]
            diff.removed@.contains(y) <==> known.contains(y) && !daemon_ids(workspaces).contains(y),
        0 <= i < workspaces.len(),
        match workspaces[i].layout {
            Some(t) => leaf_at(t, path) == Some(id),
            None => workspaces[i].pane_ids@.contains(id),
        },
    ensures
        !diff.removed@.contains(id),
        !known.contains(id) ==> diff.new@.contains(id),
{
    law_the_tree_counts(workspaces[i], id);
    law_all_workspaces_count(workspaces, id);
}

/// Keeping what is known, dropping what was removed and adding what is new
/// gives exactly the daemon's panes.
pub proof fn law_diff_is_complete(
    daemon: Seq<DaemonPaneId>,
    known: Seq<DaemonPaneId>,
    diff: PaneDiff,
    x: DaemonPaneId,
)
    requires
        forall|y: DaemonPaneId| #[trigger]
            diff.new@.contains(y) <==> daemon.contains(y) && !known.contains(y),
        forall|y: DaemonPaneId| #[trigger]
            diff.removed@.contains(y) <==> known.contains(y) && !daemon.contains(y),
    ensures
        daemon.contains(x) <==> (known.contains(x) && !diff.removed@.contains(x))
            || diff.new@.contains(x),
        !(diff.new@.contains(x) && diff.removed@.contains(x)),
{
}

/// Why the daemon's workspaces are not known.
#[derive(Debug, PartialEq, Eq)]
pub enum ReconcileError {
    TimedOut,
    Rpc(String),
    Refused(String),
    /// Another answer, as it is printed.
    Unexpected(String),
}

impl ReconcileError {
    pub open spec fn text(self) -> Seq<char> {
        match self {
            ReconcileError::TimedOut => "GetWorkspaces timed out"@,
            ReconcileError::Rpc(e) => e@,
            ReconcileError::Refused(m) => "GetWorkspaces failed: "@ + m@,
            ReconcileError::Unexpected(r) => "unexpected GetWorkspaces response: "@ + r@,
        }
    }

    pub fn message(&self) -> (r: String)
        ensures
            r@ == self.text(),
    {
        match self {
            ReconcileError::TimedOut => String::from_str("GetWorkspaces timed out"),
            ReconcileError::Rpc(e) => e.clone(),
            ReconcileError::Refused(m) => String::from_str("GetWorkspaces failed: ").concat(
                m.as_str(),
            ),
            ReconcileError::Unexpected(r) => String::from_str(
                "unexpected GetWorkspaces response: ",
            ).concat(r.as_str()),
        }
    }
}

/// The daemon's workspaces and the number of the active one, given how the
/// request ended.
pub fn workspaces_answer(attempt: RpcAttempt) -> (r: Result<
    (Vec<WorkspaceInfo>, u8),
    ReconcileError,
>)
    ensures
        r == match attempt {
            RpcAttempt::Answered {
                response: IpcResponse::Workspaces { workspaces, active_workspace },
                ..
            } => Ok((workspaces, active_workspace)),
            RpcAttempt::Answered { response: IpcResponse::Error { message }, .. } => Err(
                ReconcileError::Refused(message),
            ),
            RpcAttempt::Answered { printed, .. } => Err(ReconcileError::Unexpected(printed)),
            RpcAttempt::Failed(e) => Err(ReconcileError::Rpc(e)),
            RpcAttempt::TimedOut => Err(ReconcileError::TimedOut),
        },
{
    match attempt {
        RpcAttempt::Answered {
            response: IpcResponse::Workspaces { workspaces, active_workspace },
            ..
        } => Ok((workspaces, active_workspace)),
        RpcAttempt::Answered { response: IpcResponse::Error { message }, .. } => Err(
            ReconcileError::Refused(message),
        ),
        RpcAttempt::Answered { printed, .. } => Err(ReconcileError::Unexpected(printed)),
        RpcAttempt::Failed(e) => Err(ReconcileError::Rpc(e)),
        RpcAttempt::TimedOut => Err(ReconcileError::TimedOut),
    }
}

/// What the daemon says of its panes, given how the request ended; nothing if
/// it did not say.
pub fn summaries_answer(attempt: RpcAttempt) -> (r: Vec<PaneSummary>)
    ensures
        match attempt {
            RpcAttempt::Answered { response: IpcResponse::Panes { panes }, .. } => r == panes,
            _ => r@.len() == 0,
        },
{
    match attempt {
        RpcAttempt::Answered { response: IpcResponse::Panes { panes }, .. } => panes,
        _ => Vec::new(),
    }
}

/// Whether a pane is pinned, by the last that the daemon says of it; not, if it
/// says nothing.
pub open spec fn pinned_by(panes: Seq<PaneSummary>, id: DaemonPaneId) -> bool
    decreases panes.len(),
{
    if panes.len() == 0 {
        false
    } else if panes.last().pane_id == id {
        panes.last().pinned
    } else {
        pinned_by(panes.drop_last(), id)
    }
}

/// Whether the daemon says that a pane is pinned.
pub fn is_pinned(panes: &Vec<PaneSummary>, id: DaemonPaneId) -> (r: bool)
    ensures
        r == pinned_by(panes@, id),
{
    let mut n: usize = panes.len();
    assert(panes@.take(n as int) =~= panes@);
    while n > 0
        invariant
            n <= panes@.len(),
            pinned_by(panes@, id) == pinned_by(panes@.take(n as int), id),
        decreases n,
    {
        assert(panes@.take(n as int).drop_last() =~= panes@.take(n as int - 1));
        if panes[n - 1].pane_id == id {
            return panes[n - 1].pinned;
        }
        n -= 1;
    }
    false
}

/// The last that the daemon says of a pane counts; of a pane that it does not speak
/// of, nothing does.
pub proof fn law_last_word_counts(panes: Seq<PaneSummary>, id: DaemonPaneId, i: int)
    requires
        -1 <= i < panes.len(),
        i >= 0 ==> panes[i].pane_id == id,
        forall|j: int| i < j < panes.len() ==> (#[trigger] panes[j]).pane_id != id,
    ensures
        pinned_by(panes, id) == (i >= 0 && panes[i].pinned),
    decreases panes.len(),
{
    if panes.len() > 0 && i < panes.len() - 1 {
        let rest = panes.drop_last();
        assert forall|j: int| i < j < rest.len() implies (#[trigger] rest[j]).pane_id != id by {
            assert(panes[j].pane_id != id);
        }
        law_last_word_counts(rest, id, i);
    }
}

/// A pane of the daemon that is to be shown.
#[derive(Debug, Clone, Copy, PartialEq, Eq, Structural)]
pub struct NewPane {
    pub daemon: DaemonPaneId,
    pub pinned: bool,
}

/// The daemon's numbers of new panes.
pub open spec fn numbers(panes: Seq<NewPane>) -> Seq<DaemonPaneId> {
    panes.map_values(|p: NewPane| p.daemon)
}

/// What is to be done to follow the daemon.
#[derive(Debug, PartialEq, Eq)]
pub struct ReconcilePlan {
    pub workspaces: Vec<WorkspaceInfo>,
    pub active_workspace: u8,
    /// The panes to connect to.
    pub new_panes: Vec<NewPane>,
    /// The panes that the daemon no longer has.
    pub removed_daemon_ids: Vec<DaemonPaneId>,
}

/// What the daemon said of its panes.
pub open spec fn summaries_of(attempt: RpcAttempt) -> Seq<PaneSummary> {
    match attempt {
        RpcAttempt::Answered { response: IpcResponse::Panes { panes }, .. } => panes@,
        _ => seq![],
    }
}

/// Plans how to follow the daemon's workspaces. `known` are the daemon's panes
/// that the window shows, and `panes` is how the request for the daemon's panes
/// ended: without an answer, no new pane is pinned.
pub fn build_reconcile_result(
    workspaces: Vec<WorkspaceInfo>,
    active_workspace: u8,
    known: &Vec<DaemonPaneId>,
    panes: RpcAttempt,
) -> (r: ReconcilePlan)
    ensures
        r.workspaces == workspaces,
        r.active_workspace == active_workspace,
        once_each(numbers(r.new_panes@)),
        forall|x: DaemonPaneId| #[trigger]
            numbers(r.new_panes@).contains(x) <==> daemon_ids(
                workspaces@,
            ).contains(x) && !known@.contains(x),
        forall|i: int|
            0 <= i < r.new_panes@.len() ==> (#[trigger] r.new_panes@[i]).pinned == pinned_by(
                summaries_of(panes),
                r.new_panes@[i].daemon,
            ),
        once_each(r.removed_daemon_ids@),
        forall|x: DaemonPaneId| #[trigger]
            r.removed_daemon_ids@.contains(x) <==> known@.contains(x) && !daemon_ids(
                workspaces@,
            ).contains(x),
{
    let diff = pane_diff(&workspaces, known);
    let ghost said = summaries_of(panes);
    let summaries = summaries_answer(panes);
    assert(summaries@ =~= said);
    let mut new_panes: Vec<NewPane> = Vec::new();
    let mut i: usize = 0;
    while i < diff.new.len()
        invariant
            i <= diff.new@.len(),
            summaries@ == said,
            new_panes@.len() == i,
            forall|k: int|
                0 <= k < i ==> (#[trigger] new_panes@[k]).daemon == diff.new@[k]
                    && new_panes@[k].pinned == pinned_by(said, diff.new@[k]),
        decreases diff.new@.len() - i,
    {
        let daemon: DaemonPaneId = diff.new[i];
        new_panes.push(NewPane { daemon, pinned: is_pinned(&summaries, daemon) });
        i += 1;
    }
    assert(numbers(new_panes@) =~= diff.new@);
    ReconcilePlan { workspaces, active_workspace, new_panes, removed_daemon_ids: diff.removed }
}

/// What becomes of a pane of the window.
#[derive(Debug, Clone, Copy, PartialEq, Eq, Structural)]
pub enum PaneFate {
    /// The daemon does not know it.
    Unknown,
    /// The daemon no longer has it.
    Drop,
    /// It goes on to show the daemon's pane.
    Reuse { daemon_pane: DaemonPaneId },
}

/// The panes from which the layout is rebuilt: those shown before, and those
/// made for the daemon's new ones.
#[derive(Debug)]
pub struct PanePool {
    pub existing: Vec<(DaemonPaneId, PaneState)>,
    pub fresh: Vec<(DaemonPaneId, PaneState)>,
    /// The pairs of panes taken so far.
    pub taken: Vec<(PaneId, DaemonPaneId)>,
}

/// The position of the first entry for `id`, or the length.
pub open spec fn entry_at(v: Seq<(DaemonPaneId, PaneState)>, id: DaemonPaneId, from: int) -> int
    decreases v.len() - from,
{
    if from >= v.len() {
        v.len() as int
    } else if v[from].0 == id {
        from
    } else {
        entry_at(v, id, from + 1)
    }
}

/// The entry that is found is the first for the number; none is found where there
/// is none.
pub proof fn law_first_entry(v: Seq<(DaemonPaneId, PaneState)>, id: DaemonPaneId, from: int)
    requires
        0 <= from <= v.len(),
    ensures
        ({
            let k = entry_at(v, id, from);
            &&& from <= k <= v.len()
            &&& k < v.len() ==> v[k].0 == id
            &&& forall|j: int| from <= j < k ==> (#[trigger] v[j]).0 != id
        }),
    decreases v.len() - from,
{
    if from < v.len() && v[from].0 != id {
        law_first_entry(v, id, from + 1);
    }
}

fn position_of(v: &Vec<(DaemonPaneId, PaneState)>, id: DaemonPaneId) -> (r: usize)
    ensures
        r == entry_at(v@, id, 0),
        r <= v@.len(),
        r < v@.len() ==> v@[r as int].0 == id,
{
    let mut i: usize = 0;
    while i < v.len() && v[i].0 != id
        invariant
            i <= v@.len(),
            entry_at(v@, id, 0) == entry_at(v@, id, i as int),
        decreases v@.len() - i,
    {
        i += 1;
    }
    i
}

impl PanePool {
    /// Takes the pane that shows the daemon's pane `daemon_pane`: one shown
    /// before if there is one, else one made for it. Each is taken once.
    pub fn make_leaf(&mut self, daemon_pane: DaemonPaneId) -> (r: Option<PaneState>)
        ensures
            ({
                let e = entry_at(old(self).existing@, daemon_pane, 0);
                let f = entry_at(old(self).fresh@, daemon_pane, 0);
                if e < old(self).existing@.len() {
                    &&& r == Some(old(self).existing@[e].1)
                    &&& final(self).existing@ == old(self).existing@.remove(e)
                    &&& final(self).fresh == old(self).fresh
                } else if f < old(self).fresh@.len() {
                    &&& r == Some(old(self).fresh@[f].1)
                    &&& final(self).fresh@ == old(self).fresh@.remove(f)
                    &&& final(self).existing == old(self).existing
                } else {
                    r is None && *final(self) == *old(self)
                }
            }),
            r matches Some(p) ==> final(self).taken@ == old(self).taken@.push((p.id, daemon_pane)),
    {
        let e: usize = position_of(&self.existing, daemon_pane);
        if e < self.existing.len() {
            let entry = self.existing.remove(e);
            self.taken.push((entry.1.id, daemon_pane));
            return Some(entry.1);
        }
        let f: usize = position_of(&self.fresh, daemon_pane);
        if f < self.fresh.len() {
            let entry = self.fresh.remove(f);
            self.taken.push((entry.1.id, daemon_pane));
            return Some(entry.1);
        }
        None
    }
}

/// The pairs of a map into which `taken` was put, one pair after the other.
pub open spec fn pairs_of(taken: Seq<(PaneId, DaemonPaneId)>) -> Seq<(PaneId, DaemonPaneId)>
    decreases taken.len(),
{
    if taken.len() == 0 {
        taken
    } else {
        ids::with_pair(pairs_of(taken.drop_last()), taken.last().0, taken.last().1)
    }
}

/// In a map into which pairs were put, a pair is left exactly if no later one was put
/// in for either of its panes.
pub proof fn law_later_pairs_win(taken: Seq<(PaneId, DaemonPaneId)>, i: int)
    requires
        0 <= i < taken.len(),
    ensures
        ids::paired(pairs_of(taken)),
        pairs_of(taken).contains(taken[i]) <== forall|j: int|
            i < j < taken.len() ==> (#[trigger] taken[j]).0 != taken[i].0 && taken[j].1
                != taken[i].1,
        ids::daemon_of(pairs_of(taken), taken.last().0) == Some(taken.last().1),
        forall|p: (PaneId, DaemonPaneId)| #[trigger]
            pairs_of(taken).contains(p) ==> taken.contains(p),
    decreases taken.len(),
{
    let rest = taken.drop_last();
    let before = pairs_of(rest);
    let (local, daemon) = taken.last();
    if rest.len() > 0 {
        law_later_pairs_win(rest, if i < rest.len() { i } else { 0 });
    }
    ids::law_pair_put_in(before, local, daemon);
    let after = pairs_of(taken);
    assert(after.last() == (local, daemon));
    ids::lemma_at(after, after.len() - 1);
    if i < rest.len() {
        assert(rest[i] == taken[i]);
        if forall|j: int|
            i < j < taken.len() ==> (#[trigger] taken[j]).0 != taken[i].0 && taken[j].1
                != taken[i].1 {
            assert(taken[taken.len() - 1].0 != taken[i].0);
            assert forall|j: int| i < j < rest.len() implies (#[trigger] rest[j]).0 != rest[i].0
                && rest[j].1 != rest[i].1 by {
                assert(taken[j] == rest[j]);
            }
        }
    }
    assert forall|p: (PaneId, DaemonPaneId)| #[trigger] after.contains(p) implies taken.contains(
        p,
    ) by {
        if p != (local, daemon) {
            assert(before.contains(p));
            assert(rest.contains(p));
            let k = choose|k: int| 0 <= k < rest.len() && rest[k] == p;
            assert(taken[k] == p);
        } else {
            assert(taken[taken.len() - 1] == p);
        }
    }
}

impl App {
    /// Whether the window follows a change in `session_id`: it is the window's
    /// own, and the daemon can be asked.
    pub open spec fn follows(&self, session_id: SessionId) -> bool {
        self.daemon_session_id == Some(session_id) && self.daemon_client && self.daemon_runtime
    }

    /// Starts to follow a change in `session_id`: the daemon's panes that the
    /// window shows, or nothing where it does not follow.
    pub fn handle_daemon_workspace_changed(&self, session_id: SessionId) -> (r: Option<
        Vec<DaemonPaneId>,
    >)
        ensures
            r is Some <==> self.follows(session_id),
            r matches Some(known) ==> known@ == self.pane_id_map.pairs@.map_values(
                |p: (PaneId, DaemonPaneId)| p.1,
            ),
    {
        let ours = match self.daemon_session_id {
            Some(s) => s,
            None => {
                return None;
            },
        };
        if session_id != ours || !self.daemon_client || !self.daemon_runtime {
            return None;
        }
        Some(self.pane_id_map.all_daemon_ids())
    }

    /// What becomes of the pane `local`, given the daemon's panes that are
    /// gone.
    pub open spec fn fate(&self, local: PaneId, removed: Seq<DaemonPaneId>) -> PaneFate {
        match self.pane_id_map.daemon(local) {
            Some(d) => if removed.contains(d) {
                PaneFate::Drop
            } else {
                PaneFate::Reuse { daemon_pane: d }
            },
            None => PaneFate::Unknown,
        }
    }

    /// Decides what becomes of the pane `local`; one that is dropped no longer
    /// stands for a pane of the daemon.
    pub fn reconcile_pane(&mut self, local: PaneId, removed: &Vec<DaemonPaneId>) -> (r: PaneFate)
        requires
            old(self).wf(),
        ensures
            final(self).wf(),
            r == old(self).fate(local, removed@),
            r == PaneFate::Drop ==> {
                &&& *final(self) == (App { pane_id_map: final(self).pane_id_map, ..*old(self) })
                &&& final(self).pane_id_map.pairs@ == ids::without_local(
                    old(self).pane_id_map.pairs@,
                    local,
                )
            },
            r != PaneFate::Drop ==> *final(self) == *old(self),
    {
        match self.pane_id_map.daemon_for_local(local) {
            Some(d) => {
                if has_id(removed, d) {
                    self.pane_id_map.remove_by_local(local);
                    return PaneFate::Drop;
                }
                PaneFate::Reuse { daemon_pane: d }
            },
            None => PaneFate::Unknown,
        }
    }

    /// Shows the rebuilt workspaces, if they could be rebuilt; the panes that
    /// they were rebuilt from are then the only ones that stand for panes of
    /// the daemon.
    pub fn apply_reconcile_result(
        &mut self,
        rebuilt: Option<Workspaces>,
        taken: &Vec<(PaneId, DaemonPaneId)>,
    )
        requires
            old(self).wf(),
        ensures
            final(self).wf(),
            match rebuilt {
                Some(w) => {
                    &&& *final(self) == (App {
                        workspaces: Some(w),
                        pane_id_map: final(self).pane_id_map,
                        effects: final(self).effects,
                        ..*old(self)
                    })
                    &&& final(self).pane_id_map.pairs@ == pairs_of(taken@)
                    &&& final(self).effects@ == old(self).effects@ + seq![Effect::RelayoutAndRedraw]
                },
                None => *final(self) == *old(self),
            },
    {
        let w = match rebuilt {
            Some(w) => w,
            None => {
                return;
            },
        };
        let mut map = PaneIdMap::new();
        let mut i: usize = 0;
        assert(map.pairs@ =~= pairs_of(taken@.take(0)));
        while i < taken.len()
            invariant
                i <= taken@.len(),
                map.wf(),
                map.pairs@ == pairs_of(taken@.take(i as int)),
            decreases taken@.len() - i,
        {
            proof {
                assert(taken@.take(i as int + 1).drop_last() =~= taken@.take(i as int));
            }
            map.insert(taken[i].0, taken[i].1);
            i += 1;
        }
        assert(taken@.take(i as int) =~= taken@);
        self.pane_id_map = map;
        self.workspaces = Some(w);
        self.emit(Effect::RelayoutAndRedraw);
    }
}

/// What is said to occur once each has no duplicates.
pub proof fn law_once_each(s: Seq<DaemonPaneId>)
    ensures
        once_each(s) <==> s.no_duplicates(),
{
}

/// What the daemon says of its panes counts only where it was asked for and answered.
pub proof fn law_summaries_are_those_answered(attempt: RpcAttempt)
    ensures
        summaries_of(attempt).len() > 0 ==> (attempt matches RpcAttempt::Answered {
            response: IpcResponse::Panes { panes },
            ..
        } && summaries_of(attempt) == panes@),
        attempt matches RpcAttempt::Answered { response: IpcResponse::Panes { panes }, .. }
            ==> summaries_of(attempt) == panes@,
{
}

/// The window follows its own session only, and only while the daemon can be asked.
pub proof fn law_own_session_is_followed(app: App, session_id: SessionId, other: SessionId)
    requires
        other != session_id,
    ensures
        app.follows(session_id) ==> !app.follows(other),
        app.daemon_session_id is None || !app.daemon_client || !app.daemon_runtime
            ==> !app.follows(session_id),
        app.daemon_session_id == Some(session_id) && app.daemon_client && app.daemon_runtime
            ==> app.follows(session_id),
{
}

} // verus!
