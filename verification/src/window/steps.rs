//! What the operations on panes come to, over the tree, the pairs and the effects.
use super::remote::{MountStep, NoDaemonMappingDecision};
use super::restore::LayoutSnapshot;
use super::spawn::SpawnStep;
use super::split::SplitStep;
use super::workspace::{SendStep, SwitchStep};
use super::{close, remote, swarm, zoom};
use super::{App, DaemonSplitOnComplete, DaemonSplitResult, Effect, Notice, Workspaces};
use crate::ids::DaemonPaneId;
use crate::ipc::{IpcRequest, IpcResponse, Reply, WebViewError};
use crate::layout::{LayoutNode, PaneId, PaneState, Ratio, SplitDirection};
use crate::layout_laws;
use crate::layout_laws::Spot;
use vstd::prelude::*;

verus! {

/// Zoom shows the focused pane alone and keeps the tree, with an empty place where
/// the pane was; a pane that is alone, or not there, is not zoomed.
pub proof fn law_zoom_keeps_a_place(w: Workspaces, id: PaneId)
    requires
        w.focused == Some(id),
        w.layout.has(id),
        w.layout.panes().len() > 1,
    ensures
        ({
            let z = zoom::zoomed_in(Some(w));
            let shown = z.workspaces->0;
            let kept = z.saved->0;
            &&& z.changed
            &&& z.workspaces is Some
            &&& z.saved is Some
            &&& shown.layout is Leaf
            &&& shown.layout->Leaf_0.id == id
            &&& shown.focused == Some(id)
            &&& shown.active_id == w.active_id
            &&& shown.ids == w.ids
            &&& exists|at: Seq<bool>|
                {
                    &&& #[trigger] layout_laws::first_place(w.layout, id, at)
                    &&& layout_laws::spot(w.layout, at) == Spot::Pane(shown.layout->Leaf_0)
                    &&& layout_laws::spot(kept, at) is Empty
                    &&& forall|path: Seq<bool>|
                        path != at ==> #[trigger] layout_laws::spot(kept, path)
                            == layout_laws::spot(w.layout, path)
                }
        }),
{
    crate::layout::lemma_has_pane(w.layout, id);
    let z = zoom::zoomed_in(Some(w));
    let kept = z.saved->0;
    layout_laws::law_replaced_in_place(w.layout, id, LayoutNode::Empty);
    let at = choose|at: Seq<bool>|
        {
            &&& #[trigger] layout_laws::first_place(w.layout, id, at)
            &&& forall|path: Seq<bool>| #[trigger]
                layout_laws::spot(w.layout.replaced(id, LayoutNode::Empty), path)
                    == layout_laws::put_at(w.layout, at, LayoutNode::Empty, path)
        };
    layout_laws::lemma_first_place_is_the_pane(w.layout, id, at);
    assert(at.skip(at.len() as int) =~= Seq::<bool>::empty());
    assert(at =~= at.take(at.len() as int));
    assert(layout_laws::spot(kept, at) == layout_laws::put_at(w.layout, at, LayoutNode::Empty, at));
    assert forall|path: Seq<bool>| path != at implies #[trigger] layout_laws::spot(kept, path)
        == layout_laws::spot(w.layout, path) by {
        assert(layout_laws::spot(kept, path) == layout_laws::put_at(
            w.layout,
            at,
            LayoutNode::Empty,
            path,
        ));
        if at.is_prefix_of(path) {
            assert(at =~= path.take(at.len() as int));
            let rest = path.skip(at.len() as int);
            assert(path =~= at + rest);
            if rest.len() == 0 {
                assert(path =~= at);
            }
            layout_laws::lemma_below_a_pane(w.layout, at, rest);
        }
    }
}

/// A split changes the tree of the screen and nothing else of the workspaces: where
/// `source` stood it is in the first half of a split in the middle, and the new pane
/// in the second.
pub proof fn law_split_changes_one_place(
    w: Workspaces,
    source: PaneId,
    direction: SplitDirection,
    pane: PaneState,
)
    ensures
        ({
            let after = App::split_workspaces(Some(w), source, direction, pane);
            &&& !w.layout.has(source) ==> after == Some(w)
            &&& w.layout.has(source) ==> {
                &&& after matches Some(s) && s.focused == w.focused && s.ids == w.ids
                    && s.active_id == w.active_id
                &&& exists|at: Seq<bool>|
                    {
                        &&& #[trigger] layout_laws::first_place(w.layout, source, at)
                        &&& layout_laws::spot(after->0.layout, at) == (Spot::Split {
                            direction,
                            ratio: Ratio { bits: 0x3f00_0000 },
                        })
                        &&& layout_laws::spot(after->0.layout, at.push(false))
                            == layout_laws::spot(w.layout, at)
                        &&& layout_laws::spot(after->0.layout, at.push(true)) == Spot::Pane(pane)
                        &&& forall|path: Seq<bool>|
                            !at.is_prefix_of(path) ==> #[trigger] layout_laws::spot(
                                after->0.layout,
                                path,
                            ) == layout_laws::spot(w.layout, path)
                    }
            }
        }),
{
    if w.layout.has(source) {
        layout_laws::law_split_in_place(w.layout, source, direction, pane);
    }
}

/// A swap puts two panes into each other's place, and changes nothing else of the
/// workspaces; without one of them nothing changes.
pub proof fn law_swap_changes_two_places(w: Workspaces, a: PaneId, b: PaneId, path: Seq<bool>)
    ensures
        ({
            let after = App::swapped_workspaces(Some(w), a, b);
            &&& !w.layout.has(a) || !w.layout.has(b) ==> after == Some(w)
            &&& after matches Some(s) && s.focused == w.focused && s.ids == w.ids && s.active_id
                == w.active_id
            &&& w.layout.has(a) && w.layout.has(b) ==> match layout_laws::spot(w.layout, path) {
                Spot::Pane(p) => layout_laws::spot(after->0.layout, path) matches Spot::Pane(q)
                    && q.id == if p.id == a {
                    b
                } else if p.id == b {
                    a
                } else {
                    p.id
                } && (p.id != a && p.id != b ==> q == p),
                other => layout_laws::spot(after->0.layout, path) == other,
            }
        }),
{
    if w.layout.has(a) && w.layout.has(b) {
        crate::layout::lemma_has_pane(w.layout, a);
        crate::layout::lemma_has_pane(w.layout, b);
        layout_laws::law_swap_keeps_shape(
            w.layout,
            w.layout.pane(a)->0,
            w.layout.pane(b)->0,
            path,
        );
    }
}

/// When the focused pane is closed, the focus goes to the first pane that is left;
/// when another one is, the focus stays.
pub proof fn law_focus_after_a_close(w: Workspaces, target: PaneId)
    ensures
        App::refocused(w, target).layout == w.layout,
        w.focused != Some(target) ==> App::refocused(w, target) == w,
        w.focused == Some(target) && w.layout.panes().len() > 0 ==> App::refocused(
            w,
            target,
        ).focused == Some(w.layout.panes()[0].id),
        w.focused == Some(target) && w.layout.panes().len() == 0 ==> App::refocused(
            w,
            target,
        ).focused is None,
        w.layout.panes().len() > 0 ==> close::first_pane(w) == Some(w.layout.panes()[0].id),
{
}

/// A close is ignored for a tenth of a second after the last one, and no longer.
pub proof fn law_closes_too_soon(last: u64, now: u64)
    ensures
        !close::too_soon(None, now),
        last <= now ==> (close::too_soon(Some(last), now) <==> now < last + 100),
{
}

/// The daemon is told of the focus by the number that is paired with the pane, once,
/// and only if it has the panes.
pub proof fn law_daemon_is_told_by_its_number(app: App, i: int, a: int)
    requires
        app.wf(),
        0 <= i < app.pane_id_map.pairs@.len(),
        0 <= a < app.pane_id_map.pairs@.len(),
    ensures
        ({
            let (local, daemon) = app.pane_id_map.pairs@[i];
            let (other, other_daemon) = app.pane_id_map.pairs@[a];
            &&& app.daemon_mode() ==> app.select_effects(Some(local)) == seq![
                Effect::Notify(IpcRequest::SelectPane { pane_id: daemon }),
            ]
            &&& !app.daemon_mode() ==> app.select_effects(Some(local)).len() == 0
            &&& app.select_effects(None).len() == 0
            &&& app.daemon_mode() ==> app.kill_ask(local) == seq![
                Effect::Ask(IpcRequest::KillPane { pane_id: daemon }),
            ]
            &&& !app.daemon_mode() ==> app.kill_ask(local).len() == 0
            &&& app.swap_request(local, other) == Some(
                IpcRequest::SwapPane { a: daemon, b: other_daemon },
            )
            &&& app.daemon_mode() ==> app.pin_effects(local, true)[0] == Effect::Ask(
                IpcRequest::TagPinned { pane_id: daemon },
            ) && app.pin_effects(local, false)[0] == Effect::Ask(
                IpcRequest::UntagPinned { pane_id: daemon },
            )
        }),
{
    crate::ids::lemma_at(app.pane_id_map.pairs@, i);
    crate::ids::lemma_at(app.pane_id_map.pairs@, a);
}

/// A pane that is in no pair is unknown to the daemon: it is told nothing of it.
pub proof fn law_daemon_is_told_nothing_of_others(app: App, local: PaneId, other: PaneId)
    requires
        forall|i: int|
            0 <= i < app.pane_id_map.pairs@.len() ==> (#[trigger] app.pane_id_map.pairs@[i]).0
                != local,
    ensures
        app.select_effects(Some(local)).len() == 0,
        app.kill_ask(local).len() == 0,
        app.swap_request(local, other) is None,
        app.swap_request(other, local) is None,
{
}

/// Only the answer that two panes were swapped, or that one was killed, lets the
/// window do the same; of any failure the user is told, unless the daemon gave an
/// answer to something else.
pub proof fn law_answers_that_count(reply: Reply)
    ensures
        super::focus::swap_allowed(reply) <==> reply == Reply::Ok(IpcResponse::PaneSwapped),
        close::killed(reply) <==> reply == Reply::Ok(IpcResponse::PaneKilled),
        super::focus::swap_allowed(reply) ==> super::focus::swap_effects(reply).len() == 0,
        close::killed(reply) ==> close::kill_effects(reply).len() == 0,
        reply is Err ==> super::focus::swap_effects(reply) == seq![
            Effect::Toast(Notice::DaemonSwapFailed),
        ] && close::kill_effects(reply) == seq![Effect::Toast(Notice::DaemonKillFailed)],
        reply matches Reply::Ok(IpcResponse::Error { message }) ==> super::focus::swap_effects(
            reply,
        ) == seq![Effect::Toast(Notice::SwapFailed(message))] && close::kill_effects(reply) == seq![
            Effect::Toast(Notice::KillFailed(message)),
        ],
{
}

/// With a daemon, a switch goes to the workspace that was asked for; a new one gets a
/// pane split off one that is shown, or a session of its own where none is.
pub proof fn law_switch_goes_where_it_was_asked(app: App, n: u8)
    requires
        app.wf(),
        app.has_layout_rect,
        app.daemon_mode(),
    ensures
        n == 0 || n > 9 ==> app.switch_step(n) == SwitchStep::Done,
        app.workspaces matches Some(w) ==> {
            &&& w.active_id == n ==> app.switch_step(n) == SwitchStep::Done
            &&& 1 <= n <= 9 && w.active_id != n && w.ids@.contains(n) ==> app.switch_step(n) == (
            SwitchStep::SwitchTo { workspace: n })
            &&& 1 <= n <= 9 && w.active_id != n && !w.ids@.contains(n) ==> {
                &&& app.pane_id_map.pairs@.len() == 0 ==> app.switch_step(n) == (
                SwitchStep::FreshSession { workspace: n })
                &&& app.pane_id_map.pairs@.len() > 0 ==> {
                    &&& app.switch_step(n) matches SwitchStep::Split(SplitStep::AskDaemon {
                        source,
                        daemon_source,
                        on_complete,
                        ..
                    })
                    &&& app.pane_id_map.pairs@.contains((source, daemon_source))
                    &&& on_complete == (DaemonSplitOnComplete::NewWorkspace { workspace_id: n })
                }
            }
        },
{
    if app.pane_id_map.pairs@.len() > 0 {
        crate::ids::lemma_at(app.pane_id_map.pairs@, 0);
        assert(app.pane_id_map.pairs@.contains(app.pane_id_map.pairs@[0]));
    }
}

/// Whatever is needed to send a pane away, it is the focused pane that goes, to the
/// workspace that was asked for, and never to the one on the screen.
pub proof fn law_focused_pane_is_sent(app: App, n: u8)
    requires
        app.has_layout_rect,
    ensures
        match app.send_step(n) {
            SendStep::Done => true,
            SendStep::MoveOrSpawn { pane, workspace } => app.focus() == Some(pane) && workspace == n
                && !app.daemon_mode(),
            SendStep::Move { pane, workspace } => app.focus() == Some(pane) && workspace == n
                && app.daemon_mode() && app.workspaces->0.layout.ids() != seq![pane],
            SendStep::ReplaceOffExisting { pane, workspace, .. } => app.focus() == Some(pane)
                && workspace == n && app.workspaces->0.layout.ids() == seq![pane],
            SendStep::ReplaceFreshSession { pane, workspace } => app.focus() == Some(pane)
                && workspace == n && app.workspaces->0.layout.ids() == seq![pane],
        },
        app.daemon_mode() && app.workspaces is Some ==> (app.send_step(n) == SendStep::Done
            <==> app.workspaces->0.focused is None || n == 0 || n > 9 || app.workspaces->0.active_id
            == n),
        !app.daemon_mode() && app.workspaces is Some ==> (app.send_step(n) == SendStep::Done
            <==> app.workspaces->0.focused is None || !app.has_renderer),
{
}

/// A split through the daemon asks for the pane that is paired with the one on the
/// screen, in the direction and for the purpose given.
pub proof fn law_split_asks_for_the_pair(
    app: App,
    i: int,
    direction: SplitDirection,
    on_complete: DaemonSplitOnComplete,
)
    requires
        app.wf(),
        0 <= i < app.pane_id_map.pairs@.len(),
        app.daemon_client,
        app.daemon_runtime,
    ensures
        ({
            let (source, daemon_source) = app.pane_id_map.pairs@[i];
            &&& app.remote_step(source, direction, on_complete) == (SplitStep::AskDaemon {
                source,
                daemon_source,
                direction,
                on_complete,
            })
            &&& app.remote_effects(source, on_complete).len() == 0
            &&& app.daemon_mode() ==> app.split_step(source, direction, on_complete)
                == app.remote_step(source, direction, on_complete)
        }),
{
    crate::ids::lemma_at(app.pane_id_map.pairs@, i);
}

/// A pane that the daemon does not know is split in the window only if the new pane
/// is to be focused and nothing else.
pub proof fn law_unknown_panes_are_split_here(
    app: App,
    source: PaneId,
    direction: SplitDirection,
    on_complete: DaemonSplitOnComplete,
)
    requires
        forall|i: int|
            0 <= i < app.pane_id_map.pairs@.len() ==> (#[trigger] app.pane_id_map.pairs@[i]).0
                != source,
    ensures
        on_complete == DaemonSplitOnComplete::FocusAndRelayout && app.has_renderer
            && app.workspaces is Some && app.workspaces->0.layout.has(source) ==> app.remote_step(
            source,
            direction,
            on_complete,
        ) == (SplitStep::SpawnLocal { source, direction }),
        on_complete != DaemonSplitOnComplete::FocusAndRelayout ==> app.remote_step(
            source,
            direction,
            on_complete,
        ) == SplitStep::Done,
        remote::no_mapping(on_complete) == NoDaemonMappingDecision::FallbackLocal <==> on_complete
            == DaemonSplitOnComplete::FocusAndRelayout,
        app.local_step(source, direction) == (SplitStep::SpawnLocal { source, direction })
            <==> app.has_renderer && app.workspaces is Some && app.workspaces->0.layout.has(source),
        !(app.local_step(source, direction) is SpawnLocal) ==> app.local_step(source, direction)
            == SplitStep::Done,
        !app.daemon_mode() && app.has_renderer && app.workspaces is Some
            && app.workspaces->0.layout.has(source) ==> app.split_step(
            source,
            direction,
            on_complete,
        ) == (SplitStep::SpawnLocal { source, direction }),
{
}

/// The daemon's new pane is shown next to the pane that was split, in the direction
/// and directory that were asked for, or in a workspace of its own; one that cannot be
/// shown is killed, if the daemon can be told.
pub proof fn law_new_pane_is_shown_or_killed(
    app: App,
    daemon_pane: DaemonPaneId,
    result: DaemonSplitResult,
)
    ensures
        ({
            let step = app.mount_step(daemon_pane, result);
            let told = app.mount_effects(daemon_pane, step);
            &&& match step {
                MountStep::BuildPane { source, daemon_pane: d, direction, cwd, on_complete } => {
                    &&& source == result.source_local
                    &&& d == daemon_pane
                    &&& direction == result.direction
                    &&& cwd == result.inherited_cwd
                    &&& on_complete == result.on_complete
                    &&& app.workspaces is Some && app.workspaces->0.layout.has(source)
                    &&& told.len() == 0
                },
                MountStep::BuildWorkspace { daemon_pane: d, workspace_id } => {
                    &&& d == daemon_pane
                    &&& result.on_complete == (DaemonSplitOnComplete::NewWorkspace { workspace_id })
                    &&& told.len() == 0
                },
                MountStep::Done => if app.daemon_client && app.daemon_runtime {
                    told == seq![Effect::Notify(IpcRequest::KillPane { pane_id: daemon_pane })]
                } else {
                    told.len() == 0
                },
            }
            &&& !(step is Done) ==> app.daemon_client && app.daemon_runtime && app.has_renderer
            &&& app.daemon_client && app.daemon_runtime && app.has_renderer && app.has_layout_rect
                && (app.workspaces is Some && app.workspaces->0.layout.has(result.source_local))
                ==> !(step is Done)
        }),
{
}

/// Every pane of every tree counts for the agent sessions, on the screen and off it.
pub proof fn law_every_session_counts(app: App, hidden: Seq<LayoutNode>, k: int, i: int, s: String)
    requires
        app.workspaces is Some,
    ensures
        0 <= i < app.workspaces->0.layout.panes().len()
            && app.workspaces->0.layout.panes()[i].claude_session_id == Some(s) ==> app.has_session(
            hidden,
            s@,
        ),
        0 <= k < hidden.len() && 0 <= i < hidden[k].panes().len()
            && hidden[k].panes()[i].claude_session_id == Some(s) ==> app.has_session(hidden, s@),
{
    let shown = app.workspaces->0.layout.panes();
    if 0 <= i < shown.len() && shown[i].claude_session_id == Some(s) {
        assert(swarm::session_of(shown[i]) == Some(s@));
    }
    if 0 <= k < hidden.len() && 0 <= i < hidden[k].panes().len()
        && hidden[k].panes()[i].claude_session_id == Some(s) {
        assert(swarm::session_of(hidden[k].panes()[i]) == Some(s@));
        assert(swarm::runs_session(hidden[k].panes(), s@));
    }
}

/// A session that counts is that of some pane.
pub proof fn law_no_other_session_counts(app: App, hidden: Seq<LayoutNode>, s: Seq<char>)
    requires
        app.has_session(hidden, s),
    ensures
        app.workspaces is Some,
        (exists|i: int|
            0 <= i < app.workspaces->0.layout.panes().len() && (
            #[trigger] app.workspaces->0.layout.panes()[i]).claude_session_id is Some
                && app.workspaces->0.layout.panes()[i].claude_session_id->0@ == s) || (exists|
            k: int,
            i: int,
        |
            0 <= k < hidden.len() && 0 <= i < hidden[k].panes().len() && (
            #[trigger] hidden[k].panes()[i]).claude_session_id is Some
                && hidden[k].panes()[i].claude_session_id->0@ == s),
{
    let shown = app.workspaces->0.layout.panes();
    if swarm::runs_session(shown, s) {
        let i = choose|i: int|
            0 <= i < shown.len() && swarm::session_of(#[trigger] shown[i]) == Some(s);
        assert(shown[i].claude_session_id->0@ == s);
    } else {
        let k = choose|k: int|
            0 <= k < hidden.len() && swarm::runs_session((#[trigger] hidden[k]).panes(), s);
        let panes = hidden[k].panes();
        let i = choose|i: int|
            0 <= i < panes.len() && swarm::session_of(#[trigger] panes[i]) == Some(s);
        assert(hidden[k].panes()[i].claude_session_id->0@ == s);
    }
}

/// Clearing the selection unmarks every pane of the tree on the screen and of the
/// tree that zoom keeps, and no other.
pub proof fn law_every_pane_is_unmarked(app: App, id: PaneId)
    ensures
        app.clear_all().contains(Effect::ClearTermSelection { pane: id }) <==> (app.workspaces
            is Some && app.workspaces->0.layout.has(id)) || (app.zoomed_layout is Some
            && app.zoomed_layout->0.has(id)),
        forall|i: int|
            0 <= i < app.clear_all().len() ==> (#[trigger] app.clear_all()[i])
                is ClearTermSelection,
{
    let ids = App::all_ids(app.workspaces, app.zoomed_layout);
    let shown = match app.workspaces {
        Some(w) => w.layout.ids(),
        None => seq![],
    };
    let kept = match app.zoomed_layout {
        Some(t) => t.ids(),
        None => seq![],
    };
    assert(ids == shown + kept);
    if let Some(w) = app.workspaces {
        crate::layout::law_ids_are_the_panes(w.layout, id);
    }
    if let Some(t) = app.zoomed_layout {
        crate::layout::law_ids_are_the_panes(t, id);
    }
    let all = app.clear_all();
    let wanted = Effect::ClearTermSelection { pane: id };
    if all.contains(wanted) {
        let k = choose|k: int| 0 <= k < all.len() && all[k] == wanted;
        assert(all[k] == Effect::ClearTermSelection { pane: ids[k] });
        if k < shown.len() {
            assert(shown[k] == id);
        } else {
            assert(kept[k - shown.len()] == id);
        }
    }
    if shown.contains(id) {
        let k = choose|k: int| 0 <= k < shown.len() && shown[k] == id;
        assert(ids[k] == id);
        assert(all[k] == wanted);
    }
    if kept.contains(id) {
        let k = choose|k: int| 0 <= k < kept.len() && kept[k] == id;
        assert(ids[shown.len() + k] == id);
        assert(all[shown.len() + k] == wanted);
    }
}

/// A page is shown exactly if there is a focused pane on the screen, an address and a
/// window.
pub proof fn law_pages_that_can_be_shown(app: App, url: Seq<char>)
    ensures
        app.webview_refusal(url) is None <==> url.len() > 0 && app.has_window && app.workspaces
            is Some && app.workspaces->0.focused is Some && app.workspaces->0.layout.has(
            app.workspaces->0.focused->0,
        ),
        app.webview_refusal(url) == Some(WebViewError::NoFocusedPane) <==> app.workspaces is None
            || app.workspaces->0.focused is None,
        app.webview_refusal(url) == Some(WebViewError::NoWindow) ==> !app.has_window,
        app.webview_refusal(url) == Some(WebViewError::EmptyUrl) ==> url.len() == 0,
{
}

/// What stands at a place of a saved tree: a split with its direction and ratio, or a
/// leaf.
pub open spec fn saved_spot(s: LayoutSnapshot, path: Seq<bool>) -> Option<
    Option<(SplitDirection, Ratio)>,
>
    decreases path.len(),
{
    match s {
        LayoutSnapshot::Leaf => if path.len() == 0 {
            Some(None)
        } else {
            None
        },
        LayoutSnapshot::Split { direction, ratio, first, second } => if path.len() == 0 {
            Some(Some((direction, ratio)))
        } else if path[0] {
            saved_spot(*second, path.skip(1))
        } else {
            saved_spot(*first, path.skip(1))
        },
    }
}

/// A rebuilt tree has a split exactly where the saved one has it, with its direction
/// and ratio, and a pane exactly where that has a leaf.
pub proof fn law_rebuilt_in_place(s: LayoutSnapshot, panes: Seq<PaneState>, path: Seq<bool>)
    ensures
        match saved_spot(s, path) {
            Some(Some((direction, ratio))) => layout_laws::spot(s.with_panes(panes), path) == (
            Spot::Split { direction, ratio }),
            Some(None) => layout_laws::spot(s.with_panes(panes), path) is Pane,
            None => layout_laws::spot(s.with_panes(panes), path) is Outside,
        },
    decreases path.len(),
{
    if path.len() > 0 {
        if let LayoutSnapshot::Split { first, second, .. } = s {
            law_rebuilt_in_place(*first, panes.take(first.leaves() as int), path.skip(1));
            law_rebuilt_in_place(*second, panes.skip(first.leaves() as int), path.skip(1));
        }
    }
}

/// A split for an agent is made as any other is, for that agent's pane.
pub proof fn law_tile_is_split_for_its_parent(
    app: App,
    target: PaneId,
    direction: SplitDirection,
    parent: PaneId,
)
    ensures
        match app.tile_step(target, direction, parent) {
            SplitStep::AskDaemon { source, direction: d, on_complete, .. } => source == target
                && d == direction && on_complete == (DaemonSplitOnComplete::AutoTile {
                parent_pane_id: parent,
            }) && app.daemon_mode(),
            SplitStep::SpawnLocal { source, direction: d } => source == target && d == direction
                && !app.daemon_mode(),
            SplitStep::Done => app.daemon_mode() || !app.has_renderer || app.workspaces is None
                || !app.workspaces->0.layout.has(target),
        },
        super::tile::or_parent(Some(target), parent) == target,
        super::tile::or_parent(None, parent) == parent,
{
}

/// A pane is never made smaller than can be drawn, and otherwise as large as its grid.
pub proof fn law_sizes_have_a_least(n: usize, least: usize)
    ensures
        super::split::at_least(n, least) >= least,
        super::split::at_least(n, least) >= n,
        super::split::at_least(n, least) == n || super::split::at_least(n, least) == least,
{
}

/// Panes live in the daemon exactly if the configuration asks for it, a daemon is
/// connected and can be asked, and it has a session for the window.
pub proof fn law_where_panes_live(app: App)
    ensures
        app.daemon_mode() <==> app.attach_remote && app.daemon_client && app.daemon_runtime
            && app.daemon_session_id is Some,
{
}

/// Nothing is sent to a pane that the screen does not show, and no redraw is asked for
/// without a window.
pub proof fn law_nothing_for_hidden_panes(app: App, pane: PaneId, effect: Effect)
    ensures
        app.if_shown(None, effect).len() == 0,
        app.workspaces is None ==> app.if_shown(Some(pane), effect).len() == 0,
        app.workspaces matches Some(w) ==> {
            &&& w.layout.has(pane) ==> app.if_shown(Some(pane), effect) == seq![effect]
            &&& !w.layout.has(pane) ==> app.if_shown(Some(pane), effect).len() == 0
        },
        app.has_window ==> app.redraw_effects() == seq![Effect::RequestRedraw],
        !app.has_window ==> app.redraw_effects().len() == 0,
        app.workspaces is None ==> app.shown_workspaces() == (seq![1u8], 1u8),
        app.workspaces matches Some(w) ==> app.shown_workspaces() == (w.ids@, w.active_id),
{
}

/// A pane that is alone, or that the screen does not show, is not zoomed.
pub proof fn law_what_is_not_zoomed(w: Workspaces)
    requires
        w.layout.panes().len() <= 1 || w.focused is None || !w.layout.has(w.focused->0),
    ensures
        zoom::zoomed_in(Some(w)).workspaces == Some(w),
        zoom::zoomed_in(Some(w)).saved is None,
        !zoom::zoomed_in(Some(w)).changed,
        zoom::zoomed_in(None).workspaces is None,
{
}

/// Each pane of a run stands in the new half of the pane that was split, has the
/// focus, and its direction is remembered.
pub proof fn law_spawned_pane(
    old: App,
    new: App,
    left: usize,
    source: PaneId,
    direction: SplitDirection,
    pane: PaneState,
    w: Workspaces,
)
    requires
        new.spawned_from(old, left, source, direction, pane),
        old.workspaces == Some(w),
        w.layout.has(source),
    ensures
        new.workspaces is Some,
        new.workspaces->0.focused == Some(pane.id),
        new.last_split_direction == direction,
        new.pane_id_map == old.pane_id_map,
        exists|at: Seq<bool>|
            {
                &&& #[trigger] layout_laws::first_place(w.layout, source, at)
                &&& layout_laws::spot(new.workspaces->0.layout, at.push(true)) == Spot::Pane(pane)
                &&& layout_laws::spot(new.workspaces->0.layout, at.push(false))
                    == layout_laws::spot(w.layout, at)
            },
        left != 1 ==> new.effects@ == old.effects@ + old.select_effects(Some(pane.id)),
        left == 1 ==> new.effects@ == old.effects@ + old.select_effects(Some(pane.id)) + seq![
            Effect::RelayoutAndRedraw,
            Effect::PublishWorkspaceState,
        ],
{
    layout_laws::law_split_in_place(w.layout, source, direction, pane);
    if left != 1 {
        assert(new.effects@ =~= old.effects@ + old.select_effects(Some(pane.id)));
    }
}

/// A split in the window redraws the screen only where the pane is not shown; through
/// the daemon it asks for nothing else first.
pub proof fn law_effects_of_a_split(
    app: App,
    source: PaneId,
    on_complete: DaemonSplitOnComplete,
    w: Workspaces,
)
    requires
        app.workspaces == Some(w),
    ensures
        w.layout.has(source) ==> app.local_effects(source).len() == 0,
        !w.layout.has(source) && app.has_renderer ==> app.local_effects(source) == seq![
            Effect::RequestRedraw,
        ],
        !app.has_renderer ==> app.local_effects(source).len() == 0,
        on_complete != DaemonSplitOnComplete::FocusAndRelayout ==> app.remote_effects(
            source,
            on_complete,
        ).len() == 0,
        on_complete == DaemonSplitOnComplete::FocusAndRelayout && app.pane_id_map.daemon(source)
            is None ==> app.remote_effects(source, on_complete) == app.local_effects(source),
        !app.daemon_mode() ==> app.split_effects(source, on_complete) == app.local_effects(source),
        app.daemon_mode() ==> app.split_effects(source, on_complete) == app.remote_effects(
            source,
            on_complete,
        ),
{
}

/// A pin is kept by the daemon if it has the panes, and the screen is redrawn.
pub proof fn law_effects_of_a_pin(app: App, pane: PaneId, pinned: bool)
    ensures
        !app.daemon_mode() || app.pane_id_map.daemon(pane) is None ==> app.pin_effects(pane, pinned)
            == app.redraw_effects(),
        app.daemon_mode() && app.pane_id_map.daemon(pane) is Some ==> {
            let told = app.pin_effects(pane, pinned);
            &&& told.len() == 1 + app.redraw_effects().len()
            &&& app.has_window ==> told[1] == Effect::RequestRedraw
        },
{
    if !app.daemon_mode() || app.pane_id_map.daemon(pane) is None {
        assert(app.pin_effects(pane, pinned) =~= app.redraw_effects());
    }
}

/// Without a daemon, a switch shows the workspace or starts one; where nothing can be
/// laid out, nothing happens.
pub proof fn law_switch_without_a_daemon(app: App, n: u8)
    ensures
        !app.has_layout_rect ==> app.switch_step(n) == SwitchStep::Done && app.send_step(n)
            == SendStep::Done,
        app.has_layout_rect && !app.daemon_mode() && app.workspaces is Some && app.has_renderer
            ==> app.switch_step(n) == (SwitchStep::SwitchOrSpawn { workspace: n }),
        !app.daemon_mode() && (app.workspaces is None || !app.has_renderer) ==> app.switch_step(n)
            == SwitchStep::Done,
        app.workspaces is None ==> app.send_step(n) == SendStep::Done,
{
}

/// Each pane of a run splits the pane that has the focus once zoom is left, in a
/// direction that `suited` gave for it, and is to be focused and nothing else; without
/// a pane to open, or a workspace, nothing is started.
pub proof fn law_run_splits_the_focused_pane<C>(
    old: App,
    new: App,
    n: usize,
    suited: C,
    r: SpawnStep,
)
    where C: Fn(PaneId, SplitDirection) -> SplitDirection
    requires
        new.spawn_started(old, n, suited, r),
    ensures
        n == 0 || old.workspaces is None ==> r == SpawnStep::Done && new == old,
        n > 0 && old.workspaces is Some ==> {
            let other = if old.last_split_direction == SplitDirection::Horizontal {
                SplitDirection::Vertical
            } else {
                SplitDirection::Horizontal
            };
            r matches SpawnStep::Split { left, step } && left == n && match step {
                SplitStep::SpawnLocal { source, direction } => {
                    &&& new.workspaces->0.focused == Some(source)
                    &&& call_ensures(suited, (source, other), direction)
                },
                SplitStep::AskDaemon { source, direction, on_complete, .. } => {
                    &&& on_complete == DaemonSplitOnComplete::FocusAndRelayout
                    &&& new.workspaces->0.focused == Some(source)
                    &&& call_ensures(suited, (source, other), direction)
                },
                SplitStep::Done => true,
            }
        },
{
}

} // verus!
