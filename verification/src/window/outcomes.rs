//! What an operation on the window leaves behind, and what it asks for.
use super::close::CloseStep;
use super::editing::EditorStep;
use super::motion::Motion;
use super::pointer::CursorIcon;
use super::split::SplitStep;
use super::swarm::SubagentStep;
use super::{close, tile};
use super::{App, DaemonSplitOnComplete, Effect, Notice, Workspaces};
use crate::editor::OpenInEditorPlan;
use crate::ids;
use crate::ids::DaemonPaneId;
use crate::ipc::{IpcRequest, RpcAttempt, RpcFailure, WebViewError};
use crate::layout::{LayoutNode, PaneId, PaneState, Ratio, SplitDirection};
use crate::layout_laws;
use crate::layout_laws::Spot;
use crate::layout_ops::FocusDirection;
use vstd::prelude::*;

verus! {

/// A file is opened by the editor, or by the desktop where there is no editor or it
/// does not start; the user is told of the editor that did not start, and last of all
/// if nothing opened the file.
pub proof fn law_what_is_told_of_a_file(
    path: String,
    editor: Option<String>,
    launched: bool,
    opened: bool,
)
    ensures
        ({
            let told = App::absolute_effects(path, editor, launched, opened);
            &&& editor is Some && launched ==> told.len() == 0
            &&& editor is None && opened ==> told.len() == 0
            &&& editor is None && !opened ==> told == seq![
                Effect::Toast(Notice::CouldNotOpen(path)),
            ]
            &&& editor matches Some(e) ==> (!launched ==> told[0] == Effect::Toast(
                Notice::EditorLaunchFailed(e),
            ) && told.len() == (if opened {
                1int
            } else {
                2
            }) && (!opened ==> told[1] == Effect::Toast(Notice::CouldNotOpen(path))))
        }),
{
}

/// A split that suits the shape is one of the pane that has the focus once zoom is
/// left, in a direction that `suited` gave for it; where the shape does not decide it
/// is offered the other direction than last time.
pub proof fn law_focused_pane_is_split<C>(
    old: App,
    new: App,
    suited: C,
    goal: DaemonSplitOnComplete,
    r: SplitStep,
) where C: Fn(PaneId, SplitDirection) -> SplitDirection
    requires
        new.auto_split_from(old, suited, goal, r),
        !(r is Done),
    ensures
        ({
            let (source, direction) = match r {
                SplitStep::SpawnLocal { source, direction } => (source, direction),
                SplitStep::AskDaemon { source, direction, .. } => (source, direction),
                SplitStep::Done => (0, SplitDirection::Horizontal),
            };
            let other = if old.last_split_direction == SplitDirection::Horizontal {
                SplitDirection::Vertical
            } else {
                SplitDirection::Horizontal
            };
            &&& new.workspaces is Some && new.workspaces->0.focused == Some(source)
            &&& new.workspaces->0.layout.has(source)
            &&& call_ensures(suited, (source, other), direction)
            &&& r matches SplitStep::AskDaemon { daemon_source, on_complete, .. } ==> on_complete
                == goal && new.pane_id_map.daemon(source) == Some(daemon_source)
            &&& new.pane_id_map == old.pane_id_map
            &&& new.last_split_direction == old.last_split_direction
            &&& old.zoomed_layout is None ==> new.workspaces == old.workspaces
        }),
{
    let mid = choose|mid: App| #[trigger]
        mid.is_unzoomed_from(old) && match mid.focus() {
            Some(source) if mid.shows(source) => exists|d: SplitDirection|
                {
                    &&& #[trigger] call_ensures(
                        suited,
                        (source, old.last_split_direction.flipped()),
                        d,
                    )
                    &&& r == mid.split_step(source, d, goal)
                    &&& new.only_added(mid, mid.split_effects(source, goal))
                },
            _ => r == SplitStep::Done && new == mid,
        };
    assert(mid.is_unzoomed_from(old));
}

/// A new pane of the daemon that is focused is made known to the daemon, and in any
/// case the panes are laid out anew and the workspaces published, in this order and
/// last of all but for what is typed into the pane.
pub proof fn law_effects_of_new_panes(
    app: App,
    daemon_pane: DaemonPaneId,
    parent: PaneId,
    pane: PaneId,
    keys: Vec<u8>,
    toast: String,
)
    ensures
        ({
            let f = app.focus_effects(daemon_pane);
            let n = f.len() as int;
            &&& f[n - 2] == Effect::RelayoutAndRedraw && f[n - 1] == Effect::PublishWorkspaceState
            &&& app.daemon_mode() ==> n == 3 && f[0] == Effect::Notify(
                IpcRequest::SelectPane { pane_id: daemon_pane },
            )
            &&& !app.daemon_mode() ==> n == 2
        }),
        ({
            let t = app.auto_tile_effects(parent, pane);
            let n = t.len() as int;
            &&& t[n - 2] == Effect::RelayoutAndRedraw && t[n - 1] == Effect::PublishWorkspaceState
            &&& app.auto_tile_debouncer ==> n == 3 && t[0] == (Effect::RegisterAutoTiled {
                parent,
                pane,
            })
            &&& !app.auto_tile_debouncer ==> n == 2
        }),
        App::tail_effects(daemon_pane, keys).len() == 3,
        App::tail_effects(daemon_pane, keys)[0] == Effect::Ask(
            IpcRequest::SendKeys { pane_id: daemon_pane, keys },
        ),
        App::tail_effects(daemon_pane, keys)[1] == Effect::RelayoutAndRedraw,
        App::tail_effects(daemon_pane, keys)[2] == Effect::PublishWorkspaceState,
        App::keys_effects(daemon_pane, keys, None) == seq![
            Effect::Ask(IpcRequest::SendKeys { pane_id: daemon_pane, keys }),
        ],
        App::keys_effects(daemon_pane, keys, Some(toast)) == seq![
            Effect::Toast(Notice::Text(toast)),
            Effect::Ask(IpcRequest::SendKeys { pane_id: daemon_pane, keys }),
        ],
{
    assert(App::keys_effects(daemon_pane, keys, None) =~= seq![
        Effect::Ask(IpcRequest::SendKeys { pane_id: daemon_pane, keys }),
    ]);
    assert(App::keys_effects(daemon_pane, keys, Some(toast)) =~= seq![
        Effect::Toast(Notice::Text(toast)),
        Effect::Ask(IpcRequest::SendKeys { pane_id: daemon_pane, keys }),
    ]);
}

/// A plan that fails tells its message and does nothing; one whose editor starts, or
/// whose file the desktop takes, tells nothing; and only an editor that needs a
/// terminal leads to a split.
pub proof fn law_plans_are_carried_out<L, O, C>(
    old: App,
    new: App,
    plan: OpenInEditorPlan,
    launch: L,
    open: O,
    suited: C,
    r: Option<EditorStep>,
) where
    L: Fn(&String, &String, &String) -> bool,
    O: Fn(&String) -> bool,
    C: Fn(PaneId, SplitDirection) -> SplitDirection,

    requires
        new.carried_out(old, plan, launch, open, suited, r),
    ensures
        r is Some <==> plan is SpawnInPane,
        plan matches OpenInEditorPlan::Fail(m) ==> new.effects@ == old.effects@.push(
            Effect::Toast(Notice::Text(m)),
        ),
        plan matches OpenInEditorPlan::Spawn { editor, path, line } ==> {
            &&& new.workspaces == old.workspaces
            &&& call_ensures(launch, (&editor, &path, &line), true) && new.effects@ == old.effects@
                || call_ensures(launch, (&editor, &path, &line), false) && new.effects@
                == old.effects@.push(Effect::Toast(Notice::EditorLaunchFailed(editor)))
        },
        plan matches OpenInEditorPlan::OpenFallback { path } ==> {
            &&& new.workspaces == old.workspaces
            &&& call_ensures(open, (&path,), true) && new.effects@ == old.effects@ || call_ensures(
                open,
                (&path,),
                false,
            ) && new.effects@ == old.effects@.push(Effect::Toast(Notice::FallbackFailed))
        },
{
    assert(old.effects@ + Seq::<Effect>::empty() =~= old.effects@);
    match plan {
        OpenInEditorPlan::Fail(m) => {
            assert(new.effects@ =~= old.effects@.push(Effect::Toast(Notice::Text(m))));
        },
        OpenInEditorPlan::Spawn { editor, .. } => {
            let told = Effect::Toast(Notice::EditorLaunchFailed(editor));
            assert(old.effects@ + seq![told] =~= old.effects@.push(told));
        },
        OpenInEditorPlan::OpenFallback { .. } => {
            let told = Effect::Toast(Notice::FallbackFailed);
            assert(old.effects@ + seq![told] =~= old.effects@.push(told));
        },
        _ => {},
    }
}

/// A command that is typed into a new pane goes with the split through the daemon, or
/// is kept together with the pane that had the focus.
pub proof fn law_command_goes_with_the_split<C>(
    old: App,
    new: App,
    suited: C,
    command: Seq<u8>,
    r: EditorStep,
) where C: Fn(PaneId, SplitDirection) -> SplitDirection
    requires
        new.typed_from(old, suited, command, r),
    ensures
        r is InDaemon <==> old.daemon_mode(),
        r matches EditorStep::Local { original, command: bytes, .. } ==> bytes@ == command
            && original == (match old.workspaces {
            Some(w) => w.focused,
            None => None,
        }),
        r matches EditorStep::InDaemon(SplitStep::AskDaemon { on_complete, .. }) ==> (on_complete
            matches DaemonSplitOnComplete::WriteBytesAndFocus { bytes, toast } && bytes@ == command
            && toast is None),
{
    if old.daemon_mode() {
        let (bytes, step) = choose|bytes: Vec<u8>, step: SplitStep|
            {
                &&& bytes@ == command
                &&& r == EditorStep::InDaemon(step)
                &&& #[trigger] new.auto_split_from(
                    old,
                    suited,
                    DaemonSplitOnComplete::WriteBytesAndFocus { bytes, toast: None },
                    step,
                )
            };
        if !(step is Done) {
            law_focused_pane_is_split(
                old,
                new,
                suited,
                DaemonSplitOnComplete::WriteBytesAndFocus { bytes, toast: None },
                step,
            );
        }
    }
}

/// A pane whose close has started is forgotten by its number, and all other pairs are
/// kept, even where the close comes too soon to be made.
pub proof fn law_closed_pane_is_forgotten(
    old: App,
    new: App,
    target: PaneId,
    now_ms: u64,
    step: CloseStep,
    other: PaneId,
)
    requires
        old.wf(),
        new.close_started(old, target, now_ms, step),
        other != target,
    ensures
        new.pane_id_map.daemon(target) is None,
        new.pane_id_map.daemon(other) == old.pane_id_map.daemon(other),
        close::too_soon(old.last_close_action, now_ms) ==> step == CloseStep::Done
            && new.workspaces == old.workspaces && new.effects == old.effects
            && new.last_close_action == old.last_close_action,
        !close::too_soon(old.last_close_action, now_ms) ==> {
            &&& new.last_close_action == Some(now_ms)
            &&& old.workspaces is Some ==> step == (CloseStep::Remove { pane: target })
            &&& old.workspaces is None ==> step == CloseStep::Done
            &&& old.daemon_mode() && old.pane_id_map.daemon(target) is Some
                ==> new.effects@[old.effects@.len() as int] == Effect::Ask(
                IpcRequest::KillPane { pane_id: old.pane_id_map.daemon(target)->0 },
            )
            &&& old.zoomed_layout is None ==> new.workspaces == old.workspaces
        },
{
    ids::law_pair_taken_out(old.pane_id_map.pairs@, target, 0);
    ids::lemma_daemon_kept(old.pane_id_map.pairs@, target, other);
}

/// Once a subagent is done, it is forgotten, and its own pane is the one that closes.
pub proof fn law_reclaimed_agent_is_forgotten(
    old: App,
    new: App,
    agent: Seq<char>,
    other: Seq<char>,
    now_ms: u64,
    step: SubagentStep,
)
    requires
        new.subagent_reclaimed(old, agent, now_ms, step),
        other != agent,
    ensures
        !new.swarm_panes@.dom().contains(agent),
        new.swarm_panes@.dom().contains(other) == old.swarm_panes@.dom().contains(other),
        old.swarm_panes@.dom().contains(other) ==> new.swarm_panes@[other]
            == old.swarm_panes@[other],
        old.swarm_panes@.dom().contains(agent) ==> (step matches SubagentStep::Close {
            pane,
            ..
        } && pane == old.swarm_panes@[agent] && new.pane_id_map.daemon(pane) is None),
        !old.swarm_panes@.dom().contains(agent) ==> step == SubagentStep::Done && new.workspaces
            == old.workspaces && new.effects == old.effects,
{
}

/// A subagent that has a pane gets no second one; another gets one in a split of the
/// pane that was found to be the largest, and nothing is made where none was found.
pub proof fn law_one_pane_for_each_agent<L, C>(
    old: App,
    new: App,
    agent_id: String,
    jsonl_path: Option<String>,
    largest: L,
    suited: C,
    step: SubagentStep,
) where
    L: Fn(&LayoutNode) -> Option<PaneId>,
    C: Fn(PaneId, SplitDirection) -> SplitDirection,

    requires
        new.subagent_started(old, agent_id, jsonl_path, largest, suited, step),
    ensures
        old.swarm_panes@.dom().contains(agent_id@) ==> step == SubagentStep::Done && new == old,
        new.swarm_panes == old.swarm_panes,
        match step {
            SubagentStep::Spawn { agent_id: a, jsonl_path: p, source, direction } => {
                &&& a == agent_id
                &&& p == jsonl_path
                &&& new.workspaces is Some
                &&& call_ensures(largest, (&new.workspaces->0.layout,), Some(source))
                &&& new.workspaces->0.layout.has(source)
                &&& call_ensures(suited, (source, SplitDirection::Horizontal), direction)
                &&& new.has_renderer
            },
            SubagentStep::Close { .. } => false,
            SubagentStep::Done => true,
        },
{
}

/// A dragged separator sets the ratio of its own split, and no other place of the tree
/// changes; without a separator or a ratio nothing does.
pub proof fn law_drag_sets_one_ratio(
    old: App,
    new: App,
    ratio: Option<Ratio>,
    path: Seq<bool>,
    w: Workspaces,
)
    requires
        new.dragged_from(old, ratio),
        old.workspaces == Some(w),
    ensures
        old.screen.separator_drag is None || ratio is None ==> new == old,
        old.screen.separator_drag is Some && ratio is Some ==> {
            let at = old.screen.separator_drag->0.path@;
            &&& new.workspaces is Some
            &&& new.workspaces->0.focused == w.focused
            &&& layout_laws::spot(new.workspaces->0.layout, path) == match layout_laws::spot(
                w.layout,
                path,
            ) {
                Spot::Split { direction, ratio: own } => Spot::Split {
                    direction,
                    ratio: if path == at {
                        ratio->0
                    } else {
                        own
                    },
                },
                other => other,
            }
            &&& new.effects@ == old.effects@.push(Effect::RelayoutAndRedraw)
        },
{
    if old.screen.separator_drag is Some && ratio is Some {
        layout_laws::law_ratio_is_set_there(
            w.layout,
            old.screen.separator_drag->0.path@,
            ratio->0,
            path,
        );
        assert(new.effects@ =~= old.effects@.push(Effect::RelayoutAndRedraw));
    }
}

/// What becomes of a pane when the daemon's workspaces change: dropped if the daemon's
/// pane that it shows is gone, kept for it otherwise; unknown if it shows none.
pub proof fn law_fate_of_panes(app: App, i: int, unknown: PaneId, removed: Seq<DaemonPaneId>)
    requires
        app.wf(),
        0 <= i < app.pane_id_map.pairs@.len(),
        forall|k: int|
            0 <= k < app.pane_id_map.pairs@.len() ==> (#[trigger] app.pane_id_map.pairs@[k]).0
                != unknown,
    ensures
        ({
            let (local, daemon) = app.pane_id_map.pairs@[i];
            &&& removed.contains(daemon) ==> app.fate(local, removed)
                == super::reconcile::PaneFate::Drop
            &&& !removed.contains(daemon) ==> app.fate(local, removed) == (
            super::reconcile::PaneFate::Reuse { daemon_pane: daemon })
        }),
        app.fate(unknown, removed) == super::reconcile::PaneFate::Unknown,
{
    ids::lemma_at(app.pane_id_map.pairs@, i);
}

/// The focus moves on to the next pane of the tree, or back to the previous one,
/// around the ends; a pane alone has no neighbour.
pub proof fn law_focus_moves_to_the_neighbour(app: App, w: Workspaces, i: int)
    requires
        app.workspaces == Some(w),
        0 <= i < w.layout.panes().len(),
        w.focused == Some(w.layout.panes()[i].id),
        forall|j: int, k: int|
            0 <= j < k < w.layout.panes().len() ==> w.layout.panes()[j].id
                != w.layout.panes()[k].id,
    ensures
        ({
            let panes = w.layout.panes();
            let n = panes.len() as int;
            &&& n > 1 ==> app.focus_neighbour(FocusDirection::Next) == Some(panes[(i + 1) % n].id)
            &&& n > 1 ==> app.focus_neighbour(FocusDirection::Prev) == Some(
                panes[(i + n - 1) % n].id,
            )
            &&& n == 1 ==> app.focus_neighbour(FocusDirection::Next) is None
                && app.focus_neighbour(FocusDirection::Prev) is None
        }),
{
    let ids = w.layout.ids();
    let n = ids.len() as int;
    assert forall|j: int, k: int| 0 <= j < k < ids.len() implies ids[j] != ids[k] by {
        assert(ids[j] == w.layout.panes()[j].id);
        assert(ids[k] == w.layout.panes()[k].id);
    }
    layout_laws::law_neighbours(ids, i, FocusDirection::Next);
    layout_laws::law_neighbours(ids, i, FocusDirection::Prev);
    vstd::arithmetic::div_mod::lemma_mod_bound(i + 1, n);
    vstd::arithmetic::div_mod::lemma_mod_bound(i + n - 1, n);
}

/// The state of the focused pane is that of the first pane of the tree with its id.
pub proof fn law_state_of_the_focused_pane(app: App, w: Workspaces, id: PaneId)
    requires
        app.workspaces == Some(w),
        w.focused == Some(id),
    ensures
        app.focused_state() is Some <==> w.layout.has(id),
        app.focused_state() matches Some(p) ==> p.id == id && w.layout.panes().contains(p),
        app.focused_session() == match app.focused_state() {
            Some(p) => p.claude_session_id,
            None => None,
        },
{
    crate::layout::lemma_has_pane(w.layout, id);
    layout_laws::law_first_pane_is_found(w.layout, id);
    if let Some(p) = w.layout.pane(id) {
        let panes = w.layout.panes();
        let k = choose|k: int|
            {
                &&& 0 <= k < panes.len()
                &&& #[trigger] panes[k] == p
                &&& panes[k].id == id
                &&& forall|j: int| 0 <= j < k ==> (#[trigger] panes[j]).id != id
            };
        assert(panes[k] == p);
    }
}

/// Leaving zoom puts the pane on the screen back into the tree that was kept, has the
/// panes laid out, and changes nothing where no pane is zoomed.
pub proof fn law_leaving_zoom(old: App, new: App, pane: PaneState, kept: LayoutNode)
    requires
        new.is_unzoomed_from(old),
    ensures
        old.zoomed_layout is None ==> new.workspaces == old.workspaces && new.effects@
            == old.effects@ && new.zoomed_layout is None,
        old.workspaces is None || !(old.workspaces->0.layout is Leaf) ==> new.workspaces
            == old.workspaces && new.effects@ == old.effects@ && new.zoomed_layout
            == old.zoomed_layout,
        old.zoomed_layout == Some(kept) && old.workspaces is Some && old.workspaces->0.layout
            == LayoutNode::Leaf(pane) && kept.has_hole() ==> {
            &&& new.zoomed_layout is None
            &&& new.workspaces is Some
            &&& new.workspaces->0.focused == Some(pane.id)
            &&& new.workspaces->0.ids == old.workspaces->0.ids
            &&& new.effects@ == old.effects@.push(Effect::RelayoutAndRedraw)
            &&& exists|at: Seq<bool>|
                {
                    &&& #[trigger] layout_laws::first_hole(kept, at)
                    &&& layout_laws::spot(new.workspaces->0.layout, at) == Spot::Pane(pane)
                    &&& forall|path: Seq<bool>|
                        path != at ==> #[trigger] layout_laws::spot(
                            new.workspaces->0.layout,
                            path,
                        ) == layout_laws::spot(kept, path)
                }
        },
{
    if old.zoomed_layout is None || old.workspaces is None || !(old.workspaces->0.layout is Leaf) {
        assert(new.effects@ =~= old.effects@);
    }
    if old.zoomed_layout == Some(kept) && old.workspaces is Some && old.workspaces->0.layout
        == LayoutNode::Leaf(pane) && kept.has_hole() {
        layout_laws::law_filled_in_place(kept, pane);
        assert(new.effects@ =~= old.effects@.push(Effect::RelayoutAndRedraw));
    }
}

/// New ratios have the panes laid out, then told their size if they can be drawn, then
/// redrawn if there is a window.
pub proof fn law_effects_of_new_ratios(app: App)
    ensures
        app.ratio_effects()[0] == Effect::LayoutPanes,
        app.has_renderer && app.has_window ==> app.ratio_effects() == seq![
            Effect::LayoutPanes,
            Effect::ResizePanes,
            Effect::RequestRedraw,
        ],
        app.has_renderer && !app.has_window ==> app.ratio_effects() == seq![
            Effect::LayoutPanes,
            Effect::ResizePanes,
        ],
        !app.has_renderer && app.has_window ==> app.ratio_effects() == seq![
            Effect::LayoutPanes,
            Effect::RequestRedraw,
        ],
        !app.has_renderer && !app.has_window ==> app.ratio_effects() == seq![Effect::LayoutPanes],
{
}

/// A page that is refused leaves the screen as it was; it is laid out anew only where
/// it was touched.
pub proof fn law_effects_of_refusals(e: WebViewError)
    ensures
        App::refusal_effects(e).contains(Effect::RelayoutAndRedraw) <==> e
            == WebViewError::NoWindow,
        e == WebViewError::SplitFailed ==> App::refusal_effects(e) == seq![
            Effect::Toast(Notice::WebViewSplitFailed),
        ],
        e == WebViewError::NoWindow ==> App::refusal_effects(e).last()
            == Effect::PublishWorkspaceState,
        e != WebViewError::NoWindow && e != WebViewError::SplitFailed ==> App::refusal_effects(
            e,
        ).len() == 0,
{
    if e == WebViewError::NoWindow {
        assert(App::refusal_effects(e)[0] == Effect::RelayoutAndRedraw);
    }
}

/// What is left is laid out anew, with the daemon told of its focus; where nothing is
/// left, the screen is only redrawn.
pub proof fn law_effects_of_what_is_left(app: App, w: Workspaces)
    ensures
        app.remaining_effects(None) == seq![Effect::RequestRedraw],
        app.remaining_effects(Some(w)).last() == Effect::RelayoutAndRedraw,
        app.remaining_effects(Some(w)).drop_last() == app.select_effects(w.focused),
        App::swapped_effects(None, 0, 0).len() == 0,
        forall|a: PaneId, b: PaneId|
            #[trigger] App::swapped_effects(Some(w), a, b) == if w.layout.has(a) && w.layout.has(
                b,
            ) {
                seq![Effect::RequestRedraw, Effect::PublishWorkspaceState]
            } else {
                seq![]
            },
{
    assert(app.remaining_effects(Some(w)).drop_last() =~= app.select_effects(w.focused));
}

/// The pointer at a new place is known from then on, and gets the looks of the
/// separator that is near, or the default looks where it leaves one.
pub proof fn law_pointer_at_a_new_place(old: App, seen: App, new: App, motion: Motion)
    requires
        seen.seen_from(old, motion),
        new.hovered_from(seen, motion),
        old.has_window,
        !old.screen.pointer.left_held,
    ensures
        ({
            let n = seen.effects@.len() as int;
            let was = old.screen.pointer.separator_cursor_active;
            &&& seen.screen.pointer.cursor_known
            &&& new.screen.pointer.cursor_known
            &&& new.workspaces == old.workspaces
            &&& seen.effects@.len() == old.effects@.len() + if old.screen.use_csd
                && motion.over_tab_bar {
                1int
            } else {
                0
            }
            &&& motion.separator == Some(SplitDirection::Horizontal) && !was ==> new.effects@[n]
                == Effect::SetCursor(CursorIcon::EwResize)
            &&& motion.separator == Some(SplitDirection::Vertical) && !was ==> new.effects@[n]
                == Effect::SetCursor(CursorIcon::NsResize)
            &&& motion.separator is None && was ==> new.effects@[n] == Effect::SetCursor(
                CursorIcon::Default,
            )
        }),
{
}

/// A split for an agent is one of the pane that was found, or of the agent's own; in
/// the direction that was given for it, and side by side where it is not shown.
pub proof fn law_what_is_asked_for_a_split<L, C>(
    app: App,
    largest: L,
    suited: C,
    found: Option<PaneId>,
    pane: PaneId,
    direction: SplitDirection,
) where
    L: Fn(&LayoutNode) -> Option<PaneId>,
    C: Fn(PaneId, SplitDirection) -> SplitDirection,

    requires
        tile::largest_gives(largest, app.workspaces, found),
        tile::suited_gives(suited, app, pane, direction),
    ensures
        app.workspaces is None ==> found is None && direction == SplitDirection::Horizontal,
        app.workspaces matches Some(w) ==> {
            &&& call_ensures(largest, (&w.layout,), found)
            &&& w.layout.has(pane) ==> call_ensures(
                suited,
                (pane, SplitDirection::Horizontal),
                direction,
            )
            &&& !w.layout.has(pane) ==> direction == SplitDirection::Horizontal
        },
{
}

/// A mounted pane is paired with the daemon's pane, stands in the new half of the
/// pane that was split, and has the focus if it was to have it.
pub proof fn law_mounted_pane(
    old: App,
    new: App,
    source: PaneId,
    direction: SplitDirection,
    pane: PaneState,
    daemon_pane: DaemonPaneId,
    focused: bool,
    w: Workspaces,
)
    requires
        old.wf(),
        new.mounted_from(old, source, direction, pane, daemon_pane, focused),
        old.workspaces == Some(w),
        w.layout.has(source),
    ensures
        new.pane_id_map.daemon(pane.id) == Some(daemon_pane),
        forall|p: (PaneId, DaemonPaneId)| #[trigger]
            new.pane_id_map.pairs@.contains(p) <==> p == (pane.id, daemon_pane) || (
            old.pane_id_map.pairs@.contains(p) && p.0 != pane.id && p.1 != daemon_pane),
        new.workspaces is Some,
        focused ==> new.workspaces->0.focused == Some(pane.id) && new.last_split_direction
            == direction,
        !focused ==> new.workspaces->0.focused == w.focused && new.last_split_direction
            == old.last_split_direction,
        exists|at: Seq<bool>|
            {
                &&& #[trigger] layout_laws::first_place(w.layout, source, at)
                &&& layout_laws::spot(new.workspaces->0.layout, at.push(true)) == Spot::Pane(pane)
                &&& layout_laws::spot(new.workspaces->0.layout, at.push(false))
                    == layout_laws::spot(w.layout, at)
            },
{
    layout_laws::law_split_in_place(w.layout, source, direction, pane);
    ids::law_pair_put_in(old.pane_id_map.pairs@, pane.id, daemon_pane);
}

/// A pane of a run that shows one of the daemon is mounted with the focus; only the
/// last of the run has the panes laid out.
pub proof fn law_mounted_pane_of_a_run(
    old: App,
    new: App,
    left: usize,
    source: PaneId,
    direction: SplitDirection,
    pane: PaneState,
    daemon_pane: DaemonPaneId,
)
    requires
        new.spawn_mounted_from(old, left, source, direction, pane, daemon_pane),
    ensures
        new.mounted_from(old, source, direction, pane, daemon_pane, true),
        old.workspaces is Some ==> new.workspaces is Some && new.workspaces->0.focused == Some(
            pane.id,
        ),
        new.last_split_direction == direction,
        new.swarm_panes == old.swarm_panes,
        left == 1 ==> new.effects@.last() == Effect::PublishWorkspaceState,
        left != 1 ==> new.effects@ == old.effects@ + old.follow_effects(daemon_pane),
{
    if left != 1 {
        assert(new.effects@ =~= old.effects@ + old.follow_effects(daemon_pane));
    }
}

/// A message of a failure ends with what was given as its cause.
pub proof fn law_messages_carry_their_cause(cause: String, agent: Seq<char>)
    ensures
        cause@.is_suffix_of(Notice::KillFailed(cause).text(agent)),
        cause@.is_suffix_of(Notice::SwapFailed(cause).text(agent)),
        cause@.is_suffix_of(Notice::SplitFailed(cause).text(agent)),
        cause@.is_suffix_of(Notice::WebViewFailed(cause).text(agent)),
        cause@.is_suffix_of(Notice::CouldNotOpen(cause).text(agent)),
        Notice::Text(cause).text(agent) == cause@,
        cause@.is_suffix_of(RpcFailure::Failed(cause).text()),
        cause@.is_suffix_of(super::remote::split_failure(RpcAttempt::Failed(cause))),
{
    let t = Notice::KillFailed(cause).text(agent);
    assert(cause@ =~= t.subrange(t.len() - cause@.len(), t.len() as int));
    let t = Notice::SwapFailed(cause).text(agent);
    assert(cause@ =~= t.subrange(t.len() - cause@.len(), t.len() as int));
    let t = Notice::SplitFailed(cause).text(agent);
    assert(cause@ =~= t.subrange(t.len() - cause@.len(), t.len() as int));
    let t = Notice::WebViewFailed(cause).text(agent);
    assert(cause@ =~= t.subrange(t.len() - cause@.len(), t.len() as int));
    let t = Notice::CouldNotOpen(cause).text(agent);
    assert(cause@ =~= t.subrange(t.len() - cause@.len(), t.len() as int));
    let t = RpcFailure::Failed(cause).text();
    assert(cause@ =~= t.subrange(t.len() - cause@.len(), t.len() as int));
    let t = super::remote::split_failure(RpcAttempt::Failed(cause));
    assert(cause@ =~= t.subrange(t.len() - cause@.len(), t.len() as int));
}

/// What is typed for a location names its path and its line.
pub proof fn law_location_is_typed(path: Seq<char>, line: Seq<char>, cwd: Option<Seq<char>>)
    requires
        !path.contains(':'),
        !line.contains(':'),
        line.len() > 0,
        '0' <= line[0] <= '9',
    ensures
        super::editing::location_command(path + seq![':'] + line, cwd) == vstd::utf8::encode_utf8(
            crate::shell::editor_command_text(path, line, cwd),
        ),
        super::editing::location_command(path, cwd) == vstd::utf8::encode_utf8(
            crate::shell::editor_command_text(path, seq!['1'], cwd),
        ),
{
    crate::editor::laws::law_location_comes_apart(path, line, seq![]);
    crate::editor::laws::law_location_without_line(path, seq![]);
}

/// The command that starts an editor in a pane names the editor, then the line, then
/// the file as one word.
pub proof fn law_editor_is_started(editor: Seq<char>, path: Seq<char>, line: Seq<char>)
    ensures
        super::editing::pane_command(editor, path, line) == vstd::utf8::encode_utf8(
            "clear && exec "@ + editor + " +"@ + line + " "@ + crate::shell::quoted(path)
                + seq!['\n'],
        ),
{
}

/// An operation that only adds effects leaves the window itself as it was, and the
/// effects that were there before stay first.
pub proof fn law_only_effects_are_added(old: App, new: App, added: Seq<Effect>)
    ensures
        new.only_added(old, added) ==> {
            &&& new.workspaces == old.workspaces
            &&& new.zoomed_layout == old.zoomed_layout
            &&& new.pane_id_map == old.pane_id_map
            &&& new.swarm_panes == old.swarm_panes
            &&& new.screen == old.screen
            &&& new.selection_pane == old.selection_pane
            &&& new.last_close_action == old.last_close_action
            &&& new.daemon_session_id == old.daemon_session_id
            &&& new.effects@ == old.effects@ + added
        },
        new.only_screen(old, new.screen, added) ==> {
            &&& new.workspaces == old.workspaces
            &&& new.pane_id_map == old.pane_id_map
            &&& new.selection_pane == old.selection_pane
            &&& new.effects@ == old.effects@ + added
        },
{
}

} // verus!
