//! What holds of the parts of a frame.
use super::delegates;
use super::delegates::{ClaudeStatus, DelegateState, PaneTags};
use super::jump;
use super::jump::{Region, RegionKind, ScrollView};
use super::passes::{FrameState, OverlayMode, Pass};
use super::status;
use super::status::{PaneStatus, WorkspaceTitle};
use super::timeline;
use super::timeline::AgentStatus;
use super::widgets::{TimelinePosition, WidgetFrame};
use crate::layout::PaneId;
use crate::window::{App, Effect, Notice};
use vstd::prelude::*;

verus! {

/// The delegates are the panes with a profile, in their order, each with its own
/// number, profile and state.
pub proof fn law_delegates_are_tagged_panes(panes: Seq<PaneTags>)
    ensures
        ({
            let tagged = panes.filter(|p: PaneTags| p.delegate_profile is Some);
            let seen = delegates::observed(panes);
            &&& seen.len() == tagged.len()
            &&& forall|i: int|
                0 <= i < seen.len() ==> {
                    &&& (#[trigger] seen[i]).pane_id == tagged[i].pane_id
                    &&& Some(seen[i].profile) == tagged[i].delegate_profile
                    &&& seen[i].state == delegates::state_of(tagged[i])
                }
        }),
    decreases panes.len(),
{
    reveal(Seq::filter);
    if panes.len() > 0 {
        law_delegates_are_tagged_panes(panes.drop_last());
    }
}

/// An agent at work is shown as such, and one that waits as idle; a delegate without
/// an agent is idle.
pub proof fn law_delegate_states(pane: PaneTags)
    requires
        pane.delegate_status matches Some(t) ==> t@ != "done"@,
    ensures
        pane.claude is None ==> delegates::state_of(pane) == DelegateState::Idle,
        delegates::state_of(pane) == DelegateState::Streaming <==> pane.claude == Some(
            ClaudeStatus::Streaming,
        ),
        pane.claude is Some ==> (delegates::state_of(pane) == DelegateState::Idle
            <==> pane.claude->0 == ClaudeStatus::Idle || pane.claude->0
            == ClaudeStatus::AwaitingInput),
        delegates::state_of(pane) != DelegateState::Done,
{
}

/// The titles that are shown are those of the workspaces with one, in their order.
pub proof fn law_titles_that_there_are(titles: Seq<WorkspaceTitle>)
    ensures
        ({
            let titled = titles.filter(|t: WorkspaceTitle| t.title is Some);
            let known = status::known_titles(titles);
            &&& known.len() == titled.len()
            &&& forall|i: int|
                0 <= i < known.len() ==> {
                    &&& (#[trigger] known[i]).0 == titled[i].workspace
                    &&& Some(known[i].1) == titled[i].title
                }
        }),
    decreases titles.len(),
{
    reveal(Seq::filter);
    if titles.len() > 0 {
        law_titles_that_there_are(titles.drop_last());
    }
}

/// How far above the background a pass lies.
pub open spec fn depth(pass: Pass) -> int {
    match pass {
        Pass::Clear => 0,
        Pass::Panes { .. } => 1,
        Pass::StatusBar => 2,
        Pass::TabBar => 3,
        Pass::FrameButtons => 4,
        Pass::Overlay(_) => 5,
        Pass::ContextMenu => 6,
        Pass::VisualBell { .. } => 7,
        Pass::Toast => 8,
        Pass::Widgets => 9,
    }
}

spec fn ordered(s: Seq<Pass>, low: int, high: int) -> bool {
    &&& forall|i: int| 0 <= i < s.len() ==> low <= depth(#[trigger] s[i]) < high
    &&& forall|i: int, j: int|
        0 <= i < j < s.len() ==> depth(#[trigger] s[i]) < depth(#[trigger] s[j])
}

proof fn lemma_ordered(a: Seq<Pass>, b: Seq<Pass>, low: int, mid: int, high: int)
    requires
        ordered(a, low, mid),
        ordered(b, mid, high),
        low <= mid <= high,
    ensures
        ordered(a + b, low, high),
        forall|p: Pass| #[trigger] (a + b).contains(p) <==> a.contains(p) || b.contains(p),
{
    let s = a + b;
    assert forall|i: int| 0 <= i < s.len() implies low <= depth(#[trigger] s[i]) < high by {
        if i < a.len() {
            assert(s[i] == a[i]);
        } else {
            assert(s[i] == b[i - a.len()]);
        }
    }
    assert forall|i: int, j: int| 0 <= i < j < s.len() implies depth(#[trigger] s[i]) < depth(
        #[trigger] s[j],
    ) by {
        if j < a.len() {
            assert(s[i] == a[i] && s[j] == a[j]);
        } else if i < a.len() {
            assert(s[i] == a[i] && s[j] == b[j - a.len()]);
        } else {
            assert(s[i] == b[i - a.len()] && s[j] == b[j - a.len()]);
        }
    }
    assert forall|p: Pass| #[trigger] s.contains(p) <==> a.contains(p) || b.contains(p) by {
        if a.contains(p) {
            let k = choose|k: int| 0 <= k < a.len() && a[k] == p;
            assert(s[k] == p);
        }
        if b.contains(p) {
            let k = choose|k: int| 0 <= k < b.len() && b[k] == p;
            assert(s[a.len() + k] == p);
        }
        if s.contains(p) {
            let k = choose|k: int| 0 <= k < s.len() && s[k] == p;
            if k < a.len() {
                assert(a[k] == p);
            } else {
                assert(b[k - a.len()] == p);
            }
        }
    }
}

/// Each pass is drawn exactly where there is something for it to draw.
pub open spec fn is_due(app: App, frame: FrameState, pass: Pass) -> bool {
    match pass {
        Pass::Clear => true,
        Pass::Panes { show_focus } => show_focus == (app.workspaces->0.layout.panes().len() > 1),
        Pass::StatusBar => frame.show_status_bar,
        Pass::TabBar => app.screen.use_csd || (app.workspaces is Some
            && app.workspaces->0.ids@.len() > 1),
        Pass::FrameButtons => app.screen.use_csd,
        Pass::Overlay(mode) => frame.overlay_mode == Some(mode) && (mode
            == OverlayMode::TrustEscalation ==> frame.trust_escalation),
        Pass::ContextMenu => frame.menu_open,
        Pass::VisualBell { left, duration } => frame.visual_bell_start is Some && left > 0
            && duration == frame.visual_bell_duration_ms && left == if frame.now
            < frame.visual_bell_start->0 {
            duration as int
        } else {
            duration - (frame.now - frame.visual_bell_start->0)
        },
        Pass::Toast => frame.toast_expired == Some(false),
        Pass::Widgets => true,
    }
}

/// The passes of a frame are those that have something to draw, each once, from the
/// background up.
pub proof fn law_passes_from_the_background_up(app: App, frame: FrameState, pass: Pass)
    ensures
        app.passes(frame).contains(pass) <==> is_due(app, frame, pass),
        forall|i: int, j: int|
            0 <= i < j < app.passes(frame).len() ==> depth(#[trigger] app.passes(frame)[i])
                < depth(#[trigger] app.passes(frame)[j]),
{
    let bell = Pass::VisualBell {
        left: frame.bell_left() as u64,
        duration: frame.visual_bell_duration_ms,
    };
    let base = seq![
        Pass::Clear,
        Pass::Panes { show_focus: app.workspaces->0.layout.panes().len() > 1 },
    ];
    let s2 = super::passes::pass_if(frame.show_status_bar, Pass::StatusBar);
    let s3 = super::passes::pass_if(app.tabs_drawn(), Pass::TabBar);
    let s4 = super::passes::pass_if(app.screen.use_csd, Pass::FrameButtons);
    let s5 = App::overlay_drawn(frame);
    let s6 = super::passes::pass_if(frame.menu_open, Pass::ContextMenu);
    let s7 = super::passes::pass_if(frame.bell_left() > 0, bell);
    let s8 = super::passes::pass_if(frame.toast_active(), Pass::Toast);
    let s9 = seq![Pass::Widgets];
    assert(ordered(base, 0, 2));
    lemma_one(s2, 2);
    lemma_one(s3, 3);
    lemma_one(s4, 4);
    lemma_one(s5, 5);
    lemma_one(s6, 6);
    lemma_one(s7, 7);
    lemma_one(s8, 8);
    lemma_one(s9, 9);
    let t2 = base + s2;
    let t3 = t2 + s3;
    let t4 = t3 + s4;
    let t5 = t4 + s5;
    let t6 = t5 + s6;
    let t7 = t6 + s7;
    let t8 = t7 + s8;
    lemma_ordered(base, s2, 0, 2, 3);
    lemma_ordered(t2, s3, 0, 3, 4);
    lemma_ordered(t3, s4, 0, 4, 5);
    lemma_ordered(t4, s5, 0, 5, 6);
    lemma_ordered(t5, s6, 0, 6, 7);
    lemma_ordered(t6, s7, 0, 7, 8);
    lemma_ordered(t7, s8, 0, 8, 9);
    lemma_ordered(t8, s9, 0, 9, 10);
    assert(app.passes(frame) == t8 + s9);
    assert(base[0] == Pass::Clear);
    assert(base[1] is Panes);
    assert(base.contains(pass) <==> pass == base[0] || pass == base[1]);
    assert(s9[0] == Pass::Widgets);
}

/// Nothing, or one pass of the given depth.
proof fn lemma_one(s: Seq<Pass>, at: int)
    requires
        s.len() <= 1,
        s.len() == 1 ==> depth(s[0]) == at,
    ensures
        ordered(s, at, at + 1),
        forall|p: Pass| #[trigger] s.contains(p) <==> s.len() == 1 && s[0] == p,
{
    assert forall|p: Pass| #[trigger] s.contains(p) <==> s.len() == 1 && s[0] == p by {
        if s.len() == 1 && s[0] == p {
            assert(s[0] == p);
        }
    }
}

/// A bell that rang is shown for its whole duration, and no longer.
pub proof fn law_bell_fades(frame: FrameState, start: u64)
    requires
        frame.visual_bell_start == Some(start),
        start <= frame.now,
    ensures
        frame.bell_left() > 0 <==> frame.now < start + frame.visual_bell_duration_ms,
        frame.bell_left() > 0 ==> frame.now + frame.bell_left() == start
            + frame.visual_bell_duration_ms,
{
}

/// The pattern widgets that are drawn are all those that fit, in their order.
pub proof fn law_all_that_fit(frame: WidgetFrame, n: int, i: int)
    requires
        0 <= i < n <= frame.patterns@.len(),
        frame.patterns@.len() <= usize::MAX,
    ensures
        ({
            let place = frame.patterns@[i];
            frame.fitting(n).contains(i as usize) <==> 0 <= place.left && 0 <= place.top
                && place.top_up + place.height <= frame.height
        }),
        forall|j: int, k: int|
            0 <= j < k < frame.fitting(n).len() ==> frame.fitting(n)[j] < frame.fitting(n)[k],
    decreases n,
{
    lemma_fitting(frame, n, i as usize);
}

proof fn lemma_fitting(frame: WidgetFrame, n: int, i: usize)
    requires
        0 <= n <= frame.patterns@.len() <= usize::MAX,
    ensures
        frame.fitting(n).contains(i) <==> i < n && frame.fits(frame.patterns@[i as int]),
        forall|k: int| 0 <= k < frame.fitting(n).len() ==> #[trigger] frame.fitting(n)[k] < n,
        forall|j: int, k: int|
            0 <= j < k < frame.fitting(n).len() ==> frame.fitting(n)[j] < frame.fitting(n)[k],
    decreases n,
{
    if n > 0 {
        lemma_fitting(frame, n - 1, i);
        let rest = frame.fitting(n - 1);
        let all = frame.fitting(n);
        if frame.fits(frame.patterns@[n - 1]) {
            assert(all == rest.push((n - 1) as usize));
            if i == n - 1 {
                assert(all[rest.len() as int] == i);
            }
            if rest.contains(i) {
                let k = choose|k: int| 0 <= k < rest.len() && rest[k] == i;
                assert(all[k] == i);
            }
            if all.contains(i) {
                let k = choose|k: int| 0 <= k < all.len() && all[k] == i;
                if k < rest.len() {
                    assert(rest[k] == i);
                }
            }
        }
    }
}

/// The badge is drawn a fixed way from the right edge and below the tabs.
pub proof fn law_badge_in_its_corner(frame: WidgetFrame)
    ensures
        frame.badge_place() matches Some(p) ==> {
            &&& p.x + 2 * frame.badge->0.width + 24 == 2 * frame.width
            &&& p.y == 2 * frame.tab_bar_height + 16
        },
        frame.badge is Some && frame.badge->0.width + 12 <= frame.width && frame.tab_bar_height + 8
            + frame.badge->0.height <= frame.height ==> frame.badge_place() is Some,
{
}

/// The bar is drawn at the edge that is asked for, the same way from the edge on
/// every side, above the status bar; or in the middle.
pub proof fn law_bar_at_its_edge(frame: WidgetFrame)
    ensures
        frame.placed_bar() matches Some(b) ==> {
            let status = if frame.show_status_bar {
                24int
            } else {
                0
            };
            &&& b.width == timeline::bar_width_of(frame.width as int)
            &&& frame.timeline.position != TimelinePosition::BottomCenter ==> b.place.x + 2
                * b.width + 24 == 2 * frame.width
            &&& frame.timeline.position == TimelinePosition::BottomCenter ==> b.place.x + b.width
                == 2 * frame.width - b.place.x - b.width
            &&& frame.timeline.position == TimelinePosition::TopRight ==> b.place.y == 2
                * frame.tab_bar_height + 24
            &&& frame.timeline.position != TimelinePosition::TopRight ==> b.place.y + 2
                * frame.timeline.height + 2 * status + 24 == 2 * frame.height
        },
        !frame.timeline.visible || frame.timeline.empty ==> frame.placed_bar() is None,
        frame.timeline.visible && !frame.timeline.empty && frame.width
            >= timeline::bar_width_of(frame.width as int) + 12 && frame.height
            >= frame.timeline.height + frame.tab_bar_height + 36 ==> frame.placed_bar() is Some,
{
}

/// The bar is never narrower or wider than its bounds, and grows with the window.
pub proof fn law_bar_within_bounds(window_width: int, wider: int)
    requires
        0 <= window_width <= wider,
    ensures
        100 <= timeline::bar_width_of(window_width) <= 800,
        timeline::bar_width_of(window_width) <= timeline::bar_width_of(wider),
        window_width <= 250 ==> timeline::bar_width_of(window_width) == 100,
        window_width >= 2000 ==> timeline::bar_width_of(window_width) == 800,
{
}

/// A jump stops at every kind of region, or at errors only, each kind once.
pub proof fn law_jump_stops(kind: RegionKind)
    ensures
        jump::stops(false).contains(kind),
        jump::stops(true).contains(kind) <==> kind == RegionKind::Error,
        jump::stops(true).len() == 1,
        jump::stops(false).len() == 6,
{
    let all = jump::stops(false);
    assert(all[0] == RegionKind::Prompt && all[1] == RegionKind::Command && all[2]
        == RegionKind::Output && all[3] == RegionKind::Error && all[4] == RegionKind::ToolCall
        && all[5] == RegionKind::Thinking);
    assert(jump::stops(true)[0] == RegionKind::Error);
}

/// The line at the top of a view is as far above the newest lines as the view is
/// scrolled back.
pub proof fn law_top_of_the_view(view: ScrollView, line: usize)
    ensures
        view.offset <= view.history ==> view.top_line() + view.offset == view.history,
        view.offset >= view.history ==> view.top_line() == 0,
        line >= view.history + view.screen_lines / 2 ==> view.centred(line) == 0,
        line <= view.screen_lines / 2 ==> view.centred(line) == view.history,
{
}

/// A label starts with the kind of the region and ends with its command.
pub proof fn law_labels_name_kind_and_command(region: Region)
    ensures
        region.kind.spelled().is_prefix_of(jump::label_of(region)),
        region.command matches Some(c) ==> jump::label_of(region).skip(
            jump::label_of(region).len() - c@.len(),
        ) == c@ && jump::label_of(region).len() == region.kind.spelled().len() + 2 + c@.len(),
        region.command is None ==> jump::label_of(region) == region.kind.spelled(),
{
    reveal_strlit(": ");
    let label = jump::label_of(region);
    assert(region.kind.spelled() =~= label.take(region.kind.spelled().len() as int));
    if let Some(c) = region.command {
        assert(label.skip(label.len() - c@.len()) =~= c@);
    }
}

/// A tool is shown by its name, an agent that waits as idle, and any other as
/// thinking.
pub proof fn law_activity_names(status: AgentStatus)
    ensures
        status matches AgentStatus::ToolUse { tool_name } ==> timeline::activity(status)
            == tool_name@,
        status == AgentStatus::Idle || status == AgentStatus::AwaitingInput ==> timeline::activity(
            status,
        ) == "Idle"@,
        status == AgentStatus::Thinking || status == AgentStatus::Processing || status
            == AgentStatus::Streaming || status == AgentStatus::Active ==> timeline::activity(
            status,
        ) == "Thinking"@,
{
}

/// A frame is followed by another while the bell fades, a toast is shown or delegates
/// are, if there is a window; otherwise nothing follows it.
pub proof fn law_frames_follow_while_something_moves(app: App, frame: FrameState)
    ensures
        ({
            let moving = frame.bell_left() > 0 || frame.toast_expired == Some(false)
                || frame.delegates_visible;
            let next = app.frame_effects(frame);
            &&& next.len() > 0 <==> app.has_window && moving
            &&& forall|i: int| 0 <= i < next.len() ==> #[trigger] next[i] == Effect::RequestRedraw
        }),
        app.can_draw(frame) <==> frame.has_gpu && app.has_renderer && app.workspaces is Some,
{
}

/// A jump to a region leaves it in the middle of the view: the view is scrolled by
/// exactly what brings it there, and the user is told of the region. Without a region
/// nothing is scrolled.
pub proof fn law_jump_scrolls_to_the_region(
    old: App,
    new: App,
    pane: PaneId,
    view: ScrollView,
    errors_only: bool,
    region: Option<Region>,
)
    requires
        view.wf(),
        new.jumped_from(old, pane, view, errors_only, region),
    ensures
        new.workspaces == old.workspaces,
        region is None ==> new.effects@ == old.effects@.push(
            Effect::Toast(
                if errors_only {
                    Notice::NoErrorRegion
                } else {
                    Notice::NoMoreRegion
                },
            ),
        ),
        region matches Some(r) ==> {
            let n = old.effects@.len() as int;
            let moved = view.centred(r.start_line) != view.offset;
            &&& new.effects@.len() == n + if moved {
                2int
            } else {
                1
            }
            &&& moved ==> (new.effects@[n] matches Effect::ScrollDisplay { pane: at, lines } && at
                == pane && view.offset + lines == view.centred(r.start_line))
            &&& new.effects@.last() matches Effect::Toast(Notice::Text(t)) && t@ == jump::label_of(
                r,
            )
        },
{
    if let Some(r) = region {
        if view.centred(r.start_line) != view.offset {
            assert(new.effects@.drop_last()[old.effects@.len() as int]
                == new.effects@[old.effects@.len() as int]);
        }
        assert(0 <= view.centred(r.start_line) <= view.history);
    }
}

/// The directory of the agent is shown before that of the shell, and without a
/// terminal the usual size is.
pub proof fn law_shown_directory(pane: PaneStatus, agent: String)
    ensures
        pane.claude is Some && pane.claude->0.cwd == Some(agent) ==> status::shown_cwd(pane)
            == Some(agent),
        pane.claude is None || pane.claude->0.cwd is None ==> status::shown_cwd(pane) == pane.cwd,
        status::default_size() == (80usize, 24usize),
{
}

} // verus!
