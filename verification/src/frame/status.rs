//! The bars at the top and the bottom of the window.
use crate::layout::PaneId;
use crate::render::cells::copy_text;
use crate::window::App;
use vstd::prelude::*;

verus! {

/// What is known of the agent in a pane.
#[derive(Debug, PartialEq, Eq)]
pub struct ClaudeMeta {
    pub cwd: Option<String>,
    pub session_title: Option<String>,
    pub status_text: String,
}

/// What is known of the focused pane.
#[derive(Debug, PartialEq, Eq)]
pub struct PaneStatus {
    pub claude: Option<ClaudeMeta>,
    /// The directory that the shell reported.
    pub cwd: Option<String>,
    pub last_exit_code: Option<i32>,
    pub agent_name: Option<String>,
    pub git_branch: Option<String>,
    /// Columns and rows, if the pane has a terminal.
    pub dimensions: Option<(usize, usize)>,
}

/// What the status bar shows.
#[derive(Debug, PartialEq, Eq)]
pub struct StatusBarInfo {
    pub agent_name: Option<String>,
    pub claude_title: Option<String>,
    pub claude_status_text: Option<String>,
    pub cwd: Option<String>,
    pub dimensions: (usize, usize),
    pub last_exit_code: Option<i32>,
    pub show_agent_indicator: bool,
    pub workspace_ids: Vec<u8>,
    pub active_workspace: u8,
    pub is_zoomed: bool,
    pub focused_pane_id: Option<PaneId>,
    pub git_branch: Option<String>,
    pub template_status: Option<String>,
    pub delegate_summary: Option<String>,
}

/// The size that is shown where there is no terminal.
pub open spec fn default_size() -> (usize, usize) {
    (80, 24)
}

/// The directory of a pane: the agent's before the shell's.
pub open spec fn shown_cwd(status: PaneStatus) -> Option<String> {
    match status.claude {
        Some(ClaudeMeta { cwd: Some(cwd), .. }) => Some(cwd),
        _ => status.cwd,
    }
}

impl App {
    /// The workspaces to show: a first one where there is none.
    pub open spec fn shown_workspaces(&self) -> (Seq<u8>, u8) {
        match self.workspaces {
            Some(w) => (w.ids@, w.active_id),
            None => (seq![1u8], 1u8),
        }
    }

    fn workspaces_to_show(&self) -> (r: (Vec<u8>, u8))
        ensures
            r.0@ == self.shown_workspaces().0,
            r.1 == self.shown_workspaces().1,
    {
        match &self.workspaces {
            Some(w) => {
                let mut ids: Vec<u8> = Vec::new();
                let mut i: usize = 0;
                while i < w.ids.len()
                    invariant
                        i <= w.ids@.len(),
                        ids@ == w.ids@.take(i as int),
                    decreases w.ids@.len() - i,
                {
                    ids.push(w.ids[i]);
                    i += 1;
                    assert(ids@ =~= w.ids@.take(i as int));
                }
                assert(w.ids@.take(i as int) =~= w.ids@);
                (ids, w.active_id)
            },
            None => {
                let ids: Vec<u8> = vec![1];
                assert(ids@ =~= seq![1u8]);
                (ids, 1)
            },
        }
    }

    /// What the status bar shows. `focused` is what is known of the focused pane,
    /// if the screen shows one.
    pub fn status_bar_info(
        &self,
        focused: Option<&PaneStatus>,
        show_agent_indicator: bool,
        template_status: Option<String>,
        delegate_summary: Option<String>,
    ) -> (r: StatusBarInfo)
        ensures
            r.workspace_ids@ == self.shown_workspaces().0,
            r.active_workspace == self.shown_workspaces().1,
            r.is_zoomed == self.zoomed_layout is Some,
            r.focused_pane_id == self.focus(),
            r.show_agent_indicator == show_agent_indicator,
            r.template_status == template_status,
            r.delegate_summary == delegate_summary,
            match focused {
                Some(s) => {
                    &&& r.agent_name == s.agent_name
                    &&& r.last_exit_code == s.last_exit_code
                    &&& r.git_branch == s.git_branch
                    &&& r.cwd == shown_cwd(*s)
                    &&& r.dimensions == match s.dimensions {
                        Some(d) => d,
                        None => default_size(),
                    }
                    &&& match s.claude {
                        Some(meta) => r.claude_title == meta.session_title && r.claude_status_text
                            == Some(meta.status_text),
                        None => r.claude_title is None && r.claude_status_text is None,
                    }
                },
                None => {
                    &&& r.agent_name is None
                    &&& r.last_exit_code is None
                    &&& r.git_branch is None
                    &&& r.cwd is None
                    &&& r.claude_title is None
                    &&& r.claude_status_text is None
                    &&& r.dimensions == default_size()
                },
            },
    {
        let (workspace_ids, active_workspace) = self.workspaces_to_show();
        let mut info = StatusBarInfo {
            agent_name: None,
            claude_title: None,
            claude_status_text: None,
            cwd: None,
            dimensions: (80, 24),
            last_exit_code: None,
            show_agent_indicator,
            workspace_ids,
            active_workspace,
            is_zoomed: self.zoomed_layout.is_some(),
            focused_pane_id: self.focused_pane(),
            git_branch: None,
            template_status,
            delegate_summary,
        };
        if let Some(s) = focused {
            info.agent_name = copy_text(&s.agent_name);
            info.last_exit_code = s.last_exit_code;
            info.git_branch = copy_text(&s.git_branch);
            info.cwd = copy_text(&s.cwd);
            if let Some(d) = s.dimensions {
                info.dimensions = d;
            }
            if let Some(meta) = &s.claude {
                info.claude_title = copy_text(&meta.session_title);
                info.claude_status_text = Some(meta.status_text.clone());
                if let Some(cwd) = &meta.cwd {
                    info.cwd = Some(cwd.clone());
                }
            }
        }
        info
    }
}

/// The title of an agent's session in the focused pane of a workspace.
#[derive(Debug, PartialEq, Eq)]
pub struct WorkspaceTitle {
    pub workspace: u8,
    pub title: Option<String>,
}

/// The titles that there are.
pub open spec fn known_titles(titles: Seq<WorkspaceTitle>) -> Seq<(u8, String)>
    decreases titles.len(),
{
    if titles.len() == 0 {
        seq![]
    } else {
        let rest = known_titles(titles.drop_last());
        match titles.last().title {
            Some(title) => rest.push((titles.last().workspace, title)),
            None => rest,
        }
    }
}

/// What the bar with the tabs shows.
#[derive(Debug, PartialEq, Eq)]
pub struct TabBar {
    pub workspace_ids: Vec<u8>,
    pub active_workspace: u8,
    /// The titles of agents' sessions, if there are any.
    pub titles: Option<Vec<(u8, String)>>,
    /// Whether the buttons of the window are drawn over the bar.
    pub buttons: bool,
}

fn collect_titles(titles: &Vec<WorkspaceTitle>) -> (r: Vec<(u8, String)>)
    ensures
        r@ == known_titles(titles@),
{
    let mut out: Vec<(u8, String)> = Vec::new();
    let mut i: usize = 0;
    assert(titles@.take(0) =~= Seq::<WorkspaceTitle>::empty());
    while i < titles.len()
        invariant
            i <= titles@.len(),
            out@ == known_titles(titles@.take(i as int)),
        decreases titles@.len() - i,
    {
        proof {
            let next = titles@.take(i + 1);
            assert(next.drop_last() =~= titles@.take(i as int));
            assert(next.last() == titles@[i as int]);
        }
        if let Some(title) = copy_text(&titles[i].title) {
            out.push((titles[i].workspace, title));
        }
        i += 1;
    }
    assert(titles@.take(i as int) =~= titles@);
    out
}

impl App {
    /// What the bar with the tabs shows, if there is one: tabs are hidden for a
    /// single workspace, unless the window draws its own frame.
    pub fn tab_bar(&self, titles: &Vec<WorkspaceTitle>) -> (r: Option<TabBar>)
        ensures
            r is Some <==> self.shown_workspaces().0.len() > 1 || self.screen.use_csd,
            r matches Some(bar) ==> {
                &&& bar.workspace_ids@ == self.shown_workspaces().0
                &&& bar.active_workspace == self.shown_workspaces().1
                &&& bar.buttons == self.screen.use_csd
                &&& bar.titles is None <==> known_titles(titles@).len() == 0
                &&& bar.titles matches Some(t) ==> t@ == known_titles(titles@)
            },
    {
        let (workspace_ids, active_workspace) = self.workspaces_to_show();
        if workspace_ids.len() <= 1 && !self.screen.use_csd {
            return None;
        }
        let found = collect_titles(titles);
        let titles: Option<Vec<(u8, String)>> = if found.len() == 0 {
            None
        } else {
            Some(found)
        };
        Some(TabBar { workspace_ids, active_workspace, titles, buttons: self.screen.use_csd })
    }
}

} // verus!
