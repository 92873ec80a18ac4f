//! The panes that work for another one.
use crate::layout::PaneId;
use crate::render::cells::copy_text;
use crate::text;
use crate::window::App;
use vstd::prelude::*;

verus! {

/// What an agent is doing.
#[derive(Debug, Clone, Copy, PartialEq, Eq, Structural)]
pub enum ClaudeStatus {
    Streaming,
    Processing,
    Thinking,
    ToolUse,
    Idle,
    AwaitingInput,
}

/// What is shown of a delegate.
#[derive(Debug, Clone, Copy, PartialEq, Eq, Structural)]
pub enum DelegateState {
    Idle,
    Thinking,
    Streaming,
    Done,
}

pub open spec fn live_state(status: ClaudeStatus) -> DelegateState {
    match status {
        ClaudeStatus::Streaming => DelegateState::Streaming,
        ClaudeStatus::Processing => DelegateState::Thinking,
        ClaudeStatus::Thinking => DelegateState::Thinking,
        ClaudeStatus::ToolUse => DelegateState::Thinking,
        ClaudeStatus::Idle => DelegateState::Idle,
        ClaudeStatus::AwaitingInput => DelegateState::Idle,
    }
}

/// What is shown of a delegate whose agent reports `status`.
pub fn delegate_state_from_claude(status: ClaudeStatus) -> (r: DelegateState)
    ensures
        r == live_state(status),
{
    match status {
        ClaudeStatus::Streaming => DelegateState::Streaming,
        ClaudeStatus::Processing | ClaudeStatus::Thinking | ClaudeStatus::ToolUse =>
            DelegateState::Thinking,
        ClaudeStatus::Idle | ClaudeStatus::AwaitingInput => DelegateState::Idle,
    }
}

/// What is known of a pane.
#[derive(Debug, PartialEq, Eq)]
pub struct PaneTags {
    pub pane_id: PaneId,
    /// The tag that makes the pane a delegate.
    pub delegate_profile: Option<String>,
    pub delegate_status: Option<String>,
    /// What the agent in the pane reports.
    pub claude: Option<ClaudeStatus>,
}

/// A delegate that was seen.
#[derive(Debug, PartialEq, Eq)]
pub struct DelegateObservation {
    pub pane_id: PaneId,
    pub profile: String,
    pub state: DelegateState,
}

/// What a look at all panes found.
#[derive(Debug, PartialEq, Eq)]
pub struct DelegateScan {
    pub observations: Vec<DelegateObservation>,
    /// The panes of the delegates.
    pub present: Vec<PaneId>,
}

/// The state of a delegate: a tag that says that it is done comes before what
/// its agent reports.
pub open spec fn state_of(pane: PaneTags) -> DelegateState {
    match pane.delegate_status {
        Some(tag) if tag@ == "done"@ => DelegateState::Done,
        _ => match pane.claude {
            Some(status) => live_state(status),
            None => DelegateState::Idle,
        },
    }
}

/// The delegates among panes, in their order.
pub open spec fn observed(panes: Seq<PaneTags>) -> Seq<DelegateObservation>
    decreases panes.len(),
{
    if panes.len() == 0 {
        seq![]
    } else {
        let rest = observed(panes.drop_last());
        let pane = panes.last();
        match pane.delegate_profile {
            Some(profile) => rest.push(
                DelegateObservation { pane_id: pane.pane_id, profile, state: state_of(pane) },
            ),
            None => rest,
        }
    }
}

/// A delegate is done exactly if its tag says so, whatever its agent reports.
pub proof fn law_done_only_by_tag(pane: PaneTags)
    ensures
        state_of(pane) == DelegateState::Done <==> pane.delegate_status is Some
            && pane.delegate_status->0@ == "done"@,
{
}

fn delegate_state(pane: &PaneTags) -> (r: DelegateState)
    ensures
        r == state_of(*pane),
{
    if let Some(tag) = &pane.delegate_status {
        if text::str_eq(tag.as_str(), "done") {
            return DelegateState::Done;
        }
    }
    match pane.claude {
        Some(status) => delegate_state_from_claude(status),
        None => DelegateState::Idle,
    }
}

impl App {
    /// Looks for delegates among the panes of all workspaces.
    pub fn scan_and_update_delegate_summary(&self, panes: &Vec<PaneTags>) -> (r: DelegateScan)
        ensures
            self.workspaces is None ==> r.observations@.len() == 0 && r.present@.len() == 0,
            self.workspaces is Some ==> {
                &&& r.observations@ == observed(panes@)
                &&& r.present@ == observed(panes@).map_values(|o: DelegateObservation| o.pane_id)
            },
    {
        let mut observations: Vec<DelegateObservation> = Vec::new();
        let mut present: Vec<PaneId> = Vec::new();
        if self.workspaces.is_none() {
            return DelegateScan { observations, present };
        }
        let mut i: usize = 0;
        let ghost id_of = |o: DelegateObservation| o.pane_id;
        proof {
            assert(panes@.take(0) =~= Seq::<PaneTags>::empty());
            assert(present@ =~= observed(panes@.take(0)).map_values(id_of));
        }
        while i < panes.len()
            invariant
                i <= panes@.len(),
                id_of == (|o: DelegateObservation| o.pane_id),
                observations@ == observed(panes@.take(i as int)),
                present@ == observed(panes@.take(i as int)).map_values(id_of),
            decreases panes@.len() - i,
        {
            let pane = &panes[i];
            proof {
                let next = panes@.take(i + 1);
                assert(next.drop_last() =~= panes@.take(i as int));
                assert(next.last() == panes@[i as int]);
            }
            if let Some(profile) = copy_text(&pane.delegate_profile) {
                present.push(pane.pane_id);
                observations.push(
                    DelegateObservation {
                        pane_id: pane.pane_id,
                        profile,
                        state: delegate_state(pane),
                    },
                );
            }
            i += 1;
            assert(present@ =~= observed(panes@.take(i as int)).map_values(id_of));
        }
        assert(panes@.take(i as int) =~= panes@);
        DelegateScan { observations, present }
    }
}

} // verus!
