//! The bar that shows what an agent did lately.
use vstd::prelude::*;

verus! {

/// What an agent in a pane is doing.
#[derive(Debug, PartialEq, Eq)]
pub enum AgentStatus {
    ToolUse { tool_name: String },
    Thinking,
    Idle,
    Processing,
    Streaming,
    AwaitingInput,
    Active,
}

/// The name under which the bar shows a status.
pub open spec fn activity(status: AgentStatus) -> Seq<char> {
    match status {
        AgentStatus::ToolUse { tool_name } => tool_name@,
        AgentStatus::Idle => "Idle"@,
        AgentStatus::AwaitingInput => "Idle"@,
        _ => "Thinking"@,
    }
}

/// The activity to add to the bar, if it is shown and there is an agent.
pub fn timeline_activity(visible: bool, status: Option<&AgentStatus>) -> (r: Option<String>)
    ensures
        match status {
            Some(s) if visible => r matches Some(name) && name@ == activity(*s),
            _ => r is None,
        },
{
    if !visible {
        return None;
    }
    match status {
        Some(AgentStatus::ToolUse { tool_name }) => Some(tool_name.clone()),
        Some(AgentStatus::Idle) | Some(AgentStatus::AwaitingInput) => Some(
            String::from_str("Idle"),
        ),
        Some(AgentStatus::Thinking) | Some(AgentStatus::Processing) | Some(
            AgentStatus::Streaming,
        ) | Some(AgentStatus::Active) => Some(String::from_str("Thinking")),
        None => None,
    }
}

/// The least width of the bar in pixels.
pub const MIN_BAR_WIDTH: u32 = 100;

/// The greatest width of the bar in pixels.
pub const MAX_BAR_WIDTH: u32 = 800;

/// Two fifths of the window, to the nearest pixel and within bounds.
pub open spec fn bar_width_of(window_width: int) -> int {
    let nearest = (2 * window_width + 2) / 5;
    if nearest < MIN_BAR_WIDTH {
        MIN_BAR_WIDTH as int
    } else if nearest > MAX_BAR_WIDTH {
        MAX_BAR_WIDTH as int
    } else {
        nearest
    }
}

/// The width of the bar in a window of this width.
pub fn bar_width(window_width: u32) -> (r: u32)
    ensures
        r == bar_width_of(window_width as int),
{
    let nearest: u64 = (2 * window_width as u64 + 2) / 5;
    if nearest < MIN_BAR_WIDTH as u64 {
        MIN_BAR_WIDTH
    } else if nearest > MAX_BAR_WIDTH as u64 {
        MAX_BAR_WIDTH
    } else {
        nearest as u32
    }
}

/// Within its bounds, the bar is never half a pixel or more off two fifths of
/// the window.
pub proof fn law_bar_is_nearest(window_width: int)
    requires
        250 <= window_width <= 2000,
    ensures
        -5 < 10 * bar_width_of(window_width) - 4 * window_width < 5,
{
}

} // verus!
