//! Jumping to a prompt, a command or an error in the history of a pane.
use crate::layout::PaneId;
use crate::window::{App, Effect, Notice};
use vstd::prelude::*;

verus! {

#[derive(Debug, Clone, Copy, PartialEq, Eq, Structural)]
pub enum JumpDirection {
    Prev,
    Next,
}

/// What a part of the history is.
#[derive(Debug, Clone, Copy, PartialEq, Eq, Structural)]
pub enum RegionKind {
    Prompt,
    Command,
    Output,
    Error,
    ToolCall,
    Thinking,
}

impl RegionKind {
    pub open spec fn spelled(self) -> Seq<char> {
        match self {
            RegionKind::Prompt => "Prompt"@,
            RegionKind::Command => "Command"@,
            RegionKind::Output => "Output"@,
            RegionKind::Error => "Error"@,
            RegionKind::ToolCall => "ToolCall"@,
            RegionKind::Thinking => "Thinking"@,
        }
    }

    pub fn name(self) -> (r: String)
        ensures
            r@ == self.spelled(),
    {
        match self {
            RegionKind::Prompt => String::from_str("Prompt"),
            RegionKind::Command => String::from_str("Command"),
            RegionKind::Output => String::from_str("Output"),
            RegionKind::Error => String::from_str("Error"),
            RegionKind::ToolCall => String::from_str("ToolCall"),
            RegionKind::Thinking => String::from_str("Thinking"),
        }
    }
}

/// The kinds that a jump stops at.
pub open spec fn stops(errors_only: bool) -> Seq<RegionKind> {
    if errors_only {
        seq![RegionKind::Error]
    } else {
        seq![
            RegionKind::Prompt,
            RegionKind::Command,
            RegionKind::Output,
            RegionKind::Error,
            RegionKind::ToolCall,
            RegionKind::Thinking,
        ]
    }
}

/// The kinds that a jump stops at.
pub fn jump_kinds(errors_only: bool) -> (r: Vec<RegionKind>)
    ensures
        r@ == stops(errors_only),
{
    let r: Vec<RegionKind> = if errors_only {
        vec![RegionKind::Error]
    } else {
        vec![
            RegionKind::Prompt,
            RegionKind::Command,
            RegionKind::Output,
            RegionKind::Error,
            RegionKind::ToolCall,
            RegionKind::Thinking,
        ]
    };
    assert(r@ =~= stops(errors_only));
    r
}

/// A part of the history.
#[derive(Debug, PartialEq, Eq)]
pub struct Region {
    pub kind: RegionKind,
    /// The line that it starts with, counted from the oldest one.
    pub start_line: usize,
    /// The command that it belongs to.
    pub command: Option<String>,
}

/// What the user is told of a region.
pub open spec fn label_of(region: Region) -> Seq<char> {
    match region.command {
        Some(command) => region.kind.spelled() + ": "@ + command@,
        None => region.kind.spelled(),
    }
}

pub fn label(region: &Region) -> (r: String)
    ensures
        r@ == label_of(*region),
{
    let name = region.kind.name();
    match &region.command {
        Some(command) => name.concat(": ").concat(command.as_str()),
        None => name,
    }
}

/// The view of a pane into its history.
#[derive(Debug, Clone, Copy, PartialEq, Eq, Structural)]
pub struct ScrollView {
    /// How many lines are above the screen.
    pub history: usize,
    /// How many lines the view is scrolled back.
    pub offset: usize,
    pub screen_lines: usize,
}

impl ScrollView {
    /// Lines are counted in 32 bits.
    pub open spec fn wf(self) -> bool {
        self.history <= i32::MAX && self.offset <= i32::MAX
    }

    /// The line at the top of the view.
    pub open spec fn top_line(self) -> int {
        if self.offset < self.history {
            self.history - self.offset
        } else {
            0
        }
    }

    /// How far the view is scrolled back with `line` in its middle, as far as
    /// there are lines.
    pub open spec fn centred(self, line: usize) -> int {
        let half = (self.screen_lines / 2) as int;
        let top = if line < half {
            0
        } else {
            line - half
        };
        if top < self.history {
            self.history - top
        } else {
            0
        }
    }

    pub fn top(&self) -> (r: usize)
        ensures
            r == self.top_line(),
    {
        self.history.saturating_sub(self.offset)
    }

    /// How far to scroll, upwards if positive, to have `line` in the middle.
    pub fn delta_to(&self, line: usize) -> (r: i32)
        requires
            self.wf(),
        ensures
            r == self.centred(line) - self.offset,
    {
        let half: usize = self.screen_lines / 2;
        let desired_top: usize = line.saturating_sub(half);
        let new_offset: usize = self.history.saturating_sub(desired_top);
        new_offset as i32 - self.offset as i32
    }
}

/// After a jump the view holds the line in its upper half and no more lines
/// than there are above it, as far as the history reaches.
pub proof fn law_jump_centres(view: ScrollView, line: usize)
    requires
        line <= view.history + view.screen_lines / 2,
    ensures
        ({
            let jumped = ScrollView { offset: view.centred(line) as usize, ..view };
            &&& jumped.offset <= view.history
            &&& jumped.top_line() <= line
            &&& line - jumped.top_line() <= view.screen_lines / 2
            &&& line >= view.screen_lines / 2 ==> line - jumped.top_line() == view.screen_lines / 2
        }),
{
}

/// A second jump to the same line does not move the view.
pub proof fn law_jump_twice(view: ScrollView, line: usize)
    requires
        view.history <= usize::MAX,
    ensures
        ({
            let jumped = ScrollView { offset: view.centred(line) as usize, ..view };
            jumped.centred(line) - jumped.offset == 0
        }),
{
}

impl App {
    /// What a jump to a region does, if there is one.
    pub open spec fn jumped_from(
        self,
        old: App,
        pane: PaneId,
        view: ScrollView,
        errors_only: bool,
        region: Option<Region>,
    ) -> bool {
        &&& self == (App { effects: self.effects, ..old })
        &&& match region {
            None => self.effects@ == old.effects@.push(
                Effect::Toast(
                    if errors_only {
                        Notice::NoErrorRegion
                    } else {
                        Notice::NoMoreRegion
                    },
                ),
            ),
            Some(region) => {
                let delta = view.centred(region.start_line) - view.offset;
                let scrolled = if delta != 0 {
                    old.effects@.push(Effect::ScrollDisplay { pane, lines: delta as i32 })
                } else {
                    old.effects@
                };
                &&& self.effects@.len() == scrolled.len() + 1
                &&& self.effects@.drop_last() == scrolled
                &&& self.effects@.last() matches Effect::Toast(Notice::Text(t))
                &&& t@ == label_of(region)
            },
        }
    }

    /// Scrolls to a region, or tells that there is none.
    pub fn jump_to(
        &mut self,
        pane: PaneId,
        view: ScrollView,
        errors_only: bool,
        region: Option<Region>,
    )
        requires
            view.wf(),
        ensures
            final(self).jumped_from(*old(self), pane, view, errors_only, region),
    {
        match region {
            None => {
                let notice = if errors_only {
                    Notice::NoErrorRegion
                } else {
                    Notice::NoMoreRegion
                };
                let ghost told = notice;
                self.emit(Effect::Toast(notice));
                assert(self.effects@ =~= old(self).effects@.push(Effect::Toast(told)));
            },
            Some(region) => {
                let delta: i32 = view.delta_to(region.start_line);
                if delta != 0 {
                    self.emit(Effect::ScrollDisplay { pane, lines: delta });
                    assert(self.effects@ =~= old(self).effects@.push(
                        Effect::ScrollDisplay { pane, lines: delta },
                    ));
                }
                let ghost scrolled = self.effects@;
                self.emit(Effect::Toast(Notice::Text(label(&region))));
                assert(self.effects@.drop_last() =~= scrolled);
            },
        }
    }

    /// Scrolls the focused pane to the region before or behind the top of its
    /// view. `view` gives the view of a pane with a terminal, and `region` finds
    /// the next region of one of the kinds from a line on.
    pub fn jump_to_region<V, R>(
        &mut self,
        dir: JumpDirection,
        errors_only: bool,
        view: V,
        region: R,
    ) where
        V: Fn(PaneId) -> Option<ScrollView>,
        R: Fn(JumpDirection, usize, Vec<RegionKind>) -> Option<Region>,

        requires
            forall|p: PaneId| call_requires(view, (p,)),
            forall|p: PaneId, v: Option<ScrollView>|
                call_ensures(view, (p,), v) ==> (v matches Some(v) ==> v.wf()),
            forall|d: JumpDirection, top: usize, kinds: Vec<RegionKind>|
                call_requires(region, (d, top, kinds)),
        ensures
            match old(self).focus() {
                Some(pane) if old(self).shows(pane) => exists|v: Option<ScrollView>| #[trigger]
                    call_ensures(view, (pane,), v) && match v {
                        Some(v) => exists|top: usize, kinds: Vec<RegionKind>, found: Option<Region>|
                            {
                                &&& #[trigger] call_ensures(region, (dir, top, kinds), found)
                                &&& top == v.top_line()
                                &&& kinds@ == stops(errors_only)
                                &&& final(self).jumped_from(
                                    *old(self),
                                    pane,
                                    v,
                                    errors_only,
                                    found,
                                )
                            },
                        None => *final(self) == *old(self),
                    },
                _ => *final(self) == *old(self),
            },
    {
        let pane: PaneId = match self.focused_pane() {
            Some(id) => id,
            None => {
                return;
            },
        };
        if !self.is_shown(pane) {
            return;
        }
        match view(pane) {
            Some(v) => {
                let top: usize = v.top();
                let kinds = jump_kinds(errors_only);
                let found = region(dir, top, kinds);
                self.jump_to(pane, v, errors_only, found);
            },
            None => {},
        }
    }
}

} // verus!
