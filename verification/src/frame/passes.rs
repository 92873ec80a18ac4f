//! The passes of a frame, from the background to the widgets.
use crate::window::{App, Effect};
use vstd::prelude::*;

verus! {

/// A dialog over the window.
#[derive(Debug, Clone, Copy, PartialEq, Eq, Structural)]
pub enum OverlayMode {
    Help,
    Settings,
    TrustEscalation,
}

/// What became of the surface to draw on.
#[derive(Debug, Clone, Copy, PartialEq, Eq, Structural)]
pub enum Surface {
    Ready,
    /// It was lost or is out of date, and has to be configured anew.
    Stale,
    /// There is no memory for it, or it failed otherwise.
    Failed,
}

/// A pass of a frame. Later ones are drawn over earlier ones.
#[derive(Debug, Clone, Copy, PartialEq, Eq, Structural)]
pub enum Pass {
    /// The background.
    Clear,
    /// The panes, with borders around the focused one or without.
    Panes { show_focus: bool },
    StatusBar,
    TabBar,
    /// The buttons of the window.
    FrameButtons,
    Overlay(OverlayMode),
    ContextMenu,
    /// A flash that has `left` of its `duration` left, in milliseconds.
    VisualBell { left: u64, duration: u64 },
    Toast,
    Widgets,
}

/// What a frame needs to know besides the window.
#[derive(Debug, Clone, Copy, PartialEq, Eq, Structural)]
pub struct FrameState {
    pub has_gpu: bool,
    pub surface: Surface,
    pub show_status_bar: bool,
    pub overlay_mode: Option<OverlayMode>,
    /// Whether there is a question of trust to show.
    pub trust_escalation: bool,
    pub menu_open: bool,
    /// When the bell last rang, in milliseconds.
    pub visual_bell_start: Option<u64>,
    pub visual_bell_duration_ms: u64,
    /// The toast on the screen, and whether its time is over.
    pub toast_expired: Option<bool>,
    /// Whether delegates are shown.
    pub delegates_visible: bool,
    /// The time in milliseconds.
    pub now: u64,
}

/// What is to be done for a frame.
#[derive(Debug, PartialEq, Eq)]
pub enum FramePlan {
    /// Nothing.
    Skip,
    /// Configure the surface anew; the next frame draws on it.
    Reconfigure,
    Draw(Vec<Pass>),
}

impl FrameState {
    pub open spec fn bell_left(&self) -> int {
        match self.visual_bell_start {
            Some(start) => if self.now < start {
                self.visual_bell_duration_ms as int
            } else if self.now - start >= self.visual_bell_duration_ms {
                0
            } else {
                self.visual_bell_duration_ms - (self.now - start)
            },
            None => 0,
        }
    }

    pub open spec fn toast_active(&self) -> bool {
        self.toast_expired == Some(false)
    }

    fn bell(&self) -> (r: u64)
        ensures
            r == self.bell_left(),
    {
        match self.visual_bell_start {
            Some(start) => {
                let elapsed: u64 = if self.now < start {
                    0
                } else {
                    self.now - start
                };
                if elapsed >= self.visual_bell_duration_ms {
                    0
                } else {
                    self.visual_bell_duration_ms - elapsed
                }
            },
            None => 0,
        }
    }

    /// The state once a frame was drawn: a bell that has faded and a toast whose
    /// time is over are forgotten.
    pub open spec fn drawn(self) -> FrameState {
        FrameState {
            visual_bell_start: if self.bell_left() > 0 {
                self.visual_bell_start
            } else {
                None
            },
            toast_expired: if self.toast_active() {
                self.toast_expired
            } else {
                None
            },
            ..self
        }
    }
}

/// A pass that is drawn under a condition.
pub open spec fn pass_if(on: bool, pass: Pass) -> Seq<Pass> {
    if on {
        seq![pass]
    } else {
        seq![]
    }
}

fn push_if(passes: &mut Vec<Pass>, on: bool, pass: Pass)
    ensures
        final(passes)@ == old(passes)@ + pass_if(on, pass),
{
    if on {
        passes.push(pass);
    }
    assert(passes@ =~= old(passes)@ + pass_if(on, pass));
}

impl App {
    /// Whether the bar with the tabs is drawn.
    pub open spec fn tabs_drawn(&self) -> bool {
        self.shown_workspaces().0.len() > 1 || self.screen.use_csd
    }

    /// The dialog that is drawn. A question of trust needs one to be there.
    pub open spec fn overlay_drawn(frame: FrameState) -> Seq<Pass> {
        match frame.overlay_mode {
            Some(OverlayMode::TrustEscalation) => pass_if(
                frame.trust_escalation,
                Pass::Overlay(OverlayMode::TrustEscalation),
            ),
            Some(mode) => seq![Pass::Overlay(mode)],
            None => seq![],
        }
    }

    /// The passes of a frame.
    pub open spec fn passes(&self, frame: FrameState) -> Seq<Pass> {
        seq![
            Pass::Clear,
            Pass::Panes { show_focus: self.workspaces->0.layout.panes().len() > 1 },
        ] + pass_if(frame.show_status_bar, Pass::StatusBar) + pass_if(
            self.tabs_drawn(),
            Pass::TabBar,
        ) + pass_if(self.screen.use_csd, Pass::FrameButtons) + App::overlay_drawn(frame) + pass_if(
            frame.menu_open,
            Pass::ContextMenu,
        ) + pass_if(
            frame.bell_left() > 0,
            Pass::VisualBell {
                left: frame.bell_left() as u64,
                duration: frame.visual_bell_duration_ms,
            },
        ) + pass_if(frame.toast_active(), Pass::Toast) + seq![Pass::Widgets]
    }

    /// Whether there is something to draw a frame of, and with.
    pub open spec fn can_draw(&self, frame: FrameState) -> bool {
        frame.has_gpu && self.has_renderer && self.workspaces is Some
    }

    /// Whether there is something to draw a frame of, and with.
    pub fn is_drawable(&self, frame: &FrameState) -> (r: bool)
        ensures
            r == self.can_draw(*frame),
    {
        frame.has_gpu && self.has_renderer && self.workspaces.is_some()
    }

    /// The redraws that follow a frame: while the bell fades, while a toast is
    /// shown, and while delegates are.
    pub open spec fn frame_effects(&self, frame: FrameState) -> Seq<Effect> {
        (if frame.bell_left() > 0 {
            self.redraw_effects()
        } else {
            seq![]
        }) + (if frame.toast_active() {
            self.redraw_effects()
        } else {
            seq![]
        }) + (if frame.delegates_visible {
            self.redraw_effects()
        } else {
            seq![]
        })
    }

    fn list_passes(&self, frame: &FrameState) -> (r: Vec<Pass>)
        requires
            self.workspaces is Some,
        ensures
            r@ == self.passes(*frame),
    {
        let show_focus = match &self.workspaces {
            Some(w) => w.layout.pane_count() > 1,
            None => false,
        };
        let many = match &self.workspaces {
            Some(w) => w.ids.len() > 1,
            None => false,
        };
        let mut passes: Vec<Pass> = Vec::new();
        passes.push(Pass::Clear);
        passes.push(Pass::Panes { show_focus });
        let ghost base = seq![
            Pass::Clear,
            Pass::Panes { show_focus: self.workspaces->0.layout.panes().len() > 1 },
        ];
        assert(passes@ =~= base);
        push_if(&mut passes, frame.show_status_bar, Pass::StatusBar);
        push_if(&mut passes, many || self.screen.use_csd, Pass::TabBar);
        push_if(&mut passes, self.screen.use_csd, Pass::FrameButtons);
        let ghost before = passes@;
        match frame.overlay_mode {
            Some(OverlayMode::TrustEscalation) => push_if(
                &mut passes,
                frame.trust_escalation,
                Pass::Overlay(OverlayMode::TrustEscalation),
            ),
            Some(mode) => passes.push(Pass::Overlay(mode)),
            None => {},
        }
        assert(passes@ =~= before + App::overlay_drawn(*frame));
        push_if(&mut passes, frame.menu_open, Pass::ContextMenu);
        let left: u64 = frame.bell();
        push_if(
            &mut passes,
            left > 0,
            Pass::VisualBell { left, duration: frame.visual_bell_duration_ms },
        );
        push_if(&mut passes, frame.toast_expired == Some(false), Pass::Toast);
        passes.push(Pass::Widgets);
        assert(passes@ =~= self.passes(*frame));
        passes
    }

    fn redraw_if(&mut self, on: bool)
        ensures
            final(self).only_added(
                *old(self),
                if on {
                    old(self).redraw_effects()
                } else {
                    seq![]
                },
            ),
    {
        if on {
            self.redraw();
        } else {
            assert(self.effects@ =~= old(self).effects@ + Seq::<Effect>::empty());
        }
    }

    /// Plans a frame, and what follows it once it is drawn. Without something to
    /// draw on, nothing follows.
    pub fn render(&mut self, frame: &mut FrameState) -> (r: FramePlan)
        ensures
            if !old(self).can_draw(*old(frame)) || old(frame).surface == Surface::Failed {
                r == FramePlan::Skip && *final(self) == *old(self) && *final(frame) == *old(frame)
            } else if old(frame).surface == Surface::Stale {
                r == FramePlan::Reconfigure && *final(self) == *old(self) && *final(frame) == *old(
                    frame,
                )
            } else {
                &&& r matches FramePlan::Draw(passes) && passes@ == old(self).passes(*old(frame))
                &&& *final(frame) == old(frame).drawn()
                &&& final(self).only_added(*old(self), old(self).frame_effects(*old(frame)))
            },
    {
        if !self.is_drawable(frame) {
            return FramePlan::Skip;
        }
        match frame.surface {
            Surface::Ready => {},
            Surface::Stale => {
                return FramePlan::Reconfigure;
            },
            Surface::Failed => {
                return FramePlan::Skip;
            },
        }
        let passes = self.list_passes(frame);
        let bell = frame.bell() > 0;
        let toast = frame.toast_expired == Some(false);
        self.redraw_if(bell);
        self.redraw_if(toast);
        self.redraw_if(frame.delegates_visible);
        assert(self.effects@ =~= old(self).effects@ + old(self).frame_effects(*old(frame)));
        if !bell {
            frame.visual_bell_start = None;
        }
        if !toast {
            frame.toast_expired = None;
        }
        FramePlan::Draw(passes)
    }
}

/// A frame forgets the bell and the toast once their time is over, and the next
/// one does not show them.
pub proof fn law_expired_are_forgotten(frame: FrameState)
    ensures
        frame.bell_left() == 0 ==> frame.drawn().visual_bell_start is None,
        frame.toast_expired == Some(true) ==> frame.drawn().toast_expired is None,
        frame.drawn().bell_left() == frame.bell_left(),
        frame.drawn().toast_active() == frame.toast_active(),
        frame.drawn().drawn() == frame.drawn(),
{
}

} // verus!
