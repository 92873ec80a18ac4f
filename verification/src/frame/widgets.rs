//! The widgets that are drawn over everything else.
use super::timeline;
use super::timeline::AgentStatus;
use crate::window::App;
use vstd::prelude::*;

verus! {

/// Where the bar with an agent's activity is.
#[derive(Debug, Clone, Copy, PartialEq, Eq, Structural)]
pub enum TimelinePosition {
    TopRight,
    BottomRight,
    BottomCenter,
}

/// The bar with an agent's activity.
#[derive(Debug, Clone, Copy, PartialEq, Eq, Structural)]
pub struct TimelineView {
    pub visible: bool,
    /// Whether nothing happened yet.
    pub empty: bool,
    /// The height in pixels.
    pub height: u32,
    pub position: TimelinePosition,
}

/// The size of a widget in pixels.
#[derive(Debug, Clone, Copy, PartialEq, Eq, Structural)]
pub struct WidgetSize {
    pub width: u32,
    pub height: u32,
}

/// A place in the window, in half pixels from the upper left corner.
#[derive(Debug, Clone, Copy, PartialEq, Eq, Structural)]
pub struct Place {
    pub x: i64,
    pub y: i64,
}

/// The place that a pattern gives a widget, to whole pixels.
#[derive(Debug, Clone, Copy, PartialEq, Eq, Structural)]
pub struct PatternPlace {
    /// Rounded down.
    pub left: i64,
    /// Rounded down.
    pub top: i64,
    /// The upper edge rounded up.
    pub top_up: i64,
    pub height: u32,
}

/// What the widgets of a frame need to know besides the window.
#[derive(Debug, PartialEq, Eq)]
pub struct WidgetFrame {
    pub has_gpu: bool,
    pub has_widget_renderer: bool,
    /// The size of the window in pixels.
    pub width: u32,
    pub height: u32,
    /// The height of the bar with the tabs in pixels.
    pub tab_bar_height: u32,
    pub show_status_bar: bool,
    /// What the agent in the focused pane is doing.
    pub status: Option<AgentStatus>,
    /// The size of the badge of that agent.
    pub badge: Option<WidgetSize>,
    pub timeline: TimelineView,
    /// The places of the widgets that patterns ask for.
    pub patterns: Vec<PatternPlace>,
}

/// The bar with an agent's activity in its place.
#[derive(Debug, Clone, Copy, PartialEq, Eq, Structural)]
pub struct PlacedBar {
    pub place: Place,
    /// The width in pixels.
    pub width: u32,
}

/// The widgets of a frame.
#[derive(Debug, PartialEq, Eq)]
pub struct WidgetPlan {
    /// The activity to add to the bar.
    pub activity: Option<String>,
    pub badge: Option<Place>,
    pub timeline: Option<PlacedBar>,
    /// The numbers of the pattern widgets to draw.
    pub patterns: Vec<usize>,
}

/// How far widgets stay away from the edges, in pixels.
pub const INSET: u32 = 12;

/// How far the badge stays below the bar with the tabs, in pixels.
pub const BADGE_DROP: u32 = 8;

/// The height of the status bar in pixels.
pub const STATUS_BAR_HEIGHT: u32 = 24;

impl WidgetFrame {
    /// The badge is in the upper right corner, if it fits.
    pub open spec fn badge_place(&self) -> Option<Place> {
        match self.badge {
            Some(size) => {
                let x = self.width - size.width - INSET;
                let y = self.tab_bar_height + BADGE_DROP;
                if x >= 0 && y + size.height <= self.height {
                    Some(Place { x: (2 * x) as i64, y: (2 * y) as i64 })
                } else {
                    None
                }
            },
            None => None,
        }
    }

    /// The place of the bar, in half pixels.
    pub open spec fn bar_place(&self) -> (int, int) {
        let free = self.width - timeline::bar_width_of(self.width as int);
        let status = if self.show_status_bar {
            STATUS_BAR_HEIGHT as int
        } else {
            0
        };
        let low = self.height - self.timeline.height - status - INSET;
        match self.timeline.position {
            TimelinePosition::TopRight => (2 * (free - INSET), 2 * (self.tab_bar_height + INSET)),
            TimelinePosition::BottomRight => (2 * (free - INSET), 2 * low),
            TimelinePosition::BottomCenter => (free, 2 * low),
        }
    }

    /// The bar, if it is shown, holds something and fits.
    pub open spec fn placed_bar(&self) -> Option<PlacedBar> {
        let (x, y) = self.bar_place();
        if self.timeline.visible && !self.timeline.empty && x >= 0 && y >= 0 && y + 2
            * self.timeline.height <= 2 * self.height {
            Some(
                PlacedBar {
                    place: Place { x: x as i64, y: y as i64 },
                    width: timeline::bar_width_of(self.width as int) as u32,
                },
            )
        } else {
            None
        }
    }

    /// Whether a widget lies within the window.
    pub open spec fn fits(&self, place: PatternPlace) -> bool {
        place.left >= 0 && place.top >= 0 && place.top_up + place.height <= self.height
    }

    fn place_badge(&self) -> (r: Option<Place>)
        ensures
            r == self.badge_place(),
    {
        match self.badge {
            Some(size) => {
                let x: i64 = self.width as i64 - size.width as i64 - INSET as i64;
                let y: i64 = self.tab_bar_height as i64 + BADGE_DROP as i64;
                if x >= 0 && y + size.height as i64 <= self.height as i64 {
                    Some(Place { x: 2 * x, y: 2 * y })
                } else {
                    None
                }
            },
            None => None,
        }
    }

    fn place_bar(&self) -> (r: Option<PlacedBar>)
        ensures
            r == self.placed_bar(),
    {
        if !self.timeline.visible || self.timeline.empty {
            return None;
        }
        let width: u32 = timeline::bar_width(self.width);
        let free: i64 = self.width as i64 - width as i64;
        let status: i64 = if self.show_status_bar {
            STATUS_BAR_HEIGHT as i64
        } else {
            0
        };
        let low: i64 = self.height as i64 - self.timeline.height as i64 - status - INSET as i64;
        let x: i64 = match self.timeline.position {
            TimelinePosition::BottomCenter => free,
            _ => 2 * (free - INSET as i64),
        };
        let y: i64 = match self.timeline.position {
            TimelinePosition::TopRight => 2 * (self.tab_bar_height as i64 + INSET as i64),
            _ => 2 * low,
        };
        if x >= 0 && y >= 0 && y + 2 * self.timeline.height as i64 <= 2 * self.height as i64 {
            Some(PlacedBar { place: Place { x, y }, width })
        } else {
            None
        }
    }

    /// The numbers of the pattern widgets, among the first `n`, that fit.
    pub open spec fn fitting(&self, n: int) -> Seq<usize>
        decreases n,
    {
        if n <= 0 {
            seq![]
        } else {
            let rest = self.fitting(n - 1);
            if self.fits(self.patterns@[n - 1]) {
                rest.push((n - 1) as usize)
            } else {
                rest
            }
        }
    }

    fn place_patterns(&self) -> (r: Vec<usize>)
        ensures
            r@ == self.fitting(self.patterns@.len() as int),
    {
        let mut out: Vec<usize> = Vec::new();
        let mut i: usize = 0;
        while i < self.patterns.len()
            invariant
                i <= self.patterns@.len(),
                out@ == self.fitting(i as int),
            decreases self.patterns@.len() - i,
        {
            let p = self.patterns[i];
            if p.left >= 0 && p.top >= 0 && p.top_up as i128 + p.height as i128
                <= self.height as i128 {
                out.push(i);
            }
            i += 1;
        }
        out
    }
}

impl App {
    /// The widgets of a frame; none where nothing can be drawn.
    pub fn draw_widget_overlays(&self, frame: &WidgetFrame) -> (r: Option<WidgetPlan>)
        ensures
            r is Some <==> frame.has_gpu && frame.has_widget_renderer && self.has_renderer,
            r matches Some(plan) ==> {
                &&& match frame.status {
                    Some(s) if frame.timeline.visible => plan.activity matches Some(name) && name@
                        == timeline::activity(s),
                    _ => plan.activity is None,
                }
                &&& plan.badge == frame.badge_place()
                &&& plan.timeline == frame.placed_bar()
                &&& plan.patterns@ == frame.fitting(frame.patterns@.len() as int)
            },
    {
        if !frame.has_gpu || !frame.has_widget_renderer || !self.has_renderer {
            return None;
        }
        let status = match &frame.status {
            Some(s) => Some(s),
            None => None,
        };
        let activity = timeline::timeline_activity(frame.timeline.visible, status);
        Some(
            WidgetPlan {
                activity,
                badge: frame.place_badge(),
                timeline: frame.place_bar(),
                patterns: frame.place_patterns(),
            },
        )
    }
}

/// A widget that is drawn lies within the window, whatever its place was to be.
pub proof fn law_widgets_fit(frame: WidgetFrame, n: int, k: int)
    requires
        0 <= n <= frame.patterns@.len(),
        frame.patterns@.len() <= usize::MAX,
        0 <= k < frame.fitting(n).len(),
    ensures
        frame.fitting(n)[k] < n,
        frame.fits(frame.patterns@[frame.fitting(n)[k] as int]),
    decreases n,
{
    if n > 0 {
        let rest = frame.fitting(n - 1);
        if k < rest.len() {
            law_widgets_fit(frame, n - 1, k);
            assert(frame.fitting(n)[k] == rest[k]);
        }
    }
}

/// The badge and the bar, where they are drawn, lie within the window.
pub proof fn law_placed_widgets_fit(frame: WidgetFrame)
    ensures
        frame.badge_place() matches Some(p) ==> {
            &&& 0 <= p.x && p.x + 2 * frame.badge->0.width <= 2 * frame.width
            &&& 0 <= p.y && p.y + 2 * frame.badge->0.height <= 2 * frame.height
        },
        frame.placed_bar() matches Some(b) ==> {
            &&& 0 <= b.place.x && b.place.x + 2 * b.width <= 2 * frame.width
            &&& 0 <= b.place.y && b.place.y + 2 * frame.timeline.height <= 2 * frame.height
        },
{
}

} // verus!
