//! Zoom: one pane alone on the screen, and back.
use super::{App, Effect, Workspaces};
use crate::layout;
use crate::layout::{LayoutNode, PaneId};
use vstd::prelude::*;

verus! {

/// The workspaces and the tree kept aside, after zoom was toggled.
pub struct Zoomed {
    pub workspaces: Option<Workspaces>,
    pub saved: Option<LayoutNode>,
    /// Whether anything changed.
    pub changed: bool,
}

/// Back from zoom: the pane on the screen goes to the empty place of the tree
/// that was kept aside. Without a single pane on the screen nothing changes.
pub open spec fn unzoomed(w: Option<Workspaces>, saved: LayoutNode) -> Zoomed {
    match w {
        Some(ws) => match ws.layout {
            LayoutNode::Leaf(pane) => Zoomed {
                workspaces: Some(
                    Workspaces {
                        layout: if saved.has_hole() {
                            saved.filled(pane)
                        } else {
                            saved
                        },
                        focused: Some(pane.id),
                        ..ws
                    },
                ),
                saved: None,
                changed: true,
            },
            _ => Zoomed { workspaces: w, saved: Some(saved), changed: false },
        },
        None => Zoomed { workspaces: w, saved: Some(saved), changed: false },
    }
}

/// Into zoom: the focused pane leaves the tree, which is kept aside, and is
/// alone on the screen. A single pane stays as it is.
pub open spec fn zoomed_in(w: Option<Workspaces>) -> Zoomed {
    match w {
        Some(ws) => if ws.focused is Some && ws.layout.panes().len() > 1 && ws.layout.has(
            ws.focused->0,
        ) {
            let focused = ws.focused->0;
            Zoomed {
                workspaces: Some(
                    Workspaces {
                        layout: LayoutNode::Leaf(ws.layout.pane(focused)->0),
                        focused: Some(focused),
                        ..ws
                    },
                ),
                saved: Some(ws.layout.replaced(focused, LayoutNode::Empty)),
                changed: true,
            }
        } else {
            Zoomed { workspaces: w, saved: None, changed: false }
        },
        None => Zoomed { workspaces: w, saved: None, changed: false },
    }
}

/// Zoom toggled.
pub open spec fn toggled(w: Option<Workspaces>, saved: Option<LayoutNode>) -> Zoomed {
    match saved {
        Some(tree) => unzoomed(w, tree),
        None => zoomed_in(w),
    }
}

/// Zooming in and back restores the workspace: its tree, its focus and
/// everything else.
pub proof fn law_zoom_round_trip(w: Option<Workspaces>)
    requires
        w matches Some(ws) ==> !ws.layout.has_hole(),
    ensures
        zoomed_in(w).changed ==> {
            let back = toggled(zoomed_in(w).workspaces, zoomed_in(w).saved);
            &&& back.changed
            &&& back.workspaces == w
            &&& back.saved is None
        },
        !zoomed_in(w).changed ==> zoomed_in(w).workspaces == w,
{
    if zoomed_in(w).changed {
        let ws = w->0;
        layout::law_extract_then_insert(ws.layout, ws.focused->0);
        layout::lemma_has_pane(ws.layout, ws.focused->0);
    }
}

/// Puts the single pane on the screen back into `tree` and shows that; gives
/// the tree back where there is no single pane.
fn show_tree(w: &mut Workspaces, tree: LayoutNode) -> (r: (Option<LayoutNode>, bool))
    ensures
        ({
            let z = unzoomed(Some(*old(w)), tree);
            Some(*final(w)) == z.workspaces && r == (z.saved, z.changed)
        }),
{
    let mut tree = tree;
    let mut on_screen = LayoutNode::Empty;
    core::mem::swap(&mut on_screen, &mut w.layout);
    match on_screen {
        LayoutNode::Leaf(pane) => {
            let pane_id: PaneId = pane.id;
            let _ = tree.insert_pane_at_empty(pane);
            w.layout = tree;
            w.focused = Some(pane_id);
            (None, true)
        },
        other => {
            w.layout = other;
            (Some(tree), false)
        },
    }
}

/// Shows the focused pane alone; gives the tree that it was taken out of, or
/// nothing where it stays.
fn show_focused(w: &mut Workspaces) -> (r: Option<LayoutNode>)
    ensures
        ({
            let z = zoomed_in(Some(*old(w)));
            Some(*final(w)) == z.workspaces && r == z.saved && (r is Some <==> z.changed)
        }),
{
    let focused: PaneId = match w.focused {
        Some(id) => id,
        None => {
            return None;
        },
    };
    if w.layout.pane_count() <= 1 || !w.layout.contains(focused) {
        return None;
    }
    proof {
        layout::lemma_has_pane(w.layout, focused);
    }
    match w.layout.extract_pane(focused) {
        Some(pane) => {
            let mut tree = LayoutNode::Leaf(pane);
            core::mem::swap(&mut tree, &mut w.layout);
            Some(tree)
        },
        None => None,
    }
}

fn toggle(workspaces: Option<Workspaces>, saved: Option<LayoutNode>) -> (r: (
    Option<Workspaces>,
    Option<LayoutNode>,
    bool,
))
    ensures
        ({
            let z = toggled(workspaces, saved);
            r == (z.workspaces, z.saved, z.changed)
        }),
{
    match workspaces {
        Some(w) => {
            let mut w = w;
            match saved {
                Some(tree) => {
                    let (kept, changed) = show_tree(&mut w, tree);
                    (Some(w), kept, changed)
                },
                None => {
                    let kept = show_focused(&mut w);
                    let changed = kept.is_some();
                    (Some(w), kept, changed)
                },
            }
        },
        None => (None, saved, false),
    }
}

impl App {
    /// Zoom toggled, or left where nothing is zoomed.
    pub open spec fn after_unzoom(&self) -> Zoomed {
        match self.zoomed_layout {
            Some(tree) => unzoomed(self.workspaces, tree),
            None => Zoomed {
                workspaces: self.workspaces,
                saved: None,
                changed: false,
            },
        }
    }

    pub open spec fn relayout_if(changed: bool) -> Seq<Effect> {
        if changed {
            seq![Effect::RelayoutAndRedraw]
        } else {
            seq![]
        }
    }

    /// Toggles zoom on the focused pane.
    pub fn zoom_toggle_focused_pane(&mut self)
        ensures
            ({
                let z = toggled(old(self).workspaces, old(self).zoomed_layout);
                &&& *final(self) == (App {
                    workspaces: z.workspaces,
                    zoomed_layout: z.saved,
                    effects: final(self).effects,
                    ..*old(self)
                })
                &&& final(self).effects@ == old(self).effects@ + App::relayout_if(z.changed)
            }),
    {
        assert(old(self).effects@ + Seq::<Effect>::empty() =~= old(self).effects@);
        let mut saved: Option<LayoutNode> = None;
        core::mem::swap(&mut saved, &mut self.zoomed_layout);
        let mut workspaces: Option<Workspaces> = None;
        core::mem::swap(&mut workspaces, &mut self.workspaces);
        let (workspaces, saved, changed) = toggle(workspaces, saved);
        self.workspaces = workspaces;
        self.zoomed_layout = saved;
        if changed {
            self.emit(Effect::RelayoutAndRedraw);
        }
    }

    /// The window with zoom left, if a pane is zoomed.
    pub open spec fn unzoomed_app(self) -> App {
        let z = self.after_unzoom();
        App { workspaces: z.workspaces, zoomed_layout: z.saved, ..self }
    }

    /// Leaves zoom, if a pane is zoomed, and leaves it to the caller to have the
    /// panes laid out.
    pub(crate) fn leave_zoom_quietly(&mut self)
        ensures
            *final(self) == old(self).unzoomed_app(),
    {
        if self.zoomed_layout.is_some() {
            let mut saved: Option<LayoutNode> = None;
            core::mem::swap(&mut saved, &mut self.zoomed_layout);
            let mut workspaces: Option<Workspaces> = None;
            core::mem::swap(&mut workspaces, &mut self.workspaces);
            let (workspaces, saved, _) = toggle(workspaces, saved);
            self.workspaces = workspaces;
            self.zoomed_layout = saved;
        }
    }

    /// Leaves zoom, if a pane is zoomed.
    pub(crate) fn leave_zoom(&mut self)
        ensures
            ({
                let z = old(self).after_unzoom();
                &&& *final(self) == (App {
                    workspaces: z.workspaces,
                    zoomed_layout: z.saved,
                    effects: final(self).effects,
                    ..*old(self)
                })
                &&& final(self).effects@ == old(self).effects@ + App::relayout_if(z.changed)
            }),
    {
        if self.zoomed_layout.is_some() {
            self.zoom_toggle_focused_pane();
        } else {
            assert(old(self).effects@ + Seq::<Effect>::empty() =~= old(self).effects@);
        }
    }
}

} // verus!
