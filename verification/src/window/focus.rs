//! Moving the focus, swapping panes, ratios and pins.
use super::{App, Effect, Notice, Workspaces};
use crate::ipc::{IpcRequest, IpcResponse, Reply};
use crate::layout;
use crate::layout::{LayoutNode, PaneId, PaneState};
use crate::layout_ops;
use crate::layout_ops::FocusDirection;
use vstd::prelude::*;

verus! {

/// What is needed next to swap two panes.
#[derive(Debug, PartialEq, Eq)]
pub enum SwapStep {
    Done,
    /// The daemon is to swap them first.
    Ask { a: PaneId, b: PaneId, request: IpcRequest },
}

/// The answer to the request to swap two panes allows to swap them.
pub open spec fn swap_allowed(reply: Reply) -> bool {
    reply matches Reply::Ok(r) && r is PaneSwapped
}

/// What the user is told when two panes could not be swapped.
pub open spec fn swap_effects(reply: Reply) -> Seq<Effect> {
    match reply {
        Reply::Ok(IpcResponse::Error { message }) => seq![
            Effect::Toast(Notice::SwapFailed(message)),
        ],
        Reply::Ok(_) => seq![],
        Reply::Err(_) => seq![Effect::Toast(Notice::DaemonSwapFailed)],
    }
}

impl App {
    /// The request by which the daemon swaps what `a` and `b` show.
    pub open spec fn swap_request(&self, a: PaneId, b: PaneId) -> Option<IpcRequest> {
        match (self.pane_id_map.daemon(a), self.pane_id_map.daemon(b)) {
            (Some(x), Some(y)) => Some(IpcRequest::SwapPane { a: x, b: y }),
            _ => None,
        }
    }

    /// The workspaces with `a` and `b` swapped, if the screen shows both.
    pub open spec fn swapped_workspaces(w: Option<Workspaces>, a: PaneId, b: PaneId) -> Option<
        Workspaces,
    > {
        match w {
            Some(ws) => if ws.layout.has(a) && ws.layout.has(b) {
                Some(
                    Workspaces {
                        layout: ws.layout.swapped(ws.layout.pane(a)->0, ws.layout.pane(b)->0),
                        ..ws
                    },
                )
            } else {
                w
            },
            None => None,
        }
    }

    /// The effects of swapping `a` and `b`, if the screen shows both.
    pub open spec fn swapped_effects(w: Option<Workspaces>, a: PaneId, b: PaneId) -> Seq<Effect> {
        match w {
            Some(ws) => if ws.layout.has(a) && ws.layout.has(b) {
                seq![Effect::RequestRedraw, Effect::PublishWorkspaceState]
            } else {
                seq![]
            },
            None => seq![],
        }
    }

    /// The pane before or behind the focused one.
    pub open spec fn focus_neighbour(&self, direction: FocusDirection) -> Option<PaneId> {
        match self.workspaces {
            Some(w) => match w.focused {
                Some(id) => layout_ops::neighbour(w.layout.ids(), id, direction),
                None => None,
            },
            None => None,
        }
    }

    fn neighbour_of_focus(&self, direction: FocusDirection) -> (r: Option<PaneId>)
        ensures
            r == self.focus_neighbour(direction),
    {
        match &self.workspaces {
            Some(w) => match w.focused {
                Some(id) => w.layout.adjacent_pane(id, direction),
                None => None,
            },
            None => None,
        }
    }

    /// Moves the focus to the next or previous pane, around the ends.
    pub fn move_focus(&mut self, direction: FocusDirection)
        requires
            old(self).wf(),
        ensures
            final(self).wf(),
            match old(self).focus_neighbour(direction) {
                Some(id) => {
                    &&& *final(self) == (App {
                        workspaces: App::with_focus(old(self).workspaces, Some(id)),
                        effects: final(self).effects,
                        ..*old(self)
                    })
                    &&& final(self).effects@ == old(self).effects@ + old(self).select_effects(
                        Some(id),
                    ).push(Effect::RequestRedraw)
                },
                None => *final(self) == *old(self),
            },
    {
        if let Some(id) = self.neighbour_of_focus(direction) {
            self.set_focused_pane(Some(id));
            self.emit(Effect::RequestRedraw);
            assert(self.effects@ =~= old(self).effects@ + old(self).select_effects(Some(id)).push(
                Effect::RequestRedraw,
            ));
        }
    }

    /// Moves the focus to `nearest`, the pane that lies closest in some
    /// direction, if there is one.
    pub fn move_focus_spatial(&mut self, nearest: Option<PaneId>)
        requires
            old(self).wf(),
        ensures
            final(self).wf(),
            match nearest {
                Some(id) if old(self).focus() is Some => {
                    &&& *final(self) == (App {
                        workspaces: App::with_focus(old(self).workspaces, Some(id)),
                        effects: final(self).effects,
                        ..*old(self)
                    })
                    &&& final(self).effects@ == old(self).effects@ + old(self).select_effects(
                        Some(id),
                    ).push(Effect::RequestRedraw)
                },
                _ => *final(self) == *old(self),
            },
    {
        if self.focused_pane().is_none() {
            return;
        }
        if let Some(id) = nearest {
            self.set_focused_pane(Some(id));
            self.emit(Effect::RequestRedraw);
            assert(self.effects@ =~= old(self).effects@ + old(self).select_effects(Some(id)).push(
                Effect::RequestRedraw,
            ));
        }
    }

    /// The request by which the daemon swaps two panes; none if one of them is
    /// known to the window alone.
    pub fn swap_pane_remote(&self, a_local: PaneId, b_local: PaneId) -> (r: Option<IpcRequest>)
        requires
            self.wf(),
        ensures
            r == self.swap_request(a_local, b_local),
    {
        let a = match self.pane_id_map.daemon_for_local(a_local) {
            Some(d) => d,
            None => {
                return None;
            },
        };
        let b = match self.pane_id_map.daemon_for_local(b_local) {
            Some(d) => d,
            None => {
                return None;
            },
        };
        Some(IpcRequest::SwapPane { a, b })
    }

    /// Takes the answer to the request to swap two panes; says whether the
    /// window may swap them.
    pub fn swap_pane_answered(&mut self, reply: Reply) -> (r: bool)
        ensures
            r == swap_allowed(reply),
            final(self).only_added(*old(self), swap_effects(reply)),
    {
        assert(old(self).effects@ + Seq::<Effect>::empty() =~= old(self).effects@);
        match reply {
            Ok(IpcResponse::PaneSwapped) => true,
            Ok(IpcResponse::Error { message }) => {
                self.emit(Effect::Toast(Notice::SwapFailed(message)));
                false
            },
            Ok(_) => false,
            Err(_) => {
                self.emit(Effect::Toast(Notice::DaemonSwapFailed));
                false
            },
        }
    }

    /// Swaps `a` and `b` on the screen. The focus stays on its pane, wherever
    /// that went.
    fn swap_on_screen(&mut self, a: PaneId, b: PaneId)
        ensures
            *final(self) == (App {
                workspaces: App::swapped_workspaces(old(self).workspaces, a, b),
                effects: final(self).effects,
                ..*old(self)
            }),
            final(self).effects@ == old(self).effects@ + App::swapped_effects(
                old(self).workspaces,
                a,
                b,
            ),
    {
        assert(old(self).effects@ + Seq::<Effect>::empty() =~= old(self).effects@);
        if let Some(w) = &mut self.workspaces {
            if w.layout.swap_pane(a, b) {
                self.emit(Effect::RequestRedraw);
                self.emit(Effect::PublishWorkspaceState);
                assert(self.effects@ =~= old(self).effects@ + seq![
                    Effect::RequestRedraw,
                    Effect::PublishWorkspaceState,
                ]);
            }
        }
    }

    /// Starts to swap the focused pane with the next or previous one.
    pub fn swap_focused_pane(&mut self, direction: FocusDirection) -> (r: SwapStep)
        requires
            old(self).wf(),
        ensures
            final(self).wf(),
            match (old(self).focus(), old(self).focus_neighbour(direction)) {
                (Some(a), Some(b)) => match old(self).swap_request(a, b) {
                    Some(request) if old(self).daemon_mode() => {
                        &&& r == (SwapStep::Ask { a, b, request })
                        &&& *final(self) == *old(self)
                    },
                    _ => {
                        &&& r == SwapStep::Done
                        &&& *final(self) == (App {
                            workspaces: App::swapped_workspaces(old(self).workspaces, a, b),
                            effects: final(self).effects,
                            ..*old(self)
                        })
                        &&& final(self).effects@ == old(self).effects@ + App::swapped_effects(
                            old(self).workspaces,
                            a,
                            b,
                        )
                    },
                },
                _ => r == SwapStep::Done && *final(self) == *old(self),
            },
    {
        let a: PaneId = match self.focused_pane() {
            Some(id) => id,
            None => {
                return SwapStep::Done;
            },
        };
        let b: PaneId = match self.neighbour_of_focus(direction) {
            Some(id) => id,
            None => {
                return SwapStep::Done;
            },
        };
        if self.is_daemon_mode() {
            if let Some(request) = self.swap_pane_remote(a, b) {
                return SwapStep::Ask { a, b, request };
            }
        }
        self.swap_on_screen(a, b);
        SwapStep::Done
    }

    /// Goes on to swap `a` and `b` once the daemon has answered. If it did not
    /// swap them, neither does the window.
    pub fn finish_swap_focused_pane(&mut self, a: PaneId, b: PaneId, reply: Reply)
        ensures
            swap_allowed(reply) ==> {
                &&& *final(self) == (App {
                    workspaces: App::swapped_workspaces(old(self).workspaces, a, b),
                    effects: final(self).effects,
                    ..*old(self)
                })
                &&& final(self).effects@ == old(self).effects@ + App::swapped_effects(
                    old(self).workspaces,
                    a,
                    b,
                )
            },
            !swap_allowed(reply) ==> final(self).only_added(*old(self), swap_effects(reply)),
    {
        if self.swap_pane_answered(reply) {
            assert(self.effects@ =~= old(self).effects@);
            self.swap_on_screen(a, b);
        }
    }

    /// The effects of new ratios in the tree.
    pub open spec fn ratio_effects(&self) -> Seq<Effect> {
        seq![Effect::LayoutPanes] + (if self.has_renderer {
            seq![Effect::ResizePanes]
        } else {
            seq![]
        }) + (if self.has_window {
            seq![Effect::RequestRedraw]
        } else {
            seq![]
        })
    }

    fn apply_ratios(&mut self)
        ensures
            final(self).only_added(*old(self), old(self).ratio_effects()),
    {
        self.emit(Effect::LayoutPanes);
        if self.has_renderer {
            self.emit(Effect::ResizePanes);
        }
        if self.has_window {
            self.emit(Effect::RequestRedraw);
        }
        assert(self.effects@ =~= old(self).effects@ + old(self).ratio_effects());
    }

    /// Shows `adjusted`, the tree with the split around the focused pane moved,
    /// if there is such a split.
    pub fn adjust_focused_ratio(&mut self, adjusted: Option<LayoutNode>)
        ensures
            match (old(self).workspaces, adjusted) {
                (Some(w), Some(tree)) if w.focused is Some && old(self).has_layout_rect => {
                    &&& *final(self) == (App {
                        workspaces: Some(Workspaces { layout: tree, ..w }),
                        effects: final(self).effects,
                        ..*old(self)
                    })
                    &&& final(self).effects@ == old(self).effects@ + old(self).ratio_effects()
                },
                _ => *final(self) == *old(self),
            },
    {
        if self.focused_pane().is_none() || !self.has_layout_rect {
            return;
        }
        if let Some(w) = &mut self.workspaces {
            if let Some(tree) = adjusted {
                w.layout = tree;
                self.apply_ratios();
            }
        }
    }

    /// Sets every split to the middle.
    pub fn reset_all_ratios(&mut self)
        ensures
            match old(self).workspaces {
                Some(w) if old(self).has_layout_rect => {
                    &&& *final(self) == (App {
                        workspaces: Some(Workspaces { layout: w.layout.balanced(), ..w }),
                        effects: final(self).effects,
                        ..*old(self)
                    })
                    &&& final(self).effects@ == old(self).effects@ + old(self).ratio_effects()
                },
                _ => *final(self) == *old(self),
            },
    {
        if !self.has_layout_rect {
            return;
        }
        if let Some(w) = &mut self.workspaces {
            w.layout.reset_all_ratios();
            self.apply_ratios();
        }
    }

    /// The focused pane, if the screen shows it.
    pub open spec fn focused_state(&self) -> Option<PaneState> {
        match self.workspaces {
            Some(w) => match w.focused {
                Some(id) => w.layout.pane(id),
                None => None,
            },
            None => None,
        }
    }

    /// The effects of pinning or unpinning `pane`: the daemon keeps the pin
    /// across restarts.
    pub open spec fn pin_effects(&self, pane: PaneId, pinned: bool) -> Seq<Effect> {
        (match self.pane_id_map.daemon(pane) {
            Some(d) if self.daemon_mode() => seq![
                Effect::Ask(
                    if pinned {
                        IpcRequest::TagPinned { pane_id: d }
                    } else {
                        IpcRequest::UntagPinned { pane_id: d }
                    },
                ),
            ],
            _ => seq![],
        }) + (if self.has_window {
            seq![Effect::RequestRedraw]
        } else {
            seq![]
        })
    }

    /// Pins the focused pane, or unpins it.
    pub fn toggle_pin_focused_pane(&mut self)
        requires
            old(self).wf(),
        ensures
            final(self).wf(),
            match old(self).focused_state() {
                Some(p) => {
                    let w = old(self).workspaces->0;
                    &&& *final(self) == (App {
                        workspaces: Some(
                            Workspaces {
                                layout: w.layout.replaced(
                                    p.id,
                                    LayoutNode::Leaf(PaneState { pinned: !p.pinned, ..p }),
                                ),
                                ..w
                            },
                        ),
                        effects: final(self).effects,
                        ..*old(self)
                    })
                    &&& final(self).effects@ == old(self).effects@ + old(self).pin_effects(
                        p.id,
                        !p.pinned,
                    )
                },
                None => *final(self) == *old(self),
            },
    {
        let focused: PaneId = match self.focused_pane() {
            Some(id) => id,
            None => {
                return;
            },
        };
        let mut pinned = false;
        if let Some(w) = &mut self.workspaces {
            proof {
                layout::lemma_has_pane(w.layout, focused);
            }
            match w.layout.find_pane(focused) {
                Some(p) => {
                    pinned = !p.pinned;
                },
                None => {
                    return;
                },
            }
            w.layout.set_pinned(focused, pinned);
        }
        if self.is_daemon_mode() {
            if let Some(daemon_id) = self.pane_id_map.daemon_for_local(focused) {
                let request = if pinned {
                    IpcRequest::TagPinned { pane_id: daemon_id }
                } else {
                    IpcRequest::UntagPinned { pane_id: daemon_id }
                };
                self.emit(Effect::Ask(request));
            }
        }
        if self.has_window {
            self.emit(Effect::RequestRedraw);
        }
        assert(self.effects@ =~= old(self).effects@ + old(self).pin_effects(focused, pinned));
    }
}

} // verus!
