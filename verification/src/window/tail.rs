//! Panes that follow an agent's transcript, and panes that show a web page.
use super::{App, Effect, Notice, Workspaces};
use crate::ipc::{IpcRequest, WebViewError};
use crate::layout;
use crate::layout::{PaneId, PaneState, SplitDirection};
use crate::layout_ops;
use vstd::prelude::*;

verus! {

/// What is needed next to follow the transcript of the focused pane's agent.
#[derive(Debug, PartialEq, Eq)]
pub enum TailStep {
    Done,
    /// The transcript of the session is to be looked up.
    FindTranscript { source: PaneId, session_id: String },
    /// A pane that follows the transcript is to be made, in a split of
    /// `source`.
    OpenTail { source: PaneId, path: String },
}

impl App {
    /// The agent session of the focused pane.
    pub open spec fn focused_session(&self) -> Option<String> {
        match self.focused_state() {
            Some(p) => p.claude_session_id,
            None => None,
        }
    }

    /// Starts to follow the transcript of the agent in the focused pane.
    pub fn open_focused_agent_event_log_tail(&mut self) -> (r: TailStep)
        ensures
            match old(self).focus() {
                Some(source) => match old(self).focused_session() {
                    Some(session_id) => {
                        &&& r == (TailStep::FindTranscript { source, session_id })
                        &&& *final(self) == *old(self)
                    },
                    None => {
                        &&& r == TailStep::Done
                        &&& final(self).only_added(
                            *old(self),
                            seq![Effect::Toast(Notice::NoTranscript)],
                        )
                    },
                },
                None => r == TailStep::Done && *final(self) == *old(self),
            },
    {
        let source: PaneId = match self.focused_pane() {
            Some(id) => id,
            None => {
                return TailStep::Done;
            },
        };
        if let Some(w) = &self.workspaces {
            if let Some(p) = w.layout.find_pane(source) {
                if let Some(session_id) = &p.claude_session_id {
                    return TailStep::FindTranscript { source, session_id: session_id.clone() };
                }
            }
        }
        self.emit(Effect::Toast(Notice::NoTranscript));
        TailStep::Done
    }

    /// Goes on with the transcript that was looked up.
    pub fn transcript_found(&mut self, source: PaneId, path: Option<String>) -> (r: TailStep)
        ensures
            match path {
                Some(path) => if !old(self).has_renderer || old(self).workspaces is None {
                    r == TailStep::Done && *final(self) == *old(self)
                } else if old(self).shows(source) {
                    r == (TailStep::OpenTail { source, path }) && *final(self) == *old(self)
                } else {
                    &&& r == TailStep::Done
                    &&& final(self).only_added(
                        *old(self),
                        seq![Effect::Toast(Notice::TailPaneFailed)],
                    )
                },
                None => {
                    &&& r == TailStep::Done
                    &&& final(self).only_added(
                        *old(self),
                        seq![Effect::Toast(Notice::NoTranscript)],
                    )
                },
            },
    {
        let path = match path {
            Some(p) => p,
            None => {
                self.emit(Effect::Toast(Notice::NoTranscript));
                return TailStep::Done;
            },
        };
        if !self.has_renderer || self.workspaces.is_none() {
            return TailStep::Done;
        }
        if !self.is_shown(source) {
            self.emit(Effect::Toast(Notice::TailPaneFailed));
            return TailStep::Done;
        }
        TailStep::OpenTail { source, path }
    }

    /// Ends it with the pane that follows the transcript, if it could be made.
    /// The focus stays where it is.
    pub fn finish_open_tail(
        &mut self,
        source: PaneId,
        direction: SplitDirection,
        opened: Option<PaneState>,
    )
        ensures
            match opened {
                Some(pane) if old(self).shows(source) => {
                    &&& *final(self) == (App {
                        workspaces: App::split_workspaces(
                            old(self).workspaces,
                            source,
                            direction,
                            pane,
                        ),
                        effects: final(self).effects,
                        ..*old(self)
                    })
                    &&& final(self).effects@ == old(self).effects@ + seq![Effect::RelayoutAndRedraw]
                },
                _ => final(self).only_added(
                    *old(self),
                    seq![Effect::Toast(Notice::TailPaneFailed)],
                ),
            },
    {
        if let Some(pane) = opened {
            if self.is_shown(source) {
                let _ = self.mount(source, direction, pane);
                self.emit(Effect::RelayoutAndRedraw);
                return;
            }
        }
        self.emit(Effect::Toast(Notice::TailPaneFailed));
    }

    /// Why no page can be shown next to the focused pane, if so.
    pub open spec fn webview_refusal(&self, url: Seq<char>) -> Option<WebViewError> {
        match self.focus() {
            Some(source) => if url.len() == 0 {
                Some(WebViewError::EmptyUrl)
            } else if !self.shows(source) {
                Some(WebViewError::SplitFailed)
            } else if !self.has_window {
                Some(WebViewError::NoWindow)
            } else {
                None
            },
            None => Some(WebViewError::NoFocusedPane),
        }
    }

    /// The effects of such a refusal. Where the layout was touched and put
    /// back, it is laid out anew and published.
    pub open spec fn refusal_effects(e: WebViewError) -> Seq<Effect> {
        match e {
            WebViewError::SplitFailed => seq![Effect::Toast(Notice::WebViewSplitFailed)],
            WebViewError::NoWindow => seq![
                Effect::RelayoutAndRedraw,
                Effect::PublishWorkspaceState,
            ],
            _ => seq![],
        }
    }

    /// Starts to show the page `url` in `pane`, a new pane in a split of the
    /// focused one. The page itself is still to be loaded; see
    /// [`App::finish_create_webview_pane`].
    pub fn create_webview_pane(
        &mut self,
        url: &str,
        direction: SplitDirection,
        pane: PaneState,
    ) -> (r: Result<PaneId, WebViewError>)
        requires
            old(self).workspaces matches Some(w) ==> !w.layout.has(pane.id),
        ensures
            match old(self).webview_refusal(url@) {
                Some(e) => {
                    &&& r == Err::<PaneId, WebViewError>(e)
                    &&& final(self).only_added(*old(self), App::refusal_effects(e))
                },
                None => {
                    &&& r == Ok::<PaneId, WebViewError>(pane.id)
                    &&& *final(self) == (App {
                        workspaces: App::split_workspaces(
                            old(self).workspaces,
                            old(self).focus()->0,
                            direction,
                            pane,
                        ),
                        ..*old(self)
                    })
                },
            },
    {
        assert(old(self).effects@ + Seq::<Effect>::empty() =~= old(self).effects@);
        let source: PaneId = match self.focused_pane() {
            Some(id) => id,
            None => {
                return Err(WebViewError::NoFocusedPane);
            },
        };
        if url.is_empty() {
            return Err(WebViewError::EmptyUrl);
        }
        let new_id: PaneId = pane.id;
        if !self.is_shown(source) {
            self.emit(Effect::Toast(Notice::WebViewSplitFailed));
            return Err(WebViewError::SplitFailed);
        }
        let _ = self.mount(source, direction, pane);
        if !self.has_window {
            proof {
                let w = old(self).workspaces->0;
                layout::lemma_has_pane(w.layout, source);
                layout_ops::law_split_then_remove(w.layout, source, direction, pane);
            }
            self.take_out(new_id);
            self.emit(Effect::RelayoutAndRedraw);
            self.emit(Effect::PublishWorkspaceState);
            assert(self.effects@ =~= old(self).effects@ + App::refusal_effects(
                WebViewError::NoWindow,
            ));
            return Err(WebViewError::NoWindow);
        }
        Ok(new_id)
    }

    /// The workspaces without `pane`.
    pub open spec fn workspaces_without(w: Option<Workspaces>, pane: PaneId) -> Option<Workspaces> {
        match w {
            Some(ws) => Some(Workspaces { layout: ws.layout.without(pane), ..ws }),
            None => None,
        }
    }

    fn take_out(&mut self, pane: PaneId)
        ensures
            *final(self) == (App {
                workspaces: App::workspaces_without(old(self).workspaces, pane),
                ..*old(self)
            }),
    {
        if let Some(w) = &mut self.workspaces {
            let _ = w.layout.remove_pane(pane);
        }
    }

    /// Ends it with what became of the page. A pane whose page failed is taken
    /// out again. The focus stays on the pane that was split, because a page
    /// takes no keys from the window.
    pub fn finish_create_webview_pane(
        &mut self,
        pane: PaneId,
        direction: SplitDirection,
        loaded: Result<(), String>,
    ) -> (r: Result<PaneId, WebViewError>)
        ensures
            match loaded {
                Ok(_) => {
                    &&& r == Ok::<PaneId, WebViewError>(pane)
                    &&& *final(self) == (App {
                        last_split_direction: direction,
                        effects: final(self).effects,
                        ..*old(self)
                    })
                    &&& final(self).effects@ == old(self).effects@ + seq![
                        Effect::RestoreMainFocus,
                        Effect::RelayoutAndRedraw,
                    ]
                },
                Err(e) => {
                    &&& r == Err::<PaneId, WebViewError>(WebViewError::NativeFailed(e))
                    &&& *final(self) == (App {
                        workspaces: App::workspaces_without(old(self).workspaces, pane),
                        effects: final(self).effects,
                        ..*old(self)
                    })
                    &&& final(self).effects@ == old(self).effects@ + seq![
                        Effect::RelayoutAndRedraw,
                        Effect::PublishWorkspaceState,
                        Effect::Toast(Notice::WebViewFailed(e)),
                    ]
                },
            },
    {
        match loaded {
            Ok(_) => {
                self.emit(Effect::RestoreMainFocus);
                self.last_split_direction = direction;
                self.emit(Effect::RelayoutAndRedraw);
                assert(self.effects@ =~= old(self).effects@ + seq![
                    Effect::RestoreMainFocus,
                    Effect::RelayoutAndRedraw,
                ]);
                Ok(pane)
            },
            Err(e) => {
                self.take_out(pane);
                self.emit(Effect::RelayoutAndRedraw);
                self.emit(Effect::PublishWorkspaceState);
                self.emit(Effect::Toast(Notice::WebViewFailed(e.clone())));
                assert(self.effects@ =~= old(self).effects@ + seq![
                    Effect::RelayoutAndRedraw,
                    Effect::PublishWorkspaceState,
                    Effect::Toast(Notice::WebViewFailed(e)),
                ]);
                Err(WebViewError::NativeFailed(e))
            },
        }
    }

    /// Tells the daemon what became of a page that it asked for.
    pub fn handle_daemon_webview_spawn(
        &mut self,
        request_id: u64,
        result: Result<PaneId, WebViewError>,
    )
        ensures
            final(self).only_added(
                *old(self),
                seq![
                    Effect::Ask(
                        IpcRequest::AckWebViewPaneSpawn {
                            request_id,
                            pane_id: match result {
                                Ok(id) => Some(id),
                                Err(_) => None,
                            },
                            error: match result {
                                Ok(_) => None,
                                Err(e) => Some(e),
                            },
                        },
                    ),
                ],
            ),
    {
        let (pane_id, error) = match result {
            Ok(id) => (Some(id), None),
            Err(e) => (None, Some(e)),
        };
        self.emit(Effect::Ask(IpcRequest::AckWebViewPaneSpawn { request_id, pane_id, error }));
    }
}

/// A page that fails to load leaves the workspace as it was.
pub proof fn law_failed_page_leaves_no_trace(
    w: Workspaces,
    source: PaneId,
    direction: SplitDirection,
    pane: PaneState,
)
    requires
        w.layout.has(source),
        !w.layout.has(pane.id),
    ensures
        App::workspaces_without(
            App::split_workspaces(Some(w), source, direction, pane),
            pane.id,
        ) == Some(w),
{
    layout_ops::law_split_then_remove(w.layout, source, direction, pane);
}

} // verus!
