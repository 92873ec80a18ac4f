//! The clipboard, the selected text and the input of panes.
use super::zoom;
use super::{App, Effect, Workspaces};
use crate::layout;
use crate::layout::{LayoutNode, PaneId};
use crate::paste;
use vstd::prelude::*;

verus! {

/// What is put on the clipboard for a selected text: nothing for an empty one.
pub fn clipboard_text(selected: Option<String>) -> (r: Option<String>)
    ensures
        match selected {
            Some(text) if text@.len() > 0 => r == Some(text),
            _ => r is None,
        },
{
    match selected {
        Some(text) => if text.as_str().unicode_len() == 0 {
            None
        } else {
            Some(text)
        },
        None => None,
    }
}

impl Effect {
    /// Whether this sends `bytes` to the terminal of `pane`.
    pub open spec fn writes(self, pane: PaneId, bytes: Seq<u8>) -> bool {
        self matches Effect::WritePty { pane: p, bytes: b } && p == pane && b@ == bytes
    }
}

impl App {
    /// `effect` if the screen shows `pane`.
    pub open spec fn if_shown(&self, pane: Option<PaneId>, effect: Effect) -> Seq<Effect> {
        if pane is Some && self.shows(pane->0) {
            seq![effect]
        } else {
            seq![]
        }
    }

    pub(crate) fn emit_if_shown(&mut self, pane: PaneId, effect: Effect)
        ensures
            final(self).only_added(*old(self), old(self).if_shown(Some(pane), effect)),
    {
        if self.is_shown(pane) {
            self.emit(effect);
        } else {
            assert(self.effects@ =~= old(self).effects@ + Seq::<Effect>::empty());
        }
    }

    /// The pane whose text a copy takes: that of the selection, or else the
    /// focused one.
    pub open spec fn copied_pane(&self) -> Option<PaneId> {
        if self.selection_pane is Some {
            self.selection_pane
        } else {
            self.focus()
        }
    }

    /// Puts the selected text on the clipboard.
    pub fn copy_selection(&mut self)
        ensures
            final(self).only_added(
                *old(self),
                old(self).if_shown(
                    old(self).copied_pane(),
                    Effect::CopySelection { pane: old(self).copied_pane()->0 },
                ),
            ),
    {
        let pane: Option<PaneId> = match self.selection_pane {
            Some(id) => Some(id),
            None => self.focused_pane(),
        };
        match pane {
            Some(id) => self.emit_if_shown(id, Effect::CopySelection { pane: id }),
            None => {
                assert(self.effects@ =~= old(self).effects@ + Seq::<Effect>::empty());
            },
        }
    }

    /// Types the text of the clipboard into the focused pane, always between the
    /// marks of a bracketed paste, with one kind of line break. Three writes are
    /// made.
    pub fn paste_clipboard(&mut self, raw: &str)
        ensures
            *final(self) == (App { effects: final(self).effects, ..*old(self) }),
            match old(self).focus() {
                Some(pane) if raw@.len() > 0 && old(self).shows(pane) => {
                    let n = old(self).effects@.len() as int;
                    &&& final(self).effects@.len() == n + 3
                    &&& final(self).effects@.take(n) == old(self).effects@
                    &&& final(self).effects@[n].writes(pane, paste::paste_start())
                    &&& final(self).effects@[n + 1].writes(
                        pane,
                        vstd::utf8::encode_utf8(paste::normalized(raw@)),
                    )
                    &&& final(self).effects@[n + 2].writes(pane, paste::paste_end())
                },
                _ => final(self).effects@ == old(self).effects@,
            },
    {
        if raw.unicode_len() == 0 {
            return;
        }
        let text = paste::normalize_paste_text(raw);
        let pane: PaneId = match self.focused_pane() {
            Some(id) => id,
            None => {
                return;
            },
        };
        if !self.is_shown(pane) {
            return;
        }
        let a = paste::start_mark();
        let b = text.as_str().as_bytes_vec();
        let c = paste::end_mark();
        self.emit(Effect::WritePty { pane, bytes: a });
        self.emit(Effect::WritePty { pane, bytes: b });
        self.emit(Effect::WritePty { pane, bytes: c });
        assert(self.effects@.take(old(self).effects@.len() as int) =~= old(self).effects@);
    }

    /// The effects that unmark the selected text of `panes`, one for each.
    pub open spec fn clear_panes(panes: Seq<PaneId>) -> Seq<Effect> {
        panes.map_values(|pane: PaneId| Effect::ClearTermSelection { pane })
    }

    /// The panes of the workspace on the screen: those that are shown, then those
    /// that zoom hides.
    pub open spec fn all_ids(shown: Option<Workspaces>, hidden: Option<LayoutNode>) -> Seq<PaneId> {
        (match shown {
            Some(w) => w.layout.ids(),
            None => seq![],
        }) + (match hidden {
            Some(tree) => tree.ids(),
            None => seq![],
        })
    }

    /// The effects that unmark the selected text of every pane, shown or hidden by
    /// zoom.
    pub open spec fn clear_all(&self) -> Seq<Effect> {
        App::clear_panes(App::all_ids(self.workspaces, self.zoomed_layout))
    }

    fn unmark_all(&mut self)
        ensures
            final(self).only_added(*old(self), old(self).clear_all()),
    {
        let mut ids: Vec<PaneId> = match &self.workspaces {
            Some(w) => w.layout.pane_ids(),
            None => Vec::new(),
        };
        if let Some(tree) = &self.zoomed_layout {
            let mut hidden = tree.pane_ids();
            ids.append(&mut hidden);
        }
        assert(ids@ =~= App::all_ids(self.workspaces, self.zoomed_layout));
        let mut i: usize = 0;
        assert(self.effects@ =~= old(self).effects@ + App::clear_panes(ids@.take(0)));
        while i < ids.len()
            invariant
                i <= ids@.len(),
                self.only_added(*old(self), App::clear_panes(ids@.take(i as int))),
            decreases ids@.len() - i,
        {
            let pane: PaneId = ids[i];
            self.emit(Effect::ClearTermSelection { pane });
            i += 1;
            assert(self.effects@ =~= old(self).effects@ + App::clear_panes(ids@.take(i as int)));
        }
        assert(ids@.take(i as int) =~= ids@);
    }

    /// Forgets the selection and unmarks the selected text of all panes: more
    /// than one can hold some, and so can those that zoom hides.
    pub fn clear_selection(&mut self)
        ensures
            *final(self) == (App {
                selection_pane: None,
                selection_in_progress: false,
                effects: final(self).effects,
                ..*old(self)
            }),
            final(self).effects@ == old(self).effects@ + old(self).clear_all(),
    {
        self.unmark_all();
        self.selection_pane = None;
        self.selection_in_progress = false;
    }

    /// Ends a selection and puts its text on the clipboard.
    pub fn finalize_selection(&mut self)
        ensures
            *final(self) == (App {
                selection_in_progress: false,
                effects: final(self).effects,
                ..*old(self)
            }),
            final(self).effects@ == old(self).effects@ + old(self).if_shown(
                old(self).selection_pane,
                Effect::CopySelection { pane: old(self).selection_pane->0 },
            ),
    {
        self.selection_in_progress = false;
        match self.selection_pane {
            Some(pane) => self.emit_if_shown(pane, Effect::CopySelection { pane }),
            None => {
                assert(self.effects@ =~= old(self).effects@ + Seq::<Effect>::empty());
            },
        }
    }

    /// Sends bytes to the terminal of a pane, if the screen shows it.
    pub fn pty_write_to_pane(&mut self, bytes: Vec<u8>, pane_id: PaneId)
        ensures
            final(self).only_added(
                *old(self),
                old(self).if_shown(Some(pane_id), Effect::WritePty { pane: pane_id, bytes }),
            ),
    {
        self.emit_if_shown(pane_id, Effect::WritePty { pane: pane_id, bytes });
    }

    /// Sends bytes to the terminal of the focused pane.
    pub fn pty_write(&mut self, bytes: Vec<u8>)
        ensures
            final(self).only_added(
                *old(self),
                old(self).if_shown(
                    old(self).focus(),
                    Effect::WritePty { pane: old(self).focus()->0, bytes },
                ),
            ),
    {
        match self.focused_pane() {
            Some(focused) => self.pty_write_to_pane(bytes, focused),
            None => {
                assert(self.effects@ =~= old(self).effects@ + Seq::<Effect>::empty());
            },
        }
    }
}

/// Taking a pane out of a tree takes no other with it.
proof fn lemma_without_one(t: LayoutNode, taken: PaneId, id: PaneId)
    requires
        t.has(taken),
    ensures
        t.has(id) <==> id == taken || t.replaced(taken, LayoutNode::Empty).has(id),
    decreases t,
{
    match t {
        LayoutNode::Split { first, second, .. } => {
            if first.has(taken) {
                lemma_without_one(*first, taken, id);
            } else {
                lemma_without_one(*second, taken, id);
            }
        },
        _ => {},
    }
}

/// Zoom takes no pane from those whose selected text is unmarked, and adds none.
pub proof fn law_zoom_keeps_all_panes(w: Workspaces, id: PaneId)
    ensures
        ({
            let z = zoom::zoomed_in(Some(w));
            App::all_ids(z.workspaces, z.saved).contains(id) <==> App::all_ids(
                Some(w),
                None,
            ).contains(id)
        }),
{
    let z = zoom::zoomed_in(Some(w));
    let before = App::all_ids(Some(w), None);
    let after = App::all_ids(z.workspaces, z.saved);
    assert(before =~= w.layout.ids());
    if z.changed {
        let focused = w.focused->0;
        let rest = z.saved->0;
        let alone = z.workspaces->0.layout;
        layout::lemma_has_pane(w.layout, focused);
        lemma_without_one(w.layout, focused, id);
        layout::law_ids_are_the_panes(w.layout, id);
        layout::law_ids_are_the_panes(rest, id);
        layout::law_ids_are_the_panes(alone, id);
        let n = alone.ids().len();
        if alone.ids().contains(id) {
            let k = choose|k: int| 0 <= k < n && alone.ids()[k] == id;
            assert(after[k] == id);
        }
        if rest.ids().contains(id) {
            let k = choose|k: int| 0 <= k < rest.ids().len() && rest.ids()[k] == id;
            assert(after[n + k] == id);
        }
        if after.contains(id) {
            let k = choose|k: int| 0 <= k < after.len() && after[k] == id;
            if k < n {
                assert(alone.ids()[k] == id);
            } else {
                assert(rest.ids()[k - n] == id);
            }
        }
    } else {
        assert(after =~= before);
    }
}

} // verus!
