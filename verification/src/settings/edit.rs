//! Acting on the selected control: toggling, choosing, editing text.
use super::{
    CommandModel, ControlBinding, ControlType, KindModel, OverlayModel, SettingsCommand,
    SettingsControl, SettingsFocus, SettingsOverlayState,
};
use crate::text;
use vstd::prelude::*;

verus! {

impl OverlayModel {
    /// Whether the selected control is a text being edited.
    pub open spec fn editing(self) -> bool {
        self.has_active() && (self.active().kind matches KindModel::TextInput { editing, .. }
            && editing)
    }

    /// The text of the selected text field.
    pub open spec fn edited_text(self) -> Seq<char> {
        self.active().kind->TextInput_text
    }

    /// How many characters stand before the cursor of the selected text field.
    pub open spec fn cursor(self) -> int {
        self.active().kind->TextInput_cursor
    }

    /// Whether the selected control is a choice.
    pub open spec fn on_select(self) -> bool {
        self.has_active() && self.active().kind is Select
    }

    /// The selected text field holds `text`, with the cursor behind its first
    /// `cursor` characters, and is being edited.
    pub open spec fn with_text(self, text: Seq<char>, cursor: int) -> OverlayModel {
        self.with_active_kind(KindModel::TextInput { text, cursor, editing: true })
    }

    /// `ch` typed at the cursor of the text being edited.
    pub open spec fn typed(self, ch: char) -> OverlayModel {
        self.with_text(self.edited_text().insert(self.cursor(), ch), self.cursor() + 1)
    }

    /// The character before the cursor removed.
    pub open spec fn backspaced(self) -> OverlayModel {
        self.with_text(self.edited_text().remove(self.cursor() - 1), self.cursor() - 1)
    }

    /// The character behind the cursor removed.
    pub open spec fn deleted(self) -> OverlayModel {
        self.with_text(self.edited_text().remove(self.cursor()), self.cursor())
    }

    /// The cursor `delta` characters further.
    pub open spec fn with_cursor_moved(self, delta: int) -> OverlayModel {
        self.with_text(self.edited_text(), self.cursor() + delta)
    }

    /// The selected control is a choice with another option, `delta` further,
    /// around the end.
    pub open spec fn cycled(self, delta: int) -> OverlayModel {
        if self.has_active() {
            match self.active().kind {
                KindModel::Select { options, selected } => if options.len() > 0 {
                    self.with_active_kind(
                        KindModel::Select {
                            options,
                            selected: (selected + delta) % (options.len() as int),
                        },
                    )
                } else {
                    self
                },
                _ => self,
            }
        } else {
            self
        }
    }

    /// The arrow key to the left (`delta` is -1) or right (`delta` is 1),
    /// where it has a text to move in or a choice to change; elsewhere it
    /// gives the focus to `to`.
    pub open spec fn sideways(self, delta: int, to: SettingsFocus) -> OverlayModel {
        if self.focus == SettingsFocus::Controls && self.editing() && 0 <= self.cursor() + delta
            <= self.edited_text().len() {
            self.with_cursor_moved(delta)
        } else if self.focus == SettingsFocus::Controls && self.on_select() {
            self.cycled(delta)
        } else {
            self.with_focus(to)
        }
    }

    /// What the enter key makes of the overlay.
    pub open spec fn entered(self) -> OverlayModel {
        if self.focus == SettingsFocus::Navigation {
            self.with_focus(SettingsFocus::Controls)
        } else if self.has_active() {
            match self.active().kind {
                KindModel::Toggle { value } => self.with_active_kind(
                    KindModel::Toggle { value: !value },
                ),
                KindModel::Select { .. } => self.cycled(1),
                KindModel::TextInput { text, cursor, editing } => self.with_active_kind(
                    KindModel::TextInput { text, cursor, editing: !editing },
                ),
                _ => self,
            }
        } else {
            self
        }
    }

    /// The command that the enter key gives.
    pub open spec fn enter_command(self) -> Option<CommandModel> {
        if self.focus == SettingsFocus::Navigation || !self.has_active() {
            None
        } else {
            let binding = self.active().binding;
            match self.active().kind {
                KindModel::Select { .. } => Some(self.cycled(1).choice_command()),
                KindModel::TextInput { text, editing, .. } => if editing {
                    Some(binding.text_command_model(text))
                } else {
                    None
                },
                _ => Some(binding.command_model()),
            }
        }
    }

    /// The command that the selected choice gives.
    pub open spec fn choice_command(self) -> CommandModel {
        self.active().binding.select_command_model(self.active().kind->Select_selected)
    }

    /// What the space key makes of the overlay.
    pub open spec fn spaced(self) -> OverlayModel {
        if self.focus == SettingsFocus::Navigation || !self.has_active() {
            self
        } else {
            match self.active().kind {
                KindModel::Toggle { value } => self.with_active_kind(
                    KindModel::Toggle { value: !value },
                ),
                KindModel::Select { .. } => self.cycled(1),
                KindModel::TextInput { editing, .. } => if editing {
                    self.typed(' ')
                } else {
                    self
                },
                _ => self,
            }
        }
    }

    /// The command that the space key gives.
    pub open spec fn space_command(self) -> Option<CommandModel> {
        if self.focus == SettingsFocus::Navigation || !self.has_active() {
            None
        } else {
            match self.active().kind {
                KindModel::Toggle { .. } => Some(self.active().binding.command_model()),
                KindModel::Select { .. } => Some(self.cycled(1).choice_command()),
                _ => None,
            }
        }
    }
}

/// The command view of an optional command.
pub open spec fn command_view(c: Option<SettingsCommand>) -> Option<CommandModel> {
    match c {
        Some(c) => Some(c@),
        None => None,
    }
}

/// The cursor of a well formed text stands on a character boundary.
proof fn lemma_cursor(value: Seq<char>, cursor: int)
    requires
        text::is_boundary(value, cursor),
    ensures
        0 <= text::chars_before(value, cursor) <= value.len(),
        text::byte_len(value.take(text::chars_before(value, cursor))) == cursor,
{
}

/// Where a text is being edited, its cursor stands within it.
proof fn lemma_editing_cursor(state: SettingsOverlayState)
    requires
        state.wf(),
    ensures
        state@.editing() ==> 0 <= state@.cursor() <= state@.edited_text().len(),
{
    if state@.editing() {
        let control = state.sections@[state@.section].controls@[state@.pick()];
        assert(state.sections@[state@.section].wf());
        assert(control.control_type.wf());
        lemma_cursor(
            control.control_type->TextInput_value@,
            control.control_type->cursor as int,
        );
    }
}

/// Giving the selected control the kind it has changes nothing.
pub proof fn lemma_same_kind(m: OverlayModel)
    requires
        m.has_active(),
    ensures
        m.with_active_kind(m.active().kind) == m,
{
    let same = m.with_active_kind(m.active().kind);
    assert(same.sections[m.section].controls =~= m.sections[m.section].controls);
    assert(same.sections =~= m.sections);
}

/// A text field that holds `value` with the cursor behind its first `k`
/// characters, being edited.
fn editing_input(value: String, k: usize) -> (r: ControlType)
    requires
        k <= value@.len(),
    ensures
        r@ == (KindModel::TextInput { text: value@, cursor: k as int, editing: true }),
        r.wf(),
{
    let cursor: usize = text::byte_count(value.as_str().substring_char(0, k));
    proof {
        assert(value@.subrange(0, k as int) =~= value@.take(k as int));
        text::lemma_chars_before(value@, k as int);
    }
    ControlType::TextInput { value, cursor, editing: true }
}

/// The command of a confirmed text field.
fn text_command(binding: ControlBinding, value: String) -> (r: SettingsCommand)
    ensures
        r@ == binding.text_command_model(value@),
{
    match binding {
        ControlBinding::FolderPaneCommand => SettingsCommand::SetFolderPaneCommand(value),
        ControlBinding::DefaultShell => SettingsCommand::SetDefaultShell(value),
        ControlBinding::ShellArgs => SettingsCommand::SetShellArgs(value),
        other => other.command(),
    }
}

impl SettingsOverlayState {
    /// The text being edited and the number of characters before its cursor.
    fn edited(&self) -> (r: Option<(String, usize)>)
        requires
            self.wf(),
        ensures
            r is Some <==> self@.editing(),
            r matches Some((value, k)) ==> {
                &&& value@ == self@.edited_text()
                &&& k == self@.cursor()
                &&& k <= value@.len()
            },
    {
        match self.active_control() {
            Some(control) => match &control.control_type {
                ControlType::TextInput { value, cursor, editing } => {
                    proof {
                        assert(self.sections@[self@.section].wf());
                        assert(control.control_type.wf());
                        lemma_cursor(value@, *cursor as int);
                    }
                    if *editing {
                        Some((value.clone(), text::char_position(value.as_str(), *cursor)))
                    } else {
                        None
                    }
                },
                _ => None,
            },
            None => None,
        }
    }

    /// The command of a choice, with the chosen index where the binding asks
    /// for it.
    pub(crate) fn select_command_for(&self, control: &SettingsControl) -> (r: SettingsCommand)
        ensures
            r@ == control@.binding.select_command_model(
                if control@.kind is Select {
                    control@.kind->Select_selected
                } else {
                    0
                },
            ),
    {
        let selected: usize = match &control.control_type {
            ControlType::Select { selected, .. } => *selected,
            _ => 0,
        };
        match &control.binding {
            ControlBinding::NewPaneCwd => SettingsCommand::SetNewPaneCwd(selected),
            ControlBinding::UiTextScale => SettingsCommand::SetUiTextScale(selected),
            _ => control.binding.command(),
        }
    }

    pub fn is_text_editing(&self) -> (r: bool)
        ensures
            r == self@.editing(),
    {
        match self.active_control() {
            Some(control) => match &control.control_type {
                ControlType::TextInput { editing, .. } => *editing,
                _ => false,
            },
            None => false,
        }
    }

    /// Stops editing and keeps the text; says whether a text was being edited.
    pub fn cancel_text_editing(&mut self) -> (r: bool)
        requires
            old(self).wf(),
        ensures
            final(self).wf(),
            r == old(self)@.editing(),
            final(self)@ == if r {
                old(self)@.with_active_kind(
                    KindModel::TextInput {
                        text: old(self)@.edited_text(),
                        cursor: old(self)@.cursor(),
                        editing: false,
                    },
                )
            } else {
                old(self)@
            },
    {
        let idle = match self.active_control() {
            Some(control) => match &control.control_type {
                ControlType::TextInput { value, cursor, editing: true } => {
                    proof {
                        assert(self.sections@[self@.section].wf());
                    }
                    ControlType::TextInput { value: value.clone(), cursor: *cursor, editing: false }
                },
                _ => {
                    return false;
                },
            },
            None => {
                return false;
            },
        };
        self.set_active_kind(idle);
        true
    }

    pub(crate) fn active_control_is_select(&self) -> (r: bool)
        ensures
            r == self@.on_select(),
    {
        match self.active_control() {
            Some(control) => matches!(control.control_type, ControlType::Select { .. }),
            None => false,
        }
    }

    /// Changes the selected choice by `delta` options, around the end.
    pub(crate) fn cycle_select(&mut self, delta: i32)
        requires
            old(self).wf(),
        ensures
            final(self).wf(),
            final(self)@ == old(self)@.cycled(delta as int),
    {
        let idx: usize = self.active_control_index();
        let sec: usize = self.selected_section;
        if sec >= self.sections.len() || idx >= self.sections[sec].controls.len() {
            return;
        }
        proof {
            assert(self.sections@[sec as int].wf());
            assert(self.sections@[sec as int].controls@[idx as int].control_type.wf());
        }
        if let ControlType::Select { options, selected } =
            &mut self.sections[sec].controls[idx].control_type {
            if !options.is_empty() {
                *selected = super::nav::wrapped(*selected, delta, options.len());
            }
        }
        proof {
            super::nav::lemma_active_kind(*old(self), *self);
            let old_kind = old(self).sections@[sec as int].controls@[idx as int].control_type;
            assert(old_kind@ == old(self)@.active().kind);
            if !(old_kind is Select && old(self)@.active().kind->Select_options.len() > 0) {
                lemma_same_kind(old(self)@);
            }
        }
    }

    pub(crate) fn text_cursor_left(&mut self) -> (r: bool)
        requires
            old(self).wf(),
        ensures
            final(self).wf(),
            r == (old(self)@.editing() && old(self)@.cursor() > 0),
            final(self)@ == if r {
                old(self)@.with_cursor_moved(-1)
            } else {
                old(self)@
            },
    {
        match self.edited() {
            Some((value, k)) => if k > 0 {
                self.set_active_kind(editing_input(value, k - 1));
                true
            } else {
                false
            },
            None => false,
        }
    }

    pub(crate) fn text_cursor_right(&mut self) -> (r: bool)
        requires
            old(self).wf(),
        ensures
            final(self).wf(),
            r == (old(self)@.editing() && old(self)@.cursor() < old(self)@.edited_text().len()),
            final(self)@ == if r {
                old(self)@.with_cursor_moved(1)
            } else {
                old(self)@
            },
    {
        match self.edited() {
            Some((value, k)) => if k < value.as_str().unicode_len() {
                self.set_active_kind(editing_input(value, k + 1));
                true
            } else {
                false
            },
            None => false,
        }
    }

    /// Types `ch` into the text being edited; says whether there was one.
    pub fn char_input(&mut self, ch: char) -> (r: bool)
        requires
            old(self).wf(),
        ensures
            final(self).wf(),
            r == (old(self)@.focus == SettingsFocus::Controls && old(self)@.editing()),
            final(self)@ == if r {
                old(self)@.typed(ch)
            } else {
                old(self)@
            },
    {
        if self.focus != SettingsFocus::Controls {
            return false;
        }
        match self.edited() {
            Some((value, k)) => {
                let longer = text::insert_char(value.as_str(), k, ch);
                let n: usize = longer.as_str().unicode_len();
                assert(k < n);
                self.set_active_kind(editing_input(longer, k + 1));
                true
            },
            None => false,
        }
    }

    /// Removes the character before the cursor; says whether there was one.
    pub fn backspace(&mut self) -> (r: bool)
        requires
            old(self).wf(),
        ensures
            final(self).wf(),
            r == (old(self)@.focus == SettingsFocus::Controls && old(self)@.editing() && old(
                self,
            )@.cursor() > 0),
            final(self)@ == if r {
                old(self)@.backspaced()
            } else {
                old(self)@
            },
    {
        if self.focus != SettingsFocus::Controls {
            return false;
        }
        match self.edited() {
            Some((value, k)) => if k > 0 {
                let shorter = text::remove_char(value.as_str(), k - 1);
                self.set_active_kind(editing_input(shorter, k - 1));
                true
            } else {
                false
            },
            None => false,
        }
    }

    /// Removes the character behind the cursor; says whether there was one.
    pub fn delete(&mut self) -> (r: bool)
        requires
            old(self).wf(),
        ensures
            final(self).wf(),
            r == (old(self)@.focus == SettingsFocus::Controls && old(self)@.editing() && old(
                self,
            )@.cursor() < old(self)@.edited_text().len()),
            final(self)@ == if r {
                old(self)@.deleted()
            } else {
                old(self)@
            },
    {
        if self.focus != SettingsFocus::Controls {
            return false;
        }
        match self.edited() {
            Some((value, k)) => if k < value.as_str().unicode_len() {
                let shorter = text::remove_char(value.as_str(), k);
                self.set_active_kind(editing_input(shorter, k));
                true
            } else {
                false
            },
            None => false,
        }
    }

    pub fn arrow_left(&mut self)
        requires
            old(self).wf(),
        ensures
            final(self).wf(),
            final(self)@ == old(self)@.sideways(-1, SettingsFocus::Navigation),
    {
        if self.focus == SettingsFocus::Controls {
            proof {
                lemma_editing_cursor(*self);
            }
            if self.text_cursor_left() {
                return;
            }
            if self.active_control_is_select() {
                self.cycle_select(-1);
                return;
            }
        }
        self.focus = SettingsFocus::Navigation;
        assert(self@ =~= old(self)@.with_focus(SettingsFocus::Navigation));
    }

    pub fn arrow_right(&mut self)
        requires
            old(self).wf(),
        ensures
            final(self).wf(),
            final(self)@ == old(self)@.sideways(1, SettingsFocus::Controls),
    {
        if self.focus == SettingsFocus::Controls {
            if self.text_cursor_right() {
                return;
            }
            if self.active_control_is_select() {
                self.cycle_select(1);
                return;
            }
        }
        self.focus = SettingsFocus::Controls;
        assert(self@ =~= old(self)@.with_focus(SettingsFocus::Controls));
    }

    /// The enter key: opens the controls, or acts on the selected control.
    pub fn enter(&mut self) -> (r: Option<SettingsCommand>)
        requires
            old(self).wf(),
        ensures
            final(self).wf(),
            final(self)@ == old(self)@.entered(),
            command_view(r) == old(self)@.enter_command(),
    {
        if self.focus == SettingsFocus::Navigation {
            self.focus = SettingsFocus::Controls;
            return None;
        }
        proof {
            if self@.has_active() {
                assert(self.sections@[self@.section].wf());
                assert(self.sections@[self@.section].controls@[self@.pick()].control_type.wf());
            }
        }
        let (binding, next) = match self.active_control() {
            Some(control) => match &control.control_type {
                ControlType::Toggle { value } => (
                    control.binding,
                    ControlType::Toggle { value: !*value },
                ),
                ControlType::Select { .. } => {
                    return self.choose_next();
                },
                ControlType::TextInput { value, cursor, editing } => {
                    let command = if *editing {
                        Some(text_command(control.binding, value.clone()))
                    } else {
                        None
                    };
                    let flipped = ControlType::TextInput {
                        value: value.clone(),
                        cursor: *cursor,
                        editing: !*editing,
                    };
                    self.set_active_kind(flipped);
                    return command;
                },
                _ => {
                    return Some(control.binding.command());
                },
            },
            None => {
                return None;
            },
        };
        self.set_active_kind(next);
        Some(binding.command())
    }

    /// Takes the next option of the selected choice and gives its command.
    fn choose_next(&mut self) -> (r: Option<SettingsCommand>)
        requires
            old(self).wf(),
            old(self)@.on_select(),
        ensures
            final(self).wf(),
            final(self)@ == old(self)@.cycled(1),
            command_view(r) == Some(old(self)@.cycled(1).choice_command()),
    {
        self.cycle_select(1);
        match self.active_control() {
            Some(control) => Some(self.select_command_for(control)),
            None => None,
        }
    }

    /// The space key: toggles, chooses, or types a space.
    pub fn space(&mut self) -> (r: Option<SettingsCommand>)
        requires
            old(self).wf(),
        ensures
            final(self).wf(),
            final(self)@ == old(self)@.spaced(),
            command_view(r) == old(self)@.space_command(),
    {
        if self.focus != SettingsFocus::Controls {
            return None;
        }
        let (binding, next) = match self.active_control() {
            Some(control) => match &control.control_type {
                ControlType::Toggle { value } => (
                    control.binding,
                    ControlType::Toggle { value: !*value },
                ),
                ControlType::Select { .. } => {
                    return self.choose_next();
                },
                ControlType::TextInput { .. } => {
                    let _ = self.char_input(' ');
                    return None;
                },
                _ => {
                    return None;
                },
            },
            None => {
                return None;
            },
        };
        self.set_active_kind(next);
        Some(binding.command())
    }
}

} // verus!
