//! The settings overlay: sections of controls, keyboard navigation over them,
//! the commands that controls give, and what is drawn.
pub mod sections;
pub mod draw;
pub mod drawn;
pub mod edit;
pub mod laws;
pub mod nav;
pub mod shown;
pub mod theme;

use crate::text;
use vstd::prelude::*;

verus! {

/// Which half of the overlay the keyboard acts on.
#[derive(Debug, Clone, Copy, PartialEq, Eq, Structural)]
pub enum SettingsFocus {
    Navigation,
    Controls,
}

#[derive(Debug, Clone, Copy, PartialEq, Eq, Structural)]
pub enum ThemePreset {
    OriginalTherminal,
    Paper,
    TokyoNightLight,
    TomorrowNightBright,
    HemisuDark,
}

/// What a control is bound to.
#[derive(Debug, Clone, Copy, PartialEq, Eq, Structural)]
pub enum ControlBinding {
    TogglePaneHeaders,
    ToggleStatusBar,
    ToggleTabBar,
    ApplyThemePreset(ThemePreset),
    EditorChainEntry(usize),
    FolderPaneCommand,
    FolderOpenerEntry(usize),
    DefaultShell,
    ShellArgs,
    NewPaneCwd,
    ToggleHighContrast,
    ToggleReducedMotion,
    UiTextScale,
}

/// What the application is asked to change.
#[derive(Debug, Clone, PartialEq)]
pub enum SettingsCommand {
    TogglePaneHeaders,
    ToggleStatusBar,
    ToggleTabBar,
    ApplyThemePreset(ThemePreset),
    EditorChainRemove(usize),
    EditorChainMoveUp(usize),
    EditorChainMoveDown(usize),
    SetFolderPaneCommand(String),
    FolderOpenerRemove(usize),
    FolderOpenerMoveUp(usize),
    FolderOpenerMoveDown(usize),
    SetDefaultShell(String),
    SetShellArgs(String),
    SetNewPaneCwd(usize),
    ToggleHighContrast,
    ToggleReducedMotion,
    SetUiTextScale(usize),
}

/// The visual and interactive kind of a control.
///
/// The cursor of a text input is a byte offset into its value.
#[derive(Debug, Clone)]
pub enum ControlType {
    Toggle { value: bool },
    Select { options: Vec<String>, selected: usize },
    TextInput { value: String, cursor: usize, editing: bool },
    ListRow { display_value: String },
    Action,
}

#[derive(Debug, Clone)]
pub struct SettingsControl {
    pub label: &'static str,
    pub binding: ControlBinding,
    pub control_type: ControlType,
}

#[derive(Debug, Clone)]
pub struct SettingsSection {
    pub id: &'static str,
    pub title: &'static str,
    pub controls: Vec<SettingsControl>,
}

/// The overlay: its sections, which section and which control of each section
/// is selected, and which half has the focus.
#[derive(Debug, Clone)]
pub struct SettingsOverlayState {
    pub sections: Vec<SettingsSection>,
    pub selected_section: usize,
    pub selected_control_by_section: Vec<usize>,
    pub focus: SettingsFocus,
}

/// A [`ControlType`] as a mathematical value. The cursor of a text input is
/// the number of characters before it.
#[verifier::ext_equal]
pub enum KindModel {
    Toggle { value: bool },
    Select { options: Seq<Seq<char>>, selected: int },
    TextInput { text: Seq<char>, cursor: int, editing: bool },
    ListRow { text: Seq<char> },
    Action,
}

#[verifier::ext_equal]
pub struct ControlModel {
    pub label: Seq<char>,
    pub binding: ControlBinding,
    pub kind: KindModel,
}

#[verifier::ext_equal]
pub struct SectionModel {
    pub id: Seq<char>,
    pub title: Seq<char>,
    pub controls: Seq<ControlModel>,
}

#[verifier::ext_equal]
pub struct OverlayModel {
    pub sections: Seq<SectionModel>,
    pub section: int,
    pub picks: Seq<int>,
    pub focus: SettingsFocus,
}

/// A [`SettingsCommand`] with its texts as sequences of characters.
#[verifier::ext_equal]
pub enum CommandModel {
    TogglePaneHeaders,
    ToggleStatusBar,
    ToggleTabBar,
    ApplyThemePreset(ThemePreset),
    EditorChainRemove(int),
    EditorChainMoveUp(int),
    EditorChainMoveDown(int),
    SetFolderPaneCommand(Seq<char>),
    FolderOpenerRemove(int),
    FolderOpenerMoveUp(int),
    FolderOpenerMoveDown(int),
    SetDefaultShell(Seq<char>),
    SetShellArgs(Seq<char>),
    SetNewPaneCwd(int),
    ToggleHighContrast,
    ToggleReducedMotion,
    SetUiTextScale(int),
}

impl View for SettingsCommand {
    type V = CommandModel;

    open spec fn view(&self) -> CommandModel {
        match *self {
            SettingsCommand::TogglePaneHeaders => CommandModel::TogglePaneHeaders,
            SettingsCommand::ToggleStatusBar => CommandModel::ToggleStatusBar,
            SettingsCommand::ToggleTabBar => CommandModel::ToggleTabBar,
            SettingsCommand::ApplyThemePreset(p) => CommandModel::ApplyThemePreset(p),
            SettingsCommand::EditorChainRemove(i) => CommandModel::EditorChainRemove(i as int),
            SettingsCommand::EditorChainMoveUp(i) => CommandModel::EditorChainMoveUp(i as int),
            SettingsCommand::EditorChainMoveDown(i) => CommandModel::EditorChainMoveDown(i as int),
            SettingsCommand::SetFolderPaneCommand(t) => CommandModel::SetFolderPaneCommand(t@),
            SettingsCommand::FolderOpenerRemove(i) => CommandModel::FolderOpenerRemove(i as int),
            SettingsCommand::FolderOpenerMoveUp(i) => CommandModel::FolderOpenerMoveUp(i as int),
            SettingsCommand::FolderOpenerMoveDown(i) => CommandModel::FolderOpenerMoveDown(
                i as int,
            ),
            SettingsCommand::SetDefaultShell(t) => CommandModel::SetDefaultShell(t@),
            SettingsCommand::SetShellArgs(t) => CommandModel::SetShellArgs(t@),
            SettingsCommand::SetNewPaneCwd(i) => CommandModel::SetNewPaneCwd(i as int),
            SettingsCommand::ToggleHighContrast => CommandModel::ToggleHighContrast,
            SettingsCommand::ToggleReducedMotion => CommandModel::ToggleReducedMotion,
            SettingsCommand::SetUiTextScale(i) => CommandModel::SetUiTextScale(i as int),
        }
    }
}

impl View for ControlType {
    type V = KindModel;

    open spec fn view(&self) -> KindModel {
        match *self {
            ControlType::Toggle { value } => KindModel::Toggle { value },
            ControlType::Select { options, selected } => KindModel::Select {
                options: text::texts(options@),
                selected: selected as int,
            },
            ControlType::TextInput { value, cursor, editing } => KindModel::TextInput {
                text: value@,
                cursor: text::chars_before(value@, cursor as int),
                editing,
            },
            ControlType::ListRow { display_value } => KindModel::ListRow { text: display_value@ },
            ControlType::Action => KindModel::Action,
        }
    }
}

impl View for SettingsControl {
    type V = ControlModel;

    open spec fn view(&self) -> ControlModel {
        ControlModel { label: self.label@, binding: self.binding, kind: self.control_type@ }
    }
}

/// The models of a list of controls.
pub open spec fn control_models(v: Seq<SettingsControl>) -> Seq<ControlModel> {
    Seq::new(v.len(), |i: int| v[i]@)
}

impl View for SettingsSection {
    type V = SectionModel;

    open spec fn view(&self) -> SectionModel {
        SectionModel {
            id: self.id@,
            title: self.title@,
            controls: control_models(self.controls@),
        }
    }
}

impl View for SettingsOverlayState {
    type V = OverlayModel;

    open spec fn view(&self) -> OverlayModel {
        OverlayModel {
            sections: Seq::new(self.sections@.len(), |i: int| self.sections@[i]@),
            section: self.selected_section as int,
            picks: Seq::new(
                self.selected_control_by_section@.len(),
                |i: int| self.selected_control_by_section@[i] as int,
            ),
            focus: self.focus,
        }
    }
}

impl ControlType {
    /// A selection lies within its options and a cursor on a character
    /// boundary of its text.
    pub open spec fn wf(&self) -> bool {
        match *self {
            ControlType::Select { options, selected } => in_range_or_zero(
                selected as int,
                options@.len() as int,
            ),
            ControlType::TextInput { value, cursor, .. } => text::is_boundary(
                value@,
                cursor as int,
            ),
            _ => true,
        }
    }

    /// A toggle that starts at `initial`.
    pub fn toggle(initial: bool) -> (r: Self)
        ensures
            r@ == (KindModel::Toggle { value: initial }),
            r.wf(),
    {
        ControlType::Toggle { value: initial }
    }

    /// A choice among `options`. An `initial` past the end picks the last one.
    pub fn select(options: Vec<String>, initial: usize) -> (r: Self)
        ensures
            r@ == (KindModel::Select {
                options: text::texts(options@),
                selected: clamped(initial as int, options@.len() as int),
            }),
            r.wf(),
    {
        let selected: usize = if options.is_empty() {
            0
        } else if initial < options.len() {
            initial
        } else {
            options.len() - 1
        };
        ControlType::Select { options, selected }
    }

    /// A text field that holds `initial`, with the cursor behind it.
    pub fn text_input(initial: String) -> (r: Self)
        ensures
            r@ == (KindModel::TextInput {
                text: initial@,
                cursor: initial@.len() as int,
                editing: false,
            }),
            r.wf(),
    {
        let cursor: usize = text::byte_count(initial.as_str());
        proof {
            text::lemma_chars_before(initial@, initial@.len() as int);
            assert(initial@.take(initial@.len() as int) =~= initial@);
        }
        ControlType::TextInput { value: initial, cursor, editing: false }
    }

    /// A row that shows `display_value`.
    pub fn list_row(display_value: String) -> (r: Self)
        ensures
            r@ == (KindModel::ListRow { text: display_value@ }),
            r.wf(),
    {
        ControlType::ListRow { display_value }
    }
}

/// An index that is in range, or zero where there is nothing to index.
pub open spec fn in_range_or_zero(index: int, len: int) -> bool {
    0 <= index < len || (len == 0 && index == 0)
}

/// `index`, or the nearest index below `len`.
pub open spec fn clamped(index: int, len: int) -> int {
    if len == 0 {
        0
    } else if index < len {
        index
    } else {
        len - 1
    }
}

impl SettingsControl {
    /// A control that gives its command when it is activated.
    pub fn new(label: &'static str, binding: ControlBinding) -> (r: Self)
        ensures
            r@ == (ControlModel { label: label@, binding, kind: KindModel::Action }),
            r.control_type.wf(),
    {
        SettingsControl { label, binding, control_type: ControlType::Action }
    }

    /// A control of the given kind.
    pub fn with_type(
        label: &'static str,
        binding: ControlBinding,
        control_type: ControlType,
    ) -> (r: Self)
        ensures
            r@ == (ControlModel { label: label@, binding, kind: control_type@ }),
            r.control_type == control_type,
    {
        SettingsControl { label, binding, control_type }
    }
}

impl SettingsSection {
    pub fn new(
        id: &'static str,
        title: &'static str,
        controls: Vec<SettingsControl>,
    ) -> (r: Self)
        ensures
            r@ == (SectionModel { id: id@, title: title@, controls: control_models(controls@) }),
            r.controls == controls,
    {
        SettingsSection { id, title, controls }
    }

    /// Every control is well formed.
    pub open spec fn wf(&self) -> bool {
        forall|j: int|
            0 <= j < self.controls@.len() ==> (#[trigger] self.controls@[j]).control_type.wf()
    }
}

impl ControlBinding {
    /// The command that a control with this binding gives when it has no
    /// value of its own to send along.
    pub open spec fn command_model(self) -> CommandModel {
        match self {
            ControlBinding::TogglePaneHeaders => CommandModel::TogglePaneHeaders,
            ControlBinding::ToggleStatusBar => CommandModel::ToggleStatusBar,
            ControlBinding::ToggleTabBar => CommandModel::ToggleTabBar,
            ControlBinding::ApplyThemePreset(p) => CommandModel::ApplyThemePreset(p),
            ControlBinding::EditorChainEntry(i) => CommandModel::EditorChainRemove(i as int),
            ControlBinding::FolderOpenerEntry(i) => CommandModel::FolderOpenerRemove(i as int),
            ControlBinding::FolderPaneCommand => CommandModel::SetFolderPaneCommand(Seq::empty()),
            ControlBinding::DefaultShell => CommandModel::SetDefaultShell(Seq::empty()),
            ControlBinding::ShellArgs => CommandModel::SetShellArgs(Seq::empty()),
            ControlBinding::NewPaneCwd => CommandModel::SetNewPaneCwd(0),
            ControlBinding::ToggleHighContrast => CommandModel::ToggleHighContrast,
            ControlBinding::ToggleReducedMotion => CommandModel::ToggleReducedMotion,
            ControlBinding::UiTextScale => CommandModel::SetUiTextScale(0),
        }
    }

    /// The command that a confirmed text field with this binding gives.
    pub open spec fn text_command_model(self, value: Seq<char>) -> CommandModel {
        match self {
            ControlBinding::FolderPaneCommand => CommandModel::SetFolderPaneCommand(value),
            ControlBinding::DefaultShell => CommandModel::SetDefaultShell(value),
            ControlBinding::ShellArgs => CommandModel::SetShellArgs(value),
            _ => self.command_model(),
        }
    }

    /// The command that a choice with this binding gives.
    pub open spec fn select_command_model(self, selected: int) -> CommandModel {
        match self {
            ControlBinding::NewPaneCwd => CommandModel::SetNewPaneCwd(selected),
            ControlBinding::UiTextScale => CommandModel::SetUiTextScale(selected),
            _ => self.command_model(),
        }
    }

    pub fn command(&self) -> (r: SettingsCommand)
        ensures
            r@ == self.command_model(),
    {
        match self {
            ControlBinding::TogglePaneHeaders => SettingsCommand::TogglePaneHeaders,
            ControlBinding::ToggleStatusBar => SettingsCommand::ToggleStatusBar,
            ControlBinding::ToggleTabBar => SettingsCommand::ToggleTabBar,
            ControlBinding::ApplyThemePreset(preset) => SettingsCommand::ApplyThemePreset(*preset),
            ControlBinding::EditorChainEntry(idx) => SettingsCommand::EditorChainRemove(*idx),
            ControlBinding::FolderOpenerEntry(idx) => SettingsCommand::FolderOpenerRemove(*idx),
            ControlBinding::FolderPaneCommand => SettingsCommand::SetFolderPaneCommand(
                String::new(),
            ),
            ControlBinding::DefaultShell => SettingsCommand::SetDefaultShell(String::new()),
            ControlBinding::ShellArgs => SettingsCommand::SetShellArgs(String::new()),
            ControlBinding::NewPaneCwd => SettingsCommand::SetNewPaneCwd(0),
            ControlBinding::ToggleHighContrast => SettingsCommand::ToggleHighContrast,
            ControlBinding::ToggleReducedMotion => SettingsCommand::ToggleReducedMotion,
            ControlBinding::UiTextScale => SettingsCommand::SetUiTextScale(0),
        }
    }
}

impl ThemePreset {
    pub open spec fn label_model(self) -> Seq<char> {
        match self {
            ThemePreset::OriginalTherminal => "Original Therminal (default)"@,
            ThemePreset::Paper => "Paper (light)"@,
            ThemePreset::TokyoNightLight => "Tokyo Night Light (light)"@,
            ThemePreset::TomorrowNightBright => "Tomorrow Night Bright (dark)"@,
            ThemePreset::HemisuDark => "Hemisu Dark (dark)"@,
        }
    }

    pub open spec fn menu_label_model(self) -> Seq<char> {
        match self {
            ThemePreset::OriginalTherminal => "Original Therminal"@,
            ThemePreset::Paper => "Paper"@,
            ThemePreset::TokyoNightLight => "Tokyo Night Light"@,
            ThemePreset::TomorrowNightBright => "Tomorrow Night Bright"@,
            ThemePreset::HemisuDark => "Hemisu Dark"@,
        }
    }

    pub fn label(self) -> (r: &'static str)
        ensures
            r@ == self.label_model(),
    {
        match self {
            ThemePreset::OriginalTherminal => "Original Therminal (default)",
            ThemePreset::Paper => "Paper (light)",
            ThemePreset::TokyoNightLight => "Tokyo Night Light (light)",
            ThemePreset::TomorrowNightBright => "Tomorrow Night Bright (dark)",
            ThemePreset::HemisuDark => "Hemisu Dark (dark)",
        }
    }

    pub fn menu_label(self) -> (r: &'static str)
        ensures
            r@ == self.menu_label_model(),
    {
        match self {
            ThemePreset::OriginalTherminal => "Original Therminal",
            ThemePreset::Paper => "Paper",
            ThemePreset::TokyoNightLight => "Tokyo Night Light",
            ThemePreset::TomorrowNightBright => "Tomorrow Night Bright",
            ThemePreset::HemisuDark => "Hemisu Dark",
        }
    }
}

} // verus!
