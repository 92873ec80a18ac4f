//! The sections of the overlay and how they follow the configuration.
use super::{
    ControlBinding, ControlModel, ControlType, KindModel, OverlayModel, SectionModel,
    SettingsControl, SettingsFocus, SettingsOverlayState, SettingsSection, ThemePreset,
};
use crate::text;
use vstd::prelude::*;

verus! {

/// The values of the configuration that the overlay shows.
#[derive(Debug, Clone)]
pub struct SettingsRenderValues {
    pub show_pane_headers: bool,
    pub show_status_bar: bool,
    pub show_tab_bar: bool,
    pub editor_chain: Vec<String>,
    pub folder_pane_command: Vec<String>,
    pub folder_opener: Vec<String>,
    pub shell: String,
    pub shell_args: String,
    pub new_pane_cwd_index: usize,
    pub high_contrast: bool,
    pub reduced_motion: bool,
    pub ui_text_scale_index: usize,
}

/// The decimal digits of a number below one hundred.
pub open spec fn two_digits(n: int) -> Seq<char> {
    if n < 10 {
        seq![(48 + n) as char]
    } else {
        seq![(48 + n / 10) as char, (48 + n % 10) as char]
    }
}

/// `prefix` and the position counted from one, or a question mark from the
/// seventeenth entry on.
pub open spec fn numbered(prefix: Seq<char>, index: int) -> Seq<char> {
    if index < 16 {
        prefix + two_digits(index + 1)
    } else {
        prefix + seq!['?']
    }
}

/// The label of the entry `index` of the editor chain.
pub fn editor_chain_label(index: usize) -> (r: &'static str)
    ensures
        r@ == numbered("Editor #"@, index as int),
{
    proof {
        reveal_strlit("Editor #");
        reveal_strlit("Editor #1");
        reveal_strlit("Editor #2");
        reveal_strlit("Editor #3");
        reveal_strlit("Editor #4");
        reveal_strlit("Editor #5");
        reveal_strlit("Editor #6");
        reveal_strlit("Editor #7");
        reveal_strlit("Editor #8");
        reveal_strlit("Editor #9");
        reveal_strlit("Editor #10");
        reveal_strlit("Editor #11");
        reveal_strlit("Editor #12");
        reveal_strlit("Editor #13");
        reveal_strlit("Editor #14");
        reveal_strlit("Editor #15");
        reveal_strlit("Editor #16");
        reveal_strlit("Editor #?");
    }
    let label: &'static str = match index {
        0 => "Editor #1",
        1 => "Editor #2",
        2 => "Editor #3",
        3 => "Editor #4",
        4 => "Editor #5",
        5 => "Editor #6",
        6 => "Editor #7",
        7 => "Editor #8",
        8 => "Editor #9",
        9 => "Editor #10",
        10 => "Editor #11",
        11 => "Editor #12",
        12 => "Editor #13",
        13 => "Editor #14",
        14 => "Editor #15",
        15 => "Editor #16",
        _ => "Editor #?",
    };
    assert(label@ =~= numbered("Editor #"@, index as int));
    label
}

/// The label of the entry `index` of the folder openers.
pub fn folder_opener_label(index: usize) -> (r: &'static str)
    ensures
        r@ == numbered("Opener #"@, index as int),
{
    proof {
        reveal_strlit("Opener #");
        reveal_strlit("Opener #1");
        reveal_strlit("Opener #2");
        reveal_strlit("Opener #3");
        reveal_strlit("Opener #4");
        reveal_strlit("Opener #5");
        reveal_strlit("Opener #6");
        reveal_strlit("Opener #7");
        reveal_strlit("Opener #8");
        reveal_strlit("Opener #9");
        reveal_strlit("Opener #10");
        reveal_strlit("Opener #11");
        reveal_strlit("Opener #12");
        reveal_strlit("Opener #13");
        reveal_strlit("Opener #14");
        reveal_strlit("Opener #15");
        reveal_strlit("Opener #16");
        reveal_strlit("Opener #?");
    }
    let label: &'static str = match index {
        0 => "Opener #1",
        1 => "Opener #2",
        2 => "Opener #3",
        3 => "Opener #4",
        4 => "Opener #5",
        5 => "Opener #6",
        6 => "Opener #7",
        7 => "Opener #8",
        8 => "Opener #9",
        9 => "Opener #10",
        10 => "Opener #11",
        11 => "Opener #12",
        12 => "Opener #13",
        13 => "Opener #14",
        14 => "Opener #15",
        15 => "Opener #16",
        _ => "Opener #?",
    };
    assert(label@ =~= numbered("Opener #"@, index as int));
    label
}

/// The texts with one space between neighbours.
pub open spec fn joined(parts: Seq<Seq<char>>) -> Seq<char>
    decreases parts.len(),
{
    if parts.len() == 0 {
        Seq::empty()
    } else if parts.len() == 1 {
        parts[0]
    } else {
        joined(parts.drop_last()).push(' ') + parts.last()
    }
}

fn join(parts: &Vec<String>) -> (r: String)
    ensures
        r@ == joined(text::texts(parts@)),
{
    let mut out = String::new();
    let mut i: usize = 0;
    let ghost all = text::texts(parts@);
    while i < parts.len()
        invariant
            i <= parts@.len(),
            all == text::texts(parts@),
            out@ == joined(all.take(i as int)),
        decreases parts@.len() - i,
    {
        if i > 0 {
            out.push(' ');
        }
        out.append(parts[i].as_str());
        proof {
            assert(all.take(i as int + 1).drop_last() =~= all.take(i as int));
            assert(all.take(i as int + 1).last() == all[i as int]);
            if i == 0 {
                assert(out@ =~= all[0]);
            }
        }
        i += 1;
    }
    assert(all.take(i as int) =~= all);
    out
}

/// A row of a configured list.
pub open spec fn row_model(
    label: Seq<char>,
    binding: ControlBinding,
    text: Seq<char>,
) -> ControlModel {
    ControlModel { label, binding, kind: KindModel::ListRow { text } }
}

/// A text field that is not being edited, with the cursor at its end.
pub open spec fn field_model(
    label: Seq<char>,
    binding: ControlBinding,
    text: Seq<char>,
) -> ControlModel {
    ControlModel {
        label,
        binding,
        kind: KindModel::TextInput { text, cursor: text.len() as int, editing: false },
    }
}

pub open spec fn toggle_model(
    label: Seq<char>,
    binding: ControlBinding,
    value: bool,
) -> ControlModel {
    ControlModel { label, binding, kind: KindModel::Toggle { value } }
}

pub open spec fn choice_model(
    label: Seq<char>,
    binding: ControlBinding,
    options: Seq<Seq<char>>,
    initial: int,
) -> ControlModel {
    ControlModel {
        label,
        binding,
        kind: KindModel::Select {
            options,
            selected: super::clamped(initial, options.len() as int),
        },
    }
}

pub open spec fn editor_rows(chain: Seq<Seq<char>>) -> Seq<ControlModel> {
    Seq::new(
        chain.len(),
        |i: int|
            row_model(
                numbered("Editor #"@, i),
                ControlBinding::EditorChainEntry(i as usize),
                chain[i],
            ),
    )
}

pub open spec fn opener_rows(openers: Seq<Seq<char>>) -> Seq<ControlModel> {
    Seq::new(
        openers.len(),
        |i: int|
            row_model(
                numbered("Opener #"@, i),
                ControlBinding::FolderOpenerEntry(i as usize),
                openers[i],
            ),
    )
}

/// The controls of the hotspots section: the editor chain, the command of a
/// folder pane, the folder openers.
pub open spec fn hotspot_controls(values: SettingsRenderValues) -> Seq<ControlModel> {
    editor_rows(text::texts(values.editor_chain@)).push(
        field_model(
            "Folder pane command"@,
            ControlBinding::FolderPaneCommand,
            joined(text::texts(values.folder_pane_command@)),
        ),
    ) + opener_rows(text::texts(values.folder_opener@))
}

/// Where a new pane starts.
pub open spec fn cwd_options() -> Seq<Seq<char>> {
    seq!["Inherit from focused pane"@, "Home directory"@]
}

/// The controls of the shell section.
pub open spec fn shell_controls(values: SettingsRenderValues) -> Seq<ControlModel> {
    seq![
        field_model("Default shell"@, ControlBinding::DefaultShell, values.shell@),
        field_model("Shell arguments"@, ControlBinding::ShellArgs, values.shell_args@),
        choice_model(
            "New pane cwd"@,
            ControlBinding::NewPaneCwd,
            cwd_options(),
            values.new_pane_cwd_index as int,
        ),
    ]
}

/// The offered scales of the text.
pub open spec fn scale_options() -> Seq<Seq<char>> {
    seq!["75%"@, "100%"@, "125%"@, "150%"@, "200%"@, "250%"@, "300%"@]
}

/// The controls of the accessibility section.
pub open spec fn accessibility_controls(values: SettingsRenderValues) -> Seq<ControlModel> {
    seq![
        toggle_model(
            "High contrast mode"@,
            ControlBinding::ToggleHighContrast,
            values.high_contrast,
        ),
        toggle_model(
            "Reduced motion"@,
            ControlBinding::ToggleReducedMotion,
            values.reduced_motion,
        ),
        choice_model(
            "UI text scale"@,
            ControlBinding::UiTextScale,
            scale_options(),
            values.ui_text_scale_index as int,
        ),
    ]
}

/// The controls of the layout section before any configuration is known.
pub open spec fn layout_controls() -> Seq<ControlModel> {
    seq![
        toggle_model("Show pane headers"@, ControlBinding::TogglePaneHeaders, true),
        toggle_model("Show status bar"@, ControlBinding::ToggleStatusBar, true),
        toggle_model("Show tab bar"@, ControlBinding::ToggleTabBar, true),
    ]
}

pub open spec fn theme_control(preset: ThemePreset) -> ControlModel {
    ControlModel {
        label: preset.menu_label_model(),
        binding: ControlBinding::ApplyThemePreset(preset),
        kind: KindModel::Action,
    }
}

/// One control per theme.
pub open spec fn theme_controls() -> Seq<ControlModel> {
    seq![
        theme_control(ThemePreset::OriginalTherminal),
        theme_control(ThemePreset::Paper),
        theme_control(ThemePreset::TokyoNightLight),
        theme_control(ThemePreset::TomorrowNightBright),
        theme_control(ThemePreset::HemisuDark),
    ]
}

/// The overlay before any configuration is known.
pub open spec fn default_overlay() -> OverlayModel {
    OverlayModel {
        sections: seq![
            SectionModel { id: "layout"@, title: "Layout"@, controls: layout_controls() },
            SectionModel { id: "shell"@, title: "Shell"@, controls: seq![] },
            SectionModel { id: "hotspots"@, title: "Hotspots"@, controls: seq![] },
            SectionModel { id: "themes"@, title: "Theme Presets"@, controls: theme_controls() },
            SectionModel { id: "accessibility"@, title: "Accessibility"@, controls: seq![] },
        ],
        section: 0,
        picks: seq![0, 0, 0, 0, 0],
        focus: SettingsFocus::Navigation,
    }
}

/// A list of well formed controls.
pub open spec fn controls_wf(v: Seq<SettingsControl>) -> bool {
    forall|j: int| 0 <= j < v.len() ==> (#[trigger] v[j]).control_type.wf()
}

fn hotspots(values: &SettingsRenderValues) -> (r: Vec<SettingsControl>)
    ensures
        super::control_models(r@) == hotspot_controls(*values),
        controls_wf(r@),
{
    let mut controls: Vec<SettingsControl> = Vec::new();
    let ghost chain = text::texts(values.editor_chain@);
    let ghost openers = text::texts(values.folder_opener@);
    let mut i: usize = 0;
    while i < values.editor_chain.len()
        invariant
            i <= values.editor_chain@.len(),
            chain == text::texts(values.editor_chain@),
            super::control_models(controls@) == editor_rows(chain).take(i as int),
            controls_wf(controls@),
        decreases values.editor_chain@.len() - i,
    {
        let ghost before = controls@;
        controls.push(
            SettingsControl::with_type(
                editor_chain_label(i),
                ControlBinding::EditorChainEntry(i),
                ControlType::list_row(values.editor_chain[i].clone()),
            ),
        );
        proof {
            assert(super::control_models(controls@) =~= super::control_models(before).push(
                controls@.last()@,
            ));
            assert(editor_rows(chain).take(i as int + 1) =~= editor_rows(chain).take(
                i as int,
            ).push(editor_rows(chain)[i as int]));
        }
        i += 1;
    }
    let ghost rows = controls@;
    controls.push(
        SettingsControl::with_type(
            "Folder pane command",
            ControlBinding::FolderPaneCommand,
            ControlType::text_input(join(&values.folder_pane_command)),
        ),
    );
    let ghost head = super::control_models(controls@);
    proof {
        assert(editor_rows(chain).take(i as int) =~= editor_rows(chain));
        assert(head =~= super::control_models(rows).push(controls@.last()@));
        assert(opener_rows(openers).take(0) =~= Seq::<ControlModel>::empty());
        assert(head + opener_rows(openers).take(0) =~= head);
    }
    let mut k: usize = 0;
    while k < values.folder_opener.len()
        invariant
            k <= values.folder_opener@.len(),
            openers == text::texts(values.folder_opener@),
            super::control_models(controls@) == head + opener_rows(openers).take(k as int),
            controls_wf(controls@),
        decreases values.folder_opener@.len() - k,
    {
        let ghost before = controls@;
        controls.push(
            SettingsControl::with_type(
                folder_opener_label(k),
                ControlBinding::FolderOpenerEntry(k),
                ControlType::list_row(values.folder_opener[k].clone()),
            ),
        );
        proof {
            assert(super::control_models(controls@) =~= super::control_models(before).push(
                controls@.last()@,
            ));
            assert(opener_rows(openers).take(k as int + 1) =~= opener_rows(openers).take(
                k as int,
            ).push(opener_rows(openers)[k as int]));
            assert(super::control_models(controls@) =~= head + opener_rows(openers).take(
                k as int + 1,
            ));
        }
        k += 1;
    }
    assert(opener_rows(openers).take(k as int) =~= opener_rows(openers));
    controls
}

fn shell(values: &SettingsRenderValues) -> (r: Vec<SettingsControl>)
    ensures
        super::control_models(r@) == shell_controls(*values),
        controls_wf(r@),
{
    let mut options: Vec<String> = Vec::new();
    options.push(String::from_str("Inherit from focused pane"));
    options.push(String::from_str("Home directory"));
    assert(text::texts(options@) =~= cwd_options());
    let mut controls: Vec<SettingsControl> = Vec::new();
    controls.push(
        SettingsControl::with_type(
            "Default shell",
            ControlBinding::DefaultShell,
            ControlType::text_input(values.shell.clone()),
        ),
    );
    controls.push(
        SettingsControl::with_type(
            "Shell arguments",
            ControlBinding::ShellArgs,
            ControlType::text_input(values.shell_args.clone()),
        ),
    );
    controls.push(
        SettingsControl::with_type(
            "New pane cwd",
            ControlBinding::NewPaneCwd,
            ControlType::select(options, values.new_pane_cwd_index),
        ),
    );
    assert(super::control_models(controls@) =~= shell_controls(*values));
    controls
}

fn accessibility(values: &SettingsRenderValues) -> (r: Vec<SettingsControl>)
    ensures
        super::control_models(r@) == accessibility_controls(*values),
        controls_wf(r@),
{
    let mut options: Vec<String> = Vec::new();
    options.push(String::from_str("75%"));
    options.push(String::from_str("100%"));
    options.push(String::from_str("125%"));
    options.push(String::from_str("150%"));
    options.push(String::from_str("200%"));
    options.push(String::from_str("250%"));
    options.push(String::from_str("300%"));
    assert(text::texts(options@) =~= scale_options());
    let mut controls: Vec<SettingsControl> = Vec::new();
    controls.push(
        SettingsControl::with_type(
            "High contrast mode",
            ControlBinding::ToggleHighContrast,
            ControlType::toggle(values.high_contrast),
        ),
    );
    controls.push(
        SettingsControl::with_type(
            "Reduced motion",
            ControlBinding::ToggleReducedMotion,
            ControlType::toggle(values.reduced_motion),
        ),
    );
    controls.push(
        SettingsControl::with_type(
            "UI text scale",
            ControlBinding::UiTextScale,
            ControlType::select(options, values.ui_text_scale_index),
        ),
    );
    assert(super::control_models(controls@) =~= accessibility_controls(*values));
    controls
}

fn layout() -> (r: Vec<SettingsControl>)
    ensures
        super::control_models(r@) == layout_controls(),
        controls_wf(r@),
{
    let mut controls: Vec<SettingsControl> = Vec::new();
    controls.push(
        SettingsControl::with_type(
            "Show pane headers",
            ControlBinding::TogglePaneHeaders,
            ControlType::toggle(true),
        ),
    );
    controls.push(
        SettingsControl::with_type(
            "Show status bar",
            ControlBinding::ToggleStatusBar,
            ControlType::toggle(true),
        ),
    );
    controls.push(
        SettingsControl::with_type(
            "Show tab bar",
            ControlBinding::ToggleTabBar,
            ControlType::toggle(true),
        ),
    );
    assert(super::control_models(controls@) =~= layout_controls());
    controls
}

fn theme_choice(preset: ThemePreset) -> (r: SettingsControl)
    ensures
        r@ == theme_control(preset),
        r.control_type.wf(),
{
    SettingsControl::new(preset.menu_label(), ControlBinding::ApplyThemePreset(preset))
}

fn themes() -> (r: Vec<SettingsControl>)
    ensures
        super::control_models(r@) == theme_controls(),
        controls_wf(r@),
{
    let mut controls: Vec<SettingsControl> = Vec::new();
    controls.push(theme_choice(ThemePreset::OriginalTherminal));
    controls.push(theme_choice(ThemePreset::Paper));
    controls.push(theme_choice(ThemePreset::TokyoNightLight));
    controls.push(theme_choice(ThemePreset::TomorrowNightBright));
    controls.push(theme_choice(ThemePreset::HemisuDark));
    assert(super::control_models(controls@) =~= theme_controls());
    controls
}

impl SettingsOverlayState {
    /// The overlay with its default sections.
    pub fn new() -> (r: Self)
        ensures
            r.wf(),
            r@ == default_overlay(),
    {
        let mut s = SettingsOverlayState {
            sections: Vec::new(),
            selected_section: 0,
            selected_control_by_section: Vec::new(),
            focus: SettingsFocus::Navigation,
        };
        s.seed_defaults();
        s
    }

    /// Registers the default sections on an overlay without sections.
    pub(crate) fn seed_defaults(&mut self)
        requires
            old(self).wf(),
            old(self)@.sections.len() == 0,
            old(self)@.focus == SettingsFocus::Navigation,
        ensures
            final(self).wf(),
            final(self)@ == default_overlay(),
    {
        self.register_section(SettingsSection::new("layout", "Layout", layout()));
        self.register_section(SettingsSection::new("shell", "Shell", Vec::new()));
        self.register_section(SettingsSection::new("hotspots", "Hotspots", Vec::new()));
        self.register_section(SettingsSection::new("themes", "Theme Presets", themes()));
        self.register_section(SettingsSection::new("accessibility", "Accessibility", Vec::new()));
        proof {
            let d = default_overlay();
            assert(self@.sections.len() == 5);
            assert(super::control_models(Seq::empty()) =~= Seq::<ControlModel>::empty());
            assert(self@.sections =~= d.sections);
            assert(self@.picks =~= d.picks);
            assert(self@ =~= d);
        }
    }
}

impl Default for SettingsOverlayState {
    fn default() -> (r: Self)
        ensures
            r.wf(),
            r@ == default_overlay(),
    {
        SettingsOverlayState::new()
    }
}

/// The first section at or behind `from` with the given id, or the number of
/// sections where there is none.
pub open spec fn section_index(sections: Seq<SectionModel>, id: Seq<char>, from: int) -> int
    decreases sections.len() - from,
{
    if from >= sections.len() {
        sections.len() as int
    } else if sections[from].id == id {
        from
    } else {
        section_index(sections, id, from + 1)
    }
}

impl ControlModel {
    /// A toggle follows the configured value that it is bound to.
    pub open spec fn synced(self, values: SettingsRenderValues) -> ControlModel {
        let configured = match self.binding {
            ControlBinding::TogglePaneHeaders => Some(values.show_pane_headers),
            ControlBinding::ToggleStatusBar => Some(values.show_status_bar),
            ControlBinding::ToggleTabBar => Some(values.show_tab_bar),
            ControlBinding::ToggleHighContrast => Some(values.high_contrast),
            ControlBinding::ToggleReducedMotion => Some(values.reduced_motion),
            _ => None,
        };
        if self.kind is Toggle && configured is Some {
            ControlModel { kind: KindModel::Toggle { value: configured->0 }, ..self }
        } else {
            self
        }
    }
}

impl OverlayModel {
    /// The first section with the given id holds `controls`; its selection
    /// stays, as far as there are controls. Without such a section nothing
    /// changes.
    pub open spec fn with_controls(
        self,
        id: Seq<char>,
        controls: Seq<ControlModel>,
    ) -> OverlayModel {
        let i = section_index(self.sections, id, 0);
        if i < self.sections.len() {
            OverlayModel {
                sections: self.sections.update(
                    i,
                    SectionModel { controls, ..self.sections[i] },
                ),
                picks: self.picks.update(
                    i,
                    super::clamped(self.picks[i], controls.len() as int),
                ),
                ..self
            }
        } else {
            self
        }
    }

    /// Every toggle follows the configuration.
    pub open spec fn with_toggles(self, values: SettingsRenderValues) -> OverlayModel {
        OverlayModel {
            sections: Seq::new(
                self.sections.len(),
                |i: int|
                    SectionModel {
                        controls: Seq::new(
                            self.sections[i].controls.len(),
                            |j: int| self.sections[i].controls[j].synced(values),
                        ),
                        ..self.sections[i]
                    },
            ),
            ..self
        }
    }

    /// The overlay follows the configuration.
    pub open spec fn synced(self, values: SettingsRenderValues) -> OverlayModel {
        self.with_toggles(values).with_controls(
            "hotspots"@,
            hotspot_controls(values),
        ).with_controls("shell"@, shell_controls(values)).with_controls(
            "accessibility"@,
            accessibility_controls(values),
        )
    }
}

/// Sets every toggle among `controls` to the configured value.
fn sync_toggles(controls: &mut Vec<SettingsControl>, values: &SettingsRenderValues)
    requires
        controls_wf(old(controls)@),
    ensures
        controls_wf(final(controls)@),
        final(controls)@.len() == old(controls)@.len(),
        forall|j: int|
            0 <= j < final(controls)@.len() ==> (#[trigger] final(controls)@[j])@ == old(
                controls,
            )@[j]@.synced(*values),
{
    let mut j: usize = 0;
    while j < controls.len()
        invariant
            j <= controls@.len(),
            controls@.len() == old(controls)@.len(),
            controls_wf(old(controls)@),
            forall|m: int|
                0 <= m < j ==> (#[trigger] controls@[m])@ == old(controls)@[m]@.synced(*values)
                    && controls@[m].control_type.wf(),
            forall|m: int|
                j <= m < controls@.len() ==> #[trigger] controls@[m] == old(controls)@[m],
        decreases controls@.len() - j,
    {
        assert(old(controls)@[j as int].control_type.wf());
        let configured: Option<bool> = match controls[j].binding {
            ControlBinding::TogglePaneHeaders => Some(values.show_pane_headers),
            ControlBinding::ToggleStatusBar => Some(values.show_status_bar),
            ControlBinding::ToggleTabBar => Some(values.show_tab_bar),
            ControlBinding::ToggleHighContrast => Some(values.high_contrast),
            ControlBinding::ToggleReducedMotion => Some(values.reduced_motion),
            _ => None,
        };
        if let Some(setting) = configured {
            if let ControlType::Toggle { value } = &mut controls[j].control_type {
                *value = setting;
            }
        }
        j += 1;
    }
}

impl SettingsOverlayState {
    /// The position of the first section with the given id.
    fn position_of(&self, id: &str) -> (r: Option<usize>)
        ensures
            r is Some <==> section_index(self@.sections, id@, 0) < self@.sections.len(),
            r matches Some(i) ==> i == section_index(self@.sections, id@, 0),
    {
        let mut i: usize = 0;
        while i < self.sections.len()
            invariant
                i <= self.sections@.len(),
                section_index(self@.sections, id@, 0) == section_index(
                    self@.sections,
                    id@,
                    i as int,
                ),
            decreases self.sections@.len() - i,
        {
            if text::str_eq(self.sections[i].id, id) {
                return Some(i);
            }
            i += 1;
        }
        None
    }

    /// Gives the first section with the given id new controls.
    fn replace_controls(&mut self, id: &str, controls: Vec<SettingsControl>)
        requires
            old(self).wf(),
            controls_wf(controls@),
        ensures
            final(self).wf(),
            final(self)@ == old(self)@.with_controls(id@, super::control_models(controls@)),
    {
        let i: usize = match self.position_of(id) {
            Some(i) => i,
            None => {
                return;
            },
        };
        let len: usize = controls.len();
        let prev: usize = self.selected_control_by_section[i];
        self.sections[i].controls = controls;
        self.selected_control_by_section[i] = if len == 0 {
            0
        } else if prev < len {
            prev
        } else {
            len - 1
        };
        proof {
            let m = old(self)@.with_controls(id@, super::control_models(controls@));
            assert(self@.sections =~= m.sections);
            assert(self@.picks =~= m.picks);
            assert(self@ =~= m);
            assert forall|k: int| 0 <= k < self@.sections.len() implies super::in_range_or_zero(
                #[trigger] self@.picks[k],
                self@.sections[k].controls.len() as int,
            ) by {
                assert(super::in_range_or_zero(
                    old(self)@.picks[k],
                    old(self)@.sections[k].controls.len() as int,
                ));
            }
            assert forall|k: int| 0 <= k < self.sections@.len() implies (
            #[trigger] self.sections@[k]).wf() by {
                assert(old(self).sections@[k].wf());
            }
        }
    }

    pub(crate) fn rebuild_hotspots_section(&mut self, values: &SettingsRenderValues)
        requires
            old(self).wf(),
        ensures
            final(self).wf(),
            final(self)@ == old(self)@.with_controls("hotspots"@, hotspot_controls(*values)),
    {
        self.replace_controls("hotspots", hotspots(values));
    }

    pub(crate) fn rebuild_shell_section(&mut self, values: &SettingsRenderValues)
        requires
            old(self).wf(),
        ensures
            final(self).wf(),
            final(self)@ == old(self)@.with_controls("shell"@, shell_controls(*values)),
    {
        self.replace_controls("shell", shell(values));
    }

    pub(crate) fn rebuild_accessibility_section(&mut self, values: &SettingsRenderValues)
        requires
            old(self).wf(),
        ensures
            final(self).wf(),
            final(self)@ == old(self)@.with_controls(
                "accessibility"@,
                accessibility_controls(*values),
            ),
    {
        self.replace_controls("accessibility", accessibility(values));
    }

    /// Makes the toggles, the hotspots, the shell and the accessibility
    /// section follow the configuration.
    pub fn sync_toggle_values(&mut self, values: &SettingsRenderValues)
        requires
            old(self).wf(),
        ensures
            final(self).wf(),
            final(self)@ == old(self)@.synced(*values),
    {
        let mut k: usize = 0;
        while k < self.sections.len()
            invariant
                old(self).wf(),
                k <= self.sections@.len(),
                self.sections@.len() == old(self).sections@.len(),
                self.selected_section == old(self).selected_section,
                self.selected_control_by_section == old(self).selected_control_by_section,
                self.focus == old(self).focus,
                forall|m: int|
                    0 <= m < k ==> (#[trigger] self.sections@[m])@ == old(self)@.with_toggles(
                        *values,
                    ).sections[m] && self.sections@[m].wf(),
                forall|m: int|
                    k <= m < self.sections@.len() ==> #[trigger] self.sections@[m]
                        == old(self).sections@[m],
            decreases self.sections@.len() - k,
        {
            assert(old(self).sections@[k as int].wf());
            sync_toggles(&mut self.sections[k].controls, values);
            proof {
                assert(self.sections@[k as int]@.controls =~= old(self)@.with_toggles(
                    *values,
                ).sections[k as int].controls);
            }
            k += 1;
        }
        proof {
            let m = old(self)@.with_toggles(*values);
            assert(self@.sections =~= m.sections);
            assert(self@ =~= m);
            assert forall|i: int| 0 <= i < self@.sections.len() implies super::in_range_or_zero(
                #[trigger] self@.picks[i],
                self@.sections[i].controls.len() as int,
            ) by {
                assert(super::in_range_or_zero(
                    old(self)@.picks[i],
                    old(self)@.sections[i].controls.len() as int,
                ));
            }
        }
        self.rebuild_hotspots_section(values);
        self.rebuild_shell_section(values);
        self.rebuild_accessibility_section(values);
    }
}

} // verus!
