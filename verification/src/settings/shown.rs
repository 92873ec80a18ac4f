//! What the overlay shows of the configuration, control by control.
use super::sections;
use super::sections::SettingsRenderValues;
use super::{
    CommandModel, ControlBinding, ControlModel, KindModel, OverlayModel, SectionModel,
    SettingsFocus, ThemePreset,
};
use vstd::prelude::*;

verus! {

/// Whether `i` is the first section with the given id.
pub open spec fn first_with(m: OverlayModel, id: Seq<char>, i: int) -> bool {
    &&& 0 <= i < m.sections.len()
    &&& m.sections[i].id == id
    &&& forall|k: int| 0 <= k < i ==> (#[trigger] m.sections[k]).id != id
}

proof fn lemma_first_with(m: OverlayModel, id: Seq<char>, i: int, from: int)
    requires
        first_with(m, id, i),
        0 <= from <= i,
    ensures
        sections::section_index(m.sections, id, from) == i,
    decreases i - from,
{
    if from < i {
        lemma_first_with(m, id, i, from + 1);
    }
}

/// A text field that holds `text`, with the cursor at its end and not being edited.
pub open spec fn holds_text(c: ControlModel, text: Seq<char>) -> bool {
    c.kind == (KindModel::TextInput { text, cursor: text.len() as int, editing: false })
}

/// Once the overlay follows a configuration, its shell section holds a text field
/// with the configured shell, one with its arguments, and the choice of the folder
/// of a new pane.
pub proof fn law_shell_section_shows_the_shell(
    m: OverlayModel,
    values: SettingsRenderValues,
    i: int,
    j: int,
)
    requires
        first_with(m, "shell"@, i),
        0 <= j < m.synced(values).sections[i].controls.len(),
    ensures
        ({
            let c = m.synced(values).sections[i].controls[j];
            &&& c.binding == ControlBinding::DefaultShell <==> j == 0
            &&& c.binding == ControlBinding::ShellArgs <==> j == 1
            &&& c.binding == ControlBinding::NewPaneCwd <==> j == 2
            &&& j < 3
            &&& c.binding == ControlBinding::DefaultShell ==> holds_text(c, values.shell@)
                && c.label == "Default shell"@
            &&& c.binding == ControlBinding::ShellArgs ==> holds_text(c, values.shell_args@)
                && c.label == "Shell arguments"@
            &&& c.binding == ControlBinding::NewPaneCwd ==> {
                &&& c.label == "New pane cwd"@
                &&& c.kind matches KindModel::Select { options, selected }
                &&& options.len() == 2
                &&& options[0] == "Inherit from focused pane"@
                &&& options[1] == "Home directory"@
                &&& selected == if values.new_pane_cwd_index == 0 {
                    0int
                } else {
                    1int
                }
            }
        }),
        m.synced(values).sections[i].controls.len() == 3,
{
    lemma_first_with(m, "shell"@, i, 0);
    super::laws::law_sync_shows_configuration(m, values);
    lemma_same_place(m, values, "shell"@);
}

proof fn lemma_same_place(m: OverlayModel, values: SettingsRenderValues, id: Seq<char>)
    ensures
        sections::section_index(m.synced(values).sections, id, 0) == sections::section_index(
            m.sections,
            id,
            0,
        ),
        m.synced(values).sections.len() == m.sections.len(),
{
    let n = m.synced(values);
    lemma_ids_stay(m, values);
    lemma_index_by_ids(n.sections, m.sections, id, 0);
}

proof fn lemma_ids_stay(m: OverlayModel, values: SettingsRenderValues)
    ensures
        m.synced(values).sections.len() == m.sections.len(),
        forall|k: int|
            0 <= k < m.sections.len() ==> (#[trigger] m.synced(values).sections[k]).id
                == m.sections[k].id && m.synced(values).sections[k].title == m.sections[k].title,
        forall|k: int|
            0 <= k < m.sections.len() ==> {
                let now = (#[trigger] m.synced(values).sections[k]);
                ||| now == m.with_toggles(values).sections[k]
                ||| now.controls == sections::hotspot_controls(values)
                ||| now.controls == sections::shell_controls(values)
                ||| now.controls == sections::accessibility_controls(values)
            },
{
    let t = m.with_toggles(values);
    let a = t.with_controls("hotspots"@, sections::hotspot_controls(values));
    let b = a.with_controls("shell"@, sections::shell_controls(values));
    let c = b.with_controls("accessibility"@, sections::accessibility_controls(values));
    lemma_step(t, "hotspots"@, sections::hotspot_controls(values));
    lemma_step(a, "shell"@, sections::shell_controls(values));
    lemma_step(b, "accessibility"@, sections::accessibility_controls(values));
    assert forall|k: int| 0 <= k < m.sections.len() implies ({
        let now = (#[trigger] m.synced(values).sections[k]);
        &&& now.id == m.sections[k].id
        &&& now.title == m.sections[k].title
        &&& {
            ||| now == t.sections[k]
            ||| now.controls == sections::hotspot_controls(values)
            ||| now.controls == sections::shell_controls(values)
            ||| now.controls == sections::accessibility_controls(values)
        }
    }) by {
        assert(t.sections[k].id == m.sections[k].id);
        assert(a.sections[k].id == t.sections[k].id);
        assert(b.sections[k].id == a.sections[k].id);
        assert(c.sections[k].id == b.sections[k].id);
    }
}

/// Replacing the controls of one section changes no other.
proof fn lemma_step(m: OverlayModel, id: Seq<char>, controls: Seq<ControlModel>)
    ensures
        ({
            let n = m.with_controls(id, controls);
            &&& n.sections.len() == m.sections.len()
            &&& m.picks.len() == m.sections.len() ==> n.picks.len() == m.picks.len()
            &&& n.section == m.section
            &&& n.focus == m.focus
            &&& forall|k: int|
                0 <= k < m.sections.len() ==> {
                    &&& (#[trigger] n.sections[k]).id == m.sections[k].id
                    &&& n.sections[k].title == m.sections[k].title
                    &&& n.sections[k] == m.sections[k] || n.sections[k].controls == controls
                    &&& m.sections[k].id != id ==> n.sections[k] == m.sections[k]
                    &&& m.sections[k].id != id && m.picks.len() == m.sections.len() ==> n.picks[k]
                        == m.picks[k]
                }
        }),
{
    lemma_index_id(m.sections, id, 0);
}

proof fn lemma_index_by_ids(
    a: Seq<SectionModel>,
    b: Seq<SectionModel>,
    id: Seq<char>,
    from: int,
)
    requires
        a.len() == b.len(),
        0 <= from,
        forall|k: int| 0 <= k < a.len() ==> (#[trigger] a[k]).id == b[k].id,
    ensures
        sections::section_index(a, id, from) == sections::section_index(b, id, from),
    decreases a.len() - from,
{
    if from < a.len() && a[from].id != id {
        lemma_index_by_ids(a, b, id, from + 1);
    }
}

/// Confirming a field of the shell section that was not edited sets what is
/// configured already, and leaves the overlay as it was.
pub proof fn law_confirming_changes_nothing(m: OverlayModel, values: SettingsRenderValues, i: int)
    requires
        first_with(m, "shell"@, i),
        m.focus == SettingsFocus::Controls,
        m.synced(values).section == i,
        m.synced(values).has_active(),
    ensures
        ({
            let n = m.synced(values);
            &&& n.active().binding == ControlBinding::DefaultShell ==> n.enter_command() is None
                && n.entered().enter_command() == Some(
                CommandModel::SetDefaultShell(values.shell@),
            ) && n.entered().entered() == n
            &&& n.active().binding == ControlBinding::ShellArgs ==> n.enter_command() is None
                && n.entered().enter_command() == Some(
                CommandModel::SetShellArgs(values.shell_args@),
            ) && n.entered().entered() == n
        }),
{
    let n = m.synced(values);
    law_shell_section_shows_the_shell(m, values, i, n.pick());
    if n.active().kind is TextInput {
        law_confirming_sends_the_text(n);
    }
}

/// Entering a text field starts to edit it as it is; confirming it then sends its
/// text, for the setting that the field is bound to, and ends the editing.
pub proof fn law_confirming_sends_the_text(m: OverlayModel)
    requires
        m.focus == SettingsFocus::Controls,
        m.has_active(),
        m.active().kind is TextInput,
        !m.editing(),
    ensures
        m.enter_command() is None,
        m.entered().editing(),
        m.entered().edited_text() == m.edited_text(),
        m.entered().cursor() == m.cursor(),
        m.entered().entered() == m,
        m.active().binding == ControlBinding::DefaultShell ==> m.entered().enter_command() == Some(
            CommandModel::SetDefaultShell(m.edited_text()),
        ),
        m.active().binding == ControlBinding::ShellArgs ==> m.entered().enter_command() == Some(
            CommandModel::SetShellArgs(m.edited_text()),
        ),
        m.active().binding == ControlBinding::FolderPaneCommand ==> m.entered().enter_command()
            == Some(CommandModel::SetFolderPaneCommand(m.edited_text())),
{
    let n = m.entered().entered();
    assert(n.sections[m.section].controls =~= m.sections[m.section].controls);
    assert(n.sections =~= m.sections);
}

/// The sequence of `parts` with one space between neighbours: a part alone is
/// itself, and two runs of parts have one space between them.
pub proof fn law_joined_by_spaces(a: Seq<Seq<char>>, b: Seq<Seq<char>>)
    ensures
        a.len() == 0 ==> sections::joined(a).len() == 0,
        a.len() == 1 ==> sections::joined(a) == a[0],
        a.len() > 0 && b.len() > 0 ==> sections::joined(a + b) == sections::joined(a) + seq![' ']
            + sections::joined(b),
    decreases b.len(),
{
    if a.len() > 0 && b.len() > 0 {
        assert((a + b).drop_last() =~= a + b.drop_last());
        assert((a + b).last() == b.last());
        if b.len() == 1 {
            assert(a + b.drop_last() =~= a);
        } else {
            law_joined_by_spaces(a, b.drop_last());
        }
        assert(sections::joined(a + b) =~= sections::joined(a) + seq![' '] + sections::joined(b));
    }
}

/// Once the overlay follows a configuration, its hotspots section shows every editor
/// in its place, then the command of a folder pane, then every opener in its place.
pub proof fn law_hotspots_section_shows_the_lists(
    m: OverlayModel,
    values: SettingsRenderValues,
    i: int,
    j: int,
)
    requires
        first_with(m, "hotspots"@, i),
        0 <= j < m.synced(values).sections[i].controls.len(),
    ensures
        ({
            let n = values.editor_chain@.len();
            let c = m.synced(values).sections[i].controls[j];
            let k = j - n - 1;
            &&& m.synced(values).sections[i].controls.len() == n + 1
                + values.folder_opener@.len()
            &&& j < n ==> c.binding == ControlBinding::EditorChainEntry(j as usize) && c.kind
                == (KindModel::ListRow { text: values.editor_chain@[j]@ })
            &&& j == n ==> {
                &&& c.binding == ControlBinding::FolderPaneCommand
                &&& c.label == "Folder pane command"@
                &&& holds_text(
                    c,
                    sections::joined(
                        values.folder_pane_command@.map_values(|s: String| s@),
                    ),
                )
            }
            &&& j > n ==> c.binding == ControlBinding::FolderOpenerEntry(k as usize) && c.kind
                == (KindModel::ListRow { text: values.folder_opener@[k]@ })
            &&& j < n && j < 9 ==> c.label == "Editor #"@.push((49 + j) as char)
            &&& j < n && 9 <= j < 16 ==> c.label == "Editor #"@.push('1').push((39 + j) as char)
            &&& j < n && j >= 16 ==> c.label == "Editor #"@.push('?')
            &&& j > n && k < 9 ==> c.label == "Opener #"@.push((49 + k) as char)
            &&& j > n && 9 <= k < 16 ==> c.label == "Opener #"@.push('1').push((39 + k) as char)
            &&& j > n && k >= 16 ==> c.label == "Opener #"@.push('?')
        }),
{
    lemma_first_with(m, "hotspots"@, i, 0);
    super::laws::law_sync_shows_configuration(m, values);
    lemma_same_place(m, values, "hotspots"@);
    let n = values.editor_chain@.len();
    let c = m.synced(values).sections[i].controls[j];
    assert(crate::text::texts(values.folder_pane_command@)
        =~= values.folder_pane_command@.map_values(|s: String| s@));
    if j < n {
        assert(c == sections::editor_rows(crate::text::texts(values.editor_chain@))[j]);
        lemma_label("Editor #"@, j);
    } else if j > n {
        let k = j - n - 1;
        assert(c == sections::opener_rows(crate::text::texts(values.folder_opener@))[k]);
        lemma_label("Opener #"@, k);
    }
}

proof fn lemma_label(prefix: Seq<char>, i: int)
    requires
        0 <= i,
    ensures
        i < 9 ==> sections::numbered(prefix, i) == prefix.push((49 + i) as char),
        9 <= i < 16 ==> sections::numbered(prefix, i) == prefix.push('1').push((39 + i) as char),
        i >= 16 ==> sections::numbered(prefix, i) == prefix.push('?'),
{
    if i < 9 {
        assert(sections::numbered(prefix, i) =~= prefix.push((49 + i) as char));
    } else if i < 16 {
        assert(sections::two_digits(i + 1)[0] == '1');
        assert(sections::numbered(prefix, i) =~= prefix.push('1').push((39 + i) as char));
    } else {
        assert(sections::numbered(prefix, i) =~= prefix.push('?'));
    }
}

/// Once the overlay follows a configuration, its accessibility section shows both
/// switches and the scale of the text as they are configured.
pub proof fn law_accessibility_section_shows_the_switches(
    m: OverlayModel,
    values: SettingsRenderValues,
    i: int,
    j: int,
)
    requires
        first_with(m, "accessibility"@, i),
        0 <= j < m.synced(values).sections[i].controls.len(),
    ensures
        ({
            let c = m.synced(values).sections[i].controls[j];
            &&& j < 3
            &&& c.binding == ControlBinding::ToggleHighContrast <==> j == 0
            &&& c.binding == ControlBinding::ToggleReducedMotion <==> j == 1
            &&& c.binding == ControlBinding::UiTextScale <==> j == 2
            &&& j == 0 ==> c.label == "High contrast mode"@ && c.kind == (KindModel::Toggle {
                value: values.high_contrast,
            })
            &&& j == 1 ==> c.label == "Reduced motion"@ && c.kind == (KindModel::Toggle {
                value: values.reduced_motion,
            })
            &&& j == 2 ==> {
                &&& c.label == "UI text scale"@
                &&& c.kind matches KindModel::Select { options, selected }
                &&& options =~= seq![
                    "75%"@,
                    "100%"@,
                    "125%"@,
                    "150%"@,
                    "200%"@,
                    "250%"@,
                    "300%"@,
                ]
                &&& values.ui_text_scale_index < 7 ==> selected == values.ui_text_scale_index
                &&& values.ui_text_scale_index >= 7 ==> selected == 6
            }
        }),
        m.synced(values).sections[i].controls.len() == 3,
{
    lemma_first_with(m, "accessibility"@, i, 0);
    super::laws::law_sync_shows_configuration(m, values);
    lemma_same_place(m, values, "accessibility"@);
}

/// Once the overlay follows a configuration, every switch of it, in whichever
/// section, shows the value that it is bound to.
pub proof fn law_every_switch_shows_its_value(
    m: OverlayModel,
    values: SettingsRenderValues,
    i: int,
    j: int,
)
    requires
        0 <= i < m.synced(values).sections.len(),
        0 <= j < m.synced(values).sections[i].controls.len(),
        m.synced(values).sections[i].controls[j].kind is Toggle,
    ensures
        ({
            let c = m.synced(values).sections[i].controls[j];
            let shown = c.kind->Toggle_value;
            &&& c.binding == ControlBinding::TogglePaneHeaders ==> shown
                == values.show_pane_headers
            &&& c.binding == ControlBinding::ToggleStatusBar ==> shown == values.show_status_bar
            &&& c.binding == ControlBinding::ToggleTabBar ==> shown == values.show_tab_bar
            &&& c.binding == ControlBinding::ToggleHighContrast ==> shown == values.high_contrast
            &&& c.binding == ControlBinding::ToggleReducedMotion ==> shown
                == values.reduced_motion
        }),
{
    lemma_ids_stay(m, values);
    let now = m.synced(values).sections[i];
    if now == m.with_toggles(values).sections[i] {
        assert(now.controls[j] == m.sections[i].controls[j].synced(values));
    } else if now.controls == sections::hotspot_controls(values) {
        let n = values.editor_chain@.len();
        let rows = sections::editor_rows(crate::text::texts(values.editor_chain@));
        let openers = sections::opener_rows(crate::text::texts(values.folder_opener@));
        if j < n {
            assert(now.controls[j] == rows[j]);
        } else if j > n {
            assert(now.controls[j] == openers[j - n - 1]);
        }
    }
}

/// Sections with other ids keep their controls, but for what their switches show.
pub proof fn law_other_sections_stay(m: OverlayModel, values: SettingsRenderValues, i: int, j: int)
    requires
        0 <= i < m.sections.len(),
        m.sections[i].id != "hotspots"@,
        m.sections[i].id != "shell"@,
        m.sections[i].id != "accessibility"@,
    ensures
        ({
            let n = m.synced(values);
            &&& n.sections.len() == m.sections.len()
            &&& n.sections[i].id == m.sections[i].id
            &&& n.sections[i].title == m.sections[i].title
            &&& n.sections[i].controls.len() == m.sections[i].controls.len()
            &&& n.section == m.section
            &&& n.focus == m.focus
            &&& m.picks.len() == m.sections.len() ==> n.picks[i] == m.picks[i]
            &&& 0 <= j < m.sections[i].controls.len() ==> {
                let (c, d) = (m.sections[i].controls[j], n.sections[i].controls[j]);
                &&& d.label == c.label
                &&& d.binding == c.binding
                &&& c.kind is Toggle <==> d.kind is Toggle
                &&& !(c.kind is Toggle) ==> d.kind == c.kind
            }
        }),
{
    let t = m.with_toggles(values);
    let a = t.with_controls("hotspots"@, sections::hotspot_controls(values));
    let b = a.with_controls("shell"@, sections::shell_controls(values));
    let c = b.with_controls("accessibility"@, sections::accessibility_controls(values));
    lemma_step(t, "hotspots"@, sections::hotspot_controls(values));
    lemma_step(a, "shell"@, sections::shell_controls(values));
    lemma_step(b, "accessibility"@, sections::accessibility_controls(values));
    assert(t.sections[i].id == m.sections[i].id);
    assert(a.sections[i] == t.sections[i]);
    assert(b.sections[i] == a.sections[i]);
    assert(c.sections[i] == b.sections[i]);
}

proof fn lemma_index_id(s: Seq<SectionModel>, id: Seq<char>, from: int)
    requires
        0 <= from <= s.len(),
    ensures
        ({
            let k = sections::section_index(s, id, from);
            &&& from <= k <= s.len()
            &&& k < s.len() ==> s[k].id == id
        }),
    decreases s.len() - from,
{
    if from < s.len() && s[from].id != id {
        lemma_index_id(s, id, from + 1);
    }
}

/// A move by one goes to the next entry, or to the previous one, and around the ends;
/// the half without the focus, and all controls, stay as they are.
pub proof fn law_moves_go_to_the_neighbour(m: OverlayModel)
    requires
        m.wf(),
    ensures
        m.focus == SettingsFocus::Navigation && m.sections.len() > 0 ==> {
            let last = m.sections.len() - 1;
            &&& m.moved(1).section == if m.section < last {
                m.section + 1
            } else {
                0
            }
            &&& m.moved(-1).section == if m.section > 0 {
                m.section - 1
            } else {
                last
            }
            &&& m.moved(1).picks == m.picks
            &&& m.moved(-1).picks == m.picks
        },
        m.focus == SettingsFocus::Controls && m.has_active() ==> {
            let last = m.sections[m.section].controls.len() - 1;
            let at = m.picks[m.section];
            &&& m.moved(1).picks == m.picks.update(
                m.section,
                if at < last {
                    at + 1
                } else {
                    0
                },
            )
            &&& m.moved(-1).picks == m.picks.update(
                m.section,
                if at > 0 {
                    at - 1
                } else {
                    last
                },
            )
            &&& m.moved(1).section == m.section
            &&& m.moved(-1).section == m.section
        },
        m.moved(1).sections == m.sections,
        m.moved(-1).sections == m.sections,
        m.moved(1).focus == m.focus,
        m.moved(-1).focus == m.focus,
{
    if m.sections.len() > 0 {
        lemma_by_one(m.section, m.sections.len() as int);
    }
    if m.has_active() {
        lemma_by_one(m.pick(), m.sections[m.section].controls.len() as int);
    }
}

proof fn lemma_by_one(x: int, len: int)
    requires
        0 <= x < len,
    ensures
        (x + 1) % len == if x < len - 1 {
            x + 1
        } else {
            0
        },
        (x - 1) % len == if x > 0 {
            x - 1
        } else {
            len - 1
        },
{
    if x < len - 1 {
        vstd::arithmetic::div_mod::lemma_small_mod((x + 1) as nat, len as nat);
    } else {
        vstd::arithmetic::div_mod::lemma_mod_self_0(len);
    }
    if x > 0 {
        vstd::arithmetic::div_mod::lemma_small_mod((x - 1) as nat, len as nat);
    } else {
        vstd::arithmetic::div_mod::lemma_mod_add_multiples_vanish(-1, len);
        vstd::arithmetic::div_mod::lemma_small_mod((len - 1) as nat, len as nat);
        assert(len + (-1) == len - 1);
    }
}

/// Typing, deleting and moving the cursor change the text at the cursor only, and
/// nothing of the overlay but that field.
pub proof fn law_edits_at_the_cursor(m: OverlayModel, ch: char, delta: int, i: int, j: int)
    requires
        m.editing(),
        0 <= m.cursor() <= m.edited_text().len(),
        0 <= i < m.sections.len(),
        0 <= j < m.sections[i].controls.len(),
    ensures
        ({
            let (text, at) = (m.edited_text(), m.cursor());
            let (more, less) = (m.typed(ch), m.backspaced());
            let (cut, gone) = (m.deleted(), m.with_cursor_moved(delta));
            &&& more.edited_text() == text.take(at) + seq![ch] + text.skip(at)
            &&& more.cursor() == at + 1
            &&& at > 0 ==> less.edited_text() == text.take(at - 1) + text.skip(at)
                && less.cursor() == at - 1
            &&& at < text.len() ==> cut.edited_text() == text.take(at) + text.skip(at + 1)
                && cut.cursor() == at
            &&& gone.edited_text() == text && gone.cursor() == at + delta
            &&& more.editing() && less.editing() && cut.editing() && gone.editing()
            &&& (i, j) != (m.section, m.pick()) ==> {
                let c = m.sections[i].controls[j];
                &&& more.sections[i].controls[j] == c
                &&& less.sections[i].controls[j] == c
                &&& cut.sections[i].controls[j] == c
                &&& gone.sections[i].controls[j] == c
            }
            &&& more.active().binding == m.active().binding
            &&& less.active().binding == m.active().binding
            &&& cut.active().binding == m.active().binding
        }),
{
    let (text, at) = (m.edited_text(), m.cursor());
    assert(text.insert(at, ch) =~= text.take(at) + seq![ch] + text.skip(at));
    if at > 0 {
        assert(text.remove(at - 1) =~= text.take(at - 1) + text.skip(at));
    }
    if at < text.len() {
        assert(text.remove(at) =~= text.take(at) + text.skip(at + 1));
    }
}

/// The arrow keys to the side move the cursor of a text being edited, as far as it
/// goes, or choose the neighbouring option; otherwise they change the half.
pub proof fn law_arrows_to_the_side(m: OverlayModel, to: SettingsFocus)
    requires
        m.editing() ==> 0 <= m.cursor() <= m.edited_text().len(),
        m.on_select() ==> super::in_range_or_zero(
            m.active().kind->Select_selected,
            m.active().kind->Select_options.len() as int,
        ),
    ensures
        m.focus == SettingsFocus::Navigation ==> m.sideways(1, to) == (OverlayModel {
            focus: to,
            ..m
        }) && m.sideways(-1, to) == (OverlayModel { focus: to, ..m }),
        m.focus == SettingsFocus::Controls && m.editing() ==> {
            &&& m.cursor() < m.edited_text().len() ==> m.sideways(1, to).cursor() == m.cursor() + 1
                && m.sideways(1, to).focus == m.focus
            &&& m.cursor() > 0 ==> m.sideways(-1, to).cursor() == m.cursor() - 1 && m.sideways(
                -1,
                to,
            ).focus == m.focus
            &&& m.cursor() == m.edited_text().len() ==> m.sideways(1, to) == (OverlayModel {
                focus: to,
                ..m
            })
            &&& m.cursor() == 0 ==> m.sideways(-1, to) == (OverlayModel { focus: to, ..m })
        },
        m.focus == SettingsFocus::Controls && m.on_select()
            && m.active().kind->Select_options.len() > 0 ==> {
            let last = m.active().kind->Select_options.len() - 1;
            let at = m.active().kind->Select_selected;
            let (right, left) = (m.sideways(1, to), m.sideways(-1, to));
            &&& right.active().kind == (KindModel::Select {
                options: m.active().kind->Select_options,
                selected: if at < last {
                    at + 1
                } else {
                    0
                },
            })
            &&& left.active().kind == (KindModel::Select {
                options: m.active().kind->Select_options,
                selected: if at > 0 {
                    at - 1
                } else {
                    last
                },
            })
            &&& m.entered() == right && m.spaced() == right
            &&& right.focus == m.focus && left.focus == m.focus
        },
{
    if m.on_select() && m.active().kind->Select_options.len() > 0 {
        lemma_by_one(
            m.active().kind->Select_selected,
            m.active().kind->Select_options.len() as int,
        );
    }
}

/// A choice that enter or space moves on sends the option that it then shows; a
/// switch sends the command of its binding.
pub proof fn law_choices_send_what_they_show(m: OverlayModel)
    requires
        m.focus == SettingsFocus::Controls,
        m.has_active(),
    ensures
        m.active().kind is Select && m.active().binding == ControlBinding::NewPaneCwd
            ==> m.enter_command() == Some(
            CommandModel::SetNewPaneCwd(m.entered().active().kind->Select_selected),
        ) && m.space_command() == m.enter_command(),
        m.active().kind is Select && m.active().binding == ControlBinding::UiTextScale
            ==> m.enter_command() == Some(
            CommandModel::SetUiTextScale(m.entered().active().kind->Select_selected),
        ) && m.space_command() == m.enter_command(),
        m.active().kind is Toggle ==> {
            let b = m.active().binding;
            let sent = m.enter_command();
            &&& m.space_command() == sent
            &&& b == ControlBinding::TogglePaneHeaders ==> sent == Some(
                CommandModel::TogglePaneHeaders,
            )
            &&& b == ControlBinding::ToggleStatusBar ==> sent == Some(CommandModel::ToggleStatusBar)
            &&& b == ControlBinding::ToggleTabBar ==> sent == Some(CommandModel::ToggleTabBar)
            &&& b == ControlBinding::ToggleHighContrast ==> sent == Some(
                CommandModel::ToggleHighContrast,
            )
            &&& b == ControlBinding::ToggleReducedMotion ==> sent == Some(
                CommandModel::ToggleReducedMotion,
            )
        },
        m.active().kind is Action ==> (m.active().binding matches ControlBinding::ApplyThemePreset(
            p,
        ) ==> m.enter_command() == Some(CommandModel::ApplyThemePreset(p))),
        m.active().kind is ListRow ==> {
            &&& m.active().binding matches ControlBinding::EditorChainEntry(i)
                ==> m.enter_command() == Some(CommandModel::EditorChainRemove(i as int))
            &&& m.active().binding matches ControlBinding::FolderOpenerEntry(i)
                ==> m.enter_command() == Some(CommandModel::FolderOpenerRemove(i as int))
            &&& m.space_command() is None
        },
{
}

/// Opening the overlay anew selects the first section and the first control of each,
/// and no text is being edited any longer; what the controls show stays.
pub proof fn law_reset_keeps_what_is_shown(m: OverlayModel, i: int, j: int)
    requires
        m.wf(),
        0 <= i < m.sections.len(),
        0 <= j < m.sections[i].controls.len(),
    ensures
        ({
            let (c, d) = (m.sections[i].controls[j], m.reset().sections[i].controls[j]);
            &&& m.reset().section == 0
            &&& m.reset().picks.len() == m.picks.len()
            &&& m.reset().picks[i] == 0
            &&& m.reset().focus == SettingsFocus::Navigation
            &&& m.reset().sections.len() == m.sections.len()
            &&& d.label == c.label && d.binding == c.binding
            &&& c.kind matches KindModel::TextInput { text, cursor, .. } ==> d.kind == (
            KindModel::TextInput { text, cursor, editing: false })
            &&& !(c.kind is TextInput) ==> d.kind == c.kind
        }),
{
}

/// Before any configuration is known, the overlay has five sections. That of the
/// layout has a switch for each part of the window, all on, and that of the themes one
/// action for each theme.
pub proof fn law_default_sections(preset: ThemePreset)
    ensures
        ({
            let d = sections::default_overlay();
            let layout = d.sections[0].controls;
            let themes = d.sections[3].controls;
            &&& d.sections.len() == 5
            &&& d.sections[0].id == "layout"@ && d.sections[0].title == "Layout"@
            &&& d.sections[1].id == "shell"@ && d.sections[1].title == "Shell"@
            &&& d.sections[2].id == "hotspots"@ && d.sections[2].title == "Hotspots"@
            &&& d.sections[3].id == "themes"@ && d.sections[3].title == "Theme Presets"@
            &&& d.sections[4].id == "accessibility"@ && d.sections[4].title == "Accessibility"@
            &&& d.section == 0
            &&& d.focus == SettingsFocus::Navigation
            &&& d.wf()
            &&& layout.len() == 3
            &&& forall|j: int|
                0 <= j < 3 ==> (#[trigger] layout[j]).kind == (KindModel::Toggle { value: true })
            &&& layout[0].binding == ControlBinding::TogglePaneHeaders && layout[0].label
                == "Show pane headers"@
            &&& layout[1].binding == ControlBinding::ToggleStatusBar && layout[1].label
                == "Show status bar"@
            &&& layout[2].binding == ControlBinding::ToggleTabBar && layout[2].label
                == "Show tab bar"@
            &&& themes.len() == 5
            &&& exists|j: int|
                {
                    &&& 0 <= j < 5
                    &&& (#[trigger] themes[j]).binding == ControlBinding::ApplyThemePreset(preset)
                    &&& themes[j].label == preset.menu_label_model()
                    &&& themes[j].kind is Action
                }
        }),
{
    let themes = sections::default_overlay().sections[3].controls;
    assert(themes[0] == sections::theme_control(ThemePreset::OriginalTherminal));
    assert(themes[1] == sections::theme_control(ThemePreset::Paper));
    assert(themes[2] == sections::theme_control(ThemePreset::TokyoNightLight));
    assert(themes[3] == sections::theme_control(ThemePreset::TomorrowNightBright));
    assert(themes[4] == sections::theme_control(ThemePreset::HemisuDark));
}

/// The label of a theme on the overlay starts with its label in the menu.
pub proof fn law_theme_labels(preset: ThemePreset)
    ensures
        preset.menu_label_model().is_prefix_of(preset.label_model()),
        preset.label_model().len() > preset.menu_label_model().len(),
{
    reveal_strlit("Original Therminal (default)");
    reveal_strlit("Paper (light)");
    reveal_strlit("Tokyo Night Light (light)");
    reveal_strlit("Tomorrow Night Bright (dark)");
    reveal_strlit("Hemisu Dark (dark)");
    reveal_strlit("Original Therminal");
    reveal_strlit("Paper");
    reveal_strlit("Tokyo Night Light");
    reveal_strlit("Tomorrow Night Bright");
    reveal_strlit("Hemisu Dark");
    let short = preset.menu_label_model();
    assert(short =~= preset.label_model().take(short.len() as int));
}

/// A selection that is in range stays; one behind the end goes to the last entry. A
/// new section comes last, with its first control selected.
pub proof fn law_selections_are_brought_into_range(m: OverlayModel, i: int, section: SectionModel)
    requires
        0 <= i < m.sections.len(),
        0 <= m.section,
        i < m.picks.len() ==> 0 <= m.picks[i],
    ensures
        ({
            let c = m.clamped();
            let n = m.sections[i].controls.len() as int;
            &&& c.sections == m.sections && c.focus == m.focus
            &&& m.section < m.sections.len() ==> c.section == m.section
            &&& m.section >= m.sections.len() ==> c.section == m.sections.len() - 1
            &&& i < m.picks.len() && m.picks[i] < n ==> c.picks[i] == m.picks[i]
            &&& i < m.picks.len() && m.picks[i] >= n && n > 0 ==> c.picks[i] == n - 1
            &&& i >= m.picks.len() || n == 0 ==> c.picks[i] == 0
            &&& c.picks.len() == m.sections.len()
        }),
        m.with_section(section).sections.drop_last() == m.sections,
        m.with_section(section).sections.last() == section,
        m.with_section(section).picks.drop_last() == m.picks,
        m.with_section(section).picks.last() == 0,
        m.with_section(section).section == m.section,
{
    assert(m.with_section(section).sections.drop_last() =~= m.sections);
    assert(m.with_section(section).picks.drop_last() =~= m.picks);
}

/// Space types a space into a text that is being edited, and does nothing to one that
/// is not; it sends nothing there.
pub proof fn law_space_in_a_text(m: OverlayModel)
    requires
        m.focus == SettingsFocus::Controls,
        m.has_active(),
        m.active().kind is TextInput,
    ensures
        m.editing() ==> m.spaced() == m.typed(' '),
        !m.editing() ==> m.spaced() == m,
        m.space_command() is None,
{
}

/// Tab gives the focus to the other half and changes nothing else; enter on the
/// navigation goes to the controls.
pub proof fn law_tab_and_enter_change_the_half(m: OverlayModel)
    ensures
        m.tabbed().focus != m.focus,
        m.tabbed().sections == m.sections && m.tabbed().picks == m.picks && m.tabbed().section
            == m.section,
        m.focus == SettingsFocus::Navigation ==> m.entered() == (OverlayModel {
            focus: SettingsFocus::Controls,
            ..m
        }) && m.enter_command() is None && m.spaced() == m && m.space_command() is None,
{
}

/// A section that gets new controls keeps its selection, as far as there are controls.
pub proof fn law_selection_stays_as_far_as_it_can(
    m: OverlayModel,
    id: Seq<char>,
    controls: Seq<ControlModel>,
    i: int,
)
    requires
        m.wf(),
        first_with(m, id, i),
    ensures
        ({
            let n = m.with_controls(id, controls);
            &&& n.sections[i].controls == controls
            &&& n.sections[i].title == m.sections[i].title
            &&& m.picks[i] < controls.len() ==> n.picks[i] == m.picks[i]
            &&& m.picks[i] >= controls.len() > 0 ==> n.picks[i] == controls.len() - 1
            &&& controls.len() == 0 ==> n.picks[i] == 0
        }),
{
    lemma_first_with(m, id, i, 0);
    assert(super::in_range_or_zero(m.picks[i], m.sections[i].controls.len() as int));
}

} // verus!
