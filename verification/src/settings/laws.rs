//! What holds of the overlay over several key presses.
use super::{
    ControlBinding, ControlModel, KindModel, OverlayModel, SectionModel, SettingsFocus, ThemePreset,
};
use super::sections;
use vstd::prelude::*;

verus! {

/// Two presses of the tab key cancel out.
pub proof fn law_tab_twice(m: OverlayModel)
    ensures
        m.tabbed().tabbed() == m,
{
}

proof fn lemma_wrap_back(x: int, delta: int, len: int)
    requires
        0 <= x < len,
    ensures
        ((x + delta) % len - delta) % len == x,
{
    vstd::arithmetic::div_mod::lemma_sub_mod_noop(x + delta, delta, len);
    vstd::arithmetic::div_mod::lemma_sub_mod_noop((x + delta) % len, delta, len);
    vstd::arithmetic::div_mod::lemma_mod_twice(x + delta, len);
    vstd::arithmetic::div_mod::lemma_small_mod(x as nat, len as nat);
}

/// Moving back undoes a move, on either half of the overlay.
pub proof fn law_move_back(m: OverlayModel, delta: int)
    requires
        m.wf(),
    ensures
        m.moved(delta).moved(-delta) == m,
{
    let there = m.moved(delta);
    match m.focus {
        SettingsFocus::Navigation => {
            if m.sections.len() > 0 {
                lemma_wrap_back(m.section, delta, m.sections.len() as int);
            }
        },
        SettingsFocus::Controls => {
            if m.has_active() {
                let len = m.sections[m.section].controls.len() as int;
                lemma_wrap_back(m.pick(), delta, len);
                vstd::arithmetic::div_mod::lemma_mod_bound(m.pick() + delta, len);
                assert(there.pick() == (m.pick() + delta) % len);
                assert(there.moved(-delta).picks =~= m.picks);
            }
        },
    }
}

/// After as many moves as there are entries the selection is where it was.
pub proof fn law_move_around(m: OverlayModel)
    requires
        m.wf(),
    ensures
        m.moved_section(m.sections.len() as int) == m,
        m.has_active() ==> m.moved_control(m.sections[m.section].controls.len() as int) == m,
{
    if m.sections.len() > 0 {
        let len = m.sections.len() as int;
        vstd::arithmetic::div_mod::lemma_mod_add_multiples_vanish(m.section, len);
        vstd::arithmetic::div_mod::lemma_small_mod(m.section as nat, len as nat);
    }
    if m.has_active() {
        let len = m.sections[m.section].controls.len() as int;
        vstd::arithmetic::div_mod::lemma_mod_add_multiples_vanish(m.pick(), len);
        vstd::arithmetic::div_mod::lemma_small_mod(m.pick() as nat, len as nat);
        assert(m.moved_control(len).picks =~= m.picks);
    }
}

/// Replacing the kind of the selected control twice is replacing it once.
proof fn lemma_kind_twice(m: OverlayModel, a: KindModel, b: KindModel)
    requires
        m.has_active(),
    ensures
        m.with_active_kind(a).has_active(),
        m.with_active_kind(a).pick() == m.pick(),
        m.with_active_kind(a).active() == (ControlModel { kind: a, ..m.active() }),
        m.with_active_kind(a).with_active_kind(b) == m.with_active_kind(b),
{
    let once = m.with_active_kind(a);
    let twice = once.with_active_kind(b);
    assert(twice.sections[m.section].controls
        =~= m.with_active_kind(b).sections[m.section].controls);
    assert(twice.sections =~= m.with_active_kind(b).sections);
}

/// Going back by as many options as one went forward gives the old choice.
pub proof fn law_cycle_back(m: OverlayModel, delta: int)
    requires
        m.on_select(),
        super::in_range_or_zero(
            m.active().kind->Select_selected,
            m.active().kind->Select_options.len() as int,
        ),
    ensures
        m.cycled(delta).cycled(-delta) == m,
{
    let options = m.active().kind->Select_options;
    let selected = m.active().kind->Select_selected;
    if options.len() > 0 {
        let len = options.len() as int;
        lemma_wrap_back(selected, delta, len);
        let there = KindModel::Select { options, selected: (selected + delta) % len };
        lemma_kind_twice(m, there, m.active().kind);
        super::edit::lemma_same_kind(m);
    }
}

/// The backspace key undoes a typed character.
pub proof fn law_type_then_backspace(m: OverlayModel, ch: char)
    requires
        m.editing(),
        0 <= m.cursor() <= m.edited_text().len(),
    ensures
        m.typed(ch).editing(),
        m.typed(ch).cursor() == m.cursor() + 1,
        m.typed(ch).backspaced() == m,
{
    let text = m.edited_text();
    let longer = KindModel::TextInput {
        text: text.insert(m.cursor(), ch),
        cursor: m.cursor() + 1,
        editing: true,
    };
    lemma_kind_twice(m, longer, m.active().kind);
    super::edit::lemma_same_kind(m);
    assert(text.insert(m.cursor(), ch).remove(m.cursor()) =~= text);
}

/// Moving the cursor left and then deleting is a backspace.
pub proof fn law_left_then_delete_is_backspace(m: OverlayModel)
    requires
        m.editing(),
        0 < m.cursor() <= m.edited_text().len(),
    ensures
        m.with_cursor_moved(-1).deleted() == m.backspaced(),
{
    let left = KindModel::TextInput {
        text: m.edited_text(),
        cursor: m.cursor() - 1,
        editing: true,
    };
    lemma_kind_twice(
        m,
        left,
        KindModel::TextInput {
            text: m.edited_text().remove(m.cursor() - 1),
            cursor: m.cursor() - 1,
            editing: true,
        },
    );
}

/// Two presses of the enter key on a toggle cancel out.
pub proof fn law_toggle_twice(m: OverlayModel)
    requires
        m.focus == SettingsFocus::Controls,
        m.has_active(),
        m.active().kind is Toggle,
    ensures
        m.entered().entered() == m,
        m.spaced() == m.entered(),
        m.entered().enter_command() == m.enter_command(),
{
    lemma_kind_twice(
        m,
        KindModel::Toggle { value: !m.active().kind->Toggle_value },
        m.active().kind,
    );
    super::edit::lemma_same_kind(m);
}

/// Opening the overlay anew finds it as it was reset.
pub proof fn law_reset_twice(m: OverlayModel)
    ensures
        m.reset().reset() == m.reset(),
{
    let once = m.reset();
    let twice = once.reset();
    assert forall|i: int| 0 <= i < m.sections.len() implies #[trigger] twice.sections[i]
        == once.sections[i] by {
        assert(twice.sections[i].controls =~= once.sections[i].controls);
    }
    assert(twice.sections =~= once.sections);
    assert(twice.picks =~= once.picks);
}

/// What identifies the controls of an overlay: ids, titles, labels, bindings.
pub open spec fn same_controls(a: OverlayModel, b: OverlayModel) -> bool {
    &&& a.sections.len() == b.sections.len()
    &&& forall|i: int|
        0 <= i < a.sections.len() ==> {
            &&& (#[trigger] a.sections[i]).id == b.sections[i].id
            &&& a.sections[i].title == b.sections[i].title
            &&& a.sections[i].controls.len() == b.sections[i].controls.len()
        }
    &&& forall|i: int, j: int|
        0 <= i < a.sections.len() && 0 <= j < a.sections[i].controls.len() ==> {
            &&& (#[trigger] a.sections[i].controls[j]).label == b.sections[i].controls[j].label
            &&& a.sections[i].controls[j].binding == b.sections[i].controls[j].binding
        }
}

/// No key changes which controls there are.
pub proof fn law_keys_keep_controls(m: OverlayModel, delta: int, to: SettingsFocus, ch: char)
    requires
        m.wf(),
    ensures
        same_controls(m, m.tabbed()),
        same_controls(m, m.moved(delta)),
        same_controls(m, m.sideways(delta, to)),
        same_controls(m, m.entered()),
        same_controls(m, m.spaced()),
        m.editing() ==> same_controls(m, m.typed(ch)),
        m.editing() ==> same_controls(m, m.backspaced()),
        m.editing() ==> same_controls(m, m.deleted()),
        same_controls(m, m.reset()),
{
}

proof fn lemma_section_index(sections: Seq<SectionModel>, id: Seq<char>, from: int)
    requires
        0 <= from <= sections.len(),
    ensures
        from <= sections::section_index(sections, id, from) <= sections.len(),
        ({
            let k = sections::section_index(sections, id, from);
            k < sections.len() ==> sections[k].id == id
        }),
    decreases sections.len() - from,
{
    if from < sections.len() && sections[from].id != id {
        lemma_section_index(sections, id, from + 1);
    }
}

proof fn lemma_section_index_ids(
    a: Seq<SectionModel>,
    b: Seq<SectionModel>,
    id: Seq<char>,
    from: int,
)
    requires
        a.len() == b.len(),
        0 <= from,
        forall|i: int| 0 <= i < a.len() ==> (#[trigger] a[i]).id == b[i].id,
    ensures
        sections::section_index(a, id, from) == sections::section_index(b, id, from),
    decreases a.len() - from,
{
    if from < a.len() && a[from].id != id {
        lemma_section_index_ids(a, b, id, from + 1);
    }
}

/// Replacing the controls of one section leaves the sections with other ids.
proof fn lemma_with_controls(
    m: OverlayModel,
    id: Seq<char>,
    controls: Seq<ControlModel>,
    other: Seq<char>,
)
    requires
        id != other,
    ensures
        ({
            let n = m.with_controls(id, controls);
            let i = sections::section_index(m.sections, id, 0);
            let j = sections::section_index(m.sections, other, 0);
            &&& n.sections.len() == m.sections.len()
            &&& sections::section_index(n.sections, id, 0) == i
            &&& sections::section_index(n.sections, other, 0) == j
            &&& i < m.sections.len() ==> n.sections[i].controls == controls
            &&& j < m.sections.len() ==> n.sections[j] == m.sections[j]
            &&& m.picks.len() == m.sections.len() ==> {
                &&& n.picks.len() == m.picks.len()
                &&& i < m.picks.len() ==> n.picks[i] == super::clamped(
                    m.picks[i],
                    controls.len() as int,
                )
                &&& j < m.picks.len() ==> n.picks[j] == m.picks[j]
            }
        }),
{
    let n = m.with_controls(id, controls);
    lemma_section_index(m.sections, id, 0);
    lemma_section_index(m.sections, other, 0);
    lemma_section_index_ids(n.sections, m.sections, id, 0);
    lemma_section_index_ids(n.sections, m.sections, other, 0);
}

/// The controls of the first section with the given id.
pub open spec fn controls_of(m: OverlayModel, id: Seq<char>) -> Option<Seq<ControlModel>> {
    let i = sections::section_index(m.sections, id, 0);
    if i < m.sections.len() {
        Some(m.sections[i].controls)
    } else {
        None
    }
}

/// After the configuration was read, the hotspots, the shell and the
/// accessibility section show it, as far as the overlay has them.
pub proof fn law_sync_shows_configuration(m: OverlayModel, values: sections::SettingsRenderValues)
    ensures
        controls_of(m, "hotspots"@) is Some ==> controls_of(m.synced(values), "hotspots"@) == Some(
            sections::hotspot_controls(values),
        ),
        controls_of(m, "shell"@) is Some ==> controls_of(m.synced(values), "shell"@) == Some(
            sections::shell_controls(values),
        ),
        controls_of(m, "accessibility"@) is Some ==> controls_of(
            m.synced(values),
            "accessibility"@,
        ) == Some(sections::accessibility_controls(values)),
{
    reveal_strlit("hotspots");
    reveal_strlit("shell");
    reveal_strlit("accessibility");
    assert("hotspots"@.len() != "shell"@.len());
    assert("hotspots"@.len() != "accessibility"@.len());
    assert("shell"@.len() != "accessibility"@.len());
    let t = m.with_toggles(values);
    let a = t.with_controls("hotspots"@, sections::hotspot_controls(values));
    let b = a.with_controls("shell"@, sections::shell_controls(values));
    lemma_section_index_ids(m.sections, t.sections, "hotspots"@, 0);
    lemma_section_index_ids(m.sections, t.sections, "shell"@, 0);
    lemma_section_index_ids(m.sections, t.sections, "accessibility"@, 0);
    lemma_with_controls(t, "hotspots"@, sections::hotspot_controls(values), "shell"@);
    lemma_with_controls(t, "hotspots"@, sections::hotspot_controls(values), "accessibility"@);
    lemma_with_controls(a, "shell"@, sections::shell_controls(values), "hotspots"@);
    lemma_with_controls(a, "shell"@, sections::shell_controls(values), "accessibility"@);
    lemma_with_controls(b, "accessibility"@, sections::accessibility_controls(values), "hotspots"@);
    lemma_with_controls(b, "accessibility"@, sections::accessibility_controls(values), "shell"@);
}

/// Every control of the overlay already follows the configuration.
spec fn settled(m: OverlayModel, values: sections::SettingsRenderValues) -> bool {
    forall|i: int, j: int|
        0 <= i < m.sections.len() && 0 <= j < m.sections[i].controls.len() ==> (
        #[trigger] m.sections[i].controls[j]).synced(values) == m.sections[i].controls[j]
}

proof fn lemma_settled_with_controls(
    m: OverlayModel,
    id: Seq<char>,
    controls: Seq<ControlModel>,
    values: sections::SettingsRenderValues,
)
    requires
        settled(m, values),
        forall|j: int|
            0 <= j < controls.len() ==> (#[trigger] controls[j]).synced(values) == controls[j],
    ensures
        settled(m.with_controls(id, controls), values),
{
    let n = m.with_controls(id, controls);
    lemma_section_index(m.sections, id, 0);
    assert forall|i: int, j: int|
        0 <= i < n.sections.len() && 0 <= j < n.sections[i].controls.len() implies (
    #[trigger] n.sections[i].controls[j]).synced(values) == n.sections[i].controls[j] by {
        if i == sections::section_index(m.sections, id, 0) {
            assert(n.sections[i].controls[j] == controls[j]);
        } else {
            assert(n.sections[i].controls[j] == m.sections[i].controls[j]);
        }
    }
}

/// A section that holds `controls` already, with its selection in range, stays.
proof fn lemma_with_controls_again(m: OverlayModel, id: Seq<char>, controls: Seq<ControlModel>)
    requires
        ({
            let i = sections::section_index(m.sections, id, 0);
            i < m.sections.len() ==> {
                &&& m.sections[i].controls == controls
                &&& i < m.picks.len()
                &&& m.picks[i] == super::clamped(m.picks[i], controls.len() as int)
            }
        }),
    ensures
        m.with_controls(id, controls) == m,
{
    let n = m.with_controls(id, controls);
    lemma_section_index(m.sections, id, 0);
    assert(n.sections =~= m.sections);
    assert(n.picks =~= m.picks);
}

/// Following the same configuration a second time changes nothing.
pub proof fn law_sync_twice(m: OverlayModel, values: sections::SettingsRenderValues)
    requires
        m.wf(),
    ensures
        m.synced(values).synced(values) == m.synced(values),
{
    reveal_strlit("hotspots");
    reveal_strlit("shell");
    reveal_strlit("accessibility");
    assert("hotspots"@.len() != "shell"@.len());
    assert("hotspots"@.len() != "accessibility"@.len());
    assert("shell"@.len() != "accessibility"@.len());
    let hotspots = sections::hotspot_controls(values);
    let shell = sections::shell_controls(values);
    let accessibility = sections::accessibility_controls(values);
    let t = m.with_toggles(values);
    let a = t.with_controls("hotspots"@, hotspots);
    let b = a.with_controls("shell"@, shell);
    let s = m.synced(values);
    lemma_with_controls(t, "hotspots"@, hotspots, "shell"@);
    lemma_with_controls(t, "hotspots"@, hotspots, "accessibility"@);
    lemma_with_controls(a, "shell"@, shell, "hotspots"@);
    lemma_with_controls(a, "shell"@, shell, "accessibility"@);
    lemma_with_controls(b, "accessibility"@, accessibility, "hotspots"@);
    lemma_with_controls(b, "accessibility"@, accessibility, "shell"@);
    lemma_section_index(t.sections, "hotspots"@, 0);
    lemma_section_index(t.sections, "shell"@, 0);
    lemma_section_index(t.sections, "accessibility"@, 0);
    assert(settled(s, values)) by {
        lemma_settled_with_controls(t, "hotspots"@, hotspots, values);
        lemma_settled_with_controls(a, "shell"@, shell, values);
        lemma_settled_with_controls(b, "accessibility"@, accessibility, values);
    }
    assert(s.with_toggles(values) == s) by {
        let again = s.with_toggles(values);
        assert forall|i: int| 0 <= i < s.sections.len() implies again.sections[i]
            == s.sections[i] by {
            assert(again.sections[i].controls =~= s.sections[i].controls);
        }
        assert(again.sections =~= s.sections);
    }
    lemma_with_controls_again(s, "hotspots"@, hotspots);
    lemma_with_controls_again(s, "shell"@, shell);
    lemma_with_controls_again(s, "accessibility"@, accessibility);
}

/// No two themes have the same label, on the overlay or in the menu, and no two of
/// the first sixteen entries of a list have the same one.
pub proof fn law_labels_are_distinct(a: ThemePreset, b: ThemePreset, prefix: Seq<char>)
    ensures
        a.label_model() == b.label_model() ==> a == b,
        a.menu_label_model() == b.menu_label_model() ==> a == b,
        forall|i: int, j: int|
            #![trigger sections::numbered(prefix, i), sections::numbered(prefix, j)]
            0 <= i < j < 16 ==> sections::numbered(prefix, i) != sections::numbered(prefix, j),
{
    reveal_strlit("Original Therminal (default)");
    reveal_strlit("Paper (light)");
    reveal_strlit("Tokyo Night Light (light)");
    reveal_strlit("Tomorrow Night Bright (dark)");
    reveal_strlit("Hemisu Dark (dark)");
    reveal_strlit("Original Therminal");
    reveal_strlit("Paper");
    reveal_strlit("Tokyo Night Light");
    reveal_strlit("Tomorrow Night Bright");
    reveal_strlit("Hemisu Dark");
    assert(a.label_model().len() == b.label_model().len() && a.label_model()[0]
        == b.label_model()[0] ==> a == b);
    assert(a.menu_label_model().len() == b.menu_label_model().len() ==> a == b);
    assert forall|i: int, j: int|
        #![trigger sections::numbered(prefix, i), sections::numbered(prefix, j)]
        0 <= i < j < 16 implies sections::numbered(prefix, i) != sections::numbered(prefix, j) by {
        let x = sections::numbered(prefix, i);
        let y = sections::numbered(prefix, j);
        if x == y {
            assert(x[x.len() - 1] == y[y.len() - 1]);
            assert(x[x.len() as int - 1] == sections::two_digits(i + 1).last());
            assert(y[y.len() as int - 1] == sections::two_digits(j + 1).last());
        }
    }
}

/// Controls that are bound to different settings give different commands, whatever
/// text or choice they send along.
pub proof fn law_bindings_are_told_apart(
    a: ControlBinding,
    b: ControlBinding,
    text: Seq<char>,
    other_text: Seq<char>,
    choice: int,
    other_choice: int,
)
    requires
        a != b,
    ensures
        a.command_model() != b.command_model(),
        a.text_command_model(text) != b.text_command_model(other_text),
        a.select_command_model(choice) != b.select_command_model(other_choice),
{
}

} // verus!
