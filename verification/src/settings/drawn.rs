//! What is drawn of each control of the overlay.
use super::draw;
use super::draw::{ColumnWidths, Fill, Ink, RunModel, Slot};
use super::theme;
use super::{ControlModel, KindModel, OverlayModel, SettingsFocus, ThemePreset};
use crate::text;
use vstd::prelude::*;

verus! {

/// A text that fits is shown whole; a longer one fills its column with its start and
/// three dots.
pub proof fn law_texts_fit_their_column(s: Seq<char>, chars: int)
    requires
        chars >= 4,
    ensures
        draw::truncated(s, chars).len() <= chars,
        s.len() <= chars ==> draw::truncated(s, chars) == s,
        s.len() > chars ==> {
            let t = draw::truncated(s, chars);
            &&& t.len() == chars
            &&& t.take(chars - 3) == s.take(chars - 3)
            &&& t[chars - 1] == '.' && t[chars - 2] == '.' && t[chars - 3] == '.'
        },
{
    reveal_strlit("...");
    if s.len() > chars {
        assert(draw::truncated(s, chars).take(chars - 3) =~= s.take(chars - 3));
    }
}

proof fn lemma_runs_hold(m: OverlayModel, n: int, j: int, run: RunModel, widths: ColumnWidths)
    requires
        0 <= j < n,
        draw::control_runs(
            j,
            m.sections[m.section].controls[j],
            j == m.pick(),
            m.focus == SettingsFocus::Controls,
            widths,
        ).contains(run),
    ensures
        m.controls_runs(n, widths).contains(run),
    decreases n,
{
    let rest = m.controls_runs(n - 1, widths);
    let last = draw::control_runs(
        n - 1,
        m.sections[m.section].controls[n - 1],
        n - 1 == m.pick(),
        m.focus == SettingsFocus::Controls,
        widths,
    );
    let all = m.controls_runs(n, widths);
    assert(all == rest + last);
    if j == n - 1 {
        let k = choose|k: int| 0 <= k < last.len() && last[k] == run;
        assert(all[rest.len() + k] == run);
    } else {
        lemma_runs_hold(m, n - 1, j, run, widths);
        let k = choose|k: int| 0 <= k < rest.len() && rest[k] == run;
        assert(all[k] == run);
    }
}

proof fn lemma_runs_of_the_section(m: OverlayModel, run: RunModel, widths: ColumnWidths)
    requires
        0 <= m.section < m.sections.len(),
        m.controls_runs(m.sections[m.section].controls.len() as int, widths).contains(run),
    ensures
        m.runs(widths).contains(run),
{
    let part = m.controls_runs(m.sections[m.section].controls.len() as int, widths);
    let content = m.content_runs(widths);
    let head = m.header_runs() + m.section_runs();
    let k = choose|k: int| 0 <= k < part.len() && part[k] == run;
    assert(content[k + 1] == run);
    assert(m.runs(widths) == head + content);
    assert(m.runs(widths)[head.len() + k + 1] == run);
}

/// Every control of the selected section is drawn in its row, with its label and with
/// what it holds: a switch as on or off, a choice with the option that is chosen, a
/// field or a row with its text.
pub proof fn law_every_control_is_drawn(m: OverlayModel, widths: ColumnWidths, j: int)
    requires
        0 <= m.section < m.sections.len(),
        0 <= j < m.sections[m.section].controls.len(),
        j <= usize::MAX,
    ensures
        ({
            let c = m.sections[m.section].controls[j];
            let row = j as usize;
            let here = j == m.pick();
            let ink = if here && m.focus == SettingsFocus::Controls {
                Ink::Accent
            } else {
                Ink::Plain
            };
            let mark = if here {
                seq!['>', ' ']
            } else {
                seq![' ', ' ']
            };
            let drawn = |text: Seq<char>, slot: Slot, ink: Ink|
                exists|k: int|
                    {
                        &&& 0 <= k < m.runs(widths).len()
                        &&& (#[trigger] m.runs(widths)[k]).text == text
                        &&& m.runs(widths)[k].slot == slot
                        &&& m.runs(widths)[k].ink == ink
                    };
            &&& c.kind is Action ==> drawn(
                draw::truncated(mark + c.label, widths.wide_label as int),
                Slot::WideLabel { row },
                ink,
            )
            &&& !(c.kind is Action) && !(c.kind is TextInput) ==> drawn(
                draw::truncated(mark + c.label, widths.label as int),
                Slot::Label { row },
                ink,
            )
            &&& c.kind matches KindModel::Toggle { value } ==> drawn(
                if value {
                    " ON "@
                } else {
                    " OFF"@
                },
                Slot::Pill { row },
                if value {
                    Ink::Signal
                } else {
                    Ink::Muted
                },
            )
            &&& c.kind matches KindModel::Select { options, selected } ==> (0 <= selected
                < options.len() ==> drawn(
                draw::truncated("< "@ + options[selected] + " >"@, widths.value as int),
                Slot::Value { row },
                ink,
            ))
            &&& c.kind matches KindModel::TextInput { text, editing, .. } ==> (text.len() > 0
                ==> drawn(
                draw::truncated(text, widths.field as int),
                Slot::Field { row },
                Ink::Plain,
            ))
            &&& c.kind matches KindModel::ListRow { text } ==> drawn(
                draw::truncated(text, widths.value as int),
                Slot::Value { row },
                Ink::Muted,
            )
        }),
{
    let c = m.sections[m.section].controls[j];
    let n = m.sections[m.section].controls.len() as int;
    let runs = draw::control_runs(
        j,
        c,
        j == m.pick(),
        m.focus == SettingsFocus::Controls,
        widths,
    );
    assert forall|i: int| 0 <= i < runs.len() implies m.runs(widths).contains(
        #[trigger] runs[i],
    ) by {
        lemma_runs_hold(m, n, j, runs[i], widths);
        lemma_runs_of_the_section(m, runs[i], widths);
    }
    assert(runs.len() >= 1);
    assert(m.runs(widths).contains(runs[0]));
    if !(c.kind is Action) {
        assert(runs.len() == 2);
        assert(m.runs(widths).contains(runs[1]));
    }
}

proof fn lemma_fills_hold(controls: Seq<ControlModel>, n: int, j: int, fill: Fill)
    requires
        0 <= j < n,
        draw::control_fills(j, controls[j].kind).contains(fill),
    ensures
        draw::controls_fills(controls, n).contains(fill),
    decreases n,
{
    let rest = draw::controls_fills(controls, n - 1);
    let last = draw::control_fills(n - 1, controls[n - 1].kind);
    let all = draw::controls_fills(controls, n);
    if j == n - 1 {
        let k = choose|k: int| 0 <= k < last.len() && last[k] == fill;
        assert(all[rest.len() + k] == fill);
    } else {
        lemma_fills_hold(controls, n - 1, j, fill);
        let k = choose|k: int| 0 <= k < rest.len() && rest[k] == fill;
        assert(all[k] == fill);
    }
}

/// Every control of the selected section fills its row as its kind does: a switch on
/// or off, a choice, a field, and the cursor of a field that is being edited behind
/// the bytes before it.
pub proof fn law_every_control_is_filled(m: OverlayModel, j: int)
    requires
        0 <= m.section < m.sections.len(),
        0 <= j < m.sections[m.section].controls.len(),
        j <= usize::MAX,
    ensures
        ({
            let row = j as usize;
            match m.sections[m.section].controls[j].kind {
                KindModel::Toggle { value } => m.fills().contains(
                    Fill::TogglePill { row, on: value },
                ),
                KindModel::Select { .. } => m.fills().contains(Fill::SelectField { row }),
                KindModel::TextInput { text, cursor, editing } => {
                    &&& m.fills().contains(Fill::TextField { row, editing })
                    &&& editing ==> m.fills().contains(
                        Fill::TextCursor {
                            row,
                            offset: text::byte_len(text.take(cursor)) as usize,
                        },
                    )
                },
                _ => true,
            }
        }),
{
    let controls = m.sections[m.section].controls;
    let n = controls.len() as int;
    let fills = draw::control_fills(j, controls[j].kind);
    let part = draw::controls_fills(controls, n);
    let head = seq![Fill::Scrim, Fill::Panel, Fill::Navigation, Fill::Divider] + m.focus_fills();
    assert(m.fills() == head + part);
    assert forall|i: int| 0 <= i < fills.len() implies m.fills().contains(#[trigger] fills[i]) by {
        lemma_fills_hold(controls, n, j, fills[i]);
        let k = choose|k: int| 0 <= k < part.len() && part[k] == fills[i];
        assert(m.fills()[head.len() + k] == fills[i]);
    }
    if fills.len() > 0 {
        assert(m.fills().contains(fills[0]));
    }
    if fills.len() > 1 {
        assert(m.fills().contains(fills[1]));
    }
}

/// The selected section is marked, and the selected control has a ring exactly while
/// the controls have the focus.
pub proof fn law_selection_is_marked(m: OverlayModel)
    ensures
        0 <= m.section < m.sections.len() ==> m.fills()[4] == (Fill::SectionFocus {
            row: m.section as usize,
        }),
        m.focus == SettingsFocus::Navigation && m.section >= m.sections.len() ==> m.fills() == seq![
            Fill::Scrim,
            Fill::Panel,
            Fill::Navigation,
            Fill::Divider,
        ],
        0 <= m.section < m.sections.len() && m.focus == SettingsFocus::Controls ==> {
            let row = m.pick() as usize;
            &&& m.fills()[5] == (Fill::RowFocus { row })
            &&& m.fills()[6] == (Fill::RingTop { row })
            &&& m.fills()[7] == (Fill::RingBottom { row })
            &&& m.fills()[8] == (Fill::RingLeft { row })
            &&& m.fills()[9] == (Fill::RingRight { row })
        },
        0 <= m.section < m.sections.len() && m.focus == SettingsFocus::Navigation
            ==> m.focus_fills().len() == 1,
{
    if m.focus == SettingsFocus::Navigation && m.section >= m.sections.len() {
        assert(m.fills() =~= seq![
            Fill::Scrim,
            Fill::Panel,
            Fill::Navigation,
            Fill::Divider,
        ]);
    }
}

/// Every section is an entry of the navigation, in its order, with its title; the
/// selected one has the marker, and the accent while the navigation has the focus.
pub proof fn law_every_section_is_listed(m: OverlayModel, widths: ColumnWidths, i: int)
    requires
        0 <= i < m.sections.len(),
        i <= usize::MAX,
    ensures
        ({
            let run = m.runs(widths)[2 + i];
            &&& run.slot == (Slot::Section { row: i as usize })
            &&& run.text == (if i == m.section {
                seq!['>', ' ']
            } else {
                seq![' ', ' ']
            }) + m.sections[i].title
            &&& run.ink == if i == m.section && m.focus == SettingsFocus::Navigation {
                Ink::Accent
            } else {
                Ink::Plain
            }
        }),
        m.runs(widths)[0].slot == Slot::Title,
        m.runs(widths)[1].slot == Slot::Hint,
        0 <= m.section < m.sections.len() ==> {
            let run = m.runs(widths)[2 + m.sections.len() as int];
            run.slot == Slot::Heading && run.text == m.sections[m.section].title
        },
{
    let run = m.runs(widths)[2 + i];
    assert(run == m.section_runs()[i]);
    assert(run.text =~= (if i == m.section {
        seq!['>', ' ']
    } else {
        seq![' ', ' ']
    }) + m.sections[i].title);
}

/// The number that a hexadecimal digit stands for.
pub open spec fn hex_value(c: char) -> int {
    if '0' <= c <= '9' {
        c as int - 48
    } else if 'a' <= c <= 'f' {
        c as int - 87
    } else {
        c as int - 55
    }
}

/// In a light theme the background is brighter than the text, in all three primary
/// colours; in a dark one it is darker.
pub proof fn law_light_and_dark_themes(preset: ThemePreset, k: int)
    requires
        k == 1 || k == 3 || k == 5,
    ensures
        ({
            let p = theme::palette(preset);
            let light = preset == ThemePreset::Paper || preset == ThemePreset::TokyoNightLight;
            &&& light ==> hex_value(p.background[k]) > hex_value(p.foreground[k])
            &&& !light ==> hex_value(p.background[k]) < hex_value(p.foreground[k])
        }),
{
    reveal_strlit("#060a12");
    reveal_strlit("#e7f0ff");
    reveal_strlit("#f2eede");
    reveal_strlit("#000000");
    reveal_strlit("#D5D6DB");
    reveal_strlit("#4B5563");
    reveal_strlit("#EAEAEA");
    reveal_strlit("#FFFFFF");
}

/// The texts of a drawing are those of its runs, in order.
pub proof fn law_texts_of_a_drawing(runs: Seq<draw::TextRun>, i: int)
    requires
        0 <= i < runs.len(),
    ensures
        draw::run_models(runs).len() == runs.len(),
        draw::run_models(runs)[i].text == runs[i].text@,
        draw::run_models(runs)[i].slot == runs[i].slot,
        draw::run_models(runs)[i].ink == runs[i].ink,
        draw::run_models(runs)[i].strength == runs[i].strength,
{
}

/// A field shows a star behind its label while it is being edited; an empty one that
/// is not says so, and so does a choice without options. The hint says which keys
/// count.
pub proof fn law_fields_and_hints(m: OverlayModel, widths: ColumnWidths, c: ControlModel, row: int)
    ensures
        ({
            let runs = draw::control_runs(row, c, false, false, widths);
            &&& c.kind matches KindModel::TextInput { text, editing, .. } ==> {
                &&& runs.len() == 2
                &&& runs[0].text == draw::truncated(
                    seq![' ', ' '] + c.label + (if editing {
                        seq!['*']
                    } else {
                        seq![]
                    }),
                    widths.label as int,
                )
                &&& text.len() == 0 && !editing ==> runs[1].text == draw::truncated(
                    "(empty)"@,
                    widths.field as int,
                ) && runs[1].ink == Ink::Muted
                &&& text.len() > 0 || editing ==> runs[1].text == draw::truncated(
                    text,
                    widths.field as int,
                ) && runs[1].ink == Ink::Plain
            }
            &&& c.kind matches KindModel::Select { options, .. } ==> (options.len() == 0
                ==> runs[1].text == draw::truncated("< (none) >"@, widths.value as int))
        }),
        m.editing() ==> m.runs(widths)[1].text
            == "Type to edit, Enter to confirm, Esc to cancel"@,
        !m.editing() ==> m.runs(widths)[1].text
            == "Tab/Shift+Tab focus, Arrows move, Enter/Space activate, Esc close"@,
        m.runs(widths)[0].text == "Settings"@,
{
    reveal_strlit("*");
    reveal_strlit("");
    reveal_strlit("< ");
    reveal_strlit("(none)");
    reveal_strlit(" >");
    reveal_strlit("< (none) >");
    assert("*"@ =~= seq!['*']);
    assert(""@ =~= Seq::<char>::empty());
    assert("< "@ + "(none)"@ + " >"@ =~= "< (none) >"@);
}

} // verus!
