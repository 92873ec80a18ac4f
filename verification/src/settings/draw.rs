//! What the overlay draws: which areas are filled, which texts stand where and
//! in which ink. Where an area lies in pixels is not decided here.
use super::{
    ControlModel, ControlType, KindModel, OverlayModel, SettingsControl, SettingsFocus,
    SettingsOverlayState,
};
use crate::text;
use vstd::prelude::*;

verus! {

/// A filled area. Rows are counted from the top.
#[derive(Debug, Clone, Copy, PartialEq, Eq, Structural)]
pub enum Fill {
    Scrim,
    Panel,
    Navigation,
    Divider,
    SectionFocus { row: usize },
    RowFocus { row: usize },
    RingTop { row: usize },
    RingBottom { row: usize },
    RingLeft { row: usize },
    RingRight { row: usize },
    TogglePill { row: usize, on: bool },
    TextField { row: usize, editing: bool },
    TextCursor { row: usize, offset: usize },
    SelectField { row: usize },
}

/// The place of a text.
#[derive(Debug, Clone, Copy, PartialEq, Eq, Structural)]
pub enum Slot {
    Title,
    Hint,
    Section { row: usize },
    Heading,
    Label { row: usize },
    WideLabel { row: usize },
    Pill { row: usize },
    Value { row: usize },
    Field { row: usize },
}

#[derive(Debug, Clone, Copy, PartialEq, Eq, Structural)]
pub enum Ink {
    Plain,
    Muted,
    Accent,
    Signal,
}

#[derive(Debug, Clone, Copy, PartialEq, Eq, Structural)]
pub enum Strength {
    Normal,
    Medium,
    SemiBold,
    Bold,
}

#[derive(Debug, Clone)]
pub struct TextRun {
    pub text: String,
    pub slot: Slot,
    pub ink: Ink,
    pub strength: Strength,
}

/// How many characters have room in the columns.
#[derive(Debug, Clone, Copy, PartialEq, Eq, Structural)]
pub struct ColumnWidths {
    pub label: usize,
    pub wide_label: usize,
    pub value: usize,
    pub field: usize,
}

#[derive(Debug, Clone)]
pub struct OverlayDrawing {
    pub fills: Vec<Fill>,
    pub runs: Vec<TextRun>,
}

#[verifier::ext_equal]
pub struct RunModel {
    pub text: Seq<char>,
    pub slot: Slot,
    pub ink: Ink,
    pub strength: Strength,
}

impl View for TextRun {
    type V = RunModel;

    open spec fn view(&self) -> RunModel {
        RunModel {
            text: self.text@,
            slot: self.slot,
            ink: self.ink,
            strength: self.strength,
        }
    }
}

pub open spec fn run_models(v: Seq<TextRun>) -> Seq<RunModel> {
    Seq::new(v.len(), |i: int| v[i]@)
}

/// The least number of characters that a column shows.
pub const MIN_COLUMN: usize = 4;

/// `s` if a column for `chars` characters shows it whole, else its start and
/// three dots.
pub open spec fn truncated(s: Seq<char>, chars: int) -> Seq<char> {
    let shown = if chars < MIN_COLUMN {
        MIN_COLUMN as int
    } else {
        chars
    };
    if s.len() <= shown {
        s
    } else {
        s.take(shown - 3) + "..."@
    }
}

/// Shortens `s` to what a column for `chars` characters shows.
pub fn truncate_for_width(s: &str, chars: usize) -> (r: String)
    ensures
        r@ == truncated(s@, chars as int),
{
    let shown: usize = if chars < MIN_COLUMN {
        MIN_COLUMN
    } else {
        chars
    };
    let len: usize = s.unicode_len();
    if len <= shown {
        return String::from_str(s);
    }
    let mut out = String::from_str(s.substring_char(0, shown - 3));
    out.append("...");
    proof {
        assert(out@ =~= truncated(s@, chars as int));
    }
    out
}

/// The areas that a control fills.
pub open spec fn control_fills(row: int, kind: KindModel) -> Seq<Fill> {
    let row = row as usize;
    match kind {
        KindModel::Toggle { value } => seq![Fill::TogglePill { row, on: value }],
        KindModel::TextInput { text, cursor, editing } => if editing {
            seq![
                Fill::TextField { row, editing },
                Fill::TextCursor { row, offset: text::byte_len(text.take(cursor)) as usize },
            ]
        } else {
            seq![Fill::TextField { row, editing }]
        },
        KindModel::Select { .. } => seq![Fill::SelectField { row }],
        _ => seq![],
    }
}

/// The areas that the first `n` controls fill.
pub open spec fn controls_fills(controls: Seq<ControlModel>, n: int) -> Seq<Fill>
    decreases n,
{
    if n <= 0 {
        seq![]
    } else {
        controls_fills(controls, n - 1) + control_fills(n - 1, controls[n - 1].kind)
    }
}

/// The marker in front of a row, and the row's text.
pub open spec fn marked(selected: bool, label: Seq<char>) -> Seq<char> {
    seq![if selected { '>' } else { ' ' }, ' '] + label
}

pub open spec fn row_ink(selected: bool, focused: bool) -> Ink {
    if selected && focused {
        Ink::Accent
    } else {
        Ink::Plain
    }
}

/// The texts of the control in `row`.
pub open spec fn control_runs(
    row: int,
    control: ControlModel,
    selected: bool,
    focused: bool,
    widths: ColumnWidths,
) -> Seq<RunModel> {
    let ink = row_ink(selected, focused);
    let row = row as usize;
    let strength = Strength::Normal;
    let plain_label = RunModel {
        text: truncated(marked(selected, control.label), widths.label as int),
        slot: Slot::Label { row },
        ink,
        strength,
    };
    match control.kind {
        KindModel::Toggle { value } => seq![
            plain_label,
            RunModel {
                text: if value {
                    " ON "@
                } else {
                    " OFF"@
                },
                slot: Slot::Pill { row },
                ink: if value {
                    Ink::Signal
                } else {
                    Ink::Muted
                },
                strength: Strength::Bold,
            },
        ],
        KindModel::Select { options, selected: chosen } => seq![
            plain_label,
            RunModel {
                text: truncated(
                    "< "@ + (if 0 <= chosen < options.len() {
                        options[chosen]
                    } else {
                        "(none)"@
                    }) + " >"@,
                    widths.value as int,
                ),
                slot: Slot::Value { row },
                ink,
                strength,
            },
        ],
        KindModel::TextInput { text, editing, .. } => seq![
            RunModel {
                text: truncated(
                    marked(selected, control.label) + (if editing {
                        "*"@
                    } else {
                        ""@
                    }),
                    widths.label as int,
                ),
                slot: Slot::Label { row },
                ink,
                strength,
            },
            RunModel {
                text: truncated(
                    if text.len() == 0 && !editing {
                        "(empty)"@
                    } else {
                        text
                    },
                    widths.field as int,
                ),
                slot: Slot::Field { row },
                ink: if text.len() == 0 && !editing {
                    Ink::Muted
                } else {
                    Ink::Plain
                },
                strength,
            },
        ],
        KindModel::ListRow { text } => seq![
            plain_label,
            RunModel {
                text: truncated(text, widths.value as int),
                slot: Slot::Value { row },
                ink: Ink::Muted,
                strength,
            },
        ],
        KindModel::Action => seq![
            RunModel {
                text: truncated(marked(selected, control.label), widths.wide_label as int),
                slot: Slot::WideLabel { row },
                ink,
                strength,
            },
        ],
    }
}

impl OverlayModel {
    /// The texts of the first `n` controls of the selected section.
    pub open spec fn controls_runs(self, n: int, widths: ColumnWidths) -> Seq<RunModel>
        decreases n,
    {
        if n <= 0 {
            seq![]
        } else {
            self.controls_runs(n - 1, widths) + control_runs(
                n - 1,
                self.sections[self.section].controls[n - 1],
                n - 1 == self.pick(),
                self.focus == SettingsFocus::Controls,
                widths,
            )
        }
    }

    /// The entries of the navigation half.
    pub open spec fn section_runs(self) -> Seq<RunModel> {
        Seq::new(
            self.sections.len(),
            |i: int|
                RunModel {
                    text: marked(i == self.section, self.sections[i].title),
                    slot: Slot::Section { row: i as usize },
                    ink: row_ink(
                        i == self.section,
                        self.focus == SettingsFocus::Navigation,
                    ),
                    strength: Strength::Medium,
                },
        )
    }

    /// Title and key hints.
    pub open spec fn header_runs(self) -> Seq<RunModel> {
        seq![
            RunModel {
                text: "Settings"@,
                slot: Slot::Title,
                ink: Ink::Plain,
                strength: Strength::SemiBold,
            },
            RunModel {
                text: if self.editing() {
                    "Type to edit, Enter to confirm, Esc to cancel"@
                } else {
                    "Tab/Shift+Tab focus, Arrows move, Enter/Space activate, Esc close"@
                },
                slot: Slot::Hint,
                ink: Ink::Muted,
                strength: Strength::Normal,
            },
        ]
    }

    /// The selected section: its title and its controls.
    pub open spec fn content_runs(self, widths: ColumnWidths) -> Seq<RunModel> {
        if 0 <= self.section < self.sections.len() {
            let section = self.sections[self.section];
            seq![
                RunModel {
                    text: section.title,
                    slot: Slot::Heading,
                    ink: Ink::Plain,
                    strength: Strength::SemiBold,
                },
            ] + self.controls_runs(section.controls.len() as int, widths)
        } else {
            seq![]
        }
    }

    /// All texts, in drawing order.
    pub open spec fn runs(self, widths: ColumnWidths) -> Seq<RunModel> {
        self.header_runs() + self.section_runs() + self.content_runs(widths)
    }

    /// The areas behind and around the selected entries.
    pub open spec fn focus_fills(self) -> Seq<Fill> {
        let row = self.pick() as usize;
        (if 0 <= self.section < self.sections.len() {
            seq![Fill::SectionFocus { row: self.section as usize }]
        } else {
            seq![]
        }) + (if self.focus == SettingsFocus::Controls {
            seq![
                Fill::RowFocus { row },
                Fill::RingTop { row },
                Fill::RingBottom { row },
                Fill::RingLeft { row },
                Fill::RingRight { row },
            ]
        } else {
            seq![]
        })
    }

    /// All filled areas, in drawing order.
    pub open spec fn fills(self) -> Seq<Fill> {
        seq![Fill::Scrim, Fill::Panel, Fill::Navigation, Fill::Divider] + self.focus_fills() + (
        if 0 <= self.section < self.sections.len() {
            let controls = self.sections[self.section].controls;
            controls_fills(controls, controls.len() as int)
        } else {
            seq![]
        })
    }
}

/// The marker in front of a row, the row's text, and a star while it is
/// edited.
fn marked_label(selected: bool, label: &str, star: bool) -> (r: String)
    ensures
        r@ == marked(selected, label@) + (if star {
            "*"@
        } else {
            ""@
        }),
{
    let mut out = String::new();
    if selected {
        out.push('>');
    } else {
        out.push(' ');
    }
    out.push(' ');
    out.append(label);
    if star {
        out.append("*");
    }
    proof {
        reveal_strlit("");
        assert(out@ =~= marked(selected, label@) + (if star {
            "*"@
        } else {
            ""@
        }));
    }
    out
}

fn push_control_fills(fills: &mut Vec<Fill>, row: usize, kind: &ControlType)
    requires
        kind.wf(),
    ensures
        final(fills)@ == old(fills)@ + control_fills(row as int, kind@),
{
    match kind {
        ControlType::Toggle { value } => {
            fills.push(Fill::TogglePill { row, on: *value });
        },
        ControlType::TextInput { value, cursor, editing } => {
            fills.push(Fill::TextField { row, editing: *editing });
            if *editing {
                fills.push(Fill::TextCursor { row, offset: *cursor });
            }
        },
        ControlType::Select { .. } => {
            fills.push(Fill::SelectField { row });
        },
        _ => {},
    }
    assert(fills@ =~= old(fills)@ + control_fills(row as int, kind@));
}

fn run(text: String, slot: Slot, ink: Ink, strength: Strength) -> (r: TextRun)
    ensures
        r@ == (RunModel { text: text@, slot, ink, strength }),
{
    TextRun { text, slot, ink, strength }
}

fn push_run(runs: &mut Vec<TextRun>, item: TextRun)
    ensures
        run_models(final(runs)@) == run_models(old(runs)@).push(item@),
{
    runs.push(item);
    assert(run_models(runs@) =~= run_models(old(runs)@).push(item@));
}

fn push_control_runs(
    runs: &mut Vec<TextRun>,
    row: usize,
    control: &SettingsControl,
    selected: bool,
    focused: bool,
    widths: &ColumnWidths,
)
    ensures
        run_models(final(runs)@) == run_models(old(runs)@) + control_runs(
            row as int,
            control@,
            selected,
            focused,
            *widths,
        ),
{
    let ink = if selected && focused {
        Ink::Accent
    } else {
        Ink::Plain
    };
    let ghost before = run_models(runs@);
    let star = match &control.control_type {
        ControlType::TextInput { editing, .. } => *editing,
        _ => false,
    };
    let label = marked_label(selected, control.label, star);
    proof {
        reveal_strlit("");
        assert(marked(selected, control.label@) + ""@ =~= marked(selected, control.label@));
    }
    let first = match &control.control_type {
        ControlType::Action => run(
            truncate_for_width(label.as_str(), widths.wide_label),
            Slot::WideLabel { row },
            ink,
            Strength::Normal,
        ),
        _ => run(
            truncate_for_width(label.as_str(), widths.label),
            Slot::Label { row },
            ink,
            Strength::Normal,
        ),
    };
    push_run(runs, first);
    match &control.control_type {
        ControlType::Toggle { value } => {
            let pill = if *value {
                run(String::from_str(" ON "), Slot::Pill { row }, Ink::Signal, Strength::Bold)
            } else {
                run(String::from_str(" OFF"), Slot::Pill { row }, Ink::Muted, Strength::Bold)
            };
            push_run(runs, pill);
        },
        ControlType::Select { options, selected: chosen } => {
            let mut shown = String::from_str("< ");
            if *chosen < options.len() {
                shown.append(options[*chosen].as_str());
            } else {
                shown.append("(none)");
            }
            shown.append(" >");
            push_run(
                runs,
                run(
                    truncate_for_width(shown.as_str(), widths.value),
                    Slot::Value { row },
                    ink,
                    Strength::Normal,
                ),
            );
        },
        ControlType::TextInput { value, editing, .. } => {
            let field = if value.as_str().is_empty() && !*editing {
                run(
                    truncate_for_width("(empty)", widths.field),
                    Slot::Field { row },
                    Ink::Muted,
                    Strength::Normal,
                )
            } else {
                run(
                    truncate_for_width(value.as_str(), widths.field),
                    Slot::Field { row },
                    Ink::Plain,
                    Strength::Normal,
                )
            };
            push_run(runs, field);
        },
        ControlType::ListRow { display_value } => {
            push_run(
                runs,
                run(
                    truncate_for_width(display_value.as_str(), widths.value),
                    Slot::Value { row },
                    Ink::Muted,
                    Strength::Normal,
                ),
            );
        },
        ControlType::Action => {},
    }
    assert(run_models(runs@) =~= before + control_runs(
        row as int,
        control@,
        selected,
        focused,
        *widths,
    ));
}

/// The filled areas of the overlay.
fn overlay_fills(state: &SettingsOverlayState) -> (fills: Vec<Fill>)
    requires
        state.wf(),
    ensures
        fills@ == state@.fills(),
{
    let mut fills: Vec<Fill> = Vec::new();
    fills.push(Fill::Scrim);
    fills.push(Fill::Panel);
    fills.push(Fill::Navigation);
    fills.push(Fill::Divider);
    let sec: usize = state.active_section_index();
    let row: usize = state.active_control_index();
    if sec < state.sections.len() {
        fills.push(Fill::SectionFocus { row: sec });
    }
    if state.focus == SettingsFocus::Controls {
        fills.push(Fill::RowFocus { row });
        fills.push(Fill::RingTop { row });
        fills.push(Fill::RingBottom { row });
        fills.push(Fill::RingLeft { row });
        fills.push(Fill::RingRight { row });
    }
    let ghost head = fills@;
    proof {
        assert(head =~= seq![Fill::Scrim, Fill::Panel, Fill::Navigation, Fill::Divider]
            + state@.focus_fills());
    }
    if let Some(section) = state.active_section() {
        let ghost controls = section@.controls;
        assert(state.sections@[sec as int].wf());
        assert(head + controls_fills(controls, 0) =~= head);
        let mut i: usize = 0;
        while i < section.controls.len()
            invariant
                i <= section.controls@.len(),
                controls == section@.controls,
                section.wf(),
                fills@ == head + controls_fills(controls, i as int),
            decreases section.controls@.len() - i,
        {
            assert(section.controls@[i as int].control_type.wf());
            push_control_fills(&mut fills, i, &section.controls[i].control_type);
            assert(fills@ =~= head + controls_fills(controls, i as int + 1));
            i += 1;
        }
        assert(fills@ =~= state@.fills());
    } else {
        assert(fills@ =~= state@.fills());
    }
    fills
}

/// What the overlay draws in columns of the given widths.
pub fn draw_settings_overlay(
    state: &SettingsOverlayState,
    widths: &ColumnWidths,
) -> (drawing: OverlayDrawing)
    requires
        state.wf(),
    ensures
        drawing.fills@ == state@.fills(),
        run_models(drawing.runs@) == state@.runs(*widths),
{
    let fills = overlay_fills(state);
    let mut runs: Vec<TextRun> = Vec::new();
    let sec: usize = state.active_section_index();
    let row: usize = state.active_control_index();
    push_run(
        &mut runs,
        run(String::from_str("Settings"), Slot::Title, Ink::Plain, Strength::SemiBold),
    );
    let hint = if state.is_text_editing() {
        "Type to edit, Enter to confirm, Esc to cancel"
    } else {
        "Tab/Shift+Tab focus, Arrows move, Enter/Space activate, Esc close"
    };
    push_run(&mut runs, run(String::from_str(hint), Slot::Hint, Ink::Muted, Strength::Normal));
    let ghost head = run_models(runs@);
    proof {
        assert(head =~= state@.header_runs());
        assert(head + state@.section_runs().take(0) =~= head);
    }
    let mut k: usize = 0;
    while k < state.sections.len()
        invariant
            k <= state.sections@.len(),
            sec == state@.section,
            head == state@.header_runs(),
            run_models(runs@) == head + state@.section_runs().take(k as int),
        decreases state.sections@.len() - k,
    {
        let ink = if k == sec && state.focus == SettingsFocus::Navigation {
            Ink::Accent
        } else {
            Ink::Plain
        };
        let label = marked_label(k == sec, state.sections[k].title, false);
        proof {
            reveal_strlit("");
            assert(label@ =~= marked(k == sec, state.sections@[k as int].title@));
        }
        push_run(&mut runs, run(label, Slot::Section { row: k }, ink, Strength::Medium));
        proof {
            assert(state@.section_runs().take(k as int + 1) =~= state@.section_runs().take(
                k as int,
            ).push(state@.section_runs()[k as int]));
            assert(run_models(runs@) =~= head + state@.section_runs().take(k as int + 1));
        }
        k += 1;
    }
    assert(state@.section_runs().take(k as int) =~= state@.section_runs());
    if let Some(section) = state.active_section() {
        push_run(
            &mut runs,
            run(
                String::from_str(section.title),
                Slot::Heading,
                Ink::Plain,
                Strength::SemiBold,
            ),
        );
        let ghost top = run_models(runs@);
        assert(top + state@.controls_runs(0, *widths) =~= top);
        let mut i: usize = 0;
        while i < section.controls.len()
            invariant
                i <= section.controls@.len(),
                row == state@.pick(),
                0 <= state@.section < state@.sections.len(),
                section@ == state@.sections[state@.section],
                run_models(runs@) == top + state@.controls_runs(i as int, *widths),
            decreases section.controls@.len() - i,
        {
            push_control_runs(
                &mut runs,
                i,
                &section.controls[i],
                i == row,
                state.focus == SettingsFocus::Controls,
                widths,
            );
            proof {
                assert(section.controls@[i as int]@
                    == state@.sections[state@.section].controls[i as int]);
                assert(run_models(runs@) =~= top + state@.controls_runs(i as int + 1, *widths));
            }
            i += 1;
        }
        assert(run_models(runs@) =~= state@.runs(*widths));
    } else {
        assert(run_models(runs@) =~= state@.runs(*widths));
    }
    OverlayDrawing { fills, runs }
}

} // verus!
