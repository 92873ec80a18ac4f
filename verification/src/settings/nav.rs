//! Selection and focus: which section and control the keyboard acts on.
use super::{
    ControlModel, ControlType, KindModel, OverlayModel, SectionModel,
    SettingsFocus, SettingsOverlayState, SettingsSection,
};
use vstd::prelude::*;

verus! {

impl OverlayModel {
    /// Every selection is in range, or zero where there is nothing to select.
    pub open spec fn wf(self) -> bool {
        &&& self.picks.len() == self.sections.len()
        &&& super::in_range_or_zero(self.section, self.sections.len() as int)
        &&& forall|i: int|
            0 <= i < self.sections.len() ==> super::in_range_or_zero(
                #[trigger] self.picks[i],
                self.sections[i].controls.len() as int,
            )
    }

    /// The selected control of the selected section.
    pub open spec fn pick(self) -> int {
        if 0 <= self.section < self.picks.len() {
            self.picks[self.section]
        } else {
            0
        }
    }

    /// Whether a control is selected at all.
    pub open spec fn has_active(self) -> bool {
        &&& 0 <= self.section < self.sections.len()
        &&& 0 <= self.pick() < self.sections[self.section].controls.len()
    }

    /// The selected control.
    pub open spec fn active(self) -> ControlModel {
        self.sections[self.section].controls[self.pick()]
    }

    /// The overlay with the selected control turned into `kind`, and nothing
    /// else changed.
    pub open spec fn with_active_kind(self, kind: KindModel) -> OverlayModel {
        let section = self.sections[self.section];
        let control = ControlModel { kind, ..self.active() };
        OverlayModel {
            sections: self.sections.update(
                self.section,
                SectionModel {
                    controls: section.controls.update(self.pick(), control),
                    ..section
                },
            ),
            ..self
        }
    }

    pub open spec fn with_focus(self, focus: SettingsFocus) -> OverlayModel {
        OverlayModel { focus, ..self }
    }

    /// The focus goes to the other half.
    pub open spec fn tabbed(self) -> OverlayModel {
        self.with_focus(
            match self.focus {
                SettingsFocus::Navigation => SettingsFocus::Controls,
                SettingsFocus::Controls => SettingsFocus::Navigation,
            },
        )
    }

    /// The section selection moves by `delta`, around the end.
    pub open spec fn moved_section(self, delta: int) -> OverlayModel {
        if self.sections.len() == 0 {
            self
        } else {
            OverlayModel { section: (self.section + delta) % (self.sections.len() as int), ..self }
        }
    }

    /// The control selection of the selected section moves by `delta`, around
    /// the end.
    pub open spec fn moved_control(self, delta: int) -> OverlayModel {
        if self.has_active() {
            let len = self.sections[self.section].controls.len() as int;
            OverlayModel {
                picks: self.picks.update(self.section, (self.pick() + delta) % len),
                ..self
            }
        } else {
            self
        }
    }

    /// An arrow key up or down, on the half that has the focus.
    pub open spec fn moved(self, delta: int) -> OverlayModel {
        match self.focus {
            SettingsFocus::Navigation => self.moved_section(delta),
            SettingsFocus::Controls => self.moved_control(delta),
        }
    }

    /// The first section, the first control of each section, the navigation
    /// half, and no text being edited.
    pub open spec fn reset(self) -> OverlayModel {
        OverlayModel {
            sections: Seq::new(
                self.sections.len(),
                |i: int|
                    SectionModel {
                        controls: Seq::new(
                            self.sections[i].controls.len(),
                            |j: int| self.sections[i].controls[j].not_editing(),
                        ),
                        ..self.sections[i]
                    },
            ),
            section: 0,
            picks: Seq::new(self.picks.len(), |i: int| 0int),
            focus: SettingsFocus::Navigation,
        }
    }
}

impl OverlayModel {
    /// Every selection brought into range; missing ones are zero.
    pub open spec fn clamped(self) -> OverlayModel {
        if self.sections.len() == 0 {
            OverlayModel { section: 0, ..self }
        } else {
            OverlayModel {
                section: super::clamped(self.section, self.sections.len() as int),
                picks: Seq::new(
                    self.sections.len(),
                    |i: int|
                        super::clamped(
                            if i < self.picks.len() {
                                self.picks[i]
                            } else {
                                0
                            },
                            self.sections[i].controls.len() as int,
                        ),
                ),
                ..self
            }
        }
    }

    /// One more section at the end, with its first control selected.
    pub open spec fn with_section(self, section: SectionModel) -> OverlayModel {
        OverlayModel {
            sections: self.sections.push(section),
            picks: self.picks.push(0),
            ..self
        }
    }
}

impl ControlModel {
    /// The control with its text, if it has one, no longer being edited.
    pub open spec fn not_editing(self) -> ControlModel {
        match self.kind {
            KindModel::TextInput { text, cursor, .. } => ControlModel {
                kind: KindModel::TextInput { text, cursor, editing: false },
                ..self
            },
            _ => self,
        }
    }
}

/// `(cur + delta)` reduced to the range below `len`.
pub(crate) fn wrapped(cur: usize, delta: i32, len: usize) -> (r: usize)
    requires
        cur < len,
    ensures
        r == (cur + delta) % (len as int),
        r < len,
{
    let sum: i128 = cur as i128 + delta as i128;
    let n: i128 = len as i128;
    let r: i128 = if sum >= 0 {
        sum % n
    } else {
        let back: i128 = (-sum) % n;
        if back == 0 {
            0
        } else {
            n - back
        }
    };
    proof {
        let s = cur + delta;
        let l = len as int;
        if s < 0 {
            let back = (-s) % l;
            let q = (-s) / l;
            vstd::arithmetic::div_mod::lemma_fundamental_div_mod(-s, l);
            vstd::arithmetic::div_mod::lemma_mod_bound(-s, l);
            if back == 0 {
                assert(s == (-q) * l + 0) by (nonlinear_arith)
                    requires
                        -s == l * q + back,
                        back == 0,
                ;
                vstd::arithmetic::div_mod::lemma_fundamental_div_mod_converse(s, l, -q, 0);
            } else {
                assert(s == (-q - 1) * l + (l - back)) by (nonlinear_arith)
                    requires
                        -s == l * q + back,
                ;
                vstd::arithmetic::div_mod::lemma_fundamental_div_mod_converse(
                    s,
                    l,
                    -q - 1,
                    l - back,
                );
            }
        }
        vstd::arithmetic::div_mod::lemma_mod_bound(s, l);
    }
    r as usize
}

/// `new` is `old` but for the kind of the selected control.
pub open spec fn only_active_kind_differs(
    old: SettingsOverlayState,
    new: SettingsOverlayState,
) -> bool {
    let sec = old.selected_section as int;
    let idx = old@.pick();
    &&& new.selected_section == old.selected_section
    &&& new.selected_control_by_section == old.selected_control_by_section
    &&& new.focus == old.focus
    &&& new.sections@.len() == old.sections@.len()
    &&& forall|i: int|
        0 <= i < old.sections@.len() && i != sec ==> #[trigger] new.sections@[i] == old.sections@[i]
    &&& new.sections@[sec].id == old.sections@[sec].id
    &&& new.sections@[sec].title == old.sections@[sec].title
    &&& new.sections@[sec].controls@.len() == old.sections@[sec].controls@.len()
    &&& forall|j: int|
        0 <= j < old.sections@[sec].controls@.len() && j != idx
            ==> #[trigger] new.sections@[sec].controls@[j] == old.sections@[sec].controls@[j]
    &&& new.sections@[sec].controls@[idx].label == old.sections@[sec].controls@[idx].label
    &&& new.sections@[sec].controls@[idx].binding == old.sections@[sec].controls@[idx].binding
}

/// Where only the kind of the selected control differs, the models differ in
/// that kind alone.
pub proof fn lemma_active_kind(old: SettingsOverlayState, new: SettingsOverlayState)
    requires
        old@.has_active(),
        only_active_kind_differs(old, new),
    ensures
        new@ == old@.with_active_kind(
            new.sections@[old@.section].controls@[old@.pick()].control_type@,
        ),
        old.wf() && new.sections@[old@.section].controls@[old@.pick()].control_type.wf()
            ==> new.wf(),
{
    let sec = old@.section;
    let idx = old@.pick();
    let kind = new.sections@[sec].controls@[idx].control_type;
    let expected = old@.with_active_kind(kind@);
    assert(super::control_models(new.sections@[sec].controls@)
        =~= expected.sections[sec].controls);
    assert(new@.sections =~= expected.sections);
    assert(new@ =~= expected);
    if old.wf() && kind.wf() {
        assert(old.sections@[sec].wf());
        assert forall|i: int| 0 <= i < new.sections@.len() implies (
        #[trigger] new.sections@[i]).wf() by {
            assert(old.sections@[i].wf());
            if i == sec {
                assert forall|j: int| 0 <= j < new.sections@[i].controls@.len() implies (
                #[trigger] new.sections@[i].controls@[j]).control_type.wf() by {
                    if j != idx {
                        assert(old.sections@[i].controls@[j].control_type.wf());
                    }
                }
            }
        }
        assert forall|i: int| 0 <= i < new@.sections.len() implies super::in_range_or_zero(
            #[trigger] new@.picks[i],
            new@.sections[i].controls.len() as int,
        ) by {
            assert(super::in_range_or_zero(
                old@.picks[i],
                old@.sections[i].controls.len() as int,
            ));
        }
    }
}

/// Ends the editing of every text among `controls`.
fn stop_editing(controls: &mut Vec<super::SettingsControl>)
    requires
        forall|j: int| 0 <= j < old(controls)@.len() ==> (#[trigger] old(
            controls,
        )@[j]).control_type.wf(),
    ensures
        final(controls)@.len() == old(controls)@.len(),
        forall|j: int|
            0 <= j < final(controls)@.len() ==> (#[trigger] final(controls)@[j])@ == old(
                controls,
            )@[j]@.not_editing() && final(controls)@[j].control_type.wf(),
{
    let mut j: usize = 0;
    while j < controls.len()
        invariant
            j <= controls@.len(),
            controls@.len() == old(controls)@.len(),
            forall|m: int| 0 <= m < old(controls)@.len() ==> (#[trigger] old(
                controls,
            )@[m]).control_type.wf(),
            forall|m: int|
                0 <= m < j ==> (#[trigger] controls@[m])@ == old(controls)@[m]@.not_editing()
                    && controls@[m].control_type.wf(),
            forall|m: int|
                j <= m < controls@.len() ==> #[trigger] controls@[m] == old(controls)@[m],
        decreases controls@.len() - j,
    {
        assert(old(controls)@[j as int].control_type.wf());
        if let ControlType::TextInput { editing, .. } = &mut controls[j].control_type {
            *editing = false;
        }
        j += 1;
    }
}

impl SettingsOverlayState {
    /// Every selection is in range and every control well formed.
    pub open spec fn wf(&self) -> bool {
        &&& self@.wf()
        &&& forall|i: int| 0 <= i < self.sections@.len() ==> (#[trigger] self.sections@[i]).wf()
    }

    pub fn sections(&self) -> (r: &Vec<SettingsSection>)
        ensures
            *r == self.sections,
    {
        &self.sections
    }

    pub fn focus(&self) -> (r: SettingsFocus)
        ensures
            r == self@.focus,
    {
        self.focus
    }

    pub fn active_section_index(&self) -> (r: usize)
        ensures
            r == self@.section,
    {
        self.selected_section
    }

    pub fn active_section(&self) -> (r: Option<&SettingsSection>)
        ensures
            self@.section < self@.sections.len() ==> r == Some(
                &self.sections@[self@.section],
            ),
            self@.section >= self@.sections.len() ==> r is None,
    {
        if self.selected_section < self.sections.len() {
            Some(&self.sections[self.selected_section])
        } else {
            None
        }
    }

    pub fn active_control_index(&self) -> (r: usize)
        ensures
            r == self@.pick(),
    {
        if self.selected_section < self.selected_control_by_section.len() {
            self.selected_control_by_section[self.selected_section]
        } else {
            0
        }
    }

    /// The selected control, where one is selected.
    pub(crate) fn active_control(&self) -> (r: Option<&super::SettingsControl>)
        ensures
            r is Some <==> self@.has_active(),
            r matches Some(c) ==> c@ == self@.active() && *c
                == self.sections@[self@.section].controls@[self@.pick()],
    {
        let idx: usize = self.active_control_index();
        if self.selected_section < self.sections.len() {
            let section = &self.sections[self.selected_section];
            if idx < section.controls.len() {
                return Some(&section.controls[idx]);
            }
        }
        None
    }

    /// Turns the selected control into `kind`.
    pub(crate) fn set_active_kind(&mut self, kind: ControlType)
        requires
            old(self)@.has_active(),
        ensures
            final(self)@ == old(self)@.with_active_kind(kind@),
            old(self).wf() && kind.wf() ==> final(self).wf(),
    {
        let idx: usize = self.active_control_index();
        let sec: usize = self.selected_section;
        self.sections[sec].controls[idx].control_type = kind;
        proof {
            lemma_active_kind(*old(self), *self);
        }
    }

    /// Brings every selection into range.
    pub(crate) fn clamp_selection(&mut self)
        ensures
            final(self)@ == old(self)@.clamped(),
            final(self).sections == old(self).sections,
    {
        let n: usize = self.sections.len();
        if n == 0 {
            self.selected_section = 0;
            return;
        }
        if self.selected_section >= n {
            self.selected_section = n - 1;
        }
        let mut picks: Vec<usize> = Vec::new();
        let mut i: usize = 0;
        while i < n
            invariant
                n == self.sections@.len(),
                i <= n,
                self.sections == old(self).sections,
                self.selected_control_by_section == old(self).selected_control_by_section,
                picks@.len() == i,
                forall|k: int|
                    0 <= k < i ==> #[trigger] picks@[k] == super::clamped(
                        if k < self.selected_control_by_section@.len() {
                            self.selected_control_by_section@[k] as int
                        } else {
                            0
                        },
                        self.sections@[k].controls@.len() as int,
                    ),
            decreases n - i,
        {
            let cur: usize = if i < self.selected_control_by_section.len() {
                self.selected_control_by_section[i]
            } else {
                0
            };
            let len: usize = self.sections[i].controls.len();
            let next: usize = if len == 0 {
                0
            } else if cur < len {
                cur
            } else {
                len - 1
            };
            picks.push(next);
            i += 1;
        }
        self.selected_control_by_section = picks;
        proof {
            assert(self@.picks =~= old(self)@.clamped().picks);
            assert(self@ =~= old(self)@.clamped());
        }
    }

    /// Adds a section at the end.
    pub fn register_section(&mut self, section: SettingsSection)
        requires
            old(self).wf(),
            section.wf(),
        ensures
            final(self).wf(),
            final(self)@ == old(self)@.with_section(section@),
    {
        self.sections.push(section);
        self.selected_control_by_section.push(0);
        let ghost pushed = self@;
        proof {
            assert(pushed.sections =~= old(self)@.sections.push(section@));
            assert(pushed.picks =~= old(self)@.picks.push(0));
        }
        self.clamp_selection();
        proof {
            assert forall|i: int| 0 <= i < pushed.sections.len() implies #[trigger] pushed.picks[i]
                == self@.picks[i] by {
                if i < old(self)@.sections.len() {
                    assert(super::in_range_or_zero(
                        old(self)@.picks[i],
                        old(self)@.sections[i].controls.len() as int,
                    ));
                }
            }
            assert(self@.picks =~= pushed.picks);
            assert(self@ =~= old(self)@.with_section(section@));
            assert forall|i: int| 0 <= i < self@.sections.len() implies super::in_range_or_zero(
                #[trigger] self@.picks[i],
                self@.sections[i].controls.len() as int,
            ) by {
                if i < old(self)@.sections.len() {
                    assert(super::in_range_or_zero(
                        old(self)@.picks[i],
                        old(self)@.sections[i].controls.len() as int,
                    ));
                }
            }
            assert forall|i: int| 0 <= i < self.sections@.len() implies (
            #[trigger] self.sections@[i]).wf() by {
                if i < old(self).sections@.len() {
                    assert(old(self).sections@[i].wf());
                }
            }
        }
    }

    /// Moves the focus to the other half; backwards is the same step, there
    /// are only two halves.
    pub fn tab(&mut self, reverse: bool)
        ensures
            final(self)@ == old(self)@.tabbed(),
            old(self).wf() ==> final(self).wf(),
    {
        let current: usize = match self.focus {
            SettingsFocus::Navigation => 0,
            SettingsFocus::Controls => 1,
        };
        let next: usize = if reverse {
            (current + 2 - 1) % 2
        } else {
            (current + 1) % 2
        };
        self.focus = if next == 0 {
            SettingsFocus::Navigation
        } else {
            SettingsFocus::Controls
        };
    }

    pub(crate) fn move_section(&mut self, delta: i32)
        requires
            old(self).wf(),
        ensures
            final(self).wf(),
            final(self)@ == old(self)@.moved_section(delta as int),
    {
        if self.sections.is_empty() {
            return;
        }
        self.selected_section = wrapped(self.selected_section, delta, self.sections.len());
        assert(self@ =~= old(self)@.moved_section(delta as int));
    }

    pub(crate) fn move_control(&mut self, delta: i32)
        requires
            old(self).wf(),
        ensures
            final(self).wf(),
            final(self)@ == old(self)@.moved_control(delta as int),
    {
        if self.selected_section >= self.sections.len() {
            return;
        }
        let sec: usize = self.selected_section;
        let len: usize = self.sections[sec].controls.len();
        if len == 0 {
            return;
        }
        proof {
            assert(super::in_range_or_zero(
                self@.picks[sec as int],
                self@.sections[sec as int].controls.len() as int,
            ));
        }
        let next: usize = wrapped(self.active_control_index(), delta, len);
        self.selected_control_by_section[sec] = next;
        proof {
            assert(self@.sections =~= old(self)@.sections);
            assert(self@.picks =~= old(self)@.moved_control(delta as int).picks);
            assert(self@ =~= old(self)@.moved_control(delta as int));
            assert forall|i: int| 0 <= i < self@.sections.len() implies super::in_range_or_zero(
                #[trigger] self@.picks[i],
                self@.sections[i].controls.len() as int,
            ) by {
                assert(super::in_range_or_zero(
                    old(self)@.picks[i],
                    old(self)@.sections[i].controls.len() as int,
                ));
            }
        }
    }

    pub fn arrow_up(&mut self)
        requires
            old(self).wf(),
        ensures
            final(self).wf(),
            final(self)@ == old(self)@.moved(-1),
    {
        match self.focus {
            SettingsFocus::Navigation => self.move_section(-1),
            SettingsFocus::Controls => self.move_control(-1),
        }
    }

    pub fn arrow_down(&mut self)
        requires
            old(self).wf(),
        ensures
            final(self).wf(),
            final(self)@ == old(self)@.moved(1),
    {
        match self.focus {
            SettingsFocus::Navigation => self.move_section(1),
            SettingsFocus::Controls => self.move_control(1),
        }
    }

    /// Back to the first section, with nothing being edited.
    pub fn reset_navigation(&mut self)
        requires
            old(self).wf(),
        ensures
            final(self).wf(),
            final(self)@ == old(self)@.reset(),
    {
        self.selected_section = 0;
        self.focus = SettingsFocus::Navigation;
        let mut i: usize = 0;
        while i < self.selected_control_by_section.len()
            invariant
                i <= self.selected_control_by_section@.len(),
                self.selected_control_by_section@.len()
                    == old(self).selected_control_by_section@.len(),
                forall|k: int| 0 <= k < i ==> self.selected_control_by_section@[k] == 0,
                self.sections == old(self).sections,
                self.selected_section == 0,
                self.focus == SettingsFocus::Navigation,
            decreases self.selected_control_by_section@.len() - i,
        {
            self.selected_control_by_section[i] = 0;
            i += 1;
        }
        let mut k: usize = 0;
        while k < self.sections.len()
            invariant
                old(self).wf(),
                k <= self.sections@.len(),
                self.sections@.len() == old(self).sections@.len(),
                forall|m: int|
                    0 <= m < k ==> (#[trigger] self.sections@[m])@ == old(self)@.reset().sections[m]
                        && self.sections@[m].wf(),
                forall|m: int|
                    k <= m < self.sections@.len() ==> #[trigger] self.sections@[m]
                        == old(self).sections@[m],
                self.selected_control_by_section@.len()
                    == old(self).selected_control_by_section@.len(),
                forall|m: int|
                    0 <= m < self.selected_control_by_section@.len() ==> #[trigger]
                    self.selected_control_by_section@[m] == 0,
                self.selected_section == 0,
                self.focus == SettingsFocus::Navigation,
            decreases self.sections@.len() - k,
        {
            assert(old(self).sections@[k as int].wf());
            stop_editing(&mut self.sections[k].controls);
            proof {
                assert(self.sections@[k as int]@.controls
                    =~= old(self)@.reset().sections[k as int].controls);
            }
            k += 1;
        }
        proof {
            assert(self@.sections =~= old(self)@.reset().sections);
            assert(self@.picks =~= old(self)@.reset().picks);
            assert(self@ =~= old(self)@.reset());
        }
    }
}

} // verus!
