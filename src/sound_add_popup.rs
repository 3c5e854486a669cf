use vstd::prelude::*;
use crate::config::SoundConfig;
use crate::input::{Input, InputView, input_after_key};
use crate::key::Key;

verus! {

/// Number of fields of the form: name, file path, icon.
pub const FIELD_COUNT: usize = 3;

pub const NAME_MAX_LENGTH: usize = 50;

pub const FILE_MAX_LENGTH: usize = 100;

pub const ICON_MAX_LENGTH: usize = 1;

/// The form that collects a new catalog record: three fields, exactly one of
/// them focused.
pub struct SoundAddPopup {
    inputs: Vec<Input>,
    opened: bool,
    focus: usize,
}

pub struct SoundAddPopupView {
    pub fields: Seq<InputView>,
    pub opened: bool,
    pub focus: int,
}

impl View for SoundAddPopup {
    type V = SoundAddPopupView;

    closed spec fn view(&self) -> SoundAddPopupView {
        SoundAddPopupView {
            fields: self.inputs@.map_values(|i: Input| i@),
            opened: self.opened,
            focus: self.focus as int,
        }
    }
}

pub open spec fn popup_wf(v: SoundAddPopupView) -> bool {
    &&& v.fields.len() == FIELD_COUNT
    &&& 0 <= v.focus < FIELD_COUNT
    &&& forall|k: int| 0 <= k < FIELD_COUNT ==> #[trigger] v.fields[k].active == (k == v.focus)
    &&& forall|k: int| 0 <= k < FIELD_COUNT ==> #[trigger] v.fields[k].cursor <= v.fields[k].text.len()
}

/// The form with the focus on field `k`.
pub open spec fn focused_on(v: SoundAddPopupView, k: int) -> SoundAddPopupView {
    SoundAddPopupView {
        fields: Seq::new(v.fields.len(), |j: int| InputView { active: j == k, ..v.fields[j] }),
        focus: k,
        ..v
    }
}

/// The form with every field emptied and the focus back on the first.
pub open spec fn cleared(v: SoundAddPopupView) -> SoundAddPopupView {
    SoundAddPopupView {
        fields: Seq::new(
            v.fields.len(),
            |j: int| InputView { text: Seq::empty(), cursor: 0, active: j == 0, ..v.fields[j] },
        ),
        focus: 0,
        ..v
    }
}

/// The first field left empty, if any.
pub open spec fn first_empty(v: SoundAddPopupView) -> Option<int> {
    if v.fields[0].text.len() == 0 {
        Some(0)
    } else if v.fields[1].text.len() == 0 {
        Some(1)
    } else if v.fields[2].text.len() == 0 {
        Some(2)
    } else {
        None
    }
}

/// The record that a submission carries.
pub open spec fn submitted_record(r: SoundConfig, v: SoundAddPopupView) -> bool {
    r.name@ == v.fields[0].text && r.file@ == v.fields[1].text && r.icon@ == v.fields[2].text
}

/// What a key does to the form: Tab moves the focus, Enter submits (a
/// complete form closes and empties; an incomplete one moves the focus to
/// its first empty field), any other key goes to the focused field.
pub open spec fn popup_after_key(v: SoundAddPopupView, key: Key) -> SoundAddPopupView {
    match key {
        Key::Tab => focused_on(v, (v.focus + 1) % (FIELD_COUNT as int)),
        Key::Enter => match first_empty(v) {
            Some(k) => focused_on(v, k),
            None => SoundAddPopupView { opened: false, ..cleared(v) },
        },
        _ => SoundAddPopupView {
            fields: v.fields.update(v.focus, input_after_key(v.fields[v.focus], key)),
            ..v
        },
    }
}

impl SoundAddPopup {
    pub open spec fn wf(&self) -> bool {
        popup_wf(self@)
    }

    /// A closed form with empty fields and the focus on the name.
    pub fn new() -> (r: SoundAddPopup)
        ensures
            r.wf(),
            !r@.opened,
            r@.focus == 0,
            forall|k: int| 0 <= k < FIELD_COUNT ==> #[trigger] r@.fields[k].text.len() == 0,
            r@.fields[0].max_length == NAME_MAX_LENGTH,
            r@.fields[1].max_length == FILE_MAX_LENGTH,
            r@.fields[2].max_length == ICON_MAX_LENGTH,
    {
        let name_input = Input::new(String::from_str(" Name "), NAME_MAX_LENGTH, true);
        let file_input = Input::new(String::from_str(" File Path "), FILE_MAX_LENGTH, false);
        let icon_input = Input::new(String::from_str(" Icon "), ICON_MAX_LENGTH, false);
        let mut inputs: Vec<Input> = Vec::new();
        inputs.push(name_input);
        inputs.push(file_input);
        inputs.push(icon_input);
        let r = SoundAddPopup { inputs, opened: false, focus: 0 };
        assert(r@.fields[0] == name_input@);
        assert(r@.fields[1] == file_input@);
        assert(r@.fields[2] == icon_input@);
        r
    }

    pub fn get_name(&self) -> (r: String)
        requires
            self.wf(),
        ensures
            r@ == self@.fields[0].text,
    {
        self.inputs[0].get_text()
    }

    pub fn get_file_path(&self) -> (r: String)
        requires
            self.wf(),
        ensures
            r@ == self@.fields[1].text,
    {
        self.inputs[1].get_text()
    }

    pub fn get_icon_path(&self) -> (r: String)
        requires
            self.wf(),
        ensures
            r@ == self@.fields[2].text,
    {
        self.inputs[2].get_text()
    }

    /// Field `i` of the form, for drawing.
    pub fn get_input(&self, i: usize) -> (r: &Input)
        requires
            self.wf(),
            i < FIELD_COUNT,
        ensures
            r@ == self@.fields[i as int],
    {
        &self.inputs[i]
    }

    pub fn get_focus(&self) -> (r: usize)
        ensures
            r == self@.focus,
    {
        self.focus
    }

    pub fn get_opened(&self) -> (r: bool)
        ensures
            r == self@.opened,
    {
        self.opened
    }

    pub fn set_opened(&mut self, opened: bool)
        ensures
            final(self)@ == (SoundAddPopupView { opened, ..old(self)@ }),
    {
        self.opened = opened;
    }

    /// Moves the focus to field `k`.
    fn focus_field(&mut self, k: usize)
        requires
            old(self).wf(),
            k < FIELD_COUNT,
        ensures
            final(self)@ == focused_on(old(self)@, k as int),
            final(self).wf(),
    {
        let ghost f0 = old(self)@.fields;
        let mut j: usize = 0;
        while j < FIELD_COUNT
            invariant
                0 <= j <= FIELD_COUNT,
                k < FIELD_COUNT,
                self.opened == old(self).opened,
                self.focus == old(self).focus,
                self@.fields.len() == FIELD_COUNT,
                f0.len() == FIELD_COUNT,
                f0 == old(self)@.fields,
                old(self).wf(),
                forall|i: int| 0 <= i < j ==> #[trigger] self@.fields[i] == focused_on(old(self)@, k as int).fields[i],
                forall|i: int| j <= i < FIELD_COUNT ==> #[trigger] self@.fields[i] == f0[i],
            decreases FIELD_COUNT - j,
        {
            let ghost before = self@.fields;
            assert(before[j as int] == self.inputs@[j as int]@);
            self.inputs[j].set_active(j == k);
            assert(self@.fields =~= before.update(j as int, focused_on(old(self)@, k as int).fields[j as int]));
            j = j + 1;
        }
        self.focus = k;
        assert(self@.fields =~= focused_on(old(self)@, k as int).fields);
    }

    /// Empties every field and puts the focus back on the first.
    pub fn clear(&mut self)
        requires
            old(self).wf(),
        ensures
            final(self)@ == cleared(old(self)@),
            final(self).wf(),
    {
        let ghost f0 = old(self)@.fields;
        let mut j: usize = 0;
        while j < FIELD_COUNT
            invariant
                0 <= j <= FIELD_COUNT,
                self.opened == old(self).opened,
                self.focus == old(self).focus,
                self@.fields.len() == FIELD_COUNT,
                f0.len() == FIELD_COUNT,
                f0 == old(self)@.fields,
                old(self).wf(),
                forall|i: int| 0 <= i < j ==> #[trigger] self@.fields[i] == cleared(old(self)@).fields[i],
                forall|i: int| j <= i < FIELD_COUNT ==> #[trigger] self@.fields[i] == f0[i],
            decreases FIELD_COUNT - j,
        {
            let ghost before = self@.fields;
            assert(before[j as int] == self.inputs@[j as int]@);
            self.inputs[j].set_active(j == 0);
            self.inputs[j].clear();
            assert(self@.fields =~= before.update(j as int, cleared(old(self)@).fields[j as int]));
            j = j + 1;
        }
        self.focus = 0;
        assert(self@.fields =~= cleared(old(self)@).fields);
    }

    /// Moves the focus to the next field, from the last back to the first.
    pub fn cycle_active_input(&mut self)
        requires
            old(self).wf(),
        ensures
            final(self)@ == focused_on(old(self)@, (old(self)@.focus + 1) % (FIELD_COUNT as int)),
            final(self).wf(),
    {
        let next = (self.focus + 1) % FIELD_COUNT;
        self.focus_field(next);
    }

    /// Checks the form: with a field left empty the focus moves to the first
    /// such field and nothing is returned; otherwise the record is returned
    /// and the form is left as it is.
    pub fn submit_instruction(&mut self) -> (r: Option<SoundConfig>)
        requires
            old(self).wf(),
        ensures
            final(self).wf(),
            r is None <==> first_empty(old(self)@) is Some,
            first_empty(old(self)@) matches Some(k) ==> final(self)@ == focused_on(old(self)@, k),
            r matches Some(rec) ==> final(self)@ == old(self)@ && submitted_record(rec, old(self)@),
    {
        let mut k: usize = 0;
        while k < FIELD_COUNT
            invariant
                0 <= k <= FIELD_COUNT,
                self.wf(),
                *self == *old(self),
                forall|i: int| 0 <= i < k ==> #[trigger] self@.fields[i].text.len() > 0,
            decreases FIELD_COUNT - k,
        {
            if self.inputs[k].is_empty() {
                assert(first_empty(old(self)@) == Some(k as int));
                self.focus_field(k);
                return None;
            }
            k = k + 1;
        }
        let name = self.get_name();
        let file = self.get_file_path();
        let icon = self.get_icon_path();
        Some(SoundConfig::new(name, file, icon))
    }

    /// Handles a key; returns the record when Enter submitted a complete form.
    pub fn handle_key_event(&mut self, key: Key) -> (r: Option<SoundConfig>)
        requires
            old(self).wf(),
        ensures
            final(self)@ == popup_after_key(old(self)@, key),
            final(self).wf(),
            key != Key::Enter ==> r is None,
            key == Key::Enter ==> (r is None <==> first_empty(old(self)@) is Some),
            r matches Some(rec) ==> submitted_record(rec, old(self)@),
    {
        match key {
            Key::Tab => {
                self.cycle_active_input();
                None
            },
            Key::Enter => {
                let r = self.submit_instruction();
                if r.is_some() {
                    self.set_opened(false);
                    self.clear();
                    assert(self@.fields =~= cleared(old(self)@).fields);
                }
                r
            },
            _ => {
                let f = self.focus;
                let ghost before = self@.fields;
                assert(before[f as int] == self.inputs@[f as int]@);
                self.inputs[f].handle_key_event(key);
                assert(self@.fields =~= before.update(f as int, input_after_key(before[f as int], key)));
                None
            },
        }
    }
}

} // verus!
