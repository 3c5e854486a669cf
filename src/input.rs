use vstd::prelude::*;
use crate::key::Key;

verus! {

/// Relies on `FromIterator<char>` for `String`: the string holds exactly the
/// collected characters, in order.
#[verifier::external_body]
pub(crate) fn string_from_chars(chars: &Vec<char>) -> (r: String)
    ensures
        r@ == chars@,
{
    chars.iter().collect()
}

/// A single-line text field with a cursor and a length limit, in characters.
pub struct Input {
    name: String,
    max_length: usize,
    active: bool,
    text: Vec<char>,
    character_index: usize,
}

pub struct InputView {
    pub name: Seq<char>,
    pub max_length: nat,
    pub active: bool,
    pub text: Seq<char>,
    /// Cursor position, between `0` and the text's length.
    pub cursor: nat,
}

impl View for Input {
    type V = InputView;

    closed spec fn view(&self) -> InputView {
        InputView {
            name: self.name@,
            max_length: self.max_length as nat,
            active: self.active,
            text: self.text@,
            cursor: self.character_index as nat,
        }
    }
}

pub open spec fn clamp_cursor(position: int, len: int) -> nat {
    if position < 0 {
        0
    } else if position > len {
        len as nat
    } else {
        position as nat
    }
}

/// Columns inside the two borders of a box `width` columns wide.
pub open spec fn inner_width(width: int) -> int {
    if width >= 2 {
        width - 2
    } else {
        0
    }
}

/// The field after typing `c`: inserted at the cursor, which moves past it,
/// unless `c` is a newline or the field is full.
pub open spec fn typed(v: InputView, c: char) -> InputView {
    if c == '\n' || v.text.len() >= v.max_length {
        v
    } else {
        InputView { text: v.text.insert(v.cursor as int, c), cursor: v.cursor + 1, ..v }
    }
}

/// The field after Backspace: the character before the cursor goes, and the
/// cursor with it.
pub open spec fn erased(v: InputView) -> InputView {
    if v.cursor > 0 {
        InputView { text: v.text.remove(v.cursor - 1), cursor: (v.cursor - 1) as nat, ..v }
    } else {
        v
    }
}

/// What a key does to the field.
pub open spec fn input_after_key(v: InputView, key: Key) -> InputView {
    match key {
        Key::Left => InputView { cursor: clamp_cursor(v.cursor - 1int, v.text.len() as int), ..v },
        Key::Right => InputView { cursor: clamp_cursor(v.cursor + 1int, v.text.len() as int), ..v },
        Key::Backspace => erased(v),
        Key::Char(c) => typed(v, c),
        _ => v,
    }
}

impl PartialEq for Input {
    /// Same title, limit, focus and text; the cursor is not compared.
    fn eq(&self, other: &Input) -> (r: bool) {
        self.name == other.name && self.max_length == other.max_length && self.active == other.active
            && chars_equal(&self.text, &other.text)
    }
}

impl vstd::std_specs::cmp::PartialEqSpecImpl for Input {
    open spec fn obeys_eq_spec() -> bool {
        true
    }

    open spec fn eq_spec(&self, other: &Input) -> bool {
        self@.name == other@.name && self@.max_length == other@.max_length && self@.active
            == other@.active && self@.text == other@.text
    }
}

fn chars_equal(a: &Vec<char>, b: &Vec<char>) -> (r: bool)
    ensures
        r == (a@ == b@),
{
    if a.len() != b.len() {
        return false;
    }
    let mut i: usize = 0;
    while i < a.len()
        invariant
            0 <= i <= a@.len(),
            a@.len() == b@.len(),
            forall|k: int| 0 <= k < i ==> a@[k] == b@[k],
        decreases a@.len() - i,
    {
        if a[i] != b[i] {
            return false;
        }
        i = i + 1;
    }
    assert(a@ =~= b@);
    true
}

impl Input {
    pub open spec fn wf(&self) -> bool {
        self@.cursor <= self@.text.len()
    }

    /// An empty field titled `name` that holds at most `max_length` characters.
    pub fn new(name: String, max_length: usize, active: bool) -> (r: Input)
        ensures
            r.wf(),
            r@.name == name@,
            r@.max_length == max_length,
            r@.active == active,
            r@.text.len() == 0,
            r@.cursor == 0,
    {
        Input { name, max_length, active, text: Vec::new(), character_index: 0 }
    }

    pub fn get_text(&self) -> (r: String)
        ensures
            r@ == self@.text,
    {
        string_from_chars(&self.text)
    }

    pub fn get_name(&self) -> (r: &str)
        ensures
            r@ == self@.name,
    {
        self.name.as_str()
    }

    pub fn get_character_index(&self) -> (r: usize)
        ensures
            r == self@.cursor,
    {
        self.character_index
    }

    /// The part of the text shown in a box `width` columns wide: the
    /// characters before the cursor that fit inside the two borders.
    pub fn visible_range(&self, width: u16) -> (r: (usize, usize))
        requires
            self.wf(),
        ensures
            r.1 == self@.cursor,
            r.0 as int == (if self@.cursor > inner_width(width as int) {
                self@.cursor - inner_width(width as int)
            } else {
                0
            }),
            r.0 <= r.1 <= self@.text.len(),
    {
        let inner = if width >= 2 { (width - 2) as usize } else { 0 };
        let start = if self.character_index > inner {
            self.character_index - inner
        } else {
            0
        };
        (start, self.character_index)
    }

    pub fn is_empty(&self) -> (r: bool)
        ensures
            r == (self@.text.len() == 0),
    {
        self.text.len() == 0
    }

    /// Puts the cursor at `position`, or at the end of the text if that is
    /// nearer.
    pub fn set_character_index(&mut self, position: usize)
        ensures
            final(self)@ == (InputView {
                cursor: clamp_cursor(position as int, old(self)@.text.len() as int),
                ..old(self)@
            }),
            final(self).wf(),
    {
        let len = self.text.len();
        self.character_index = if position > len { len } else { position };
    }

    pub fn set_active(&mut self, active: bool)
        ensures
            final(self)@ == (InputView { active, ..old(self)@ }),
    {
        self.active = active;
    }

    pub fn switch_active(&mut self)
        ensures
            final(self)@ == (InputView { active: !old(self)@.active, ..old(self)@ }),
    {
        self.active = !self.active;
    }

    pub fn get_active(&self) -> (r: bool)
        ensures
            r == self@.active,
    {
        self.active
    }

    /// Empties the text and puts the cursor at the start.
    pub fn clear(&mut self)
        ensures
            final(self)@ == (InputView { text: Seq::empty(), cursor: 0, ..old(self)@ }),
            final(self).wf(),
    {
        self.text.clear();
        self.character_index = 0;
    }

    pub fn move_character_left(&mut self)
        ensures
            final(self)@ == input_after_key(old(self)@, Key::Left),
            final(self).wf(),
    {
        let moved = self.character_index.saturating_sub(1);
        self.set_character_index(moved);
    }

    pub fn move_character_right(&mut self)
        requires
            old(self).wf(),
        ensures
            final(self)@ == input_after_key(old(self)@, Key::Right),
            final(self).wf(),
    {
        let moved = if self.character_index < self.text.len() {
            self.character_index + 1
        } else {
            self.text.len()
        };
        self.set_character_index(moved);
    }

    pub fn enter_character(&mut self, character: char)
        requires
            old(self).wf(),
        ensures
            final(self)@ == typed(old(self)@, character),
            final(self).wf(),
    {
        if character == '\n' || self.text.len() >= self.max_length {
            return;
        }
        self.text.insert(self.character_index, character);
        self.move_character_right();
    }

    pub fn delete_character(&mut self)
        requires
            old(self).wf(),
        ensures
            final(self)@ == erased(old(self)@),
            final(self).wf(),
    {
        if self.character_index > 0 {
            self.text.remove(self.character_index - 1);
            self.move_character_left();
        }
    }

    /// Left/Right move the cursor, Backspace erases, a character is typed.
    pub fn handle_key_event(&mut self, key: Key)
        requires
            old(self).wf(),
        ensures
            final(self)@ == input_after_key(old(self)@, key),
            final(self).wf(),
    {
        match key {
            Key::Left => self.move_character_left(),
            Key::Right => self.move_character_right(),
            Key::Backspace => self.delete_character(),
            Key::Char(c) => self.enter_character(c),
            _ => {},
        }
    }
}

} // verus!
