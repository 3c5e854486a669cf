use vstd::prelude::*;
use crate::key::Key;
use crate::sound_item::{SoundItem, SoundItemView, with_selected, sound_toggled, entry_after_key};

verus! {

/// Rows of the viewport taken by the border and margins around the list.
pub const FRAME_ROWS: u16 = 4;

/// Index of the last row shown by a freshly built list.
pub const INITIAL_UPPER: usize = 4;

/// The list of entries with its selection cursor and its visible window
/// `[lower, upper]`.
pub struct SoundsBlock {
    sounds_list: Vec<SoundItem>,
    lower_bound: usize,
    upper_bound: usize,
    selected: Option<usize>,
}

pub struct SoundsBlockView {
    pub entries: Seq<SoundItemView>,
    pub lower: int,
    pub upper: int,
    pub selected: Option<int>,
}

pub open spec fn entries_of(s: Seq<SoundItem>) -> Seq<SoundItemView> {
    s.map_values(|x: SoundItem| x@)
}

impl View for SoundsBlock {
    type V = SoundsBlockView;

    closed spec fn view(&self) -> SoundsBlockView {
        SoundsBlockView {
            entries: entries_of(self.sounds_list@),
            lower: self.lower_bound as int,
            upper: self.upper_bound as int,
            selected: match self.selected {
                Some(i) => Some(i as int),
                None => None,
            },
        }
    }
}

/// The window lies inside the list: `0 <= lower <= upper < len`, and both
/// bounds are zero when the list is empty.
pub open spec fn window_ok(v: SoundsBlockView) -> bool {
    if v.entries.len() == 0 {
        v.lower == 0 && v.upper == 0
    } else {
        0 <= v.lower <= v.upper < v.entries.len()
    }
}

/// Exactly one entry is flagged as selected when the list is non-empty, none
/// when it is empty, and the flagged one is the recorded selection.
pub open spec fn selection_ok(v: SoundsBlockView) -> bool {
    &&& (v.entries.len() == 0 <==> v.selected is None)
    &&& (v.selected matches Some(s) ==> 0 <= s < v.entries.len())
    &&& forall|k: int|
        0 <= k < v.entries.len() ==> #[trigger] v.entries[k].selected == (v.selected == Some(k))
}

pub open spec fn block_wf(v: SoundsBlockView) -> bool {
    window_ok(v) && selection_ok(v)
}

/// The entries with the selection flag set on `sel` alone.
pub open spec fn reselect(entries: Seq<SoundItemView>, sel: Option<int>) -> Seq<SoundItemView> {
    Seq::new(entries.len(), |j: int| with_selected(entries[j], sel == Some(j)))
}

/// The first entry at or after `from` that is flagged as selected.
pub open spec fn first_flagged(entries: Seq<SoundItemView>, from: int) -> Option<int>
    decreases entries.len() - from,
{
    if from < 0 || from >= entries.len() {
        None
    } else if entries[from].selected {
        Some(from)
    } else {
        first_flagged(entries, from + 1)
    }
}

/// The selection kept from a given list: its first flagged entry, else its
/// first entry.
pub open spec fn initial_selection(entries: Seq<SoundItemView>) -> Option<int> {
    if entries.len() == 0 {
        None
    } else {
        match first_flagged(entries, 0) {
            Some(k) => Some(k),
            None => Some(0),
        }
    }
}

pub open spec fn min_int(a: int, b: int) -> int {
    if a < b {
        a
    } else {
        b
    }
}

pub open spec fn max_int(a: int, b: int) -> int {
    if a < b {
        b
    } else {
        a
    }
}

/// Index selected by a step back: one less, stopping at the first entry.
pub open spec fn previous_index(v: SoundsBlockView) -> int {
    match v.selected {
        Some(i) => if i > 0 {
            i - 1
        } else {
            0
        },
        None => 0,
    }
}

/// Index selected by a step forward: one more, stopping at the last entry.
pub open spec fn next_index(v: SoundsBlockView) -> int {
    match v.selected {
        Some(i) => if i < v.entries.len() - 1 {
            i + 1
        } else {
            i
        },
        None => 0,
    }
}

/// The block with the selection moved to `i`, window kept.
pub open spec fn reselected(v: SoundsBlockView, i: int) -> SoundsBlockView {
    SoundsBlockView { entries: reselect(v.entries, Some(i)), selected: Some(i), ..v }
}

/// The window after the selection moved to `i` by one step: it shifts by one
/// row towards `i` when `i` left it.
pub open spec fn follow_selection(v: SoundsBlockView, i: int) -> SoundsBlockView {
    if i < v.lower {
        SoundsBlockView { lower: v.lower - 1, upper: v.upper - 1, ..v }
    } else if i > v.upper {
        SoundsBlockView { lower: v.lower + 1, upper: v.upper + 1, ..v }
    } else {
        v
    }
}

pub open spec fn page_size(v: SoundsBlockView) -> int {
    (v.upper - v.lower + 1) / 2
}

/// Half a page up, when the window does not start at the top.
pub open spec fn paged_up(v: SoundsBlockView) -> SoundsBlockView {
    if v.lower > 0 {
        let lo = max_int(0, v.lower - page_size(v));
        let up = min_int(max_int(lo, v.upper - page_size(v)), v.entries.len() - 1);
        SoundsBlockView { lower: lo, upper: up, ..v }
    } else {
        v
    }
}

/// Half a page down, when the window does not end at the bottom.
pub open spec fn paged_down(v: SoundsBlockView) -> SoundsBlockView {
    if v.upper < v.entries.len() - 1 {
        let last = v.entries.len() - 1;
        SoundsBlockView {
            lower: min_int(v.lower + page_size(v), last),
            upper: min_int(v.upper + page_size(v), last),
            ..v
        }
    } else {
        v
    }
}

/// Rows shown for a viewport of `height` rows: what the frame leaves, at
/// least one and at most `len`.
pub open spec fn rows_for(height: int, len: int) -> int {
    if height - FRAME_ROWS < 1 {
        1
    } else if height - FRAME_ROWS > len {
        len
    } else {
        height - FRAME_ROWS
    }
}

/// The block after a resize to `height` rows: the window keeps its top and
/// takes as many rows as fit; a selection outside it moves to its last row.
pub open spec fn resized(v: SoundsBlockView, height: int) -> SoundsBlockView {
    if v.entries.len() == 0 {
        SoundsBlockView { lower: 0, upper: 0, ..v }
    } else {
        let up = min_int(v.lower + rows_for(height, v.entries.len() as int) - 1, v.entries.len() - 1);
        let w = SoundsBlockView { upper: up, ..v };
        match v.selected {
            Some(s) => if s > up || s < v.lower {
                reselected(w, up)
            } else {
                w
            },
            None => w,
        }
    }
}

/// Where the selection lands when entry `s` of `n` is deleted: on the next
/// entry (which then takes index `s`), or on the previous one for the last
/// entry; nowhere when the list empties.
pub open spec fn selection_after_delete(s: int, n: int) -> Option<int> {
    if n <= 1 {
        None
    } else if s == n - 1 {
        Some(s - 1)
    } else {
        Some(s)
    }
}

/// The window after deleting index `d`, where `new_len` entries are left:
/// it shifts up when `d` was above it and loses its last row when `d` was
/// inside it. When `d` was its last row and an entry follows, that entry
/// slides into row `d` and takes the selection, so the window stays as it
/// is; a one-row window that would pass the end shifts up instead. Either
/// way a selection that was visible stays visible.
pub open spec fn window_after_delete(lower: int, upper: int, d: int, new_len: int) -> (int, int) {
    if new_len == 0 {
        (0, 0)
    } else if d < lower {
        (lower - 1, upper - 1)
    } else if d <= upper {
        if d == upper && upper <= new_len - 1 {
            (lower, upper)
        } else if upper > lower {
            (lower, upper - 1)
        } else {
            (lower - 1, upper - 1)
        }
    } else {
        (lower, upper)
    }
}

/// The block after the selected entry is deleted.
pub open spec fn after_delete(v: SoundsBlockView) -> SoundsBlockView {
    match v.selected {
        Some(s) => {
            let sel = selection_after_delete(s, v.entries.len() as int);
            let w = window_after_delete(v.lower, v.upper, s, v.entries.len() - 1);
            SoundsBlockView {
                entries: reselect(v.entries.remove(s), sel),
                lower: w.0,
                upper: w.1,
                selected: sel,
            }
        },
        None => v,
    }
}

/// The ensemble toggle: every active entry's sound flips.
pub open spec fn ensemble_toggled(v: SoundsBlockView) -> SoundsBlockView {
    SoundsBlockView {
        entries: Seq::new(
            v.entries.len(),
            |k: int|
                if v.entries[k].active {
                    sound_toggled(v.entries[k])
                } else {
                    v.entries[k]
                },
        ),
        ..v
    }
}

/// The block with entry `e` appended; it takes the selection when the list
/// was empty.
pub open spec fn block_with_added(v: SoundsBlockView, e: SoundItemView) -> SoundsBlockView {
    SoundsBlockView {
        entries: v.entries.push(with_selected(e, v.entries.len() == 0)),
        selected: if v.entries.len() == 0 {
            Some(0)
        } else {
            v.selected
        },
        ..v
    }
}

/// Some entry is named `name` and plays `path`.
pub open spec fn is_listed(entries: Seq<SoundItemView>, name: Seq<char>, path: Seq<char>) -> bool {
    exists|k: int| 0 <= k < entries.len() && #[trigger] entries[k].name == name && entries[k].sound.path == path
}

/// What a key does to the block.
pub open spec fn after_key(v: SoundsBlockView, key: Key) -> SoundsBlockView {
    match key {
        Key::Up => if v.selected is Some {
            follow_selection(reselected(v, previous_index(v)), previous_index(v))
        } else {
            v
        },
        Key::Down => if v.selected is Some {
            follow_selection(reselected(v, next_index(v)), next_index(v))
        } else {
            v
        },
        Key::Enter => ensemble_toggled(v),
        Key::PageUp => paged_up(v),
        Key::PageDown => paged_down(v),
        _ => if key == Key::Char('d') {
            after_delete(v)
        } else {
            match v.selected {
                Some(s) => SoundsBlockView {
                    entries: v.entries.update(s, entry_after_key(v.entries[s], key)),
                    ..v
                },
                None => v,
            }
        },
    }
}

proof fn lemma_first_flagged_in_range(entries: Seq<SoundItemView>, from: int)
    requires
        0 <= from,
    ensures
        first_flagged(entries, from) matches Some(k) ==> from <= k < entries.len(),
    decreases entries.len() - from,
{
    if from < entries.len() && !entries[from].selected {
        lemma_first_flagged_in_range(entries, from + 1);
    }
}

/// Keeps one selection flag in `list`: on its first flagged entry, else on
/// its first entry; returns that index.
fn normalize_selection(list: &mut Vec<SoundItem>) -> (r: Option<usize>)
    ensures
        (match r {
            Some(k) => Some(k as int),
            None => None,
        }) == initial_selection(entries_of(old(list)@)),
        entries_of(final(list)@) == reselect(entries_of(old(list)@), initial_selection(entries_of(old(list)@))),
        r is None <==> old(list)@.len() == 0,
        r matches Some(k) ==> k < old(list)@.len(),
{
    proof {
        lemma_first_flagged_in_range(entries_of(list@), 0);
    }
    let ghost e0 = entries_of(list@);
    let n = list.len();
    let mut first: Option<usize> = None;
    let mut i: usize = 0;
    while i < n
        invariant
            0 <= i <= n,
            n == e0.len(),
            list@ == old(list)@,
            e0 == entries_of(list@),
            first is None ==> first_flagged(e0, 0) == first_flagged(e0, i as int),
            first matches Some(f) ==> first_flagged(e0, 0) == Some(f as int),
        decreases n - i,
    {
        if first.is_none() && list[i].is_selected() {
            first = Some(i);
        }
        i = i + 1;
    }
    let target: Option<usize> = match first {
        Some(f) => Some(f),
        None => if n > 0 {
            Some(0)
        } else {
            None
        },
    };
    let ghost t = initial_selection(e0);
    let mut j: usize = 0;
    while j < n
        invariant
            0 <= j <= n,
            n == e0.len(),
            list@.len() == n,
            t == match target {
                Some(k) => Some(k as int),
                None => None,
            },
            forall|k: int| 0 <= k < j ==> #[trigger] entries_of(list@)[k] == reselect(e0, t)[k],
            forall|k: int| j <= k < n ==> #[trigger] entries_of(list@)[k] == e0[k],
        decreases n - j,
    {
        let ghost before = entries_of(list@);
        assert(before[j as int] == e0[j as int]);
        let on = match target {
            Some(k) => k == j,
            None => false,
        };
        list[j].set_selected(on);
        assert(entries_of(list@) =~= before.update(j as int, reselect(e0, t)[j as int]));
        j = j + 1;
    }
    assert(entries_of(list@) =~= reselect(e0, t));
    target
}

/// In a well-formed block the window lies inside the list
/// (`0 <= lower <= upper < len`, both zero when it is empty), at most one
/// entry is selected, and exactly one is when the list is non-empty.
pub proof fn lemma_block_invariants(v: SoundsBlockView)
    requires
        block_wf(v),
    ensures
        v.entries.len() > 0 ==> 0 <= v.lower <= v.upper < v.entries.len(),
        v.entries.len() == 0 ==> v.lower == 0 && v.upper == 0,
        forall|i: int, j: int|
            0 <= i < v.entries.len() && 0 <= j < v.entries.len() && #[trigger] v.entries[i].selected
                && #[trigger] v.entries[j].selected ==> i == j,
        v.entries.len() > 0 ==> exists|k: int| 0 <= k < v.entries.len() && #[trigger] v.entries[k].selected,
{
    if v.entries.len() > 0 {
        let s = v.selected->0;
        assert(v.entries[s].selected);
    }
}

/// Stepping back from the first entry keeps it selected, and stepping
/// forward from the last keeps the last: the block is left as it was.
pub proof fn lemma_selection_stops_at_ends(v: SoundsBlockView)
    requires
        block_wf(v),
    ensures
        v.selected == Some(0int) ==> previous_index(v) == 0 && reselected(v, 0) == v,
        v.selected == Some(v.entries.len() - 1) ==> next_index(v) == v.entries.len() - 1
            && reselected(v, v.entries.len() - 1) == v,
{
    if let Some(s) = v.selected {
        assert forall|k: int| 0 <= k < v.entries.len() implies #[trigger] reselect(v.entries, Some(s))[k]
            == v.entries[k] by {
            assert(v.entries[k].selected == (v.selected == Some(k)));
        }
        assert(reselect(v.entries, Some(s)) =~= v.entries);
    }
}

/// A step up or down keeps a visible selection visible: the window follows
/// it by one row.
pub proof fn lemma_step_keeps_selection_visible(v: SoundsBlockView, key: Key)
    requires
        block_wf(v),
        key == Key::Up || key == Key::Down,
        v.selected matches Some(s) && v.lower <= s <= v.upper,
    ensures
        after_key(v, key).selected matches Some(t) && after_key(v, key).lower <= t
            <= after_key(v, key).upper,
{
}

proof fn lemma_reselected_wf(v: SoundsBlockView, i: int)
    requires
        block_wf(v),
        0 <= i < v.entries.len(),
    ensures
        block_wf(reselected(v, i)),
{
    let w = reselected(v, i);
    assert forall|k: int| 0 <= k < w.entries.len() implies #[trigger] w.entries[k].selected == (w.selected
        == Some(k)) by {}
}

/// Whatever key is pressed and however the viewport is resized, the block
/// stays well formed: the window stays inside the list and exactly one
/// entry stays selected while the list is non-empty. Every sequence of
/// operations therefore keeps these invariants.
pub proof fn lemma_operations_keep_invariants(v: SoundsBlockView, key: Key, height: int)
    requires
        block_wf(v),
    ensures
        block_wf(after_key(v, key)),
        block_wf(resized(v, height)),
{
    if let Some(s) = v.selected {
        lemma_reselected_wf(v, previous_index(v));
        lemma_reselected_wf(v, next_index(v));
        let up = min_int(v.lower + rows_for(height, v.entries.len() as int) - 1, v.entries.len() - 1);
        lemma_reselected_wf(SoundsBlockView { upper: up, ..v }, up);
        let d = after_delete(v);
        assert forall|k: int| 0 <= k < d.entries.len() implies #[trigger] d.entries[k].selected == (
        d.selected == Some(k)) by {}
        let e = ensemble_toggled(v);
        assert forall|k: int| 0 <= k < e.entries.len() implies #[trigger] e.entries[k].selected == (
        e.selected == Some(k)) by {
            assert(v.entries[k].selected == (v.selected == Some(k)));
        }
        let o = SoundsBlockView {
            entries: v.entries.update(s, entry_after_key(v.entries[s], key)),
            ..v
        };
        assert forall|k: int| 0 <= k < o.entries.len() implies #[trigger] o.entries[k].selected == (
        o.selected == Some(k)) by {
            assert(v.entries[k].selected == (v.selected == Some(k)));
        }
    }
}

/// Appending an entry keeps the block well formed; a non-empty block keeps
/// its selection and its entries.
pub proof fn lemma_added_keeps_invariants(v: SoundsBlockView, e: SoundItemView)
    requires
        block_wf(v),
    ensures
        block_wf(block_with_added(v, e)),
        v.entries.len() > 0 ==> block_with_added(v, e).selected == v.selected,
        forall|k: int| 0 <= k < v.entries.len() ==> #[trigger] block_with_added(v, e).entries[k] == v.entries[k],
{
    let w = block_with_added(v, e);
    assert forall|k: int| 0 <= k < w.entries.len() implies #[trigger] w.entries[k].selected == (w.selected
        == Some(k)) by {
        if k < v.entries.len() {
            assert(v.entries[k].selected == (v.selected == Some(k)));
        }
    }
}

impl SoundsBlock {
    pub open spec fn wf(&self) -> bool {
        block_wf(self@)
    }

    /// A block over `sounds`, keeping the first selected entry (or selecting
    /// the first), with its window at the top.
    pub fn new(sounds: Vec<SoundItem>) -> (r: SoundsBlock)
        ensures
            r.wf(),
            r@.entries == reselect(entries_of(sounds@), initial_selection(entries_of(sounds@))),
            r@.selected == initial_selection(entries_of(sounds@)),
            r@.lower == 0,
            r@.upper == min_int(INITIAL_UPPER as int, max_int(sounds@.len() - 1, 0)),
    {
        let mut sounds = sounds;
        let selected = normalize_selection(&mut sounds);
        let len = sounds.len();
        let upper = if len == 0 {
            0
        } else if INITIAL_UPPER < len - 1 {
            INITIAL_UPPER
        } else {
            len - 1
        };
        SoundsBlock { sounds_list: sounds, lower_bound: 0, upper_bound: upper, selected }
    }

    /// An empty block.
    pub fn default() -> (r: SoundsBlock)
        ensures
            r.wf(),
            r@.entries.len() == 0,
            r@.lower == 0,
            r@.upper == 0,
            r@.selected is None,
    {
        SoundsBlock { sounds_list: Vec::new(), lower_bound: 0, upper_bound: 0, selected: None }
    }

    /// Appends an entry; it is selected exactly when the list was empty.
    pub fn add_sound(&mut self, sound: SoundItem)
        requires
            old(self).wf(),
        ensures
            final(self).wf(),
            final(self)@ == block_with_added(old(self)@, sound@),
    {
        let mut sound = sound;
        let empty = self.sounds_list.len() == 0;
        sound.set_selected(empty);
        self.sounds_list.push(sound);
        if empty {
            self.selected = Some(0);
        }
        assert(entries_of(self.sounds_list@) =~= old(self)@.entries.push(
            with_selected(sound@, empty),
        ));
    }

    pub fn get_sounds(&self) -> (r: &Vec<SoundItem>)
        ensures
            entries_of(r@) == self@.entries,
    {
        &self.sounds_list
    }

    /// Replaces the entries, keeping the first selected one (or selecting the
    /// first), and pulls the window inside the new list.
    pub fn set_sounds(&mut self, sounds: Vec<SoundItem>)
        requires
            old(self).wf(),
        ensures
            final(self).wf(),
            final(self)@.entries == reselect(entries_of(sounds@), initial_selection(entries_of(sounds@))),
            final(self)@.selected == initial_selection(entries_of(sounds@)),
            sounds@.len() == 0 ==> final(self)@.lower == 0 && final(self)@.upper == 0,
            sounds@.len() > 0 ==> final(self)@.upper == min_int(old(self)@.upper, sounds@.len() - 1),
            sounds@.len() > 0 ==> final(self)@.lower == min_int(old(self)@.lower, final(self)@.upper),
    {
        let mut sounds = sounds;
        let selected = normalize_selection(&mut sounds);
        let len = sounds.len();
        if len == 0 {
            self.lower_bound = 0;
            self.upper_bound = 0;
        } else {
            if self.upper_bound > len - 1 {
                self.upper_bound = len - 1;
            }
            if self.lower_bound > self.upper_bound {
                self.lower_bound = self.upper_bound;
            }
        }
        self.sounds_list = sounds;
        self.selected = selected;
    }

    /// Whether some entry is named `name` and plays `path`.
    pub fn contains_sound(&self, name: &String, path: &String) -> (r: bool)
        ensures
            r == is_listed(self@.entries, name@, path@),
    {
        let n = self.sounds_list.len();
        let mut i: usize = 0;
        while i < n
            invariant
                0 <= i <= n,
                n == self@.entries.len(),
                forall|k: int|
                    0 <= k < i ==> !(#[trigger] self@.entries[k].name == name@ && self@.entries[k].sound.path
                        == path@),
            decreases n - i,
        {
            if self.sounds_list[i].has_key(name, path) {
                assert(self@.entries[i as int] == self.sounds_list@[i as int]@);
                return true;
            }
            i = i + 1;
        }
        false
    }

    /// Index of the selected entry.
    pub fn get_selected_index(&self) -> (r: Option<usize>)
        ensures
            (match r {
                Some(k) => Some(k as int),
                None => None,
            }) == self@.selected,
    {
        self.selected
    }

    pub fn get_lower_bound(&self) -> (r: usize)
        ensures
            r as int == self@.lower,
    {
        self.lower_bound
    }

    pub fn get_upper_bound(&self) -> (r: usize)
        ensures
            r as int == self@.upper,
    {
        self.upper_bound
    }

    pub fn len(&self) -> (r: usize)
        ensures
            r as int == self@.entries.len(),
    {
        self.sounds_list.len()
    }

    /// Moves the selection flag from the current entry to entry `to`.
    fn move_selection(&mut self, to: usize)
        requires
            old(self).wf(),
            old(self)@.selected is Some,
            to < old(self)@.entries.len(),
        ensures
            final(self)@ == reselected(old(self)@, to as int),
            final(self).wf(),
    {
        let from = self.selected.unwrap();
        self.sounds_list[from].set_selected(false);
        self.sounds_list[to].set_selected(true);
        self.selected = Some(to);
        proof {
            let e0 = entries_of(old(self).sounds_list@);
            let e1 = entries_of(self.sounds_list@);
            assert forall|j: int| 0 <= j < e0.len() implies e1[j] == reselect(e0, Some(to as int))[j] by {
                if j != to as int && j != from as int {
                    assert(e0[j].selected == (Some(from as int) == Some(j)));
                }
            }
            assert(e1 =~= reselect(e0, Some(to as int)));
        }
    }

    /// Moves the selection one entry back, stopping at the first; returns the
    /// selected index (`0` on an empty list).
    pub fn select_previous_sound(&mut self) -> (r: usize)
        requires
            old(self).wf(),
        ensures
            r == previous_index(old(self)@),
            old(self)@.selected is None ==> final(self)@ == old(self)@,
            old(self)@.selected is Some ==> final(self)@ == reselected(old(self)@, r as int),
            final(self).wf(),
    {
        match self.selected {
            Some(i) => {
                let p = if i > 0 { i - 1 } else { 0 };
                self.move_selection(p);
                p
            },
            None => 0,
        }
    }

    /// Moves the selection one entry forward, stopping at the last; returns
    /// the selected index (`0` on an empty list).
    pub fn select_next_sound(&mut self) -> (r: usize)
        requires
            old(self).wf(),
        ensures
            r == next_index(old(self)@),
            old(self)@.selected is None ==> final(self)@ == old(self)@,
            old(self)@.selected is Some ==> final(self)@ == reselected(old(self)@, r as int),
            final(self).wf(),
    {
        match self.selected {
            Some(i) => {
                let n = if i < self.sounds_list.len() - 1 { i + 1 } else { i };
                self.move_selection(n);
                n
            },
            None => 0,
        }
    }

    /// Shifts the window by one row towards index `i` when `i` lies outside it.
    fn follow(&mut self, i: usize)
        requires
            old(self).wf(),
            i < old(self)@.entries.len(),
        ensures
            final(self)@ == follow_selection(old(self)@, i as int),
            final(self).wf(),
    {
        if i < self.lower_bound {
            self.lower_bound = self.lower_bound - 1;
            self.upper_bound = self.upper_bound - 1;
        } else if i > self.upper_bound {
            self.lower_bound = self.lower_bound + 1;
            self.upper_bound = self.upper_bound + 1;
        }
    }

    pub fn page_up(&mut self)
        requires
            old(self).wf(),
        ensures
            final(self)@ == paged_up(old(self)@),
            final(self).wf(),
    {
        if self.lower_bound > 0 {
            let page = (self.upper_bound - self.lower_bound + 1) / 2;
            self.lower_bound = self.lower_bound.saturating_sub(page);
            let up = self.upper_bound - page;
            let last = self.sounds_list.len() - 1;
            self.upper_bound = if up < last { up } else { last };
        }
    }

    pub fn page_down(&mut self)
        requires
            old(self).wf(),
        ensures
            final(self)@ == paged_down(old(self)@),
            final(self).wf(),
    {
        let len = self.sounds_list.len();
        if len > 0 && self.upper_bound < len - 1 {
            let page = (self.upper_bound - self.lower_bound + 1) / 2;
            let last = len - 1;
            self.lower_bound = if page < last - self.lower_bound {
                self.lower_bound + page
            } else {
                last
            };
            self.upper_bound = if page < last - self.upper_bound {
                self.upper_bound + page
            } else {
                last
            };
        }
    }

    /// Fits the window to a viewport of `height` rows.
    pub fn handle_resize(&mut self, height: u16)
        requires
            old(self).wf(),
        ensures
            final(self)@ == resized(old(self)@, height as int),
            final(self).wf(),
            final(self)@.selected matches Some(s) ==> final(self)@.lower <= s <= final(self)@.upper,
    {
        let len = self.sounds_list.len();
        if len == 0 {
            self.lower_bound = 0;
            self.upper_bound = 0;
            return;
        }
        let rows = Self::rows_for_height(height, len);
        self.upper_bound = if rows - 1 < len - 1 - self.lower_bound {
            self.lower_bound + rows - 1
        } else {
            len - 1
        };
        if let Some(s) = self.selected {
            if self.upper_bound < s || s < self.lower_bound {
                let to = self.upper_bound;
                self.move_selection(to);
            }
        }
    }

    /// Toggles the sound of every active entry (the ensemble toggle).
    pub fn switch_play_pause_all(&mut self)
        requires
            old(self).wf(),
        ensures
            final(self)@ == ensemble_toggled(old(self)@),
            final(self).wf(),
    {
        let n = self.sounds_list.len();
        let mut i: usize = 0;
        while i < n
            invariant
                0 <= i <= n,
                n == old(self)@.entries.len(),
                self.lower_bound == old(self).lower_bound,
                self.upper_bound == old(self).upper_bound,
                self.selected == old(self).selected,
                self@.entries.len() == n,
                forall|k: int|
                    0 <= k < i ==> #[trigger] self@.entries[k] == ensemble_toggled(old(self)@).entries[k],
                forall|k: int| i <= k < n ==> #[trigger] self@.entries[k] == old(self)@.entries[k],
            decreases n - i,
        {
            let ghost before = self@.entries;
            assert(before[i as int] == self.sounds_list@[i as int]@);
            if self.sounds_list[i].is_active() {
                self.sounds_list[i].switch_play_pause();
            }
            assert(self@.entries =~= before.update(i as int, ensemble_toggled(old(self)@).entries[i as int]));
            i = i + 1;
        }
        assert(self@.entries =~= ensemble_toggled(old(self)@).entries);
    }

    /// Deletes the selected entry and returns it; the selection moves to the
    /// next entry, or to the previous one when the last entry goes, and the
    /// window is repaired for the shorter list. Nothing happens without a
    /// selection.
    pub fn delete_selected_sound_from_list(&mut self) -> (r: Option<SoundItem>)
        requires
            old(self).wf(),
        ensures
            final(self)@ == after_delete(old(self)@),
            final(self).wf(),
            r is None <==> old(self)@.selected is None,
            r matches Some(item) ==> item@ == old(self)@.entries[old(self)@.selected->0],
            old(self)@.selected matches Some(i) && old(self)@.lower <= i <= old(self)@.upper
                ==> (final(self)@.selected matches Some(t) ==> final(self)@.lower <= t
                <= final(self)@.upper),
    {
        let s = match self.selected {
            Some(s) => s,
            None => return None,
        };
        let n = self.sounds_list.len();
        let ghost e0 = old(self)@.entries;
        let item = self.sounds_list.remove(s);
        assert(entries_of(self.sounds_list@) =~= e0.remove(s as int));
        let sel: Option<usize> = if n <= 1 {
            None
        } else if s == n - 1 {
            Some(s - 1)
        } else {
            Some(s)
        };
        if let Some(k) = sel {
            self.sounds_list[k].set_selected(true);
        }
        self.selected = sel;
        proof {
            let e1 = entries_of(self.sounds_list@);
            let sel_i = selection_after_delete(s as int, n as int);
            assert forall|j: int| 0 <= j < e1.len() implies e1[j] == reselect(e0.remove(s as int), sel_i)[j] by {
                let old_j = if j < s { j } else { j + 1 };
                assert(e0[old_j].selected == (Some(s as int) == Some(old_j)));
            }
            assert(e1 =~= reselect(e0.remove(s as int), sel_i));
        }
        if s < self.lower_bound {
            self.lower_bound = self.lower_bound - 1;
            self.upper_bound = self.upper_bound - 1;
        } else if s <= self.upper_bound {
            if n == 1 {
                self.upper_bound = 0;
            } else if s == self.upper_bound && s <= n - 2 {
            } else if self.upper_bound > self.lower_bound {
                self.upper_bound = self.upper_bound - 1;
            } else {
                self.lower_bound = self.lower_bound - 1;
                self.upper_bound = self.upper_bound - 1;
            }
        }
        Some(item)
    }

    /// Handles a key: Up/Down move the selection and the window with it,
    /// PageUp/PageDown move the window by half a page, Enter toggles the
    /// ensemble, `d` deletes the selected entry (returned), and any other key
    /// goes to the selected entry.
    pub fn handle_key_event(&mut self, key: Key) -> (r: Option<SoundItem>)
        requires
            old(self).wf(),
        ensures
            final(self)@ == after_key(old(self)@, key),
            final(self).wf(),
            key != Key::Char('d') ==> r is None,
            key == Key::Char('d') ==> (r is None <==> old(self)@.selected is None),
            key == Key::Char('d') ==> (r matches Some(item) ==> item@
                == old(self)@.entries[old(self)@.selected->0]),
    {
        match key {
            Key::Up => {
                let i = self.select_previous_sound();
                if self.selected.is_some() {
                    self.follow(i);
                }
                None
            },
            Key::Down => {
                let i = self.select_next_sound();
                if self.selected.is_some() {
                    self.follow(i);
                }
                None
            },
            Key::Enter => {
                self.switch_play_pause_all();
                None
            },
            Key::PageUp => {
                self.page_up();
                None
            },
            Key::PageDown => {
                self.page_down();
                None
            },
            Key::Char('d') => self.delete_selected_sound_from_list(),
            _ => {
                if let Some(s) = self.selected {
                    self.sounds_list[s].handle_key_event(key);
                    proof {
                        let e0 = old(self)@.entries;
                        assert(e0[s as int].selected);
                        assert(self@.entries =~= e0.update(s as int, entry_after_key(e0[s as int], key)));
                    }
                }
                None
            },
        }
    }

    /// Rows of the list shown in a viewport of `height` rows.
    pub fn rows_for_height(height: u16, len: usize) -> (r: usize)
        requires
            len > 0,
        ensures
            r as int == rows_for(height as int, len as int),
    {
        if height <= FRAME_ROWS {
            1
        } else if (height - FRAME_ROWS) as usize > len {
            len
        } else {
            (height - FRAME_ROWS) as usize
        }
    }
}

} // verus!
