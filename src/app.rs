use vstd::prelude::*;
use crate::config::{Config, SoundConfig, resolved, resolve_path};
use crate::key::Key;
use crate::sound::{Playback, SoundView, clamp_volume};
use crate::sound_add_popup::{
    SoundAddPopup, SoundAddPopupView, cleared, popup_after_key, popup_wf, first_empty, submitted_record,
};
use crate::sound_item::{SoundItem, SoundItemView};
use crate::sounds_block::{
    SoundsBlock, SoundsBlockView, after_key, block_with_added, block_wf, is_listed, resized,
    lemma_added_keeps_invariants,
};

verus! {

/// Volume of a freshly loaded entry, in hundredths.
pub const DEFAULT_VOLUME: i64 = 50;

/// What the caller has to carry out after a key was handled.
pub enum Action {
    Nothing,
    /// Append this record to the catalog store, then reconcile the list.
    Append(SoundConfig),
    /// This entry was deleted: remove its record from the catalog store and
    /// release its playback.
    Remove(SoundItem),
}

/// The whole session: the list, the add form, the ensemble flag and
/// whether the program keeps running.
pub struct App {
    running: bool,
    sounds_block: SoundsBlock,
    sound_add_popup: SoundAddPopup,
    general_play_state: bool,
    audio_available: bool,
    next_id: u32,
}

pub struct AppView {
    pub running: bool,
    pub block: SoundsBlockView,
    pub popup: SoundAddPopupView,
    pub ensemble_playing: bool,
    pub audio_available: bool,
    pub next_id: int,
}

impl View for App {
    type V = AppView;

    closed spec fn view(&self) -> AppView {
        AppView {
            running: self.running,
            block: self.sounds_block@,
            popup: self.sound_add_popup@,
            ensemble_playing: self.general_play_state,
            audio_available: self.audio_available,
            next_id: self.next_id as int,
        }
    }
}

/// A catalog record as the list sees it: name, resolved path and icon.
pub open spec fn resolved_records(c: Seq<SoundConfig>, exists: Seq<bool>) -> Seq<(Seq<char>, Seq<char>, Seq<char>)> {
    Seq::new(c.len(), |i: int| (c[i].name@, resolved(c[i].file@, exists[i]), c[i].icon@))
}

/// The entry loaded from a resolved record.
pub open spec fn loaded_entry(r: (Seq<char>, Seq<char>, Seq<char>), id: int, audio: bool) -> SoundItemView {
    SoundItemView {
        id: id as u32,
        name: r.0,
        icon: r.2,
        selected: false,
        active: false,
        sound: SoundView {
            path: r.1,
            volume: clamp_volume(DEFAULT_VOLUME as int),
            playback: if audio {
                Playback::Paused
            } else {
                Playback::Silent
            },
        },
    }
}

/// The session with an entry for `r` appended under the next id.
pub open spec fn with_entry(v: AppView, r: (Seq<char>, Seq<char>, Seq<char>)) -> AppView {
    AppView {
        block: block_with_added(v.block, loaded_entry(r, v.next_id, v.audio_available)),
        next_id: v.next_id + 1,
        ..v
    }
}

/// The session after loading every record, in order.
pub open spec fn loaded(v: AppView, recs: Seq<(Seq<char>, Seq<char>, Seq<char>)>) -> AppView
    decreases recs.len(),
{
    if recs.len() == 0 {
        v
    } else {
        with_entry(loaded(v, recs.drop_last()), recs.last())
    }
}

/// The session after loading, in order, each record that no entry has the
/// name and path of yet.
pub open spec fn refreshed(v: AppView, recs: Seq<(Seq<char>, Seq<char>, Seq<char>)>) -> AppView
    decreases recs.len(),
{
    if recs.len() == 0 {
        v
    } else {
        let w = refreshed(v, recs.drop_last());
        let r = recs.last();
        if is_listed(w.block.entries, r.0, r.1) {
            w
        } else {
            with_entry(w, r)
        }
    }
}

/// What a key does to the session. With the form open, Esc closes and
/// empties it and every other key goes to it: `q` and `n` are typed into
/// the focused field like any other character, so that names and paths can
/// hold them, and Esc alone closes the form. With the form closed, `q` and
/// Esc quit, `n` opens the form, Enter flips the ensemble flag and toggles
/// the ensemble, and every other key goes to the list.
pub open spec fn app_after_key(v: AppView, key: Key) -> AppView {
    if v.popup.opened {
        if key == Key::Esc {
            AppView { popup: SoundAddPopupView { opened: false, ..cleared(v.popup) }, ..v }
        } else {
            AppView { popup: popup_after_key(v.popup, key), ..v }
        }
    } else if key == Key::Esc || key == Key::Char('q') {
        AppView { running: false, ..v }
    } else if key == Key::Char('n') {
        AppView { popup: SoundAddPopupView { opened: true, ..v.popup }, ..v }
    } else if key == Key::Enter {
        AppView { ensemble_playing: !v.ensemble_playing, block: after_key(v.block, key), ..v }
    } else {
        AppView { block: after_key(v.block, key), ..v }
    }
}

/// Reconciling the list with a catalog keeps it well formed, keeps every
/// entry that was there at its index, and, when the list was non-empty,
/// keeps the same entry selected: records only ever append unselected
/// entries.
pub proof fn lemma_refresh_keeps_selection(v: AppView, recs: Seq<(Seq<char>, Seq<char>, Seq<char>)>)
    requires
        block_wf(v.block),
    ensures
        block_wf(refreshed(v, recs).block),
        refreshed(v, recs).block.entries.len() >= v.block.entries.len(),
        forall|k: int|
            0 <= k < v.block.entries.len() ==> #[trigger] refreshed(v, recs).block.entries[k]
                == v.block.entries[k],
        v.block.entries.len() > 0 ==> refreshed(v, recs).block.selected == v.block.selected,
    decreases recs.len(),
{
    if recs.len() > 0 {
        lemma_refresh_keeps_selection(v, recs.drop_last());
        let w = refreshed(v, recs.drop_last());
        let r = recs.last();
        lemma_added_keeps_invariants(w.block, loaded_entry(r, w.next_id, w.audio_available));
    }
}

impl App {
    pub open spec fn wf(&self) -> bool {
        block_wf(self@.block) && popup_wf(self@.popup)
    }

    /// A running session with an empty list, the form closed and the
    /// ensemble flag on; entries get playback when `audio_available`.
    pub fn new(audio_available: bool) -> (r: App)
        ensures
            r.wf(),
            r@.running,
            r@.block.entries.len() == 0,
            r@.block.lower == 0 && r@.block.upper == 0,
            !r@.popup.opened,
            r@.ensemble_playing,
            r@.audio_available == audio_available,
            r@.next_id == 0,
    {
        App {
            running: true,
            sounds_block: SoundsBlock::default(),
            sound_add_popup: SoundAddPopup::new(),
            general_play_state: true,
            audio_available,
            next_id: 0,
        }
    }

    pub fn is_running(&self) -> (r: bool)
        ensures
            r == self@.running,
    {
        self.running
    }

    pub fn get_general_play_state(&self) -> (r: bool)
        ensures
            r == self@.ensemble_playing,
    {
        self.general_play_state
    }

    pub fn get_next_id(&self) -> (r: u32)
        ensures
            r == self@.next_id,
    {
        self.next_id
    }

    pub fn get_sounds_block(&self) -> (r: &SoundsBlock)
        ensures
            r@ == self@.block,
            self.wf() ==> r.wf(),
    {
        &self.sounds_block
    }

    pub fn get_sound_add_popup(&self) -> (r: &SoundAddPopup)
        ensures
            r@ == self@.popup,
            self.wf() ==> r.wf(),
    {
        &self.sound_add_popup
    }

    pub fn exit(&mut self)
        ensures
            final(self)@ == (AppView { running: false, ..old(self)@ }),
            final(self).wf() == old(self).wf(),
    {
        self.running = false;
    }

    /// Appends an entry for record `rec`, whose file exists under the
    /// resources directory when `relative_exists`.
    fn add_entry(&mut self, rec: &SoundConfig, relative_exists: bool)
        requires
            old(self).wf(),
            old(self)@.next_id < u32::MAX,
        ensures
            final(self).wf(),
            final(self)@ == with_entry(old(self)@, (rec.name@, resolved(rec.file@, relative_exists), rec.icon@)),
    {
        let path = resolve_path(rec.file.as_str(), relative_exists);
        let item = SoundItem::new(
            self.next_id,
            rec.name.clone(),
            path,
            DEFAULT_VOLUME,
            rec.icon.clone(),
            false,
            false,
            self.audio_available,
        );
        self.sounds_block.add_sound(item);
        self.next_id = self.next_id + 1;
    }

    /// Loads every record of the catalog, in order; `relative_exists[i]`
    /// tells whether record `i`'s file exists under the resources directory.
    pub fn setup_list(&mut self, config: &Config, relative_exists: &Vec<bool>)
        requires
            old(self).wf(),
            relative_exists@.len() == config.sound@.len(),
            old(self)@.next_id + config.sound@.len() <= u32::MAX,
        ensures
            final(self).wf(),
            final(self)@ == loaded(old(self)@, resolved_records(config.sound@, relative_exists@)),
    {
        let ghost recs = resolved_records(config.sound@, relative_exists@);
        let n = config.sound.len();
        let mut i: usize = 0;
        while i < n
            invariant
                0 <= i <= n,
                n == config.sound@.len(),
                relative_exists@.len() == n,
                recs == resolved_records(config.sound@, relative_exists@),
                self.wf(),
                self@ == loaded(old(self)@, recs.take(i as int)),
                self@.next_id == old(self)@.next_id + i,
                old(self)@.next_id + n <= u32::MAX,
            decreases n - i,
        {
            self.add_entry(&config.sound[i], relative_exists[i]);
            assert(recs.take(i + 1).drop_last() =~= recs.take(i as int));
            i = i + 1;
        }
        assert(recs.take(n as int) =~= recs);
    }

    /// Loads, in order, each record of the catalog that no entry has the
    /// name and resolved path of yet.
    pub fn refresh_list(&mut self, config: &Config, relative_exists: &Vec<bool>)
        requires
            old(self).wf(),
            relative_exists@.len() == config.sound@.len(),
            old(self)@.next_id + config.sound@.len() <= u32::MAX,
        ensures
            final(self).wf(),
            final(self)@ == refreshed(old(self)@, resolved_records(config.sound@, relative_exists@)),
    {
        let ghost recs = resolved_records(config.sound@, relative_exists@);
        let n = config.sound.len();
        let mut i: usize = 0;
        while i < n
            invariant
                0 <= i <= n,
                n == config.sound@.len(),
                relative_exists@.len() == n,
                recs == resolved_records(config.sound@, relative_exists@),
                self.wf(),
                self@ == refreshed(old(self)@, recs.take(i as int)),
                self@.next_id <= old(self)@.next_id + i,
                old(self)@.next_id + n <= u32::MAX,
            decreases n - i,
        {
            let rec = &config.sound[i];
            let path = resolve_path(rec.file.as_str(), relative_exists[i]);
            assert(recs.take(i + 1).drop_last() =~= recs.take(i as int));
            if !self.sounds_block.contains_sound(&rec.name, &path) {
                self.add_entry(rec, relative_exists[i]);
            }
            i = i + 1;
        }
        assert(recs.take(n as int) =~= recs);
    }

    /// Fits the list's window to a viewport of `height` rows.
    pub fn handle_resize(&mut self, height: u16)
        requires
            old(self).wf(),
        ensures
            final(self).wf(),
            final(self)@ == (AppView {
                block: resized(old(self)@.block, height as int),
                ..old(self)@
            }),
    {
        self.sounds_block.handle_resize(height);
    }

    /// Handles a key and says what the caller has to carry out: a record
    /// to append after a complete submission of the form, or the entry that
    /// `d` deleted.
    pub fn handle_key_event(&mut self, key: Key) -> (r: Action)
        requires
            old(self).wf(),
        ensures
            final(self).wf(),
            final(self)@ == app_after_key(old(self)@, key),
            (r matches Action::Append(rec)) <==> (old(self)@.popup.opened && key == Key::Enter
                && first_empty(old(self)@.popup) is None),
            r matches Action::Append(rec) ==> submitted_record(rec, old(self)@.popup),
            (r matches Action::Remove(item)) <==> (!old(self)@.popup.opened && key == Key::Char('d')
                && old(self)@.block.selected is Some),
            r matches Action::Remove(item) ==> item@ == old(self)@.block.entries[old(
                self,
            )@.block.selected->0],
    {
        if self.sound_add_popup.get_opened() {
            if key == Key::Esc {
                self.sound_add_popup.set_opened(false);
                self.sound_add_popup.clear();
                return Action::Nothing;
            }
            return match self.sound_add_popup.handle_key_event(key) {
                Some(rec) => Action::Append(rec),
                None => Action::Nothing,
            };
        }
        match key {
            Key::Esc => {
                self.exit();
                Action::Nothing
            },
            Key::Char('q') => {
                self.exit();
                Action::Nothing
            },
            Key::Char('n') => {
                self.sound_add_popup.set_opened(true);
                Action::Nothing
            },
            _ => {
                if key == Key::Enter {
                    self.general_play_state = !self.general_play_state;
                }
                match self.sounds_block.handle_key_event(key) {
                    Some(item) => Action::Remove(item),
                    None => Action::Nothing,
                }
            },
        }
    }
}

} // verus!
