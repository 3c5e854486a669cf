use vstd::prelude::*;
use crate::key::Key;
use crate::sound::{Sound, SoundView, Playback, clamp_volume, toggle_result};

verus! {

/// Volume change of one Left or Right press, in hundredths.
pub const VOLUME_STEP: i32 = 5;

/// One catalog entry: its identity, its selection and ensemble flags, and
/// its audio session.
pub struct SoundItem {
    id: u32,
    name: String,
    icon: String,
    selected: bool,
    active: bool,
    sound: Sound,
}

pub struct SoundItemView {
    pub id: u32,
    pub name: Seq<char>,
    pub icon: Seq<char>,
    pub selected: bool,
    pub active: bool,
    pub sound: SoundView,
}

impl View for SoundItem {
    type V = SoundItemView;

    closed spec fn view(&self) -> SoundItemView {
        SoundItemView {
            id: self.id,
            name: self.name@,
            icon: self.icon@,
            selected: self.selected,
            active: self.active,
            sound: self.sound@,
        }
    }
}

/// The entry with its selection flag set to `b`, all else kept.
pub open spec fn with_selected(v: SoundItemView, b: bool) -> SoundItemView {
    SoundItemView {
        id: v.id,
        name: v.name,
        icon: v.icon,
        selected: b,
        active: v.active,
        sound: v.sound,
    }
}

/// The entry after its own play/pause toggle: the sound flips and so does
/// its membership of the ensemble.
pub open spec fn entry_toggled(v: SoundItemView) -> SoundItemView {
    SoundItemView {
        id: v.id,
        name: v.name,
        icon: v.icon,
        selected: v.selected,
        active: !v.active,
        sound: toggle_result(v.sound),
    }
}

/// The entry with only its sound toggled, as the ensemble toggle does.
pub open spec fn sound_toggled(v: SoundItemView) -> SoundItemView {
    SoundItemView {
        id: v.id,
        name: v.name,
        icon: v.icon,
        selected: v.selected,
        active: v.active,
        sound: toggle_result(v.sound),
    }
}

/// The entry with its volume moved by `delta` hundredths, then clamped.
pub open spec fn volume_changed(v: SoundItemView, delta: int) -> SoundItemView {
    SoundItemView {
        id: v.id,
        name: v.name,
        icon: v.icon,
        selected: v.selected,
        active: v.active,
        sound: SoundView {
            path: v.sound.path,
            volume: clamp_volume(v.sound.volume + delta),
            playback: v.sound.playback,
        },
    }
}

/// What a key does to an entry: only a selected entry reacts, to Left and
/// Right (volume) and Space (its own toggle).
pub open spec fn entry_after_key(v: SoundItemView, key: Key) -> SoundItemView {
    if !v.selected {
        v
    } else {
        match key {
            Key::Left => volume_changed(v, -VOLUME_STEP),
            Key::Right => volume_changed(v, VOLUME_STEP as int),
            Key::Char(c) => if c == ' ' {
                entry_toggled(v)
            } else {
                v
            },
            _ => v,
        }
    }
}

impl SoundItem {
    /// An entry whose session is bound to the output device when
    /// `audio_available`, and silent otherwise.
    pub fn new(
        id: u32,
        name: String,
        path: String,
        volume: i64,
        icon: String,
        selected: bool,
        active: bool,
        audio_available: bool,
    ) -> (r: SoundItem)
        ensures
            r@.id == id,
            r@.name == name@,
            r@.icon == icon@,
            r@.selected == selected,
            r@.active == active,
            r@.sound.path == path@,
            r@.sound.volume == clamp_volume(volume as int),
            r@.sound.playback == (if audio_available {
                Playback::Paused
            } else {
                Playback::Silent
            }),
    {
        let sound = if audio_available {
            Sound::new(path, volume)
        } else {
            Sound::new_no_audio(path, volume)
        };
        SoundItem { id, name, icon, selected, active, sound }
    }

    pub fn toggle_selection(&mut self)
        ensures
            final(self)@ == with_selected(old(self)@, !old(self)@.selected),
    {
        self.selected = !self.selected;
    }

    pub(crate) fn set_selected(&mut self, selected: bool)
        ensures
            final(self)@ == with_selected(old(self)@, selected),
    {
        self.selected = selected;
    }

    pub fn toggle_active(&mut self)
        ensures
            final(self)@ == (SoundItemView { active: !old(self)@.active, ..old(self)@ }),
    {
        self.active = !self.active;
    }

    pub fn is_selected(&self) -> (r: bool)
        ensures
            r == self@.selected,
    {
        self.selected
    }

    pub fn is_active(&self) -> (r: bool)
        ensures
            r == self@.active,
    {
        self.active
    }

    pub fn get_icon(&self) -> (r: &str)
        ensures
            r@ == self@.icon,
    {
        self.icon.as_str()
    }

    pub fn get_name(&self) -> (r: &str)
        ensures
            r@ == self@.name,
    {
        self.name.as_str()
    }

    pub fn get_id(&self) -> (r: u32)
        ensures
            r == self@.id,
    {
        self.id
    }

    pub fn get_path(&self) -> (r: &str)
        ensures
            r@ == self@.sound.path,
    {
        self.sound.get_path()
    }

    /// Whether this entry is the one named `name` at `path`.
    pub fn has_key(&self, name: &String, path: &String) -> (r: bool)
        ensures
            r == (self@.name == name@ && self@.sound.path == path@),
    {
        self.name == *name && self.sound.has_path(path)
    }

    pub fn get_volume(&self) -> (r: u8)
        ensures
            r as int == self@.sound.volume,
    {
        self.sound.get_volume()
    }

    /// Number of bars that show the volume: one per tenth, rounded to the
    /// nearest.
    pub fn volume_bars(&self) -> (r: usize)
        ensures
            r as int == (self@.sound.volume + 5) / 10,
    {
        (self.sound.get_volume() as usize + 5) / 10
    }

    pub fn is_playing(&self) -> (r: bool)
        ensures
            r == (self@.sound.playback == Playback::Playing),
    {
        self.sound.is_playing()
    }

    pub fn get_playback(&self) -> (r: Playback)
        ensures
            r == self@.sound.playback,
    {
        self.sound.get_playback()
    }

    /// Moves the volume by `delta` hundredths, clamped to the valid range.
    pub fn change_volume(&mut self, delta: i32)
        ensures
            final(self)@ == volume_changed(old(self)@, delta as int),
    {
        let v = self.sound.get_volume() as i64 + delta as i64;
        self.sound.set_volume(v);
    }

    /// Toggles the sound alone, leaving the ensemble flag as it is.
    pub fn switch_play_pause(&mut self)
        ensures
            final(self)@ == sound_toggled(old(self)@),
    {
        self.sound.switch_play_pause();
    }

    pub fn handle_key_event(&mut self, key: Key)
        ensures
            final(self)@ == entry_after_key(old(self)@, key),
    {
        if self.selected {
            match key {
                Key::Left => self.change_volume(-VOLUME_STEP),
                Key::Right => self.change_volume(VOLUME_STEP),
                Key::Char(c) => {
                    if c == ' ' {
                        self.sound.switch_play_pause();
                        self.active = !self.active;
                    }
                },
                _ => {},
            }
        }
    }
}

} // verus!
