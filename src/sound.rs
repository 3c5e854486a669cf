use vstd::prelude::*;

verus! {

/// Largest volume, in hundredths of full gain.
pub const MAX_VOLUME: u8 = 100;

/// The volume actually stored for a requested one: the request clamped to
/// `[0, MAX_VOLUME]`.
pub open spec fn clamp_volume(v: int) -> int {
    if v < 0 {
        0
    } else if v > MAX_VOLUME as int {
        MAX_VOLUME as int
    } else {
        v
    }
}

/// Playback state of one audio session.
///
/// `Silent` is a session without an output device: every operation on it is
/// a no-op and it never reports playing.
#[derive(Clone, Copy, Debug, PartialEq, Eq, Structural)]
pub enum Playback {
    Silent,
    Paused,
    Playing,
}

/// The state after a play/pause toggle.
pub open spec fn toggled(p: Playback) -> Playback {
    match p {
        Playback::Silent => Playback::Silent,
        Playback::Paused => Playback::Playing,
        Playback::Playing => Playback::Paused,
    }
}

/// The session after a play/pause toggle: only the playback state changes.
pub open spec fn toggle_result(v: SoundView) -> SoundView {
    SoundView { path: v.path, volume: v.volume, playback: toggled(v.playback) }
}

/// One looping clip: where it comes from, its volume and its playback state.
pub struct Sound {
    path: String,
    volume: u8,
    playback: Playback,
}

pub struct SoundView {
    pub path: Seq<char>,
    /// In hundredths, always within `[0, MAX_VOLUME]`.
    pub volume: int,
    pub playback: Playback,
}

impl View for Sound {
    type V = SoundView;

    closed spec fn view(&self) -> SoundView {
        SoundView { path: self.path@, volume: self.volume as int, playback: self.playback }
    }
}

fn clamped(volume: i64) -> (r: u8)
    ensures
        r as int == clamp_volume(volume as int),
{
    if volume < 0 {
        0
    } else if volume > MAX_VOLUME as i64 {
        MAX_VOLUME
    } else {
        volume as u8
    }
}

impl Sound {
    /// A session bound to an output device; the clip starts paused.
    pub fn new(path: String, volume: i64) -> (r: Sound)
        ensures
            r@.path == path@,
            r@.volume == clamp_volume(volume as int),
            r@.playback == Playback::Paused,
    {
        Sound { path, volume: clamped(volume), playback: Playback::Paused }
    }

    /// A session without an output device.
    pub fn new_no_audio(path: String, volume: i64) -> (r: Sound)
        ensures
            r@.path == path@,
            r@.volume == clamp_volume(volume as int),
            r@.playback == Playback::Silent,
    {
        Sound { path, volume: clamped(volume), playback: Playback::Silent }
    }

    pub fn get_path(&self) -> (r: &str)
        ensures
            r@ == self@.path,
    {
        self.path.as_str()
    }

    /// Starts the clip; no-op when playing already or without a device.
    pub fn play(&mut self)
        ensures
            final(self)@.path == old(self)@.path,
            final(self)@.volume == old(self)@.volume,
            final(self)@.playback == (if old(self)@.playback == Playback::Silent {
                Playback::Silent
            } else {
                Playback::Playing
            }),
    {
        if self.playback != Playback::Silent {
            self.playback = Playback::Playing;
        }
    }

    /// Pauses the clip; no-op when paused already or without a device.
    pub fn pause(&mut self)
        ensures
            final(self)@.path == old(self)@.path,
            final(self)@.volume == old(self)@.volume,
            final(self)@.playback == (if old(self)@.playback == Playback::Silent {
                Playback::Silent
            } else {
                Playback::Paused
            }),
    {
        if self.playback != Playback::Silent {
            self.playback = Playback::Paused;
        }
    }

    pub fn switch_play_pause(&mut self)
        ensures
            final(self)@ == toggle_result(old(self)@),
    {
        match self.playback {
            Playback::Silent => {},
            Playback::Paused => {
                self.playback = Playback::Playing;
            },
            Playback::Playing => {
                self.playback = Playback::Paused;
            },
        }
    }

    /// Stores the volume clamped to `[0, MAX_VOLUME]`.
    pub fn set_volume(&mut self, volume: i64)
        ensures
            final(self)@.path == old(self)@.path,
            final(self)@.volume == clamp_volume(volume as int),
            final(self)@.playback == old(self)@.playback,
    {
        self.volume = clamped(volume);
    }

    pub fn has_path(&self, path: &String) -> (r: bool)
        ensures
            r == (self@.path == path@),
    {
        self.path == *path
    }

    pub fn get_volume(&self) -> (r: u8)
        ensures
            r as int == self@.volume,
    {
        self.volume
    }

    pub fn is_playing(&self) -> (r: bool)
        ensures
            r == (self@.playback == Playback::Playing),
    {
        self.playback == Playback::Playing
    }

    pub fn get_playback(&self) -> (r: Playback)
        ensures
            r == self@.playback,
    {
        self.playback
    }
}

/// Toggling a session twice gives back its playback state, path and volume.
pub proof fn lemma_toggle_twice(v: SoundView)
    ensures
        toggle_result(toggle_result(v)) == v,
{
}

} // verus!
