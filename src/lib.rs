//! A terminal soundboard's core: a scrollable list of looping clips with a
//! single selection cursor and a visible window, per-clip playback sessions
//! with volume, an ensemble toggle over the clips marked active, a form for
//! new catalog records, and the catalog's add/remove/reconcile rules.

pub mod app;
pub mod config;
pub mod input;
pub mod key;
pub mod sound;
pub mod sound_add_popup;
pub mod sound_item;
pub mod sounds_block;
