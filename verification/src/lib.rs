//! Verified core of a Yamaha DX7 style FM synthesizer: the data formats,
//! tables, parsers and decision logic that the audio and MIDI layers build
//! on.

pub mod operator;
pub mod text;
pub mod lfo;
pub mod algorithms;
pub mod sysex;
pub mod preset_loader;
pub mod midi_handler;
pub mod lock_free;
pub mod pitch_eg;
pub mod state_snapshot;
pub mod fm_synth;
pub mod command_queue;
pub mod algorithm_matrix;
pub mod keyboard;
pub mod algorithm_migration;
pub mod preset_browser;
