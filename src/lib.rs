//! Core of a sample-chopping instrument: slicing a recording into pad
//! regions, the voice state machines that play them back, and the shared
//! control state handed between the control surface and the audio path.
//!
//! Everything here works on plain integers: tempo in thousandths of a beat
//! per minute, rates in whole hertz, gains in millionths, and read cursors
//! as whole frames plus an exact fraction of an output step. The audio
//! samples themselves, and the arithmetic on them, stay with the caller.
pub mod control;
pub mod engine;
pub mod preset;
pub mod sample;
pub mod slicing;
pub mod ui;

pub use control::{SharedState, UiPadEvent};
pub use engine::{ClapChop, ClapChopParams, NoteEvent, DEFAULT_NUM_PADS, MAX_PADS};
pub use preset::{PresetData, PresetError, PRESET_VERSION};
pub use sample::{LoadedSample, SamplePlayer, Tap, VoiceState, GAIN_FLOOR, GAIN_UNITY};
pub use slicing::{compute_slices, frames_per_region, SliceAlgorithm, Slices};
