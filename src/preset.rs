//! The preset record: what a saved setup holds, and how it is checked and
//! applied.
use vstd::prelude::*;

use crate::control::SharedState;
use crate::engine::ClapChopParams;
use crate::slicing::SliceAlgorithm;

verus! {

/// The only preset layout this library reads and writes.
pub const PRESET_VERSION: u32 = 1;

/// Highest MIDI note pad 0 may sit on.
pub const MAX_STARTING_NOTE: u8 = 119;

/// A saved setup.
pub struct PresetData {
    pub version: u32,
    pub sample_path: Option<String>,
    pub starting_note: i32,
    /// Tempo in thousandths of a beat per minute.
    pub bpm_milli: u32,
    pub slice_algo: SliceAlgorithm,
    pub hold_continue: bool,
    pub gate_on_release: bool,
    pub num_pads: i32,
    /// Playback speed in percent.
    pub playback_speed_percent: u32,
}

#[derive(Clone, Copy, Debug, PartialEq, Eq, Structural)]
pub enum PresetError {
    /// The preset was written in a layout this library does not read.
    UnsupportedVersion { found: u32 },
}

/// A starting note kept inside the range the parameter allows.
pub open spec fn clamp_note(n: int) -> u8 {
    if n < 0 {
        0
    } else if n > MAX_STARTING_NOTE {
        MAX_STARTING_NOTE
    } else {
        n as u8
    }
}

impl PresetData {
    /// Records the current parameters, the loaded path and the pad count.
    pub fn capture(params: &ClapChopParams, shared: &SharedState) -> (r: Self)
        ensures
            r.version == PRESET_VERSION,
            r.sample_path == shared.loaded_path,
            r.starting_note == params.starting_note as i32,
            r.bpm_milli == params.bpm_milli,
            r.slice_algo == params.slice_algo,
            r.hold_continue == params.hold_continue,
            r.gate_on_release == params.gate_on_release,
            r.num_pads as int == (if shared.slices@.len() <= i32::MAX {
                shared.slices@.len() as int
            } else {
                i32::MAX as int
            }),
            r.playback_speed_percent == params.playback_speed_percent,
    {
        let sample_path = match &shared.loaded_path {
            Some(p) => Some(p.clone()),
            None => None,
        };
        let count = shared.slices.len();
        let num_pads: i32 = if count <= i32::MAX as usize {
            count as i32
        } else {
            i32::MAX
        };
        PresetData {
            version: PRESET_VERSION,
            sample_path,
            starting_note: params.starting_note as i32,
            bpm_milli: params.bpm_milli,
            slice_algo: params.slice_algo,
            hold_continue: params.hold_continue,
            gate_on_release: params.gate_on_release,
            num_pads,
            playback_speed_percent: params.playback_speed_percent,
        }
    }

    /// Accepts a preset of the current layout only.
    pub fn validate(&self) -> (r: Result<(), PresetError>)
        ensures
            self.version == PRESET_VERSION ==> r is Ok,
            self.version != PRESET_VERSION ==> r == Err::<(), PresetError>(
                PresetError::UnsupportedVersion { found: self.version },
            ),
    {
        if self.version != PRESET_VERSION {
            return Err(PresetError::UnsupportedVersion { found: self.version });
        }
        Ok(())
    }
}

impl ClapChopParams {
    /// Takes over the settings of `preset`; the starting note is kept inside
    /// its range. Returns the recording to load, when the preset names a
    /// non-empty path.
    pub fn apply_preset(&mut self, preset: &PresetData) -> (load: Option<String>)
        ensures
            final(self).starting_note == clamp_note(preset.starting_note as int),
            final(self).bpm_milli == preset.bpm_milli,
            final(self).slice_algo == preset.slice_algo,
            final(self).hold_continue == preset.hold_continue,
            final(self).gate_on_release == preset.gate_on_release,
            final(self).playback_speed_percent == preset.playback_speed_percent,
            final(self).last_sample_path == old(self).last_sample_path,
            preset.sample_path is Some && preset.sample_path->0@.len() > 0 ==> load
                == preset.sample_path,
            !(preset.sample_path is Some && preset.sample_path->0@.len() > 0) ==> load is None,
    {
        self.starting_note = if preset.starting_note < 0 {
            0
        } else if preset.starting_note > MAX_STARTING_NOTE as i32 {
            MAX_STARTING_NOTE
        } else {
            preset.starting_note as u8
        };
        self.bpm_milli = preset.bpm_milli;
        self.slice_algo = preset.slice_algo;
        self.hold_continue = preset.hold_continue;
        self.gate_on_release = preset.gate_on_release;
        self.playback_speed_percent = preset.playback_speed_percent;
        match &preset.sample_path {
            Some(p) => {
                if p.as_str().is_empty() {
                    None
                } else {
                    Some(p.clone())
                }
            },
            None => None,
        }
    }
}

} // verus!
