use clapchop::control::bump_generation;
use clapchop::engine::pad_for_note;
use clapchop::preset::MAX_STARTING_NOTE;
use clapchop::sample::{decoder_for_extension, frame_layout, track_channels, DecoderChoice, LayoutError};
use clapchop::{
    ClapChop, ClapChopParams, LoadedSample, NoteEvent, PresetData, PresetError, SharedState,
    SliceAlgorithm, Slices, UiPadEvent, GAIN_UNITY, MAX_PADS, PRESET_VERSION,
};

fn sample(num_frames: usize) -> LoadedSample {
    LoadedSample {
        num_frames,
        sample_rate: 44100,
        stereo: false,
        onset_candidates: vec![],
    }
}

fn grid(n: usize) -> Slices {
    Slices {
        regions: (0..n).map(|i| (i * 10, i * 10 + 10)).collect(),
    }
}

#[test]
fn generations_move_on_and_skip_zero() {
    assert_eq!(bump_generation(0), 1);
    assert_eq!(bump_generation(41), 42);
    assert_eq!(bump_generation(u64::MAX), 1);
}

#[test]
fn publish_installs_sample_and_slices_together() {
    let mut s = SharedState::with_pad_count(16);
    s.begin_load();
    assert!(s.loading);
    s.publish_loaded(sample(88200), grid(4), "a.wav".to_string());
    assert_eq!(s.sample.as_ref().map(|x| x.num_frames), Some(88200));
    assert_eq!(s.slices.regions.len(), 4);
    assert_eq!(s.sample_generation, 1);
    assert_eq!(s.slices_generation, 1);
    assert_eq!(s.loaded_path.as_deref(), Some("a.wav"));
    assert!(!s.loading);
    assert_eq!(s.pad_visual_state, vec![false; 4]);
    assert_eq!(s.pad_visual_generation, 1);
    s.publish_loaded(sample(100), grid(2), "b.wav".to_string());
    assert_eq!((s.sample_generation, s.slices_generation), (2, 2));
}

#[test]
fn failed_load_keeps_previous_sample() {
    let mut s = SharedState::with_pad_count(0);
    s.publish_loaded(sample(500), grid(3), "a.wav".to_string());
    s.begin_load();
    s.publish_failed("broken".to_string());
    assert!(!s.loading);
    assert_eq!(s.last_error.as_deref(), Some("broken"));
    assert_eq!(s.sample.as_ref().map(|x| x.num_frames), Some(500));
    assert_eq!(s.sample_generation, 1);
    assert_eq!(s.loaded_path.as_deref(), Some("a.wav"));
}

#[test]
fn pad_flags_and_their_generation() {
    let mut s = SharedState::with_pad_count(2);
    s.set_pad_visual(1, true);
    assert_eq!(s.pad_visual_state, vec![false, true]);
    assert_eq!(s.pad_visual_generation, 1);
    s.set_pad_visual(1, true);
    assert_eq!(s.pad_visual_generation, 1);
    s.set_pad_visual(4, false);
    assert_eq!(s.pad_visual_state, vec![false, true, false, false, false]);
    assert_eq!(s.pad_visual_generation, 1);
    s.clear_pad_visuals();
    assert_eq!(s.pad_visual_state, vec![false; 5]);
    assert_eq!(s.pad_visual_generation, 2);
    s.clear_pad_visuals();
    assert_eq!(s.pad_visual_generation, 2);
    s.ensure_pad_visual_len(5);
    assert_eq!(s.pad_visual_generation, 2);
    s.ensure_pad_visual_len(3);
    assert_eq!(s.pad_visual_state.len(), 3);
    assert_eq!(s.pad_visual_generation, 3);
}

#[test]
fn pad_events_drain_in_order() {
    let mut s = SharedState::with_pad_count(4);
    s.push_pad_event(UiPadEvent::NoteOn {
        pad_index: 2,
        velocity: GAIN_UNITY,
    });
    s.push_pad_event(UiPadEvent::NoteOff { pad_index: 2 });
    let events = s.take_pad_events();
    assert_eq!(
        events,
        vec![
            UiPadEvent::NoteOn {
                pad_index: 2,
                velocity: GAIN_UNITY
            },
            UiPadEvent::NoteOff { pad_index: 2 }
        ]
    );
    assert!(s.pending_pad_events.is_empty());
}

#[test]
fn reslice_request_is_consumed() {
    let mut s = SharedState::with_pad_count(0);
    assert!(!s.take_reslice_request());
    s.request_reslice();
    assert!(s.take_reslice_request());
    assert!(!s.pending_reslice);
}

#[test]
fn install_slices_bumps_generation() {
    let mut s = SharedState::with_pad_count(4);
    let g = s.install_slices(grid(4));
    assert_eq!(g, 1);
    assert_eq!(s.pad_visual_generation, 0);
    let g = s.install_slices(grid(6));
    assert_eq!(g, 2);
    assert_eq!(s.pad_visual_state.len(), 6);
    assert_eq!(s.pad_visual_generation, 1);
}

#[test]
fn notes_map_to_pads_from_starting_note() {
    assert_eq!(pad_for_note(36, 36, 16), Some(0));
    assert_eq!(pad_for_note(51, 36, 16), Some(15));
    assert_eq!(pad_for_note(52, 36, 16), None);
    assert_eq!(pad_for_note(35, 36, 16), None);
    assert_eq!(pad_for_note(40, 36, 0), None);
}

fn loaded_engine(pads: usize) -> (ClapChop, SharedState, ClapChopParams) {
    let mut e = ClapChop::new();
    let mut s = SharedState::with_pad_count(16);
    let params = ClapChopParams::new();
    s.publish_loaded(sample(1000), grid(pads), "x.wav".to_string());
    e.sync_shared_state(&mut s);
    (e, s, params)
}

#[test]
fn engine_adopts_published_sample_and_slices() {
    let (e, s, _) = loaded_engine(5);
    assert_eq!(e.sample_generation_seen, s.sample_generation);
    assert_eq!(e.slices_generation_seen, s.slices_generation);
    assert_eq!(e.player.sample.as_ref().map(|x| x.num_frames), Some(1000));
    assert_eq!(e.player.slices.regions, grid(5).regions);
    assert_eq!(e.player.voice_count(), 5);
    assert_eq!(e.last_num_pads, 5);
    assert_eq!(s.pad_visual_state.len(), 5);
}

#[test]
fn engine_sync_without_news_changes_nothing() {
    let (mut e, mut s, _) = loaded_engine(5);
    let gen = s.pad_visual_generation;
    e.sync_shared_state(&mut s);
    assert_eq!(e.player.voice_count(), 5);
    assert_eq!(s.pad_visual_generation, gen);
}

#[test]
fn midi_notes_trigger_and_release_pads() {
    let (mut e, mut s, params) = loaded_engine(4);
    e.handle_note_event(NoteEvent::NoteOn { note: 38, velocity: 700_000 }, &params, &mut s);
    assert!(e.player.voices[2].active);
    assert_eq!(e.player.voices[2].velocity, 700_000);
    assert!(s.pad_visual_state[2]);
    e.handle_note_event(NoteEvent::NoteOn { note: 40, velocity: 700_000 }, &params, &mut s);
    assert!(e.player.voices.iter().filter(|v| v.active).count() == 1);
    e.handle_note_event(NoteEvent::NoteOff { note: 38 }, &params, &mut s);
    assert!(!e.player.voices[2].active);
    assert!(!s.pad_visual_state[2]);
}

#[test]
fn ui_events_apply_in_submission_order() {
    let (mut e, mut s, params) = loaded_engine(4);
    s.push_pad_event(UiPadEvent::NoteOn {
        pad_index: 1,
        velocity: GAIN_UNITY,
    });
    s.push_pad_event(UiPadEvent::NoteOff { pad_index: 1 });
    s.push_pad_event(UiPadEvent::NoteOn {
        pad_index: 3,
        velocity: GAIN_UNITY,
    });
    s.push_pad_event(UiPadEvent::NoteOn {
        pad_index: 9,
        velocity: GAIN_UNITY,
    });
    e.handle_ui_events(&params, &mut s);
    assert!(s.pending_pad_events.is_empty());
    assert!(!e.player.voices[1].active);
    assert!(e.player.voices[3].active);
    assert_eq!(s.pad_visual_state, vec![false, false, false, true]);
}

#[test]
fn tempo_change_recuts_and_resizes_pads() {
    let mut e = ClapChop::new();
    let mut s = SharedState::with_pad_count(16);
    let mut params = ClapChopParams::new();
    let mut rec = sample(88200);
    rec.sample_rate = 44100;
    s.publish_loaded(rec, grid(4), "x.wav".to_string());
    e.initialize(44100, &params, &mut s);
    e.sync_shared_state(&mut s);
    let before = s.slices_generation;
    e.handle_reslice_requests(&params, &mut s);
    assert_eq!(s.slices_generation, before);
    params.bpm_milli = 240_000;
    e.handle_reslice_requests(&params, &mut s);
    assert_eq!(s.slices.regions.len(), 8);
    assert_eq!(e.player.slices.regions, s.slices.regions);
    assert_eq!(s.slices.regions[1], (11025, 22050));
    assert_eq!(e.slices_generation_seen, s.slices_generation);
    assert_eq!(e.player.voice_count(), 8);
    assert_eq!(e.last_bpm_milli, 240_000);
    s.request_reslice();
    params.slice_algo = SliceAlgorithm::Bars;
    params.bpm_milli = 120_000;
    e.handle_reslice_requests(&params, &mut s);
    assert_eq!(s.slices.regions, vec![(0, 88200)]);
    assert!(!s.pending_reslice);
}

#[test]
fn pad_count_is_capped() {
    let mut e = ClapChop::new();
    let mut s = SharedState::with_pad_count(16);
    e.set_pad_count(100, &mut s);
    assert_eq!(e.last_num_pads, MAX_PADS);
    assert_eq!(e.player.voice_count(), MAX_PADS);
    assert_eq!(s.pad_visual_state.len(), MAX_PADS);
}

#[test]
fn sample_without_slices_has_no_pads() {
    let mut e = ClapChop::new();
    let mut s = SharedState::with_pad_count(16);
    e.sync_num_pads(&mut s);
    assert_eq!(e.last_num_pads, 16);
    s.sample = Some(sample(10));
    e.sync_num_pads(&mut s);
    assert_eq!(e.last_num_pads, 0);
    assert_eq!(e.player.voice_count(), 0);
}

#[test]
fn reset_silences_and_clears_pads() {
    let (mut e, mut s, params) = loaded_engine(4);
    e.handle_note_event(NoteEvent::NoteOn { note: 36, velocity: GAIN_UNITY }, &params, &mut s);
    e.reset(&mut s);
    assert!(e.player.voices.iter().all(|v| !v.active));
    assert!(s.pad_visual_state.iter().all(|v| !v));
}

#[test]
fn persisted_path_is_loaded_once() {
    let mut e = ClapChop::new();
    let p = Some("a.wav".to_string());
    assert!(!e.ensure_persisted_sample_loaded(&None, &None, false));
    assert!(!e.ensure_persisted_sample_loaded(&Some(String::new()), &None, false));
    assert!(e.ensure_persisted_sample_loaded(&p, &None, false));
    assert!(!e.ensure_persisted_sample_loaded(&p, &None, false));
    let mut f = ClapChop::new();
    assert!(!f.ensure_persisted_sample_loaded(&p, &None, true));
    assert_eq!(f.persisted_path_seen.as_deref(), Some("a.wav"));
    let mut g = ClapChop::new();
    assert!(!g.ensure_persisted_sample_loaded(&p, &p, false));
    let mut h = ClapChop::new();
    assert!(h.ensure_persisted_sample_loaded(&p, &Some("b.wav".to_string()), false));
}

#[test]
fn preset_round_trip_and_version_check() {
    let mut params = ClapChopParams::new();
    params.bpm_milli = 95_000;
    params.slice_algo = SliceAlgorithm::Eighth;
    params.playback_speed_percent = 150;
    let mut s = SharedState::with_pad_count(0);
    s.publish_loaded(sample(100), grid(6), "loop.wav".to_string());
    let preset = PresetData::capture(&params, &s);
    assert_eq!(preset.version, PRESET_VERSION);
    assert_eq!(preset.num_pads, 6);
    assert_eq!(preset.sample_path.as_deref(), Some("loop.wav"));
    assert_eq!(preset.validate(), Ok(()));

    let mut other = ClapChopParams::new();
    let load = other.apply_preset(&preset);
    assert_eq!(load.as_deref(), Some("loop.wav"));
    assert_eq!(other.bpm_milli, 95_000);
    assert_eq!(other.slice_algo, SliceAlgorithm::Eighth);
    assert_eq!(other.playback_speed_percent, 150);
    assert_eq!(other.starting_note, 36);

    let bad = PresetData { version: 7, ..preset };
    assert_eq!(bad.validate(), Err(PresetError::UnsupportedVersion { found: 7 }));
}

#[test]
fn preset_starting_note_is_clamped() {
    let mut params = ClapChopParams::new();
    let mut preset = PresetData::capture(&params, &SharedState::with_pad_count(0));
    preset.starting_note = 500;
    preset.sample_path = Some(String::new());
    assert_eq!(params.apply_preset(&preset), None);
    assert_eq!(params.starting_note, MAX_STARTING_NOTE);
    preset.starting_note = -3;
    params.apply_preset(&preset);
    assert_eq!(params.starting_note, 0);
}

#[test]
fn decoder_chosen_by_extension() {
    assert_eq!(decoder_for_extension(Some("wav")), DecoderChoice::Wav);
    assert_eq!(decoder_for_extension(Some("WAVE")), DecoderChoice::Wav);
    assert_eq!(decoder_for_extension(Some("Mp3")), DecoderChoice::Mp3);
    assert_eq!(decoder_for_extension(Some("flac")), DecoderChoice::WavThenMp3);
    assert_eq!(decoder_for_extension(None), DecoderChoice::WavThenMp3);
}

#[test]
fn interleaved_layouts() {
    assert_eq!(frame_layout(7, 1), Ok((7, false)));
    assert_eq!(frame_layout(8, 2), Ok((4, true)));
    assert_eq!(frame_layout(7, 2), Err(LayoutError::IncompleteStereoFrame));
    assert_eq!(frame_layout(9, 3), Err(LayoutError::UnsupportedChannels));
    assert_eq!(frame_layout(0, 0), Err(LayoutError::UnsupportedChannels));
}

#[test]
fn stream_channel_tracking() {
    assert_eq!(track_channels(0, 2), Ok(2));
    assert_eq!(track_channels(2, 2), Ok(2));
    assert_eq!(track_channels(1, 2), Err(LayoutError::ChannelCountChanged));
    assert_eq!(track_channels(0, 3), Err(LayoutError::UnsupportedChannels));
    assert_eq!(track_channels(2, 0), Err(LayoutError::UnsupportedChannels));
}
