use clapchop::{LoadedSample, SamplePlayer, Slices, Tap, GAIN_FLOOR, GAIN_UNITY};

fn sample(num_frames: usize, sample_rate: u32) -> LoadedSample {
    LoadedSample {
        num_frames,
        sample_rate,
        stereo: false,
        onset_candidates: vec![],
    }
}

fn player_with(regions: Vec<(usize, usize)>, frames: usize, voices: usize) -> SamplePlayer {
    let mut p = SamplePlayer::new(voices);
    p.set_sample(sample(frames, 44100));
    p.set_slices(Slices { regions });
    p
}

fn frame(p: &mut SamplePlayer) -> Vec<Option<Tap>> {
    let mut taps = Vec::new();
    p.process(&mut taps);
    taps
}

#[test]
fn new_player_is_idle() {
    let p = SamplePlayer::new(4);
    assert_eq!(p.voice_count(), 4);
    assert!(p.voices.iter().all(|v| !v.active && !v.held));
    assert_eq!(p.host_sample_rate, 44100);
}

#[test]
fn no_sample_means_silence() {
    let mut p = SamplePlayer::new(2);
    p.set_slices(Slices {
        regions: vec![(0, 10)],
    });
    p.note_on(0, GAIN_UNITY, false, false);
    let before = p.voices.clone();
    assert_eq!(frame(&mut p), vec![None, None]);
    assert_eq!(p.voices, before);
}

#[test]
fn trigger_without_slice_is_ignored() {
    let mut p = player_with(vec![(0, 10)], 100, 4);
    p.note_on(2, GAIN_UNITY, false, false);
    assert!(!p.voices[2].active);
    p.note_on(9, GAIN_UNITY, false, false);
    assert_eq!(p.voice_count(), 4);
}

#[test]
fn trigger_sets_voice_and_clamps_gain() {
    let mut p = player_with(vec![(0, 10), (10, 30)], 100, 2);
    p.note_on(1, 0, true, false);
    let v = p.voices[1];
    assert!(v.active && v.held && v.hold_continue && !v.gate_on_release);
    assert_eq!((v.pos, v.pos_frac, v.slice_end), (10, 0, 30));
    assert_eq!(v.velocity, GAIN_FLOOR);
    p.note_on(0, 5_000_000, false, true);
    assert_eq!(p.voices[0].velocity, GAIN_UNITY);
    p.note_on(0, 250_000, false, true);
    assert_eq!(p.voices[0].velocity, 250_000);
}

#[test]
fn voice_reads_and_stops_at_slice_end() {
    let mut p = player_with(vec![(2, 5)], 10, 1);
    p.note_on(0, 500_000, false, false);
    let mut reads = Vec::new();
    for _ in 0..6 {
        match frame(&mut p)[0] {
            Some(t) => {
                assert_eq!(t.voice, 0);
                assert_eq!(t.gain, 500_000);
                reads.push((t.i0, t.i1));
            }
            None => reads.push((usize::MAX, usize::MAX)),
        }
    }
    assert_eq!(
        reads,
        vec![(2, 3), (3, 4), (4, 5), (usize::MAX, usize::MAX), (usize::MAX, usize::MAX), (usize::MAX, usize::MAX)]
    );
    assert!(!p.voices[0].active);
}

#[test]
fn held_voice_plays_past_slice_to_end_of_sample() {
    let mut p = player_with(vec![(2, 5)], 10, 1);
    p.note_on(0, GAIN_UNITY, true, false);
    let mut positions = Vec::new();
    while let Some(t) = frame(&mut p)[0] {
        positions.push(t.i0);
        assert!(positions.len() < 100);
    }
    assert_eq!(positions, vec![2, 3, 4, 5, 6, 7, 8, 9]);
    assert!(!p.voices[0].active);
}

#[test]
fn last_frame_interpolates_with_itself() {
    let mut p = player_with(vec![(8, 10)], 10, 1);
    p.note_on(0, GAIN_UNITY, false, false);
    let t0 = frame(&mut p)[0].unwrap();
    assert_eq!((t0.i0, t0.i1), (8, 9));
    let t1 = frame(&mut p)[0].unwrap();
    assert_eq!((t1.i0, t1.i1), (9, 9));
    assert_eq!(frame(&mut p)[0], None);
}

#[test]
fn release_with_gate_silences_next_frame() {
    for hold in [false, true] {
        let mut p = player_with(vec![(0, 50)], 100, 1);
        p.note_on(0, GAIN_UNITY, hold, true);
        assert!(frame(&mut p)[0].is_some());
        p.note_off(0);
        assert!(!p.voices[0].active);
        assert_eq!(frame(&mut p)[0], None);
    }
}

#[test]
fn release_without_hold_stops_at_once() {
    let mut p = player_with(vec![(0, 50)], 100, 1);
    p.note_on(0, GAIN_UNITY, false, false);
    frame(&mut p);
    p.note_off(0);
    assert!(!p.voices[0].active);
}

#[test]
fn release_while_holding_stops_at_slice_end() {
    let mut p = player_with(vec![(0, 3)], 100, 1);
    p.note_on(0, GAIN_UNITY, true, false);
    frame(&mut p);
    p.note_off(0);
    assert!(p.voices[0].active);
    assert!(!p.voices[0].held);
    assert!(frame(&mut p)[0].is_some());
    assert!(frame(&mut p)[0].is_some());
    assert!(!p.voices[0].active);
    assert_eq!(frame(&mut p)[0], None);
}

#[test]
fn release_past_slice_end_stops_on_next_frame() {
    let mut p = player_with(vec![(0, 2)], 100, 1);
    p.note_on(0, GAIN_UNITY, true, false);
    for _ in 0..5 {
        assert!(frame(&mut p)[0].is_some());
    }
    p.note_off(0);
    assert!(p.voices[0].active);
    assert_eq!(frame(&mut p)[0].map(|t| t.i0), Some(5));
    assert!(!p.voices[0].active);
}

#[test]
fn cursor_steps_by_rate_ratio() {
    let mut p = SamplePlayer::new(1);
    p.set_sample(sample(1000, 88200));
    p.set_slices(Slices {
        regions: vec![(0, 1000)],
    });
    p.note_on(0, GAIN_UNITY, false, false);
    let a: Vec<usize> = (0..4).map(|_| frame(&mut p)[0].unwrap().i0).collect();
    assert_eq!(a, vec![0, 2, 4, 6]);

    let mut q = SamplePlayer::new(1);
    q.set_sample_rate(48000);
    q.set_sample(sample(1000, 44100));
    q.set_slices(Slices {
        regions: vec![(0, 1000)],
    });
    q.note_on(0, GAIN_UNITY, false, false);
    let t0 = frame(&mut q)[0].unwrap();
    assert_eq!((t0.i0, t0.frac_num, t0.frac_den), (0, 0, 48000));
    let t1 = frame(&mut q)[0].unwrap();
    assert_eq!((t1.i0, t1.frac_num, t1.frac_den), (0, 44100, 48000));
    let t2 = frame(&mut q)[0].unwrap();
    assert_eq!((t2.i0, t2.frac_num), (1, 40200));
}

#[test]
fn changing_output_rate_keeps_cursor() {
    let mut q = SamplePlayer::new(1);
    q.set_sample_rate(48000);
    q.set_sample(sample(1000, 44100));
    q.set_slices(Slices {
        regions: vec![(0, 1000)],
    });
    q.note_on(0, GAIN_UNITY, false, false);
    frame(&mut q);
    frame(&mut q);
    assert_eq!((q.voices[0].pos, q.voices[0].pos_frac), (1, 40200));
    q.set_sample_rate(96000);
    assert_eq!(q.host_sample_rate, 96000);
    assert_eq!((q.voices[0].pos, q.voices[0].pos_frac), (1, 80400));
}

#[test]
fn shrinking_pool_keeps_lower_voices() {
    let mut p = player_with(vec![(0, 10), (10, 20), (20, 30), (30, 40)], 100, 4);
    p.note_on(0, 300_000, true, false);
    p.note_on(1, 600_000, false, true);
    p.note_on(3, GAIN_UNITY, false, false);
    frame(&mut p);
    let before = p.voices.clone();
    p.set_num_voices(2);
    assert_eq!(p.voice_count(), 2);
    assert_eq!(p.voices[..], before[..2]);
    p.set_num_voices(5);
    assert_eq!(p.voices[..2], before[..2]);
    assert!(p.voices[2..].iter().all(|v| !v.active && v.pos == 0));
}

#[test]
fn reset_stops_every_voice() {
    let mut p = player_with(vec![(0, 10), (10, 20)], 100, 2);
    p.note_on(0, GAIN_UNITY, true, true);
    p.note_on(1, GAIN_UNITY, true, false);
    p.reset();
    assert!(p.voices.iter().all(|v| !v.active && !v.held && !v.gate_on_release));
    assert_eq!(p.slices.regions.len(), 2);
    assert!(p.sample.is_some());
    assert_eq!(frame(&mut p), vec![None, None]);
}

#[test]
fn voices_mix_independently() {
    let mut p = player_with(vec![(0, 10), (50, 60)], 100, 3);
    p.note_on(0, GAIN_UNITY, false, false);
    p.note_on(1, 200_000, false, false);
    let taps = frame(&mut p);
    assert_eq!(taps.len(), 3);
    assert_eq!(taps[0].unwrap().i0, 0);
    assert_eq!(taps[1].unwrap().i0, 50);
    assert_eq!(taps[1].unwrap().gain, 200_000);
    assert_eq!(taps[2], None);
}
