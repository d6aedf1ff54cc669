use clapchop::slicing::onset_gap;
use clapchop::{compute_slices, frames_per_region, LoadedSample, SliceAlgorithm, Slices};

fn mono(num_frames: usize, sample_rate: u32, onsets: Vec<usize>) -> LoadedSample {
    LoadedSample {
        num_frames,
        sample_rate,
        stereo: false,
        onset_candidates: onsets,
    }
}

const GRID: [SliceAlgorithm; 4] = [
    SliceAlgorithm::Quarter,
    SliceAlgorithm::Eighth,
    SliceAlgorithm::Sixteenth,
    SliceAlgorithm::Bars,
];

const ALL: [SliceAlgorithm; 5] = [
    SliceAlgorithm::Quarter,
    SliceAlgorithm::Eighth,
    SliceAlgorithm::Sixteenth,
    SliceAlgorithm::Bars,
    SliceAlgorithm::Transient,
];

fn assert_valid(regions: &[(usize, usize)], n: usize, max: usize) {
    assert!(regions.len() <= max);
    for &(s, e) in regions {
        assert!(s < e && e <= n, "bad region ({s},{e}) for {n} frames");
    }
    for w in regions.windows(2) {
        assert!(w[0].1 <= w[1].0);
    }
}

#[test]
fn quarter_grid_two_seconds_at_120_bpm() {
    let s = mono(88200, 44100, vec![]);
    let r = compute_slices(&s, 120_000, SliceAlgorithm::Quarter, 64, 100);
    assert_eq!(
        r.regions,
        vec![(0, 22050), (22050, 44100), (44100, 66150), (66150, 88200)]
    );
}

#[test]
fn quarter_grid_keeps_only_max_regions() {
    let s = mono(88200, 44100, vec![]);
    let r = compute_slices(&s, 120_000, SliceAlgorithm::Quarter, 2, 100);
    assert_eq!(r.regions, vec![(0, 22050), (22050, 44100)]);
}

#[test]
fn frames_per_region_for_each_grid() {
    assert_eq!(frames_per_region(SliceAlgorithm::Quarter, 44100, 120_000, 100), 22050);
    assert_eq!(frames_per_region(SliceAlgorithm::Eighth, 44100, 120_000, 100), 11025);
    assert_eq!(frames_per_region(SliceAlgorithm::Sixteenth, 44100, 120_000, 100), 5512);
    assert_eq!(frames_per_region(SliceAlgorithm::Bars, 44100, 120_000, 100), 88200);
    assert_eq!(frames_per_region(SliceAlgorithm::Quarter, 48000, 90_000, 100), 32000);
}

#[test]
fn frames_per_region_never_below_one() {
    assert_eq!(frames_per_region(SliceAlgorithm::Sixteenth, 10, 240_000, 1), 1);
    assert_eq!(frames_per_region(SliceAlgorithm::Quarter, 44100, 120_000, 0), 1);
}

#[test]
fn doubling_speed_doubles_region_length() {
    for algo in GRID {
        for bpm in [40_000u32, 97_500, 120_000, 173_000, 240_000] {
            for speed in [25u32, 50, 100, 133, 150] {
                let once = frames_per_region(algo, 44100, bpm, speed);
                let twice = frames_per_region(algo, 44100, bpm, 2 * speed);
                assert_eq!(twice / 2, once, "{algo:?} {bpm} {speed}");
            }
        }
    }
    assert_eq!(frames_per_region(SliceAlgorithm::Quarter, 44100, 120_000, 200), 44100);
    assert_eq!(frames_per_region(SliceAlgorithm::Sixteenth, 44100, 120_000, 200), 11025);
}

#[test]
fn grid_regions_are_ordered_and_inside() {
    for algo in GRID {
        for &(n, rate) in &[(1usize, 44100u32), (1000, 8000), (88200, 44100), (123457, 48000)] {
            for bpm in [1u32, 40_000, 120_000, 999_999] {
                for max in [1usize, 3, 64] {
                    let s = mono(n, rate, vec![]);
                    let r = compute_slices(&s, bpm, algo, max, 100);
                    assert!(!r.regions.is_empty());
                    assert_valid(&r.regions, n, max);
                }
            }
        }
    }
}

#[test]
fn grid_last_region_stops_at_end() {
    let s = mono(50000, 44100, vec![]);
    let r = compute_slices(&s, 120_000, SliceAlgorithm::Quarter, 64, 100);
    assert_eq!(r.regions, vec![(0, 22050), (22050, 44100), (44100, 50000)]);
}

#[test]
fn region_longer_than_sample_gives_whole_sample() {
    let s = mono(1000, 44100, vec![]);
    let r = compute_slices(&s, 120_000, SliceAlgorithm::Bars, 64, 100);
    assert_eq!(r.regions, vec![(0, 1000)]);
}

#[test]
fn nothing_to_cut_yields_no_region() {
    for algo in ALL {
        let empty = mono(0, 44100, vec![]);
        assert!(compute_slices(&empty, 120_000, algo, 64, 100).regions.is_empty());
        let s = mono(88200, 44100, vec![5000]);
        assert!(compute_slices(&s, 120_000, algo, 0, 100).regions.is_empty());
    }
}

#[test]
fn zero_tempo_yields_no_grid() {
    let s = mono(88200, 44100, vec![]);
    for algo in GRID {
        assert!(compute_slices(&s, 0, algo, 64, 100).regions.is_empty());
    }
    let t = compute_slices(&s, 0, SliceAlgorithm::Transient, 64, 100);
    assert_eq!(t.regions, vec![(0, 88200)]);
}

#[test]
fn onset_gap_is_ten_milliseconds() {
    assert_eq!(onset_gap(44100), 441);
    assert_eq!(onset_gap(48000), 480);
    assert_eq!(onset_gap(22050), 221);
    assert_eq!(onset_gap(10), 1);
    assert_eq!(onset_gap(0), 1);
}

#[test]
fn transient_regions_follow_accepted_onsets() {
    let s = mono(44100, 44100, vec![100, 200, 1000, 1500, 1700, 30000]);
    let r = compute_slices(&s, 120_000, SliceAlgorithm::Transient, 64, 100);
    assert_eq!(
        r.regions,
        vec![(0, 1000), (1000, 1500), (1500, 30000), (30000, 44100)]
    );
}

#[test]
fn transient_ignores_tempo_and_speed() {
    let s = mono(44100, 44100, vec![1000, 20000]);
    let a = compute_slices(&s, 120_000, SliceAlgorithm::Transient, 64, 100);
    let b = compute_slices(&s, 77_000, SliceAlgorithm::Transient, 64, 250);
    assert_eq!(a.regions, b.regions);
    assert_eq!(a.regions, vec![(0, 1000), (1000, 20000), (20000, 44100)]);
}

#[test]
fn transient_onsets_keep_minimum_gap() {
    let cands: Vec<usize> = (1..2000).map(|i| i * 37).collect();
    let s = mono(80000, 44100, cands);
    let r = compute_slices(&s, 120_000, SliceAlgorithm::Transient, 64, 100);
    assert_valid(&r.regions, 80000, 64);
    for (a, b) in r.regions {
        assert!(b > a);
    }
    let r = compute_slices(&s, 120_000, SliceAlgorithm::Transient, 1000, 100);
    for w in r.regions.windows(2) {
        assert!(w[1].0 - w[0].0 >= 441);
    }
}

#[test]
fn transient_thins_to_max_regions() {
    // accepted: 0, 1000, 2000, 3000, 4000 -> every second one, two of them
    let s = mono(10000, 44100, vec![1000, 2000, 3000, 4000]);
    let r = compute_slices(&s, 120_000, SliceAlgorithm::Transient, 2, 100);
    assert_eq!(r.regions, vec![(0, 2000), (2000, 10000)]);
    let r = compute_slices(&s, 120_000, SliceAlgorithm::Transient, 4, 100);
    assert_eq!(r.regions, vec![(0, 1000), (1000, 2000), (2000, 3000), (3000, 10000)]);
}

#[test]
fn transient_without_onsets_spans_whole_sample() {
    let s = mono(5000, 44100, vec![]);
    let r = compute_slices(&s, 120_000, SliceAlgorithm::Transient, 64, 100);
    assert_eq!(r.regions, vec![(0, 5000)]);
}

#[test]
fn transient_candidates_past_the_end_are_ignored() {
    let s = mono(5000, 44100, vec![2000, 5000, 7000]);
    let r = compute_slices(&s, 120_000, SliceAlgorithm::Transient, 64, 100);
    assert_eq!(r.regions, vec![(0, 2000), (2000, 5000)]);
}

#[test]
fn algorithm_labels() {
    assert_eq!(SliceAlgorithm::Quarter.label(), "1/4");
    assert_eq!(SliceAlgorithm::Eighth.label(), "1/8");
    assert_eq!(SliceAlgorithm::Sixteenth.label(), "1/16");
    assert_eq!(SliceAlgorithm::Bars.label(), "Bars");
    assert_eq!(SliceAlgorithm::Transient.label(), "Transient");
}

#[test]
fn slice_bounds_by_pad() {
    let s = Slices {
        regions: vec![(0, 10), (10, 25)],
    };
    assert_eq!(s.get_slice_bounds(0), Some((0, 10)));
    assert_eq!(s.get_slice_bounds(1), Some((10, 25)));
    assert_eq!(s.get_slice_bounds(2), None);
    assert_eq!(s.len(), 2);
    assert!(Slices::empty().regions.is_empty());
    assert!(Slices::default().regions.is_empty());
    assert_eq!(s.duplicate().regions, s.regions);
}
