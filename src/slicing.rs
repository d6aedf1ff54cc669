//! Partitioning a recording into pad regions, on a tempo grid or at
//! detected onsets.
use vstd::prelude::*;

use crate::sample::LoadedSample;

verus! {

/// How a recording is cut into regions.
#[derive(Debug, Clone, Copy, PartialEq, Eq, Structural)]
pub enum SliceAlgorithm {
    Quarter,
    Eighth,
    Sixteenth,
    Bars,
    Transient,
}

/// Length of one grid region, in quarters of a beat (a bar is four beats).
pub open spec fn quarter_beats(algo: SliceAlgorithm) -> nat {
    match algo {
        SliceAlgorithm::Quarter => 4,
        SliceAlgorithm::Eighth => 2,
        SliceAlgorithm::Sixteenth => 1,
        SliceAlgorithm::Bars => 16,
        SliceAlgorithm::Transient => 0,
    }
}

pub open spec fn label_of(algo: SliceAlgorithm) -> Seq<char> {
    match algo {
        SliceAlgorithm::Quarter => "1/4"@,
        SliceAlgorithm::Eighth => "1/8"@,
        SliceAlgorithm::Sixteenth => "1/16"@,
        SliceAlgorithm::Bars => "Bars"@,
        SliceAlgorithm::Transient => "Transient"@,
    }
}

impl SliceAlgorithm {
    /// Whether the regions follow the tempo grid.
    pub open spec fn is_grid(self) -> bool {
        !(self is Transient)
    }

    /// The name shown to the user.
    pub fn label(self) -> (r: &'static str)
        ensures
            r@ == label_of(self),
    {
        match self {
            SliceAlgorithm::Quarter => "1/4",
            SliceAlgorithm::Eighth => "1/8",
            SliceAlgorithm::Sixteenth => "1/16",
            SliceAlgorithm::Bars => "Bars",
            SliceAlgorithm::Transient => "Transient",
        }
    }
}


/// An ordered list of `(start, end)` frame ranges; index `i` is pad `i`.
pub struct Slices {
    pub regions: Vec<(usize, usize)>,
}

impl View for Slices {
    type V = Seq<(usize, usize)>;

    open spec fn view(&self) -> Seq<(usize, usize)> {
        self.regions@
    }
}

/// Regions that lie inside `n` frames, each non-empty, in increasing order
/// without overlap, and at most `max` of them.
pub open spec fn regions_valid(r: Seq<(usize, usize)>, n: nat, max: nat) -> bool {
    &&& r.len() <= max
    &&& forall|i: int| 0 <= i < r.len() ==> #[trigger] r[i].0 < r[i].1 && r[i].1 <= n
    &&& forall|i: int, j: int| 0 <= i < j < r.len() ==> #[trigger] r[i].1 <= #[trigger] r[j].0
}

impl Slices {
    pub fn empty() -> (r: Self)
        ensures
            r@ == Seq::<(usize, usize)>::empty(),
    {
        Slices { regions: Vec::new() }
    }

    /// The region of pad `idx`, if there is one.
    pub fn get_slice_bounds(&self, idx: usize) -> (r: Option<(usize, usize)>)
        ensures
            idx < self@.len() ==> r == Some(self@[idx as int]),
            idx >= self@.len() ==> r is None,
    {
        if idx < self.regions.len() {
            Some(self.regions[idx])
        } else {
            None
        }
    }

    /// Number of regions, and so of pads.
    pub fn len(&self) -> (r: usize)
        ensures
            r == self@.len(),
    {
        self.regions.len()
    }

    /// A copy of this set of regions.
    pub fn duplicate(&self) -> (r: Slices)
        ensures
            r@ == self@,
    {
        let mut regions: Vec<(usize, usize)> = Vec::new();
        let mut i: usize = 0;
        while i < self.regions.len()
            invariant
                i <= self@.len(),
                regions@ == self@.subrange(0, i as int),
            decreases self@.len() - i,
        {
            regions.push(self.regions[i]);
            i += 1;
            assert(regions@ =~= self@.subrange(0, i as int));
        }
        assert(regions@ =~= self@);
        Slices { regions }
    }
}

impl Default for Slices {
    fn default() -> (r: Self)
        ensures
            r@ == Seq::<(usize, usize)>::empty(),
    {
        Slices::empty()
    }
}

// ---------------------------------------------------------------------
// Tempo grid

/// Frames in one grid region before the floor of one frame is applied.
///
/// One beat lasts `60 / bpm` seconds; a region lasts `quarter_beats / 4`
/// beats; its source span grows with the playback speed. With the tempo
/// given in thousandths of a beat per minute this is
/// `60 * 1000 * (q / 4) * rate * (speed / 100) / bpm_milli`, that is
/// `150 * q * rate * speed / bpm_milli`, rounded down.
pub open spec fn raw_frames_per_region(
    algo: SliceAlgorithm,
    sample_rate: nat,
    bpm_milli: nat,
    speed_percent: nat,
) -> nat
    recommends
        bpm_milli > 0,
{
    (150 * quarter_beats(algo) * sample_rate * speed_percent / bpm_milli) as nat
}

/// Frames in one grid region: the raw span, but never less than one frame.
pub open spec fn frames_per_region_of(
    algo: SliceAlgorithm,
    sample_rate: nat,
    bpm_milli: nat,
    speed_percent: nat,
) -> nat {
    let f = raw_frames_per_region(algo, sample_rate, bpm_milli, speed_percent);
    if f < 1 {
        1
    } else {
        f
    }
}

pub open spec fn min_nat(a: nat, b: nat) -> nat {
    if a <= b {
        a
    } else {
        b
    }
}

/// How many regions the grid walk emits: one per step until the end of the
/// recording, but no more than `max`.
pub open spec fn grid_count(n: nat, step: nat, max: nat) -> nat
    recommends
        step > 0,
{
    min_nat(max, ((n + step - 1) / step as int) as nat)
}

/// The grid walk: region `i` starts at `i * step` and ends one step later,
/// or at the end of the recording.
pub open spec fn tempo_grid(n: nat, step: nat, max: nat) -> Seq<(usize, usize)> {
    Seq::new(
        grid_count(n, step, max),
        |i: int| ((i * step) as usize, min_nat(((i + 1) * step) as nat, n) as usize),
    )
}

/// The region length of a grid algorithm, in frames.
pub fn frames_per_region(
    algo: SliceAlgorithm,
    sample_rate: u32,
    bpm_milli: u32,
    speed_percent: u32,
) -> (r: u128)
    requires
        bpm_milli > 0,
    ensures
        r == frames_per_region_of(algo, sample_rate as nat, bpm_milli as nat, speed_percent as nat),
{
    let q: u128 = match algo {
        SliceAlgorithm::Quarter => 4,
        SliceAlgorithm::Eighth => 2,
        SliceAlgorithm::Sixteenth => 1,
        SliceAlgorithm::Bars => 16,
        SliceAlgorithm::Transient => 0,
    };
    let rate = sample_rate as u128;
    let speed = speed_percent as u128;
    assert(150 * q * rate <= 150 * 16 * 0xffff_ffffu128) by (nonlinear_arith)
        requires
            q <= 16,
            rate <= 0xffff_ffff,
    ;
    assert(150 * q * rate * speed <= 150 * 16 * 0xffff_ffffu128 * 0xffff_ffffu128)
        by (nonlinear_arith)
        requires
            150 * q * rate <= 150 * 16 * 0xffff_ffffu128,
            speed <= 0xffff_ffff,
    ;
    let raw = 150 * q * rate * speed / (bpm_milli as u128);
    if raw < 1 {
        1
    } else {
        raw
    }
}


/// Stepping `k` times by `s` covers `n` frames exactly when `k` is `n / s`
/// rounded up.
proof fn lemma_ceil_div(n: nat, s: nat, k: nat)
    requires
        s > 0,
        k * s >= n,
        k == 0 || (k - 1) * s < n,
    ensures
        (n + s - 1) / s as int == k,
{
    let q = (n + s - 1) / s as int;
    vstd::arithmetic::div_mod::lemma_fundamental_div_mod((n + s - 1) as int, s as int);
    let m = (n + s - 1) % s as int;
    assert(0 <= m < s);
    assert(q == k) by (nonlinear_arith)
        requires
            s > 0,
            k * s >= n,
            k == 0 || (k - 1) * s < n,
            n + s - 1 == s * q + m,
            0 <= m < s,
            n >= 0,
    ;
}

/// The grid walk over `n` frames in steps of `step`, keeping at most
/// `max_regions` regions.
fn grid_slices(n: usize, step: u128, max_regions: usize) -> (r: Slices)
    requires
        step >= 1,
    ensures
        r@ == tempo_grid(n as nat, step as nat, max_regions as nat),
{
    let ghost spec_r = tempo_grid(n as nat, step as nat, max_regions as nat);
    let mut regions: Vec<(usize, usize)> = Vec::new();
    if step >= n as u128 {
        if n > 0 && max_regions > 0 {
            regions.push((0, n));
            proof {
                lemma_ceil_div(n as nat, step as nat, 1);
                assert(grid_count(n as nat, step as nat, max_regions as nat) == 1);
                assert(0 * step == 0);
                assert(spec_r[0] == (0usize, n));
                assert(regions@ =~= spec_r);
            }
        } else {
            proof {
                if n == 0 {
                    lemma_ceil_div(0, step as nat, 0);
                }
            }
            assert(grid_count(n as nat, step as nat, max_regions as nat) == 0);
            assert(regions@ =~= spec_r);
        }
        return Slices { regions };
    }
    let s = step as usize;
    let mut start: usize = 0;
    let ghost mut k: nat = 0;
    while start < n && regions.len() < max_regions
        invariant
            s as nat == step as nat,
            0 < s < n,
            k == regions@.len(),
            k <= max_regions,
            start <= n,
            start < n ==> start as int == k * s,
            start == n ==> k * s >= n,
            k == 0 || (k - 1) * s < n,
            forall|i: int|
                0 <= i < k ==> #[trigger] regions@[i] == ((i * s) as usize, min_nat(
                    ((i + 1) * s) as nat,
                    n as nat,
                ) as usize),
        decreases n - start,
    {
        assert((k + 1) * s == k * s + s) by (nonlinear_arith);
        let end = if s <= n - start {
            start + s
        } else {
            n
        };
        regions.push((start, end));
        if s < n - start {
            start = start + s;
        } else {
            start = n;
        }
        proof {
            k = k + 1;
        }
    }
    proof {
        assert(k <= (n + s - 1) / s as int) by {
            if k > 0 {
                vstd::arithmetic::div_mod::lemma_fundamental_div_mod((n + s - 1) as int, s as int);
                let q = (n + s - 1) / s as int;
                let m = (n + s - 1) % s as int;
                assert(k <= q) by (nonlinear_arith)
                    requires
                        s > 0,
                        (k - 1) * s < n,
                        n + s - 1 == s * q + m,
                        0 <= m < s,
                ;
            }
        }
        if start == n {
            lemma_ceil_div(n as nat, s as nat, k);
        }
        assert(regions@ =~= spec_r);
    }
    Slices { regions }
}


// ---------------------------------------------------------------------
// Onsets

/// Shortest distance between two accepted onsets: about ten milliseconds,
/// `round(rate / 100)`, and at least one frame.
pub open spec fn onset_gap_of(sample_rate: nat) -> nat {
    let g = (sample_rate + 50) / 100;
    if g < 1 {
        1
    } else {
        g as nat
    }
}

/// The onsets accepted from `cands`, scanned in order: frame 0 always, then
/// each candidate inside the recording that lies at least `gap` frames past
/// the last accepted one.
pub open spec fn accepted_onsets(cands: Seq<usize>, n: nat, gap: nat) -> Seq<usize>
    decreases cands.len(),
{
    if cands.len() == 0 {
        seq![0usize]
    } else {
        let prev = accepted_onsets(cands.drop_last(), n, gap);
        let c = cands.last();
        if c < n && c >= prev.last() + gap {
            prev.push(c)
        } else {
            prev
        }
    }
}

/// At most `max` onsets: where there are more, every `len / max`-th one,
/// starting with the first, `max` of them.
pub open spec fn thin_onsets(acc: Seq<usize>, max: nat) -> Seq<usize>
    recommends
        max > 0,
{
    if acc.len() > max {
        let step = acc.len() / max;
        Seq::new(max, |j: int| acc[j * step])
    } else {
        acc
    }
}

/// The regions between consecutive marks, the last one closed by the end of
/// the recording.
pub open spec fn onset_regions(marks: Seq<usize>, n: nat) -> Seq<(usize, usize)> {
    Seq::new(
        marks.len(),
        |j: int|
            (marks[j], if j + 1 < marks.len() {
                marks[j + 1]
            } else {
                n as usize
            }),
    )
}

/// Marks that start at frame 0, stay inside `n` frames and lie at least
/// `gap` frames apart.
pub open spec fn marks_spaced(m: Seq<usize>, n: nat, gap: nat) -> bool {
    &&& m.len() >= 1
    &&& m[0] == 0
    &&& forall|i: int| 0 <= i < m.len() ==> #[trigger] m[i] < n
    &&& forall|i: int, j: int| 0 <= i < j < m.len() ==> #[trigger] m[i] + gap <= #[trigger] m[j]
}

pub proof fn lemma_accepted_spaced(cands: Seq<usize>, n: nat, gap: nat)
    requires
        n > 0,
    ensures
        marks_spaced(accepted_onsets(cands, n, gap), n, gap),
    decreases cands.len(),
{
    if cands.len() > 0 {
        lemma_accepted_spaced(cands.drop_last(), n, gap);
        let prev = accepted_onsets(cands.drop_last(), n, gap);
        let a = accepted_onsets(cands, n, gap);
        assert forall|i: int, j: int| 0 <= i < j < a.len() implies #[trigger] a[i] + gap
            <= #[trigger] a[j] by {
            if j == prev.len() {
                if i < prev.len() - 1 {
                    assert(prev[i] + gap <= prev[prev.len() - 1]);
                }
            }
        }
    }
}

proof fn lemma_pick_in_range(j: int, step: int, max: int, len: int)
    requires
        0 <= j < max,
        step >= 1,
        max * step <= len,
    ensures
        0 <= j * step < len,
{
    assert(0 <= j * step < len) by (nonlinear_arith)
        requires
            0 <= j < max,
            step >= 1,
            max * step <= len,
    ;
}

pub proof fn lemma_thin_spaced(acc: Seq<usize>, n: nat, gap: nat, max: nat)
    requires
        max > 0,
        marks_spaced(acc, n, gap),
    ensures
        marks_spaced(thin_onsets(acc, max), n, gap),
        thin_onsets(acc, max).len() <= max,
{
    if acc.len() > max {
        let step = acc.len() / max;
        let t = thin_onsets(acc, max);
        vstd::arithmetic::div_mod::lemma_fundamental_div_mod(acc.len() as int, max as int);
        assert(step >= 1 && max * step <= acc.len()) by (nonlinear_arith)
            requires
                acc.len() > max,
                max > 0,
                step as int == (acc.len() as int) / (max as int),
                acc.len() as int == (max as int) * (step as int) + (acc.len() as int) % (
                max as int),
                0 <= (acc.len() as int) % (max as int) < max,
        ;
        assert(0 * step == 0);
        assert(t[0] == acc[0]);
        assert forall|i: int, j: int| 0 <= i < j < t.len() implies #[trigger] t[i] + gap
            <= #[trigger] t[j] by {
            assert(i * step < j * step) by (nonlinear_arith)
                requires
                    0 <= i < j,
                    step >= 1,
            ;
            lemma_pick_in_range(j, step as int, max as int, acc.len() as int);
            lemma_pick_in_range(i, step as int, max as int, acc.len() as int);
        }
        assert forall|i: int| 0 <= i < t.len() implies #[trigger] t[i] < n by {
            lemma_pick_in_range(i, step as int, max as int, acc.len() as int);
        }
    }
}

/// Regions between spaced marks are non-empty, ordered and inside the
/// recording.
pub proof fn lemma_onset_regions_valid(m: Seq<usize>, n: nat, gap: nat, max: nat)
    requires
        marks_spaced(m, n, gap),
        gap >= 1,
        m.len() <= max,
        n <= usize::MAX,
    ensures
        regions_valid(onset_regions(m, n), n, max),
{
    let r = onset_regions(m, n);
    assert forall|i: int| 0 <= i < r.len() implies #[trigger] r[i].0 < r[i].1 && r[i].1 <= n by {
        if i + 1 < m.len() {
            assert(m[i] + gap <= m[i + 1]);
            assert(m[i + 1] < n);
        }
    }
    assert forall|i: int, j: int| 0 <= i < j < r.len() implies #[trigger] r[i].1 <= #[trigger] r[j].0 by {
        if i + 1 < j {
            assert(m[i + 1] + gap <= m[j]);
        }
    }
}

/// Frame 0 and each candidate that keeps the minimum distance to the last
/// accepted onset.
fn accept_onsets(cands: &Vec<usize>, n: usize, gap: usize) -> (r: Vec<usize>)
    ensures
        r@ == accepted_onsets(cands@, n as nat, gap as nat),
{
    let mut acc: Vec<usize> = Vec::new();
    acc.push(0);
    let mut last: usize = 0;
    let mut i: usize = 0;
    proof {
        assert(cands@.subrange(0, 0) =~= Seq::<usize>::empty());
        assert(acc@ =~= seq![0usize]);
    }
    while i < cands.len()
        invariant
            i <= cands@.len(),
            acc@ == accepted_onsets(cands@.subrange(0, i as int), n as nat, gap as nat),
            acc@.len() >= 1,
            last == acc@.last(),
        decreases cands@.len() - i,
    {
        let c = cands[i];
        proof {
            assert(cands@.subrange(0, i + 1).drop_last() =~= cands@.subrange(0, i as int));
            assert(cands@.subrange(0, i + 1).last() == c);
        }
        if c < n && c >= last && c - last >= gap {
            acc.push(c);
            last = c;
        }
        i += 1;
    }
    assert(cands@.subrange(0, i as int) =~= cands@);
    acc
}

/// Keeps at most `max_regions` onsets, evenly picked.
fn thin_out(acc: Vec<usize>, max_regions: usize) -> (r: Vec<usize>)
    requires
        max_regions > 0,
    ensures
        r@ == thin_onsets(acc@, max_regions as nat),
{
    if acc.len() <= max_regions {
        return acc;
    }
    let step = acc.len() / max_regions;
    proof {
        vstd::arithmetic::div_mod::lemma_fundamental_div_mod(acc@.len() as int, max_regions as int);
        assert(max_regions * step <= acc@.len()) by (nonlinear_arith)
            requires
                acc@.len() as int == (max_regions as int) * (step as int) + (acc@.len() as int) % (
                max_regions as int),
                (acc@.len() as int) % (max_regions as int) >= 0,
        ;
    }
    let mut out: Vec<usize> = Vec::new();
    let mut j: usize = 0;
    let mut idx: usize = 0;
    while j < max_regions
        invariant
            step as int == (acc@.len() as int) / (max_regions as int),
            max_regions * step <= acc@.len(),
            acc@.len() > max_regions,
            acc@.len() <= usize::MAX,
            j <= max_regions,
            idx == j * step,
            out@.len() == j,
            forall|t: int| 0 <= t < j ==> #[trigger] out@[t] == acc@[t * step],
        decreases max_regions - j,
    {
        assert(idx < acc@.len() && idx + step <= acc@.len()) by (nonlinear_arith)
            requires
                j < max_regions,
                idx == j * step,
                max_regions * step <= acc@.len(),
                acc@.len() > max_regions,
        ;
        assert((j + 1) * step == j * step + step) by (nonlinear_arith);
        out.push(acc[idx]);
        idx = idx + step;
        j += 1;
    }
    assert(out@ =~= thin_onsets(acc@, max_regions as nat));
    out
}

/// The regions between consecutive marks, closed by the end of the
/// recording.
fn regions_between(marks: &Vec<usize>, n: usize) -> (r: Slices)
    ensures
        r@ == onset_regions(marks@, n as nat),
{
    let mut regions: Vec<(usize, usize)> = Vec::new();
    let mut j: usize = 0;
    while j < marks.len()
        invariant
            j <= marks@.len(),
            regions@ == onset_regions(marks@, n as nat).subrange(0, j as int),
        decreases marks@.len() - j,
    {
        let end = if j + 1 < marks.len() {
            marks[j + 1]
        } else {
            n
        };
        regions.push((marks[j], end));
        j += 1;
        assert(regions@ =~= onset_regions(marks@, n as nat).subrange(0, j as int));
    }
    assert(regions@ =~= onset_regions(marks@, n as nat));
    Slices { regions }
}

/// The minimum onset distance for a recording at `sample_rate` Hz.
pub fn onset_gap(sample_rate: u32) -> (r: usize)
    ensures
        r == onset_gap_of(sample_rate as nat),
{
    let g = (sample_rate as u64 + 50) / 100;
    if g < 1 {
        1
    } else {
        g as usize
    }
}

// ---------------------------------------------------------------------
// Slicing

/// The regions that slicing a recording yields. Nothing is cut when no
/// region may be kept, when the recording is empty, or, for a grid, when the
/// tempo is not positive.
pub open spec fn slices_of(
    sample: LoadedSample,
    bpm_milli: nat,
    algo: SliceAlgorithm,
    max_regions: nat,
    speed_percent: nat,
) -> Seq<(usize, usize)> {
    let n = sample.num_frames as nat;
    if max_regions == 0 || n == 0 {
        Seq::empty()
    } else if algo is Transient {
        onset_regions(
            thin_onsets(
                accepted_onsets(sample.onset_candidates@, n, onset_gap_of(sample.sample_rate as nat)),
                max_regions,
            ),
            n,
        )
    } else if bpm_milli == 0 {
        Seq::empty()
    } else {
        tempo_grid(
            n,
            frames_per_region_of(algo, sample.sample_rate as nat, bpm_milli, speed_percent),
            max_regions,
        )
    }
}

/// The grid walk yields ordered, non-empty regions inside the recording.
pub proof fn lemma_grid_valid(n: nat, step: nat, max: nat)
    requires
        step >= 1,
        n <= usize::MAX,
    ensures
        regions_valid(tempo_grid(n, step, max), n, max),
{
    let r = tempo_grid(n, step, max);
    let q = (n + step - 1) / step as int;
    vstd::arithmetic::div_mod::lemma_fundamental_div_mod((n + step - 1) as int, step as int);
    let m = (n + step - 1) % step as int;
    assert forall|i: int| 0 <= i < r.len() implies #[trigger] r[i].0 < r[i].1 && r[i].1 <= n by {
        assert(0 <= i * step < n && i * step < (i + 1) * step) by (nonlinear_arith)
            requires
                0 <= i < q,
                step >= 1,
                n + step - 1 == step * q + m,
                0 <= m < step,
        ;
    }
    assert forall|i: int, j: int| 0 <= i < j < r.len() implies #[trigger] r[i].1 <= #[trigger] r[j].0 by {
        assert((i + 1) * step <= j * step && 0 <= j * step < n) by (nonlinear_arith)
            requires
                0 <= i < j < q,
                step >= 1,
                n + step - 1 == step * q + m,
                0 <= m < step,
        ;
    }
}

/// Every grid algorithm, at every positive tempo, yields regions that lie
/// inside the recording, are non-empty, ordered without overlap, and number
/// at most `max_regions`.
pub proof fn lemma_grid_slices_valid(
    sample: LoadedSample,
    bpm_milli: nat,
    algo: SliceAlgorithm,
    max_regions: nat,
    speed_percent: nat,
)
    requires
        bpm_milli > 0,
        algo.is_grid(),
    ensures
        regions_valid(
            slices_of(sample, bpm_milli, algo, max_regions, speed_percent),
            sample.num_frames as nat,
            max_regions,
        ),
{
    let n = sample.num_frames as nat;
    if max_regions > 0 && n > 0 {
        lemma_grid_valid(
            n,
            frames_per_region_of(algo, sample.sample_rate as nat, bpm_milli, speed_percent),
            max_regions,
        );
    }
}

/// Doubling the playback speed doubles the grid region in source frames, so
/// the region at a given speed is half the region at twice that speed, up
/// to rounding down: this holds of the unfloored span always, and of the
/// region length wherever the span at the lower speed is at least a frame.
pub proof fn lemma_double_speed_doubles_region(
    algo: SliceAlgorithm,
    sample_rate: nat,
    bpm_milli: nat,
    speed_percent: nat,
)
    requires
        bpm_milli > 0,
    ensures
        raw_frames_per_region(algo, sample_rate, bpm_milli, 2 * speed_percent) / 2
            == raw_frames_per_region(algo, sample_rate, bpm_milli, speed_percent),
        raw_frames_per_region(algo, sample_rate, bpm_milli, speed_percent) >= 1 ==> frames_per_region_of(
            algo,
            sample_rate,
            bpm_milli,
            2 * speed_percent,
        ) / 2 == frames_per_region_of(algo, sample_rate, bpm_milli, speed_percent),
{
    let x = 150 * quarter_beats(algo) * sample_rate * speed_percent;
    let b = bpm_milli as int;
    let q = quarter_beats(algo);
    assert(150 * q * sample_rate * (2 * speed_percent) == 2 * x) by (nonlinear_arith)
        requires
            x == 150 * q * sample_rate * speed_percent,
    ;
    vstd::arithmetic::div_mod::lemma_fundamental_div_mod(x as int, b);
    vstd::arithmetic::div_mod::lemma_fundamental_div_mod((2 * x) as int, b);
    let a = x as int / b;
    let r = x as int % b;
    let a2 = (2 * x) as int / b;
    let r2 = (2 * x) as int % b;
    assert(a2 / 2 == a) by (nonlinear_arith)
        requires
            b > 0,
            x == b * a + r,
            0 <= r < b,
            2 * x == b * a2 + r2,
            0 <= r2 < b,
    ;
}

/// Onset slicing never yields an empty region, and the accepted onsets lie
/// at least the minimum onset distance apart.
pub proof fn lemma_onset_slices_spaced(sample: LoadedSample, max_regions: nat)
    requires
        sample.num_frames > 0,
        max_regions > 0,
    ensures
        marks_spaced(
            accepted_onsets(
                sample.onset_candidates@,
                sample.num_frames as nat,
                onset_gap_of(sample.sample_rate as nat),
            ),
            sample.num_frames as nat,
            onset_gap_of(sample.sample_rate as nat),
        ),
        forall|i: int|
            0 <= i < slices_of(sample, 0, SliceAlgorithm::Transient, max_regions, 0).len()
                ==> #[trigger] slices_of(
                sample,
                0,
                SliceAlgorithm::Transient,
                max_regions,
                0,
            )[i].0 < slices_of(sample, 0, SliceAlgorithm::Transient, max_regions, 0)[i].1,
{
    let n = sample.num_frames as nat;
    let gap = onset_gap_of(sample.sample_rate as nat);
    let acc = accepted_onsets(sample.onset_candidates@, n, gap);
    lemma_accepted_spaced(sample.onset_candidates@, n, gap);
    lemma_thin_spaced(acc, n, gap, max_regions);
    lemma_onset_regions_valid(thin_onsets(acc, max_regions), n, gap, max_regions);
}

/// An empty recording, or a limit of zero regions, yields no region, for
/// every algorithm.
pub proof fn lemma_nothing_to_cut(
    sample: LoadedSample,
    bpm_milli: nat,
    algo: SliceAlgorithm,
    max_regions: nat,
    speed_percent: nat,
)
    requires
        sample.num_frames == 0 || max_regions == 0,
    ensures
        slices_of(sample, bpm_milli, algo, max_regions, speed_percent).len() == 0,
{
}

/// Cuts `sample` into at most `max_regions` regions with `algo`. The tempo
/// is in thousandths of a beat per minute; the playback speed in percent.
pub fn compute_slices(
    sample: &LoadedSample,
    bpm_milli: u32,
    algo: SliceAlgorithm,
    max_regions: usize,
    playback_speed_percent: u32,
) -> (r: Slices)
    ensures
        r@ == slices_of(
            *sample,
            bpm_milli as nat,
            algo,
            max_regions as nat,
            playback_speed_percent as nat,
        ),
        regions_valid(r@, sample.num_frames as nat, max_regions as nat),
{
    let n = sample.num_frames;
    if max_regions == 0 || n == 0 {
        return Slices::empty();
    }
    match algo {
        SliceAlgorithm::Transient => {
            let gap = onset_gap(sample.sample_rate);
            let acc = accept_onsets(&sample.onset_candidates, n, gap);
            proof {
                lemma_accepted_spaced(sample.onset_candidates@, n as nat, gap as nat);
                lemma_thin_spaced(acc@, n as nat, gap as nat, max_regions as nat);
            }
            let marks = thin_out(acc, max_regions);
            proof {
                lemma_onset_regions_valid(marks@, n as nat, gap as nat, max_regions as nat);
            }
            regions_between(&marks, n)
        },
        _ => {
            if bpm_milli == 0 {
                return Slices::empty();
            }
            let step = frames_per_region(algo, sample.sample_rate, bpm_milli, playback_speed_percent);
            proof {
                lemma_grid_valid(n as nat, step as nat, max_regions as nat);
            }
            grid_slices(n, step, max_regions)
        },
    }
}

} // verus!
