//! What the engine knows about a decoded recording.
use vstd::prelude::*;

use vstd::string::StringSliceAdditionalSpecFns;

use crate::slicing::Slices;

verus! {

/// The shape of a decoded recording, as the slicing and playback logic read
/// it. The audio itself stays with the decoder's caller.
pub struct LoadedSample {
    /// Number of frames (one value per channel per frame).
    pub num_frames: usize,
    /// Native rate of the recording, in Hz.
    pub sample_rate: u32,
    /// Two channels when set, one otherwise.
    pub stereo: bool,
    /// Frames at which the smoothed amplitude envelope rises above one and
    /// a half times its recent mean and above the absolute floor, as the
    /// decoder's caller measured them: the candidates from which onsets are
    /// picked, scanned in the order given.
    pub onset_candidates: Vec<usize>,
}

impl LoadedSample {
    /// A copy of this description.
    pub fn duplicate(&self) -> (r: LoadedSample)
        ensures
            r.num_frames == self.num_frames,
            r.sample_rate == self.sample_rate,
            r.stereo == self.stereo,
            r.onset_candidates@ == self.onset_candidates@,
    {
        let mut cands: Vec<usize> = Vec::new();
        let mut i: usize = 0;
        while i < self.onset_candidates.len()
            invariant
                i <= self.onset_candidates@.len(),
                cands@ == self.onset_candidates@.subrange(0, i as int),
            decreases self.onset_candidates@.len() - i,
        {
            cands.push(self.onset_candidates[i]);
            i += 1;
            assert(cands@ =~= self.onset_candidates@.subrange(0, i as int));
        }
        assert(cands@ =~= self.onset_candidates@);
        LoadedSample {
            num_frames: self.num_frames,
            sample_rate: self.sample_rate,
            stereo: self.stereo,
            onset_candidates: cands,
        }
    }
}

// ---------------------------------------------------------------------
// Decoding decisions

/// Which decoder a file is given to, from its extension.
#[derive(Clone, Copy, Debug, PartialEq, Eq, Structural)]
pub enum DecoderChoice {
    Wav,
    Mp3,
    /// Unknown extension: the WAV decoder first, then the MP3 one.
    WavThenMp3,
}

pub open spec fn ascii_lower(b: u8) -> u8 {
    if 65 <= b <= 90 {
        (b + 32) as u8
    } else {
        b
    }
}

/// `bytes` spells `lower` in any mix of ASCII cases.
pub open spec fn same_ignoring_case(bytes: Seq<u8>, lower: Seq<u8>) -> bool {
    &&& bytes.len() == lower.len()
    &&& forall|i: int| 0 <= i < bytes.len() ==> ascii_lower(#[trigger] bytes[i]) == lower[i]
}

pub open spec fn decoder_choice_of(ext: Option<Seq<u8>>) -> DecoderChoice {
    match ext {
        Some(e) => if same_ignoring_case(e, seq![119u8, 97, 118]) || same_ignoring_case(
            e,
            seq![119u8, 97, 118, 101],
        ) {
            DecoderChoice::Wav
        } else if same_ignoring_case(e, seq![109u8, 112, 51]) {
            DecoderChoice::Mp3
        } else {
            DecoderChoice::WavThenMp3
        },
        None => DecoderChoice::WavThenMp3,
    }
}

fn bytes_match_ignoring_case(bytes: &[u8], lower: &[u8]) -> (r: bool)
    ensures
        r == same_ignoring_case(bytes@, lower@),
{
    if bytes.len() != lower.len() {
        return false;
    }
    let mut i: usize = 0;
    while i < bytes.len()
        invariant
            i <= bytes@.len(),
            bytes@.len() == lower@.len(),
            forall|j: int| 0 <= j < i ==> ascii_lower(#[trigger] bytes@[j]) == lower@[j],
        decreases bytes@.len() - i,
    {
        let b = bytes[i];
        let l = if 65 <= b && b <= 90 {
            b + 32
        } else {
            b
        };
        if l != lower[i] {
            return false;
        }
        i += 1;
    }
    true
}

/// The decoder for a file with extension `ext` ("wav" and "wave" to the
/// WAV decoder, "mp3" to the MP3 one, in any case).
pub fn decoder_for_extension(ext: Option<&str>) -> (r: DecoderChoice)
    ensures
        r == decoder_choice_of(
            match ext {
                Some(e) => Some(e.spec_bytes()),
                None => None,
            },
        ),
{
    match ext {
        Some(e) => {
            let b = e.as_bytes();
            let wav: [u8; 3] = [119, 97, 118];
            let wave: [u8; 4] = [119, 97, 118, 101];
            let mp3: [u8; 3] = [109, 112, 51];
            assert(wav@ =~= seq![119u8, 97, 118]);
            assert(wave@ =~= seq![119u8, 97, 118, 101]);
            assert(mp3@ =~= seq![109u8, 112, 51]);
            if bytes_match_ignoring_case(b, wav.as_slice()) || bytes_match_ignoring_case(
                b,
                wave.as_slice(),
            ) {
                DecoderChoice::Wav
            } else if bytes_match_ignoring_case(b, mp3.as_slice()) {
                DecoderChoice::Mp3
            } else {
                DecoderChoice::WavThenMp3
            }
        },
        None => DecoderChoice::WavThenMp3,
    }
}

/// Why decoded samples do not form a recording.
#[derive(Clone, Copy, Debug, PartialEq, Eq, Structural)]
pub enum LayoutError {
    /// Neither one nor two channels.
    UnsupportedChannels,
    /// Two channels, but an odd number of samples.
    IncompleteStereoFrame,
    /// The channel count changed between packets.
    ChannelCountChanged,
}

/// Frames and stereo flag of `len` interleaved samples over `channels`
/// channels: one channel gives a frame per sample, two give a frame per
/// pair; anything else is refused.
pub fn frame_layout(len: usize, channels: usize) -> (r: Result<(usize, bool), LayoutError>)
    ensures
        channels == 1 ==> r == Ok::<(usize, bool), LayoutError>((len, false)),
        channels == 2 && len % 2 == 0 ==> r == Ok::<(usize, bool), LayoutError>((len / 2, true)),
        channels == 2 && len % 2 != 0 ==> r == Err::<(usize, bool), LayoutError>(
            LayoutError::IncompleteStereoFrame,
        ),
        channels != 1 && channels != 2 ==> r == Err::<(usize, bool), LayoutError>(
            LayoutError::UnsupportedChannels,
        ),
{
    if channels == 1 {
        Ok((len, false))
    } else if channels == 2 {
        if len % 2 != 0 {
            Err(LayoutError::IncompleteStereoFrame)
        } else {
            Ok((len / 2, true))
        }
    } else {
        Err(LayoutError::UnsupportedChannels)
    }
}

/// The channel count of a stream after a packet with `decoded` channels,
/// where `current` is the count so far (0 before the first packet).
pub fn track_channels(current: usize, decoded: usize) -> (r: Result<usize, LayoutError>)
    ensures
        (decoded == 0 || decoded > 2) ==> r == Err::<usize, LayoutError>(
            LayoutError::UnsupportedChannels,
        ),
        (1 <= decoded <= 2 && current == 0) ==> r == Ok::<usize, LayoutError>(decoded),
        (1 <= decoded <= 2 && current != 0 && current != decoded) ==> r == Err::<
            usize,
            LayoutError,
        >(LayoutError::ChannelCountChanged),
        (1 <= decoded <= 2 && current == decoded) ==> r == Ok::<usize, LayoutError>(current),
{
    if decoded == 0 || decoded > 2 {
        Err(LayoutError::UnsupportedChannels)
    } else if current == 0 {
        Ok(decoded)
    } else if current != decoded {
        Err(LayoutError::ChannelCountChanged)
    } else {
        Ok(current)
    }
}

// ---------------------------------------------------------------------
// Voices

/// Gain 1.0, in millionths: the loudest a voice plays.
pub const GAIN_UNITY: u32 = 1_000_000;

/// Gain 0.0001, in millionths: the quietest a triggered voice plays.
pub const GAIN_FLOOR: u32 = 100;

/// Rate of the output when nothing else was said, in Hz.
pub const DEFAULT_HOST_RATE: u32 = 44100;

/// The playback state of one pad.
///
/// The read cursor stands at `pos + pos_frac / host_rate` source frames,
/// where `host_rate` is the output rate of the player that owns the voice.
#[derive(Clone, Copy, Debug, PartialEq, Eq, Structural)]
pub struct VoiceState {
    pub active: bool,
    /// Whole source frames of the read cursor.
    pub pos: usize,
    /// The part of a frame past `pos`, in units of one output frame's share.
    pub pos_frac: u32,
    /// End of the slice, in frames.
    pub slice_end: usize,
    /// Gain, in millionths.
    pub velocity: u32,
    /// Keep playing past the slice end while the pad is held.
    pub hold_continue: bool,
    /// The pad that started the voice is still down.
    pub held: bool,
    /// Stop as soon as the pad is released.
    pub gate_on_release: bool,
}

/// Where one sounding voice reads in the current output frame: between
/// frames `i0` and `i1`, `frac_num / frac_den` of the way, scaled by `gain`
/// millionths.
#[derive(Clone, Copy, Debug, PartialEq, Eq, Structural)]
pub struct Tap {
    pub voice: usize,
    pub i0: usize,
    pub i1: usize,
    pub frac_num: u32,
    pub frac_den: u32,
    pub gain: u32,
}

pub open spec fn idle_voice() -> VoiceState {
    VoiceState {
        active: false,
        pos: 0,
        pos_frac: 0,
        slice_end: 0,
        velocity: 0,
        hold_continue: false,
        held: false,
        gate_on_release: false,
    }
}

/// The pool after resizing to `n`: the voices below both sizes are kept as
/// they were, the new ones are idle.
pub open spec fn resized(voices: Seq<VoiceState>, n: nat) -> Seq<VoiceState> {
    Seq::new(n, |i: int| if i < voices.len() { voices[i] } else { idle_voice() })
}

pub open spec fn clamp_gain(velocity: nat) -> nat {
    if velocity < GAIN_FLOOR {
        GAIN_FLOOR as nat
    } else if velocity > GAIN_UNITY {
        GAIN_UNITY as nat
    } else {
        velocity
    }
}

/// The pool after a trigger of pad `pad`: where the pad has a slice and a
/// voice, that voice starts at the slice start, held; otherwise nothing
/// changes.
pub open spec fn note_on_voices(
    voices: Seq<VoiceState>,
    slices: Seq<(usize, usize)>,
    pad: nat,
    velocity: nat,
    hold_continue: bool,
    gate_on_release: bool,
) -> Seq<VoiceState> {
    if pad < slices.len() && pad < voices.len() {
        voices.update(
            pad as int,
            VoiceState {
                active: true,
                pos: slices[pad as int].0,
                pos_frac: 0,
                slice_end: slices[pad as int].1,
                velocity: clamp_gain(velocity) as u32,
                hold_continue,
                held: true,
                gate_on_release,
            },
        )
    } else {
        voices
    }
}

/// A voice whose pad was let go: no longer held, and stopped at once when
/// it gates on release or does not hold past its slice.
pub open spec fn released(v: VoiceState) -> VoiceState {
    VoiceState {
        held: false,
        active: v.active && !v.gate_on_release && v.hold_continue,
        ..v
    }
}

pub open spec fn note_off_voices(voices: Seq<VoiceState>, pad: nat) -> Seq<VoiceState> {
    if pad < voices.len() {
        voices.update(pad as int, released(voices[pad as int]))
    } else {
        voices
    }
}

/// Whole frames of the cursor after one output frame.
pub open spec fn next_pos(v: VoiceState, src_rate: nat, host_rate: nat) -> nat {
    if host_rate == 0 {
        usize::MAX as nat
    } else {
        let p = v.pos + (v.pos_frac + src_rate) / host_rate as int;
        if p > usize::MAX {
            usize::MAX as nat
        } else {
            p as nat
        }
    }
}

pub open spec fn next_frac(v: VoiceState, src_rate: nat, host_rate: nat) -> nat {
    if host_rate == 0 {
        0
    } else {
        ((v.pos_frac + src_rate) % host_rate as int) as nat
    }
}

/// A voice after one output frame of a recording of `n` frames at
/// `src_rate`, played at `host_rate`: the cursor moves on by
/// `src_rate / host_rate` frames; past the slice end the voice stops unless
/// it holds past the slice and is still held; at the end of the recording
/// it stops in any case.
pub open spec fn advanced(v: VoiceState, n: nat, src_rate: nat, host_rate: nat) -> VoiceState {
    if !v.active {
        v
    } else {
        let p = next_pos(v, src_rate, host_rate);
        let beyond = p >= v.slice_end;
        VoiceState {
            active: !(beyond && !v.hold_continue) && !(beyond && !v.held) && p < n,
            pos: p as usize,
            pos_frac: next_frac(v, src_rate, host_rate) as u32,
            ..v
        }
    }
}

/// Where voice `v`, number `i`, reads in a recording of `n` frames: nowhere
/// when it is silent or its cursor lies past the end.
pub open spec fn tap_of(v: VoiceState, i: nat, n: nat, host_rate: nat) -> Option<Tap> {
    if v.active && v.pos < n {
        Some(
            Tap {
                voice: i as usize,
                i0: v.pos,
                i1: if v.pos + 1 < n {
                    (v.pos + 1) as usize
                } else {
                    (n - 1) as usize
                },
                frac_num: v.pos_frac,
                frac_den: if host_rate == 0 {
                    1
                } else {
                    host_rate as u32
                },
                gain: v.velocity,
            },
        )
    } else {
        None
    }
}

pub open spec fn taps_of(voices: Seq<VoiceState>, n: nat, host_rate: nat) -> Seq<Option<Tap>> {
    Seq::new(voices.len(), |i: int| tap_of(voices[i], i as nat, n, host_rate))
}

pub open spec fn advanced_all(voices: Seq<VoiceState>, n: nat, src_rate: nat, host_rate: nat) -> Seq<
    VoiceState,
> {
    Seq::new(voices.len(), |i: int| advanced(voices[i], n, src_rate, host_rate))
}

/// The fraction of every voice rescaled to a new output rate.
pub open spec fn rescaled(v: VoiceState, old_rate: nat, new_rate: nat) -> VoiceState {
    VoiceState {
        pos_frac: if old_rate == 0 {
            0
        } else {
            ((v.pos_frac as int) * (new_rate as int) / (old_rate as int)) as u32
        },
        ..v
    }
}

pub open spec fn frac_fits(v: VoiceState, host_rate: nat) -> bool {
    v.pos_frac < host_rate || v.pos_frac == 0
}

/// A pool of voices, one per pad, that plays slices of one recording.
pub struct SamplePlayer {
    pub sample: Option<LoadedSample>,
    pub slices: Slices,
    /// Output rate, in Hz.
    pub host_sample_rate: u32,
    pub voices: Vec<VoiceState>,
}

impl SamplePlayer {
    /// Each cursor fraction is a proper fraction of an output step.
    pub open spec fn wf(&self) -> bool {
        forall|i: int|
            0 <= i < self.voices@.len() ==> frac_fits(
                #[trigger] self.voices@[i],
                self.host_sample_rate as nat,
            )
    }

    /// Frames in the loaded recording, none when nothing is loaded.
    pub open spec fn frames(&self) -> nat {
        match self.sample {
            Some(s) => s.num_frames as nat,
            None => 0,
        }
    }

    pub fn new(num_voices: usize) -> (r: Self)
        ensures
            r.wf(),
            r.sample is None,
            r.slices@.len() == 0,
            r.host_sample_rate == DEFAULT_HOST_RATE,
            r.voices@ == Seq::new(num_voices as nat, |i: int| idle_voice()),
    {
        let mut player = SamplePlayer {
            sample: None,
            slices: Slices::empty(),
            host_sample_rate: DEFAULT_HOST_RATE,
            voices: Vec::new(),
        };
        player.set_num_voices(num_voices);
        assert(player.voices@ =~= Seq::new(num_voices as nat, |i: int| idle_voice()));
        player
    }

    /// Grows or shrinks the pool to `num_voices`, keeping the voices below
    /// both sizes as they were.
    pub fn set_num_voices(&mut self, num_voices: usize)
        requires
            old(self).wf(),
        ensures
            final(self).wf(),
            final(self).voices@ == resized(old(self).voices@, num_voices as nat),
            final(self).sample == old(self).sample,
            final(self).slices == old(self).slices,
            final(self).host_sample_rate == old(self).host_sample_rate,
    {
        if self.voices.len() == num_voices {
            assert(self.voices@ =~= resized(self.voices@, num_voices as nat));
            return;
        }
        if num_voices < self.voices.len() {
            self.voices.truncate(num_voices);
        } else {
            while self.voices.len() < num_voices
                invariant
                    self.voices@.len() <= num_voices,
                    old(self).voices@.len() <= self.voices@.len(),
                    self.host_sample_rate == old(self).host_sample_rate,
                    self.sample == old(self).sample,
                    self.slices == old(self).slices,
                    forall|i: int|
                        0 <= i < self.voices@.len() ==> #[trigger] self.voices@[i] == resized(
                            old(self).voices@,
                            num_voices as nat,
                        )[i],
                decreases num_voices - self.voices@.len(),
            {
                self.voices.push(
                    VoiceState {
                        active: false,
                        pos: 0,
                        pos_frac: 0,
                        slice_end: 0,
                        velocity: 0,
                        hold_continue: false,
                        held: false,
                        gate_on_release: false,
                    },
                );
            }
        }
        assert(self.voices@ =~= resized(old(self).voices@, num_voices as nat));
    }

    pub fn voice_count(&self) -> (r: usize)
        ensures
            r == self.voices@.len(),
    {
        self.voices.len()
    }

    pub fn set_slices(&mut self, slices: Slices)
        ensures
            final(self).slices == slices,
            final(self).voices == old(self).voices,
            final(self).sample == old(self).sample,
            final(self).host_sample_rate == old(self).host_sample_rate,
    {
        self.slices = slices;
    }

    /// Stops every voice; the recording and the slices stay.
    pub fn reset(&mut self)
        requires
            old(self).wf(),
        ensures
            final(self).wf(),
            final(self).voices@.len() == old(self).voices@.len(),
            forall|i: int|
                0 <= i < old(self).voices@.len() ==> #[trigger] final(self).voices@[i] == (
                VoiceState { active: false, held: false, gate_on_release: false, ..old(self).voices@[i] }),
            final(self).sample == old(self).sample,
            final(self).slices == old(self).slices,
            final(self).host_sample_rate == old(self).host_sample_rate,
    {
        let mut i: usize = 0;
        while i < self.voices.len()
            invariant
                i <= self.voices@.len(),
                self.voices@.len() == old(self).voices@.len(),
                self.host_sample_rate == old(self).host_sample_rate,
                self.sample == old(self).sample,
                self.slices == old(self).slices,
                forall|j: int|
                    0 <= j < i ==> #[trigger] self.voices@[j] == (VoiceState {
                        active: false,
                        held: false,
                        gate_on_release: false,
                        ..old(self).voices@[j]
                    }),
                forall|j: int| i <= j < self.voices@.len() ==> #[trigger] self.voices@[j] == old(self).voices@[j],
            decreases self.voices@.len() - i,
        {
            let mut v = self.voices[i];
            v.active = false;
            v.held = false;
            v.gate_on_release = false;
            self.voices.set(i, v);
            i += 1;
        }
    }

    /// Triggers pad `pad_index` with a gain of `velocity` millionths, kept
    /// between the floor and unity. A pad without a slice or a voice is
    /// ignored.
    pub fn note_on(&mut self, pad_index: usize, velocity: u32, hold_continue: bool, gate_on_release: bool)
        requires
            old(self).wf(),
        ensures
            final(self).wf(),
            final(self).voices@ == note_on_voices(
                old(self).voices@,
                old(self).slices@,
                pad_index as nat,
                velocity as nat,
                hold_continue,
                gate_on_release,
            ),
            final(self).sample == old(self).sample,
            final(self).slices == old(self).slices,
            final(self).host_sample_rate == old(self).host_sample_rate,
    {
        if let Some((start, end)) = self.slices.get_slice_bounds(pad_index) {
            if pad_index < self.voices.len() {
                let gain = if velocity < GAIN_FLOOR {
                    GAIN_FLOOR
                } else if velocity > GAIN_UNITY {
                    GAIN_UNITY
                } else {
                    velocity
                };
                self.voices.set(
                    pad_index,
                    VoiceState {
                        active: true,
                        pos: start,
                        pos_frac: 0,
                        slice_end: end,
                        velocity: gain,
                        hold_continue,
                        held: true,
                        gate_on_release,
                    },
                );
            }
        }
    }

    /// Releases pad `pad_index`.
    pub fn note_off(&mut self, pad_index: usize)
        requires
            old(self).wf(),
        ensures
            final(self).wf(),
            final(self).voices@ == note_off_voices(old(self).voices@, pad_index as nat),
            final(self).sample == old(self).sample,
            final(self).slices == old(self).slices,
            final(self).host_sample_rate == old(self).host_sample_rate,
    {
        if pad_index < self.voices.len() {
            let mut v = self.voices[pad_index];
            v.held = false;
            if v.gate_on_release || !v.hold_continue {
                v.active = false;
            }
            self.voices.set(pad_index, v);
        }
    }

    /// Changes the output rate; each cursor fraction is carried over to the
    /// new rate, so the cursors stay where they were.
    pub fn set_sample_rate(&mut self, rate: u32)
        requires
            old(self).wf(),
        ensures
            final(self).wf(),
            final(self).host_sample_rate == rate,
            final(self).voices@ == Seq::new(
                old(self).voices@.len(),
                |i: int| rescaled(old(self).voices@[i], old(self).host_sample_rate as nat, rate as nat),
            ),
            final(self).sample == old(self).sample,
            final(self).slices == old(self).slices,
    {
        let old_rate = self.host_sample_rate;
        let mut i: usize = 0;
        while i < self.voices.len()
            invariant
                i <= self.voices@.len(),
                self.voices@.len() == old(self).voices@.len(),
                self.host_sample_rate == old_rate,
                old_rate == old(self).host_sample_rate,
                self.sample == old(self).sample,
                self.slices == old(self).slices,
                forall|j: int| 0 <= j < self.voices@.len() ==> frac_fits(#[trigger] old(self).voices@[j], old_rate as nat),
                forall|j: int|
                    0 <= j < i ==> #[trigger] self.voices@[j] == rescaled(
                        old(self).voices@[j],
                        old_rate as nat,
                        rate as nat,
                    ),
                forall|j: int| 0 <= j < i ==> frac_fits(#[trigger] self.voices@[j], rate as nat),
                forall|j: int| i <= j < self.voices@.len() ==> #[trigger] self.voices@[j] == old(self).voices@[j],
            decreases self.voices@.len() - i,
        {
            let mut v = self.voices[i];
            proof {
                assert(frac_fits(old(self).voices@[i as int], old_rate as nat));
            }
            if old_rate == 0 {
                v.pos_frac = 0;
            } else {
                let f = v.pos_frac as u64;
                assert(f * (rate as u64) <= 0xffff_ffffu64 * 0xffff_ffffu64) by (nonlinear_arith)
                    requires
                        f <= 0xffff_ffff,
                        rate <= 0xffff_ffff,
                ;
                let scaled = f * (rate as u64) / (old_rate as u64);
                assert(scaled < rate || scaled == 0) by (nonlinear_arith)
                    requires
                        f < old_rate || f == 0,
                        old_rate > 0,
                        scaled as int == (f as int) * (rate as int) / (old_rate as int),
                ;
                v.pos_frac = scaled as u32;
            }
            self.voices.set(i, v);
            i += 1;
        }
        self.host_sample_rate = rate;
        assert(self.voices@ =~= Seq::new(
            old(self).voices@.len(),
            |i: int| rescaled(old(self).voices@[i], old(self).host_sample_rate as nat, rate as nat),
        ));
    }

    /// Loads another recording. Voices in flight go on reading at their
    /// cursors, now in the new recording.
    pub fn set_sample(&mut self, sample: LoadedSample)
        requires
            old(self).wf(),
        ensures
            final(self).wf(),
            final(self).sample == Some(sample),
            final(self).voices == old(self).voices,
            final(self).slices == old(self).slices,
            final(self).host_sample_rate == old(self).host_sample_rate,
    {
        self.sample = Some(sample);
    }

    /// Renders one output frame: `taps` receives, for each voice, where it
    /// reads in this frame, and then every sounding voice moves on. With no
    /// recording loaded every voice is silent and none moves.
    pub fn process(&mut self, taps: &mut Vec<Option<Tap>>)
        requires
            old(self).wf(),
        ensures
            final(self).wf(),
            final(self).sample == old(self).sample,
            final(self).slices == old(self).slices,
            final(self).host_sample_rate == old(self).host_sample_rate,
            old(self).sample is None ==> final(self).voices@ == old(self).voices@ && final(taps)@
                == Seq::new(old(self).voices@.len(), |i: int| None::<Tap>),
            old(self).sample is Some ==> final(self).voices@ == advanced_all(
                old(self).voices@,
                old(self).frames(),
                old(self).sample->0.sample_rate as nat,
                old(self).host_sample_rate as nat,
            ) && final(taps)@ == taps_of(
                old(self).voices@,
                old(self).frames(),
                old(self).host_sample_rate as nat,
            ),
    {
        taps.clear();
        let (n, src) = match &self.sample {
            Some(s) => (s.num_frames, s.sample_rate),
            None => {
                let mut j: usize = 0;
                while j < self.voices.len()
                    invariant
                        j <= self.voices@.len(),
                        taps@ == Seq::new(j as nat, |i: int| None::<Tap>),
                    decreases self.voices@.len() - j,
                {
                    taps.push(None);
                    j += 1;
                    assert(taps@ =~= Seq::new(j as nat, |i: int| None::<Tap>));
                }
                return;
            },
        };
        let host = self.host_sample_rate;
        let ghost n_spec = old(self).frames();
        let mut i: usize = 0;
        while i < self.voices.len()
            invariant
                i <= self.voices@.len(),
                self.voices@.len() == old(self).voices@.len(),
                self.host_sample_rate == host,
                host == old(self).host_sample_rate,
                self.sample == old(self).sample,
                self.slices == old(self).slices,
                old(self).sample is Some,
                n == old(self).frames(),
                src == old(self).sample->0.sample_rate,
                old(self).wf(),
                taps@.len() == i,
                forall|j: int|
                    0 <= j < i ==> #[trigger] taps@[j] == tap_of(
                        old(self).voices@[j],
                        j as nat,
                        n as nat,
                        host as nat,
                    ),
                forall|j: int|
                    0 <= j < i ==> #[trigger] self.voices@[j] == advanced(
                        old(self).voices@[j],
                        n as nat,
                        src as nat,
                        host as nat,
                    ),
                forall|j: int| i <= j < self.voices@.len() ==> #[trigger] self.voices@[j] == old(self).voices@[j],
                self.wf(),
            decreases self.voices@.len() - i,
        {
            let v = self.voices[i];
            let tap = if v.active && v.pos < n {
                Some(
                    Tap {
                        voice: i,
                        i0: v.pos,
                        i1: if v.pos + 1 < n {
                            v.pos + 1
                        } else {
                            n - 1
                        },
                        frac_num: v.pos_frac,
                        frac_den: if host == 0 {
                            1
                        } else {
                            host
                        },
                        gain: v.velocity,
                    },
                )
            } else {
                None
            };
            taps.push(tap);
            if v.active {
                let mut w = v;
                if host == 0 {
                    w.pos = usize::MAX;
                    w.pos_frac = 0;
                } else {
                    let total: u64 = v.pos_frac as u64 + src as u64;
                    let whole: u64 = total / (host as u64);
                    let room: usize = usize::MAX - v.pos;
                    if whole > room as u64 {
                        w.pos = usize::MAX;
                    } else {
                        w.pos = v.pos + whole as usize;
                    }
                    w.pos_frac = (total % (host as u64)) as u32;
                }
                let beyond = w.pos >= v.slice_end;
                if beyond && !v.hold_continue {
                    w.active = false;
                }
                if beyond && !v.held {
                    w.active = false;
                }
                if w.pos >= n {
                    w.active = false;
                }
                self.voices.set(i, w);
            }
            i += 1;
        }
        assert(taps@ =~= taps_of(old(self).voices@, n_spec, host as nat));
        assert(self.voices@ =~= advanced_all(old(self).voices@, n_spec, src as nat, host as nat));
    }
}

// ---------------------------------------------------------------------
// Laws of the voice pool

/// Shrinking the pool keeps every voice below the new size exactly as it
/// was.
pub proof fn lemma_shrink_keeps_voices(voices: Seq<VoiceState>, m: nat)
    requires
        m < voices.len(),
    ensures
        resized(voices, m).len() == m,
        forall|i: int| 0 <= i < m ==> #[trigger] resized(voices, m)[i] == voices[i],
{
}

/// A pad with a slice and a voice, triggered and then released with
/// gate-on-release set, is silent from the next output frame on, whether or
/// not it holds past its slice; the same holds whenever a voice that gates
/// on release is let go.
pub proof fn lemma_gate_release_silences(
    voices: Seq<VoiceState>,
    slices: Seq<(usize, usize)>,
    pad: nat,
    velocity: nat,
    hold_continue: bool,
    n: nat,
    src_rate: nat,
    host_rate: nat,
)
    requires
        pad < slices.len(),
        pad < voices.len(),
    ensures
        ({
            let after = note_off_voices(
                note_on_voices(voices, slices, pad, velocity, hold_continue, true),
                pad,
            );
            &&& !after[pad as int].active
            &&& taps_of(after, n, host_rate)[pad as int] is None
            &&& !advanced_all(after, n, src_rate, host_rate)[pad as int].active
        }),
        forall|v: VoiceState|
            v.gate_on_release ==> tap_of(#[trigger] released(v), pad, n, host_rate) is None,
{
}

/// A voice that holds past its slice and stays held keeps sounding past its
/// slice end: after each output frame it is still held and sounds exactly
/// while its cursor lies inside the recording.
pub proof fn lemma_held_voice_plays_to_end(
    v: VoiceState,
    i: nat,
    n: nat,
    src_rate: nat,
    host_rate: nat,
)
    requires
        v.active,
        v.held,
        v.hold_continue,
    ensures
        ({
            let w = advanced(v, n, src_rate, host_rate);
            &&& w.held && w.hold_continue
            &&& w.gate_on_release == v.gate_on_release
            &&& (w.active <==> w.pos < n)
            &&& (w.active <==> tap_of(w, i, n, host_rate) is Some)
        }),
{
}

} // verus!
