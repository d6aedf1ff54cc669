//! The audio path's side of the instrument: it reconciles with the shared
//! snapshot once per block, maps note and pad events onto voices, and keeps
//! the pad count in step with the slices.
use vstd::prelude::*;

use crate::control::{resized_flags, visual_set, next_generation, SharedState, UiPadEvent};
use crate::sample::{
    note_off_voices, note_on_voices, resized, SamplePlayer, VoiceState,
};
use crate::slicing::{compute_slices, slices_of, SliceAlgorithm};

verus! {

/// Most pads, and so voices and slices, the instrument offers.
pub const MAX_PADS: usize = 64;

/// Pads shown before anything is loaded.
pub const DEFAULT_NUM_PADS: usize = 16;

/// Tempo when nothing else was said: 120 beats per minute, in thousandths.
pub const DEFAULT_BPM_MILLI: u32 = 120_000;

/// The parameters the control surface exposes, as plain values.
pub struct ClapChopParams {
    /// MIDI note of pad 0, from 0 to 119.
    pub starting_note: u8,
    /// Tempo in thousandths of a beat per minute.
    pub bpm_milli: u32,
    pub slice_algo: SliceAlgorithm,
    pub hold_continue: bool,
    pub gate_on_release: bool,
    /// Playback speed in percent.
    pub playback_speed_percent: u32,
    /// The recording to load when the engine starts, if any.
    pub last_sample_path: Option<String>,
}

impl ClapChopParams {
    pub fn new() -> (r: Self)
        ensures
            r.starting_note == 36,
            r.bpm_milli == DEFAULT_BPM_MILLI,
            r.slice_algo == SliceAlgorithm::Quarter,
            r.hold_continue,
            r.gate_on_release,
            r.playback_speed_percent == 100,
            r.last_sample_path is None,
    {
        ClapChopParams {
            starting_note: 36,
            bpm_milli: DEFAULT_BPM_MILLI,
            slice_algo: SliceAlgorithm::Quarter,
            hold_continue: true,
            gate_on_release: true,
            playback_speed_percent: 100,
            last_sample_path: None,
        }
    }
}

/// A note event from the note input, with a gain in millionths.
#[derive(Clone, Copy, Debug, PartialEq, Eq, Structural)]
pub enum NoteEvent {
    NoteOn { note: u8, velocity: u32 },
    NoteOff { note: u8 },
}

/// The pad that note `note` plays when pad 0 sits at `start` and there are
/// `num_pads` pads.
pub open spec fn pad_for_note_of(note: nat, start: nat, num_pads: nat) -> Option<nat> {
    if note >= start && note - start < num_pads {
        Some((note - start) as nat)
    } else {
        None
    }
}

pub fn pad_for_note(note: u8, start_note: u8, num_pads: usize) -> (r: Option<usize>)
    ensures
        r is Some <==> pad_for_note_of(note as nat, start_note as nat, num_pads as nat) is Some,
        r is Some ==> pad_for_note_of(note as nat, start_note as nat, num_pads as nat) == Some(
            r->0 as nat,
        ),
{
    if note >= start_note && ((note - start_note) as usize) < num_pads {
        Some((note - start_note) as usize)
    } else {
        None
    }
}

/// What events change: the voices, the pad flags and their generation.
pub type PadState = (Seq<VoiceState>, Seq<bool>, u64);

pub open spec fn pads_of(player: SamplePlayer, shared: SharedState) -> PadState {
    (player.voices@, shared.pad_visual_state@, shared.pad_visual_generation)
}

/// A pad triggered: its voice starts and the pad is shown sounding.
pub open spec fn pad_triggered(
    s: PadState,
    slices: Seq<(usize, usize)>,
    pad: nat,
    velocity: nat,
    hold_continue: bool,
    gate_on_release: bool,
) -> PadState {
    let shown = visual_set(s.1, s.2, pad, true);
    (note_on_voices(s.0, slices, pad, velocity, hold_continue, gate_on_release), shown.0, shown.1)
}

/// A pad released: its voice is let go and the pad is shown idle.
pub open spec fn pad_released(s: PadState, pad: nat) -> PadState {
    let shown = visual_set(s.1, s.2, pad, false);
    (note_off_voices(s.0, pad), shown.0, shown.1)
}

/// One pad event from the control surface; events for pads without a voice
/// are ignored.
pub open spec fn ui_event_applied(
    s: PadState,
    slices: Seq<(usize, usize)>,
    e: UiPadEvent,
    hold_continue: bool,
    gate_on_release: bool,
) -> PadState {
    match e {
        UiPadEvent::NoteOn { pad_index, velocity } => if pad_index < s.0.len() {
            pad_triggered(s, slices, pad_index as nat, velocity as nat, hold_continue, gate_on_release)
        } else {
            s
        },
        UiPadEvent::NoteOff { pad_index } => if pad_index < s.0.len() {
            pad_released(s, pad_index as nat)
        } else {
            s
        },
    }
}

/// The pad events applied one after the other, in the order they were
/// queued.
pub open spec fn ui_events_applied(
    s: PadState,
    slices: Seq<(usize, usize)>,
    events: Seq<UiPadEvent>,
    hold_continue: bool,
    gate_on_release: bool,
) -> PadState
    decreases events.len(),
{
    if events.len() == 0 {
        s
    } else {
        ui_event_applied(
            ui_events_applied(s, slices, events.drop_last(), hold_continue, gate_on_release),
            slices,
            events.last(),
            hold_continue,
            gate_on_release,
        )
    }
}

/// One note event; notes outside the pads are ignored.
pub open spec fn note_event_applied(
    s: PadState,
    slices: Seq<(usize, usize)>,
    e: NoteEvent,
    start_note: nat,
    hold_continue: bool,
    gate_on_release: bool,
) -> PadState {
    match e {
        NoteEvent::NoteOn { note, velocity } => match pad_for_note_of(
            note as nat,
            start_note,
            s.0.len(),
        ) {
            Some(p) => pad_triggered(s, slices, p, velocity as nat, hold_continue, gate_on_release),
            None => s,
        },
        NoteEvent::NoteOff { note } => match pad_for_note_of(note as nat, start_note, s.0.len()) {
            Some(p) => pad_released(s, p),
            None => s,
        },
    }
}

/// Every field of the snapshot but the pad flags and their generation.
pub open spec fn same_but_visuals(a: SharedState, b: SharedState) -> bool {
    &&& a.sample == b.sample
    &&& a.slices == b.slices
    &&& a.sample_generation == b.sample_generation
    &&& a.slices_generation == b.slices_generation
    &&& a.loaded_path == b.loaded_path
    &&& a.loading == b.loading
    &&& a.last_error == b.last_error
    &&& a.pending_reslice == b.pending_reslice
    &&& a.pending_pad_events == b.pending_pad_events
}

/// The recording, slices and output rate of two players agree.
pub open spec fn same_setup(a: SamplePlayer, b: SamplePlayer) -> bool {
    &&& a.sample == b.sample
    &&& a.slices == b.slices
    &&& a.host_sample_rate == b.host_sample_rate
}

pub open spec fn min_usize(a: usize, b: usize) -> usize {
    if a <= b {
        a
    } else {
        b
    }
}

/// The state the audio path keeps between blocks.
pub struct ClapChop {
    pub player: SamplePlayer,
    pub sample_generation_seen: u64,
    pub slices_generation_seen: u64,
    pub last_bpm_milli: u32,
    pub last_algo: SliceAlgorithm,
    pub last_speed_percent: u32,
    pub last_num_pads: usize,
    pub persisted_path_seen: Option<String>,
}

impl ClapChop {
    pub open spec fn wf(&self) -> bool {
        self.player.wf()
    }

    pub fn new() -> (r: Self)
        ensures
            r.wf(),
            r.player.sample is None,
            r.player.slices@.len() == 0,
            r.player.voices@.len() == DEFAULT_NUM_PADS,
            r.sample_generation_seen == 0,
            r.slices_generation_seen == 0,
            r.last_bpm_milli == DEFAULT_BPM_MILLI,
            r.last_algo == SliceAlgorithm::Quarter,
            r.last_speed_percent == 100,
            r.last_num_pads == DEFAULT_NUM_PADS,
            r.persisted_path_seen is None,
    {
        ClapChop {
            player: SamplePlayer::new(DEFAULT_NUM_PADS),
            sample_generation_seen: 0,
            slices_generation_seen: 0,
            last_bpm_milli: DEFAULT_BPM_MILLI,
            last_algo: SliceAlgorithm::Quarter,
            last_speed_percent: 100,
            last_num_pads: DEFAULT_NUM_PADS,
            persisted_path_seen: None,
        }
    }

    /// Sets the pad count to `desired`, at most the largest pad count: the
    /// voice pool and the pad flags follow. Nothing happens when the count
    /// and the pool already agree.
    pub fn set_pad_count(&mut self, desired: usize, shared: &mut SharedState)
        requires
            old(self).wf(),
        ensures
            final(self).wf(),
            final(self).last_num_pads == min_usize(desired, MAX_PADS),
            final(self).player.voices@ == resized(
                old(self).player.voices@,
                min_usize(desired, MAX_PADS) as nat,
            ),
            same_setup(final(self).player, old(self).player),
            same_but_visuals(*final(shared), *old(shared)),
            (old(self).last_num_pads == min_usize(desired, MAX_PADS)
                && old(self).player.voices@.len() == min_usize(desired, MAX_PADS)) ==> *final(shared)
                == *old(shared),
            !(old(self).last_num_pads == min_usize(desired, MAX_PADS)
                && old(self).player.voices@.len() == min_usize(desired, MAX_PADS))
                ==> final(shared).pad_visual_state@ == resized_flags(
                old(shared).pad_visual_state@,
                min_usize(desired, MAX_PADS) as nat,
            ) && final(shared).pad_visual_generation == (if old(shared).pad_visual_state@.len()
                == min_usize(desired, MAX_PADS) {
                old(shared).pad_visual_generation
            } else {
                next_generation(old(shared).pad_visual_generation)
            }),
            final(self).sample_generation_seen == old(self).sample_generation_seen,
            final(self).slices_generation_seen == old(self).slices_generation_seen,
            final(self).last_bpm_milli == old(self).last_bpm_milli,
            final(self).last_algo == old(self).last_algo,
            final(self).last_speed_percent == old(self).last_speed_percent,
            final(self).persisted_path_seen == old(self).persisted_path_seen,
    {
        let clamped = if desired < MAX_PADS {
            desired
        } else {
            MAX_PADS
        };
        if clamped == self.last_num_pads && self.player.voice_count() == clamped {
            assert(self.player.voices@ =~= resized(self.player.voices@, clamped as nat));
            return;
        }
        self.player.set_num_voices(clamped);
        self.last_num_pads = clamped;
        shared.ensure_pad_visual_len(clamped);
    }

    /// Stops every voice and shows every pad idle.
    pub fn reset(&mut self, shared: &mut SharedState)
        requires
            old(self).wf(),
        ensures
            final(self).wf(),
            final(self).player.voices@.len() == old(self).player.voices@.len(),
            forall|i: int|
                0 <= i < old(self).player.voices@.len() ==> !(#[trigger] final(self).player.voices@[i]).active,
            final(shared).pad_visual_state@ == Seq::new(
                old(shared).pad_visual_state@.len(),
                |i: int| false,
            ),
            same_setup(final(self).player, old(self).player),
            same_but_visuals(*final(shared), *old(shared)),
    {
        self.player.reset();
        shared.clear_pad_visuals();
    }

    /// Prepares for playback at `host_rate` Hz: the parameters are taken as
    /// seen, and the pad count follows the slices, else the pad flags, else
    /// the default.
    pub fn initialize(&mut self, host_rate: u32, params: &ClapChopParams, shared: &mut SharedState)
        requires
            old(self).wf(),
        ensures
            final(self).wf(),
            final(self).player.host_sample_rate == host_rate,
            final(self).last_bpm_milli == params.bpm_milli,
            final(self).last_algo == params.slice_algo,
            final(self).last_speed_percent == params.playback_speed_percent,
            final(self).last_num_pads == min_usize(
                if old(shared).slices@.len() > 0 {
                    old(shared).slices@.len() as usize
                } else if old(shared).pad_visual_state@.len() > 0 {
                    old(shared).pad_visual_state@.len() as usize
                } else {
                    DEFAULT_NUM_PADS
                },
                MAX_PADS,
            ),
            final(self).player.voices@.len() == final(self).last_num_pads,
            same_but_visuals(*final(shared), *old(shared)),
    {
        self.player.set_sample_rate(host_rate);
        self.last_bpm_milli = params.bpm_milli;
        self.last_algo = params.slice_algo;
        self.last_speed_percent = params.playback_speed_percent;
        let slice_count = shared.slices.len();
        let desired = if slice_count > 0 {
            slice_count
        } else if shared.pad_visual_state.len() > 0 {
            shared.pad_visual_state.len()
        } else {
            DEFAULT_NUM_PADS
        };
        self.set_pad_count(desired, shared);
    }

    /// Adopts what the snapshot holds that is newer than what was last
    /// seen: a new recording, and new slices with the pad count they imply.
    pub fn sync_shared_state(&mut self, shared: &mut SharedState)
        requires
            old(self).wf(),
        ensures
            final(self).wf(),
            final(self).sample_generation_seen == old(shared).sample_generation,
            final(self).slices_generation_seen == old(shared).slices_generation,
            (old(shared).sample_generation != old(self).sample_generation_seen
                && old(shared).sample is Some) ==> final(self).player.sample is Some
                && final(self).player.sample->0.num_frames == old(shared).sample->0.num_frames
                && final(self).player.sample->0.sample_rate == old(shared).sample->0.sample_rate
                && final(self).player.sample->0.stereo == old(shared).sample->0.stereo
                && final(self).player.sample->0.onset_candidates@ == old(shared).sample->0.onset_candidates@,
            !(old(shared).sample_generation != old(self).sample_generation_seen
                && old(shared).sample is Some) ==> final(self).player.sample == old(self).player.sample,
            old(shared).slices_generation != old(self).slices_generation_seen
                ==> final(self).player.slices@ == old(shared).slices@
                && final(self).last_num_pads == min_usize(
                old(shared).slices@.len() as usize,
                MAX_PADS,
            ) && final(self).player.voices@ == resized(
                old(self).player.voices@,
                min_usize(old(shared).slices@.len() as usize, MAX_PADS) as nat,
            ),
            old(shared).slices_generation == old(self).slices_generation_seen
                ==> final(self).player.slices == old(self).player.slices && final(self).player.voices
                == old(self).player.voices && *final(shared) == *old(shared),
            final(self).player.host_sample_rate == old(self).player.host_sample_rate,
            same_but_visuals(*final(shared), *old(shared)),
    {
        let mut new_sample = None;
        if shared.sample_generation != self.sample_generation_seen {
            self.sample_generation_seen = shared.sample_generation;
            if let Some(s) = &shared.sample {
                new_sample = Some(s.duplicate());
            }
        }
        let mut new_slices = None;
        if shared.slices_generation != self.slices_generation_seen {
            self.slices_generation_seen = shared.slices_generation;
            new_slices = Some(shared.slices.duplicate());
        }
        if let Some(sample) = new_sample {
            self.player.set_sample(sample);
        }
        if let Some(slices) = new_slices {
            let pad_count = slices.len();
            self.player.set_slices(slices);
            self.set_pad_count(pad_count, shared);
        }
    }

    /// Keeps the pad count in step with the snapshot: the slice count when
    /// there are slices, none when a recording yielded none, else as it was.
    pub fn sync_num_pads(&mut self, shared: &mut SharedState)
        requires
            old(self).wf(),
        ensures
            final(self).wf(),
            final(self).last_num_pads == min_usize(
                if old(shared).slices@.len() > 0 {
                    old(shared).slices@.len() as usize
                } else if old(shared).sample is Some {
                    0
                } else {
                    old(self).last_num_pads
                },
                MAX_PADS,
            ),
            final(self).player.voices@ == resized(
                old(self).player.voices@,
                final(self).last_num_pads as nat,
            ),
            same_setup(final(self).player, old(self).player),
            same_but_visuals(*final(shared), *old(shared)),
    {
        let slice_count = shared.slices.len();
        let desired = if slice_count > 0 {
            slice_count
        } else if shared.sample.is_some() {
            0
        } else {
            self.last_num_pads
        };
        self.set_pad_count(desired, shared);
    }

    /// Applies one note event: a note inside the pads triggers or releases
    /// its pad with the current hold and gate settings.
    pub fn handle_note_event(&mut self, event: NoteEvent, params: &ClapChopParams, shared: &mut SharedState)
        requires
            old(self).wf(),
        ensures
            final(self).wf(),
            pads_of(final(self).player, *final(shared)) == note_event_applied(
                pads_of(old(self).player, *old(shared)),
                old(self).player.slices@,
                event,
                params.starting_note as nat,
                params.hold_continue,
                params.gate_on_release,
            ),
            same_setup(final(self).player, old(self).player),
            same_but_visuals(*final(shared), *old(shared)),
    {
        let num_pads = self.player.voice_count();
        match event {
            NoteEvent::NoteOn { note, velocity } => {
                if let Some(pad) = pad_for_note(note, params.starting_note, num_pads) {
                    self.player.note_on(pad, velocity, params.hold_continue, params.gate_on_release);
                    shared.set_pad_visual(pad, true);
                }
            },
            NoteEvent::NoteOff { note } => {
                if let Some(pad) = pad_for_note(note, params.starting_note, num_pads) {
                    self.player.note_off(pad);
                    shared.set_pad_visual(pad, false);
                }
            },
        }
    }

    /// Drains the pad events queued by the control surface and applies them
    /// in the order they were queued. With no voices they are dropped.
    pub fn handle_ui_events(&mut self, params: &ClapChopParams, shared: &mut SharedState)
        requires
            old(self).wf(),
        ensures
            final(self).wf(),
            final(shared).pending_pad_events@.len() == 0,
            old(self).player.voices@.len() == 0 ==> pads_of(final(self).player, *final(shared))
                == pads_of(old(self).player, *old(shared)),
            old(self).player.voices@.len() > 0 ==> pads_of(final(self).player, *final(shared))
                == ui_events_applied(
                pads_of(old(self).player, *old(shared)),
                old(self).player.slices@,
                old(shared).pending_pad_events@,
                params.hold_continue,
                params.gate_on_release,
            ),
            same_setup(final(self).player, old(self).player),
            final(shared).sample == old(shared).sample,
            final(shared).slices == old(shared).slices,
            final(shared).sample_generation == old(shared).sample_generation,
            final(shared).slices_generation == old(shared).slices_generation,
            final(shared).loaded_path == old(shared).loaded_path,
            final(shared).loading == old(shared).loading,
            final(shared).last_error == old(shared).last_error,
            final(shared).pending_reslice == old(shared).pending_reslice,
    {
        let events = shared.take_pad_events();
        let hold = params.hold_continue;
        let gate = params.gate_on_release;
        let num_pads = self.player.voice_count();
        if num_pads == 0 {
            return;
        }
        let ghost s0 = pads_of(old(self).player, *old(shared));
        let ghost slices = old(self).player.slices@;
        let mut i: usize = 0;
        assert(events@.subrange(0, 0) =~= Seq::<UiPadEvent>::empty());
        while i < events.len()
            invariant
                i <= events@.len(),
                self.wf(),
                num_pads == self.player.voices@.len(),
                same_setup(self.player, old(self).player),
                slices == self.player.slices@,
                shared.pending_pad_events@.len() == 0,
                shared.sample == old(shared).sample,
                shared.slices == old(shared).slices,
                shared.sample_generation == old(shared).sample_generation,
                shared.slices_generation == old(shared).slices_generation,
                shared.loaded_path == old(shared).loaded_path,
                shared.loading == old(shared).loading,
                shared.last_error == old(shared).last_error,
                shared.pending_reslice == old(shared).pending_reslice,
                pads_of(self.player, *shared) == ui_events_applied(
                    s0,
                    slices,
                    events@.subrange(0, i as int),
                    hold,
                    gate,
                ),
            decreases events@.len() - i,
        {
            let e = events[i];
            proof {
                assert(events@.subrange(0, i + 1).drop_last() =~= events@.subrange(0, i as int));
                assert(events@.subrange(0, i + 1).last() == e);
            }
            match e {
                UiPadEvent::NoteOn { pad_index, velocity } => {
                    if pad_index < num_pads {
                        self.player.note_on(pad_index, velocity, hold, gate);
                        shared.set_pad_visual(pad_index, true);
                    }
                },
                UiPadEvent::NoteOff { pad_index } => {
                    if pad_index < num_pads {
                        self.player.note_off(pad_index);
                        shared.set_pad_visual(pad_index, false);
                    }
                },
            }
            i += 1;
        }
        assert(events@.subrange(0, i as int) =~= events@);
    }

    /// Cuts the recording again when the tempo, the algorithm or the speed
    /// changed since the last block, or the control surface asked for it,
    /// and a recording is loaded. The new slices go to the player and the
    /// snapshot, and the pad count follows them.
    pub fn handle_reslice_requests(&mut self, params: &ClapChopParams, shared: &mut SharedState)
        requires
            old(self).wf(),
        ensures
            final(self).wf(),
            !final(shared).pending_reslice,
            final(self).last_bpm_milli == params.bpm_milli,
            final(self).last_algo == params.slice_algo,
            final(self).last_speed_percent == params.playback_speed_percent,
            final(shared).sample == old(shared).sample,
            final(shared).sample_generation == old(shared).sample_generation,
            final(shared).loaded_path == old(shared).loaded_path,
            final(shared).loading == old(shared).loading,
            final(shared).last_error == old(shared).last_error,
            final(shared).pending_pad_events == old(shared).pending_pad_events,
            final(self).player.sample == old(self).player.sample,
            final(self).player.host_sample_rate == old(self).player.host_sample_rate,
            ({
                let due = params.bpm_milli != old(self).last_bpm_milli || params.slice_algo
                    != old(self).last_algo || params.playback_speed_percent != old(
                    self).last_speed_percent || old(shared).pending_reslice;
                let sl = slices_of(
                    old(shared).sample->0,
                    params.bpm_milli as nat,
                    params.slice_algo,
                    MAX_PADS as nat,
                    params.playback_speed_percent as nat,
                );
                &&& (due && old(shared).sample is Some) ==> {
                    &&& final(self).player.slices@ == sl
                    &&& final(shared).slices@ == sl
                    &&& final(shared).slices_generation == next_generation(
                        old(shared).slices_generation,
                    )
                    &&& final(self).slices_generation_seen == final(shared).slices_generation
                    &&& final(self).last_num_pads == sl.len()
                    &&& final(self).player.voices@ == resized(old(self).player.voices@, sl.len())
                    &&& final(shared).pad_visual_state@ == resized_flags(
                        old(shared).pad_visual_state@,
                        sl.len(),
                    )
                }
                &&& !(due && old(shared).sample is Some) ==> {
                    &&& final(self).player.slices == old(self).player.slices
                    &&& final(self).player.voices == old(self).player.voices
                    &&& final(shared).slices == old(shared).slices
                    &&& final(shared).slices_generation == old(shared).slices_generation
                    &&& final(self).slices_generation_seen == old(self).slices_generation_seen
                    &&& final(self).last_num_pads == old(self).last_num_pads
                    &&& final(shared).pad_visual_state == old(shared).pad_visual_state
                    &&& final(shared).pad_visual_generation == old(shared).pad_visual_generation
                }
            }),
    {
        let bpm = params.bpm_milli;
        let algo = params.slice_algo;
        let speed = params.playback_speed_percent;
        let due_to_params = bpm != self.last_bpm_milli || algo != self.last_algo || speed
            != self.last_speed_percent;
        let due_to_ui = shared.take_reslice_request();
        if due_to_params || due_to_ui {
            let computed = match &shared.sample {
                Some(sample) => Some(compute_slices(sample, bpm, algo, MAX_PADS, speed)),
                None => None,
            };
            if let Some(slices) = computed {
                let pad_count = slices.len();
                let ghost flags0 = shared.pad_visual_state@;
                self.player.set_slices(slices.duplicate());
                let generation = shared.install_slices(slices);
                self.slices_generation_seen = generation;
                self.set_pad_count(pad_count, shared);
                assert(resized_flags(resized_flags(flags0, pad_count as nat), pad_count as nat)
                    =~= resized_flags(flags0, pad_count as nat));
                assert(flags0.len() == pad_count ==> flags0 =~= resized_flags(
                    flags0,
                    pad_count as nat,
                ));
            }
        }
        self.last_bpm_milli = bpm;
        self.last_algo = algo;
        self.last_speed_percent = speed;
    }

    /// Decides whether the recording named by the parameters must be loaded
    /// now: it is not when no path is set or it is empty, when a load is
    /// under way, when that path is the one loaded, or when a load of it was
    /// already asked for. The path is remembered as seen.
    pub fn ensure_persisted_sample_loaded(
        &mut self,
        persisted: &Option<String>,
        loaded_path: &Option<String>,
        loading: bool,
    ) -> (load: bool)
        requires
            old(self).wf(),
        ensures
            final(self).wf(),
            final(self).player == old(self).player,
            final(self).sample_generation_seen == old(self).sample_generation_seen,
            final(self).slices_generation_seen == old(self).slices_generation_seen,
            final(self).last_num_pads == old(self).last_num_pads,
            persisted is None ==> !load && final(self).persisted_path_seen is None,
            persisted is Some ==> ({
                let p = persisted->0;
                if p@.len() == 0 {
                    !load && final(self).persisted_path_seen is None
                } else if loading || (loaded_path is Some && loaded_path->0@ == p@) {
                    !load && final(self).persisted_path_seen == Some(p)
                } else if old(self).persisted_path_seen is Some && old(
                    self).persisted_path_seen->0@ == p@ {
                    !load && final(self).persisted_path_seen == old(self).persisted_path_seen
                } else {
                    load && final(self).persisted_path_seen == Some(p)
                }
            }),
    {
        match persisted {
            None => {
                self.persisted_path_seen = None;
                false
            },
            Some(path) => {
                if path.as_str().is_empty() {
                    self.persisted_path_seen = None;
                    return false;
                }
                let is_loaded = match loaded_path {
                    Some(l) => *l == *path,
                    None => false,
                };
                if loading || is_loaded {
                    self.persisted_path_seen = Some(path.clone());
                    return false;
                }
                let seen = match &self.persisted_path_seen {
                    Some(s) => *s == *path,
                    None => false,
                };
                if seen {
                    return false;
                }
                self.persisted_path_seen = Some(path.clone());
                true
            },
        }
    }
}

} // verus!
