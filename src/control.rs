//! The control snapshot shared between the control surface, the background
//! loader and the audio path.
use vstd::prelude::*;

use crate::sample::LoadedSample;
use crate::slicing::Slices;

verus! {

/// A trigger or release that the control surface addresses to a pad.
#[derive(Clone, Copy, Debug, PartialEq, Eq, Structural)]
pub enum UiPadEvent {
    /// Trigger with a gain in millionths.
    NoteOn { pad_index: usize, velocity: u32 },
    NoteOff { pad_index: usize },
}

/// The next value of a generation counter: one more, and never zero again
/// once the counter has moved, so that a reader that remembers the last
/// value it saw notices every change.
pub open spec fn next_generation(g: u64) -> u64 {
    if g == u64::MAX {
        1
    } else {
        (g + 1) as u64
    }
}

pub fn bump_generation(g: u64) -> (r: u64)
    ensures
        r == next_generation(g),
{
    if g == u64::MAX {
        1
    } else {
        g + 1
    }
}

/// Flags cut or padded with `false` to length `n`.
pub open spec fn resized_flags(flags: Seq<bool>, n: nat) -> Seq<bool> {
    Seq::new(n, |i: int| if i < flags.len() { flags[i] } else { false })
}

fn resize_flags(flags: &mut Vec<bool>, n: usize)
    ensures
        final(flags)@ == resized_flags(old(flags)@, n as nat),
{
    if n <= flags.len() {
        flags.truncate(n);
    } else {
        while flags.len() < n
            invariant
                old(flags)@.len() <= flags@.len() <= n,
                forall|i: int|
                    0 <= i < flags@.len() ==> #[trigger] flags@[i] == resized_flags(
                        old(flags)@,
                        n as nat,
                    )[i],
            decreases n - flags@.len(),
        {
            flags.push(false);
        }
    }
    assert(final(flags)@ =~= resized_flags(old(flags)@, n as nat)) by {
        assert(flags@ =~= resized_flags(old(flags)@, n as nat));
    }
}

/// The single point of contact between the control surface, the loader
/// and the audio path. Every generation counter moves on when the field it
/// guards is replaced.
pub struct SharedState {
    pub sample: Option<LoadedSample>,
    pub slices: Slices,
    pub sample_generation: u64,
    pub slices_generation: u64,
    pub loaded_path: Option<String>,
    pub loading: bool,
    pub last_error: Option<String>,
    pub pending_reslice: bool,
    pub pending_pad_events: Vec<UiPadEvent>,
    pub pad_visual_state: Vec<bool>,
    pub pad_visual_generation: u64,
}

/// Pad flags after setting pad `pad` to `active`, with their generation:
/// the flags grow to cover the pad, and the generation moves on only when
/// the pad's flag changes.
pub open spec fn visual_set(flags: Seq<bool>, generation: u64, pad: nat, active: bool) -> (Seq<bool>, u64) {
    let grown = if flags.len() <= pad {
        resized_flags(flags, pad + 1)
    } else {
        flags
    };
    if grown[pad as int] != active {
        (grown.update(pad as int, active), next_generation(generation))
    } else {
        (grown, generation)
    }
}

impl SharedState {
    /// Nothing loaded, no pending work, `num_pads` pads shown idle.
    pub fn with_pad_count(num_pads: usize) -> (r: Self)
        ensures
            r.sample is None,
            r.slices@.len() == 0,
            r.sample_generation == 0,
            r.slices_generation == 0,
            r.loaded_path is None,
            !r.loading,
            r.last_error is None,
            !r.pending_reslice,
            r.pending_pad_events@.len() == 0,
            r.pad_visual_state@ == Seq::new(num_pads as nat, |i: int| false),
            r.pad_visual_generation == 0,
    {
        let mut flags: Vec<bool> = Vec::new();
        resize_flags(&mut flags, num_pads);
        assert(flags@ =~= Seq::new(num_pads as nat, |i: int| false));
        SharedState {
            sample: None,
            slices: Slices::empty(),
            sample_generation: 0,
            slices_generation: 0,
            loaded_path: None,
            loading: false,
            last_error: None,
            pending_reslice: false,
            pending_pad_events: Vec::new(),
            pad_visual_state: flags,
            pad_visual_generation: 0,
        }
    }

    /// A load has started: the loading flag is up and the last error gone.
    pub fn begin_load(&mut self)
        ensures
            final(self).loading,
            final(self).last_error is None,
            final(self).sample == old(self).sample,
            final(self).slices == old(self).slices,
            final(self).sample_generation == old(self).sample_generation,
            final(self).slices_generation == old(self).slices_generation,
            final(self).loaded_path == old(self).loaded_path,
            final(self).pending_reslice == old(self).pending_reslice,
            final(self).pending_pad_events == old(self).pending_pad_events,
            final(self).pad_visual_state == old(self).pad_visual_state,
            final(self).pad_visual_generation == old(self).pad_visual_generation,
    {
        self.loading = true;
        self.last_error = None;
    }

    /// Installs a freshly decoded recording with its first slices, in one
    /// step: readers never see the one without the other.
    pub fn publish_loaded(&mut self, sample: LoadedSample, slices: Slices, path: String)
        ensures
            final(self).sample == Some(sample),
            final(self).slices == slices,
            final(self).sample_generation == next_generation(old(self).sample_generation),
            final(self).slices_generation == (if next_generation(old(self).slices_generation)
                >= next_generation(old(self).sample_generation) {
                next_generation(old(self).slices_generation)
            } else {
                next_generation(old(self).sample_generation)
            }),
            final(self).loaded_path == Some(path),
            !final(self).loading,
            final(self).last_error is None,
            !final(self).pending_reslice,
            final(self).pending_pad_events == old(self).pending_pad_events,
            final(self).pad_visual_state@ == resized_flags(
                old(self).pad_visual_state@,
                slices@.len(),
            ),
            final(self).pad_visual_generation == next_generation(old(self).pad_visual_generation),
    {
        let pad_count = slices.len();
        self.sample = Some(sample);
        self.slices = slices;
        self.sample_generation = bump_generation(self.sample_generation);
        let next_slices = bump_generation(self.slices_generation);
        self.slices_generation = if next_slices >= self.sample_generation {
            next_slices
        } else {
            self.sample_generation
        };
        self.loaded_path = Some(path);
        self.loading = false;
        self.last_error = None;
        self.pending_reslice = false;
        resize_flags(&mut self.pad_visual_state, pad_count);
        self.pad_visual_generation = bump_generation(self.pad_visual_generation);
    }

    /// A load failed: only the error and the loading flag change; what was
    /// loaded before stays.
    pub fn publish_failed(&mut self, error: String)
        ensures
            !final(self).loading,
            final(self).last_error == Some(error),
            final(self).sample == old(self).sample,
            final(self).slices == old(self).slices,
            final(self).sample_generation == old(self).sample_generation,
            final(self).slices_generation == old(self).slices_generation,
            final(self).loaded_path == old(self).loaded_path,
            final(self).pending_reslice == old(self).pending_reslice,
            final(self).pending_pad_events == old(self).pending_pad_events,
            final(self).pad_visual_state == old(self).pad_visual_state,
            final(self).pad_visual_generation == old(self).pad_visual_generation,
    {
        self.loading = false;
        self.last_error = Some(error);
    }

    /// Replaces the slices after a re-slice and returns their new
    /// generation; the pad flags follow the new pad count.
    pub fn install_slices(&mut self, slices: Slices) -> (r: u64)
        ensures
            r == final(self).slices_generation,
            final(self).slices == slices,
            final(self).slices_generation == next_generation(old(self).slices_generation),
            old(self).pad_visual_state@.len() == slices@.len() ==> final(self).pad_visual_state
                == old(self).pad_visual_state && final(self).pad_visual_generation == old(self).pad_visual_generation,
            old(self).pad_visual_state@.len() != slices@.len() ==> final(self).pad_visual_state@
                == resized_flags(old(self).pad_visual_state@, slices@.len())
                && final(self).pad_visual_generation == next_generation(
                old(self).pad_visual_generation,
            ),
            final(self).sample == old(self).sample,
            final(self).sample_generation == old(self).sample_generation,
            final(self).loaded_path == old(self).loaded_path,
            final(self).loading == old(self).loading,
            final(self).last_error == old(self).last_error,
            final(self).pending_reslice == old(self).pending_reslice,
            final(self).pending_pad_events == old(self).pending_pad_events,
    {
        let pad_count = slices.len();
        self.slices = slices;
        self.slices_generation = bump_generation(self.slices_generation);
        if self.pad_visual_state.len() != pad_count {
            resize_flags(&mut self.pad_visual_state, pad_count);
            self.pad_visual_generation = bump_generation(self.pad_visual_generation);
        }
        self.slices_generation
    }

    /// Asks the audio path to cut the recording again.
    pub fn request_reslice(&mut self)
        ensures
            final(self).pending_reslice,
            final(self).sample == old(self).sample,
            final(self).slices == old(self).slices,
            final(self).sample_generation == old(self).sample_generation,
            final(self).slices_generation == old(self).slices_generation,
            final(self).loaded_path == old(self).loaded_path,
            final(self).loading == old(self).loading,
            final(self).last_error == old(self).last_error,
            final(self).pending_pad_events == old(self).pending_pad_events,
            final(self).pad_visual_state == old(self).pad_visual_state,
            final(self).pad_visual_generation == old(self).pad_visual_generation,
    {
        self.pending_reslice = true;
    }

    /// Whether a re-slice was asked for; the request is consumed.
    pub fn take_reslice_request(&mut self) -> (r: bool)
        ensures
            r == old(self).pending_reslice,
            !final(self).pending_reslice,
            final(self).sample == old(self).sample,
            final(self).slices == old(self).slices,
            final(self).sample_generation == old(self).sample_generation,
            final(self).slices_generation == old(self).slices_generation,
            final(self).loaded_path == old(self).loaded_path,
            final(self).loading == old(self).loading,
            final(self).last_error == old(self).last_error,
            final(self).pending_pad_events == old(self).pending_pad_events,
            final(self).pad_visual_state == old(self).pad_visual_state,
            final(self).pad_visual_generation == old(self).pad_visual_generation,
    {
        let r = self.pending_reslice;
        self.pending_reslice = false;
        r
    }

    /// Queues a pad event from the control surface.
    pub fn push_pad_event(&mut self, event: UiPadEvent)
        ensures
            final(self).pending_pad_events@ == old(self).pending_pad_events@.push(event),
            final(self).sample == old(self).sample,
            final(self).slices == old(self).slices,
            final(self).sample_generation == old(self).sample_generation,
            final(self).slices_generation == old(self).slices_generation,
            final(self).loaded_path == old(self).loaded_path,
            final(self).loading == old(self).loading,
            final(self).last_error == old(self).last_error,
            final(self).pending_reslice == old(self).pending_reslice,
            final(self).pad_visual_state == old(self).pad_visual_state,
            final(self).pad_visual_generation == old(self).pad_visual_generation,
    {
        self.pending_pad_events.push(event);
    }

    /// Takes every queued pad event, oldest first, leaving the queue empty.
    pub fn take_pad_events(&mut self) -> (r: Vec<UiPadEvent>)
        ensures
            r@ == old(self).pending_pad_events@,
            final(self).pending_pad_events@.len() == 0,
            final(self).sample == old(self).sample,
            final(self).slices == old(self).slices,
            final(self).sample_generation == old(self).sample_generation,
            final(self).slices_generation == old(self).slices_generation,
            final(self).loaded_path == old(self).loaded_path,
            final(self).loading == old(self).loading,
            final(self).last_error == old(self).last_error,
            final(self).pending_reslice == old(self).pending_reslice,
            final(self).pad_visual_state == old(self).pad_visual_state,
            final(self).pad_visual_generation == old(self).pad_visual_generation,
    {
        let mut events: Vec<UiPadEvent> = Vec::new();
        std::mem::swap(&mut events, &mut self.pending_pad_events);
        events
    }

    /// Shows pad `pad_index` as sounding or not.
    pub fn set_pad_visual(&mut self, pad_index: usize, active: bool)
        requires
            pad_index < usize::MAX,
        ensures
            (final(self).pad_visual_state@, final(self).pad_visual_generation) == visual_set(
                old(self).pad_visual_state@,
                old(self).pad_visual_generation,
                pad_index as nat,
                active,
            ),
            final(self).sample == old(self).sample,
            final(self).slices == old(self).slices,
            final(self).sample_generation == old(self).sample_generation,
            final(self).slices_generation == old(self).slices_generation,
            final(self).loaded_path == old(self).loaded_path,
            final(self).loading == old(self).loading,
            final(self).last_error == old(self).last_error,
            final(self).pending_reslice == old(self).pending_reslice,
            final(self).pending_pad_events == old(self).pending_pad_events,
    {
        if self.pad_visual_state.len() <= pad_index {
            resize_flags(&mut self.pad_visual_state, pad_index + 1);
        }
        if self.pad_visual_state[pad_index] != active {
            self.pad_visual_state.set(pad_index, active);
            self.pad_visual_generation = bump_generation(self.pad_visual_generation);
        }
    }

    /// Shows every pad idle; the generation moves on only if one was shown
    /// sounding.
    pub fn clear_pad_visuals(&mut self)
        ensures
            final(self).pad_visual_state@ == Seq::new(
                old(self).pad_visual_state@.len(),
                |i: int| false,
            ),
            (exists|i: int|
                0 <= i < old(self).pad_visual_state@.len()
                    && #[trigger] old(self).pad_visual_state@[i]) ==> final(self).pad_visual_generation == next_generation(old(self).pad_visual_generation),
            (forall|i: int|
                0 <= i < old(self).pad_visual_state@.len() ==> !#[trigger] old(self).pad_visual_state@[i]) ==> final(self).pad_visual_generation == old(self).pad_visual_generation,
            final(self).sample == old(self).sample,
            final(self).slices == old(self).slices,
            final(self).sample_generation == old(self).sample_generation,
            final(self).slices_generation == old(self).slices_generation,
            final(self).loaded_path == old(self).loaded_path,
            final(self).loading == old(self).loading,
            final(self).last_error == old(self).last_error,
            final(self).pending_reslice == old(self).pending_reslice,
            final(self).pending_pad_events == old(self).pending_pad_events,
    {
        let mut any = false;
        let mut i: usize = 0;
        while i < self.pad_visual_state.len()
            invariant
                i <= self.pad_visual_state@.len(),
                self.pad_visual_state@.len() == old(self).pad_visual_state@.len(),
                self.pad_visual_generation == old(self).pad_visual_generation,
                self.sample == old(self).sample,
                self.slices == old(self).slices,
                self.sample_generation == old(self).sample_generation,
                self.slices_generation == old(self).slices_generation,
                self.loaded_path == old(self).loaded_path,
                self.loading == old(self).loading,
                self.last_error == old(self).last_error,
                self.pending_reslice == old(self).pending_reslice,
                self.pending_pad_events == old(self).pending_pad_events,
                any <==> exists|j: int| 0 <= j < i && #[trigger] old(self).pad_visual_state@[j],
                forall|j: int| 0 <= j < i ==> !#[trigger] self.pad_visual_state@[j],
                forall|j: int|
                    i <= j < self.pad_visual_state@.len() ==> #[trigger] self.pad_visual_state@[j]
                        == old(self).pad_visual_state@[j],
            decreases self.pad_visual_state@.len() - i,
        {
            if self.pad_visual_state[i] {
                any = true;
            }
            self.pad_visual_state.set(i, false);
            i += 1;
        }
        if any {
            self.pad_visual_generation = bump_generation(self.pad_visual_generation);
        }
        assert(self.pad_visual_state@ =~= Seq::new(
            old(self).pad_visual_state@.len(),
            |i: int| false,
        ));
    }

    /// Makes the pad flags cover exactly `desired` pads; the generation
    /// moves on only if the length changed.
    pub fn ensure_pad_visual_len(&mut self, desired: usize)
        ensures
            final(self).pad_visual_state@ == resized_flags(
                old(self).pad_visual_state@,
                desired as nat,
            ),
            final(self).pad_visual_generation == if old(self).pad_visual_state@.len() == desired {
                old(self).pad_visual_generation
            } else {
                next_generation(old(self).pad_visual_generation)
            },
            final(self).sample == old(self).sample,
            final(self).slices == old(self).slices,
            final(self).sample_generation == old(self).sample_generation,
            final(self).slices_generation == old(self).slices_generation,
            final(self).loaded_path == old(self).loaded_path,
            final(self).loading == old(self).loading,
            final(self).last_error == old(self).last_error,
            final(self).pending_reslice == old(self).pending_reslice,
            final(self).pending_pad_events == old(self).pending_pad_events,
    {
        if self.pad_visual_state.len() != desired {
            resize_flags(&mut self.pad_visual_state, desired);
            self.pad_visual_generation = bump_generation(self.pad_visual_generation);
        } else {
            assert(self.pad_visual_state@ =~= resized_flags(self.pad_visual_state@, desired as nat));
        }
    }
}

/// A generation counter below its maximum only grows when it moves on.
pub proof fn lemma_generation_increases(g: u64)
    requires
        g < u64::MAX,
    ensures
        next_generation(g) > g,
        next_generation(g) != 0,
{
}

} // verus!
