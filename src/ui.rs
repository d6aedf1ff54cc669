//! The control surface's own bookkeeping: which pads the pointer holds
//! down, and the pad events that follow from it.
use vstd::prelude::*;

use crate::control::{SharedState, UiPadEvent};
use crate::engine::MAX_PADS;
use crate::sample::GAIN_UNITY;

verus! {

/// `r` lists, in increasing order, exactly the pads from `from` on whose
/// flag is set.
pub open spec fn lists_pressed(r: Seq<usize>, flags: Seq<bool>, from: nat) -> bool {
    &&& forall|a: int, b: int| 0 <= a < b < r.len() ==> #[trigger] r[a] < #[trigger] r[b]
    &&& forall|k: int|
        0 <= k < r.len() ==> from <= #[trigger] r[k] < flags.len() && flags[r[k] as int]
    &&& forall|i: int|
        from <= i < flags.len() && #[trigger] flags[i] ==> exists|k: int|
            0 <= k < r.len() && r[k] == i
}

fn pressed_from(flags: &Vec<bool>, from: usize) -> (r: Vec<usize>)
    ensures
        lists_pressed(r@, flags@, from as nat),
{
    let mut r: Vec<usize> = Vec::new();
    let mut i: usize = from;
    while i < flags.len()
        invariant
            from <= i || flags@.len() <= i,
            forall|a: int, b: int| 0 <= a < b < r@.len() ==> #[trigger] r@[a] < #[trigger] r@[b],
            forall|k: int|
                0 <= k < r@.len() ==> from <= #[trigger] r@[k] < i && r@[k] < flags@.len()
                    && flags@[r@[k] as int],
            forall|j: int|
                from <= j < i && j < flags@.len() && #[trigger] flags@[j] ==> exists|k: int|
                    0 <= k < r@.len() && r@[k] == j,
        decreases flags@.len() - i,
    {
        if flags[i] {
            let ghost before = r@;
            r.push(i);
            assert forall|j: int|
                from <= j < i + 1 && j < flags@.len() && #[trigger] flags@[j] implies exists|k: int|
                0 <= k < r@.len() && r@[k] == j by {
                if j == i {
                    assert(r@[before.len() as int] == j);
                } else {
                    let k = choose|k: int| 0 <= k < before.len() && before[k] == j;
                    assert(r@[k] == j);
                }
            }
        }
        i += 1;
    }
    r
}

/// What the control surface remembers between frames.
pub struct GuiState {
    pub last_loaded_path: Option<String>,
    /// One flag per pad: held down by the pointer.
    pub pressed_pads: Vec<bool>,
    pub last_preset_path: Option<String>,
    pub preset_message: Option<String>,
    pub preset_error: Option<String>,
}

impl GuiState {
    pub fn new() -> (r: Self)
        ensures
            r.last_loaded_path is None,
            r.pressed_pads@ == Seq::new(MAX_PADS as nat, |i: int| false),
            r.last_preset_path is None,
            r.preset_message is None,
            r.preset_error is None,
    {
        let mut pressed: Vec<bool> = Vec::new();
        while pressed.len() < MAX_PADS
            invariant
                pressed@.len() <= MAX_PADS,
                forall|i: int| 0 <= i < pressed@.len() ==> !#[trigger] pressed@[i],
            decreases MAX_PADS - pressed@.len(),
        {
            pressed.push(false);
        }
        assert(pressed@ =~= Seq::new(MAX_PADS as nat, |i: int| false));
        GuiState {
            last_loaded_path: None,
            pressed_pads: pressed,
            last_preset_path: None,
            preset_message: None,
            preset_error: None,
        }
    }

    /// Follows the path the snapshot reports as loaded.
    pub fn sync_loaded_path(&mut self, shared: &SharedState)
        ensures
            shared.loaded_path is Some ==> final(self).last_loaded_path == shared.loaded_path,
            shared.loaded_path is None ==> final(self).last_loaded_path == old(self).last_loaded_path,
            final(self).pressed_pads == old(self).pressed_pads,
            final(self).last_preset_path == old(self).last_preset_path,
    {
        if let Some(path) = &shared.loaded_path {
            self.last_loaded_path = Some(path.clone());
        }
    }

    /// Where a preset dialog opens: the last preset, else the last
    /// recording.
    pub fn preset_dialog_initial_path(&self) -> (r: Option<String>)
        ensures
            self.last_preset_path is Some ==> r == self.last_preset_path,
            self.last_preset_path is None ==> r == self.last_loaded_path,
    {
        match &self.last_preset_path {
            Some(p) => Some(p.clone()),
            None => match &self.last_loaded_path {
                Some(p) => Some(p.clone()),
                None => None,
            },
        }
    }

    /// Makes the pressed flags cover `pad_count` pads (at most the largest
    /// pad count). Pads that go away while held are returned, in order, to
    /// be released.
    pub fn fit_pads(&mut self, pad_count: usize) -> (released: Vec<usize>)
        ensures
            ({
                let count = if pad_count < MAX_PADS {
                    pad_count
                } else {
                    MAX_PADS
                };
                &&& final(self).pressed_pads@ == Seq::new(
                    count as nat,
                    |i: int|
                        if i < old(self).pressed_pads@.len() {
                            old(self).pressed_pads@[i]
                        } else {
                            false
                        },
                )
                &&& lists_pressed(released@, old(self).pressed_pads@, count as nat)
            }),
            final(self).last_loaded_path == old(self).last_loaded_path,
            final(self).last_preset_path == old(self).last_preset_path,
    {
        let count = if pad_count < MAX_PADS {
            pad_count
        } else {
            MAX_PADS
        };
        let released = pressed_from(&self.pressed_pads, count);
        if count < self.pressed_pads.len() {
            self.pressed_pads.truncate(count);
        } else {
            while self.pressed_pads.len() < count
                invariant
                    old(self).pressed_pads@.len() <= self.pressed_pads@.len() <= count,
                    self.last_loaded_path == old(self).last_loaded_path,
                    self.last_preset_path == old(self).last_preset_path,
                    forall|i: int|
                        0 <= i < self.pressed_pads@.len() ==> #[trigger] self.pressed_pads@[i] == (
                        if i < old(self).pressed_pads@.len() {
                            old(self).pressed_pads@[i]
                        } else {
                            false
                        }),
                decreases count - self.pressed_pads@.len(),
            {
                self.pressed_pads.push(false);
            }
        }
        assert(self.pressed_pads@ =~= Seq::new(
            count as nat,
            |i: int|
                if i < old(self).pressed_pads@.len() {
                    old(self).pressed_pads@[i]
                } else {
                    false
                },
        ));
        released
    }

    /// The pointer went down on pad `pad_index`: true when that starts a
    /// press (the pad exists and was not held).
    pub fn press(&mut self, pad_index: usize) -> (started: bool)
        ensures
            started == (pad_index < old(self).pressed_pads@.len()
                && !old(self).pressed_pads@[pad_index as int]),
            started ==> final(self).pressed_pads@ == old(self).pressed_pads@.update(
                pad_index as int,
                true,
            ),
            !started ==> final(self).pressed_pads == old(self).pressed_pads,
            final(self).last_loaded_path == old(self).last_loaded_path,
            final(self).last_preset_path == old(self).last_preset_path,
    {
        if pad_index < self.pressed_pads.len() && !self.pressed_pads[pad_index] {
            self.pressed_pads.set(pad_index, true);
            true
        } else {
            false
        }
    }

    /// The pointer was let go: every held pad is released, and returned in
    /// order.
    pub fn release_all(&mut self) -> (released: Vec<usize>)
        ensures
            lists_pressed(released@, old(self).pressed_pads@, 0),
            final(self).pressed_pads@ == Seq::new(
                old(self).pressed_pads@.len(),
                |i: int| false,
            ),
            final(self).last_loaded_path == old(self).last_loaded_path,
            final(self).last_preset_path == old(self).last_preset_path,
    {
        let released = pressed_from(&self.pressed_pads, 0);
        let mut i: usize = 0;
        while i < self.pressed_pads.len()
            invariant
                i <= self.pressed_pads@.len(),
                self.pressed_pads@.len() == old(self).pressed_pads@.len(),
                self.last_loaded_path == old(self).last_loaded_path,
                self.last_preset_path == old(self).last_preset_path,
                forall|j: int| 0 <= j < i ==> !#[trigger] self.pressed_pads@[j],
            decreases self.pressed_pads@.len() - i,
        {
            self.pressed_pads.set(i, false);
            i += 1;
        }
        assert(self.pressed_pads@ =~= Seq::new(
            old(self).pressed_pads@.len(),
            |i: int| false,
        ));
        released
    }
}

/// The pad events for presses and releases: a full-gain trigger for each
/// pad in `pressed`, then a release for each pad in `released`.
pub open spec fn press_events(pressed: Seq<usize>, released: Seq<usize>) -> Seq<UiPadEvent> {
    Seq::new(
        pressed.len(),
        |i: int| UiPadEvent::NoteOn { pad_index: pressed[i], velocity: GAIN_UNITY },
    ) + Seq::new(released.len(), |i: int| UiPadEvent::NoteOff { pad_index: released[i] })
}

/// Queues the pad events for `pressed` and `released` pads.
pub fn queue_pad_events(shared: &mut SharedState, pressed: &Vec<usize>, released: &Vec<usize>)
    ensures
        final(shared).pending_pad_events@ == old(shared).pending_pad_events@ + press_events(
            pressed@,
            released@,
        ),
        final(shared).sample == old(shared).sample,
        final(shared).slices == old(shared).slices,
        final(shared).sample_generation == old(shared).sample_generation,
        final(shared).slices_generation == old(shared).slices_generation,
        final(shared).loaded_path == old(shared).loaded_path,
        final(shared).loading == old(shared).loading,
        final(shared).last_error == old(shared).last_error,
        final(shared).pending_reslice == old(shared).pending_reslice,
        final(shared).pad_visual_state == old(shared).pad_visual_state,
        final(shared).pad_visual_generation == old(shared).pad_visual_generation,
{
    let ghost ons = Seq::new(
        pressed@.len(),
        |i: int| UiPadEvent::NoteOn { pad_index: pressed@[i], velocity: GAIN_UNITY },
    );
    let ghost offs = Seq::new(
        released@.len(),
        |i: int| UiPadEvent::NoteOff { pad_index: released@[i] },
    );
    let mut i: usize = 0;
    while i < pressed.len()
        invariant
            i <= pressed@.len(),
            ons == Seq::new(
                pressed@.len(),
                |i: int| UiPadEvent::NoteOn { pad_index: pressed@[i], velocity: GAIN_UNITY },
            ),
            shared.pending_pad_events@ == old(shared).pending_pad_events@ + ons.subrange(0, i as int),
            shared.sample == old(shared).sample,
            shared.slices == old(shared).slices,
            shared.sample_generation == old(shared).sample_generation,
            shared.slices_generation == old(shared).slices_generation,
            shared.loaded_path == old(shared).loaded_path,
            shared.loading == old(shared).loading,
            shared.last_error == old(shared).last_error,
            shared.pending_reslice == old(shared).pending_reslice,
            shared.pad_visual_state == old(shared).pad_visual_state,
            shared.pad_visual_generation == old(shared).pad_visual_generation,
        decreases pressed@.len() - i,
    {
        shared.push_pad_event(UiPadEvent::NoteOn { pad_index: pressed[i], velocity: GAIN_UNITY });
        i += 1;
        assert(shared.pending_pad_events@ =~= old(shared).pending_pad_events@ + ons.subrange(
            0,
            i as int,
        ));
    }
    assert(ons.subrange(0, i as int) =~= ons);
    let mut j: usize = 0;
    while j < released.len()
        invariant
            j <= released@.len(),
            offs == Seq::new(
                released@.len(),
                |i: int| UiPadEvent::NoteOff { pad_index: released@[i] },
            ),
            shared.pending_pad_events@ == old(shared).pending_pad_events@ + ons + offs.subrange(
                0,
                j as int,
            ),
            shared.sample == old(shared).sample,
            shared.slices == old(shared).slices,
            shared.sample_generation == old(shared).sample_generation,
            shared.slices_generation == old(shared).slices_generation,
            shared.loaded_path == old(shared).loaded_path,
            shared.loading == old(shared).loading,
            shared.last_error == old(shared).last_error,
            shared.pending_reslice == old(shared).pending_reslice,
            shared.pad_visual_state == old(shared).pad_visual_state,
            shared.pad_visual_generation == old(shared).pad_visual_generation,
        decreases released@.len() - j,
    {
        shared.push_pad_event(UiPadEvent::NoteOff { pad_index: released[j] });
        j += 1;
        assert(shared.pending_pad_events@ =~= old(shared).pending_pad_events@ + ons
            + offs.subrange(0, j as int));
    }
    assert(offs.subrange(0, j as int) =~= offs);
    assert(old(shared).pending_pad_events@ + ons + offs =~= old(shared).pending_pad_events@
        + press_events(pressed@, released@));
}

} // verus!
