//! Frame cycling: an animation shows each region of its list for a fixed
//! number of ticks and then moves on to the next one.

use crate::geometry::SheetRegion;
use vstd::prelude::*;

verus! {

/// What an [`Animation`] is, mathematically.
pub struct AnimationView {
    /// The sprite-sheet regions, in the order in which they are shown.
    pub frames: Seq<SheetRegion>,
    /// Ticks spent so far on the current frame.
    pub frame_counter: int,
    /// Ticks a frame has to be held before the next one is shown.
    pub rate: int,
    /// Position of the current frame in `frames`.
    pub index: nat,
}

impl AnimationView {
    /// The current frame exists, and the counter has not run past the rate.
    pub open spec fn valid(self) -> bool {
        &&& self.index < self.frames.len()
        &&& 0 <= self.frame_counter
        &&& self.frame_counter == 0 || self.frame_counter <= self.rate
    }

    /// The frame shown after the current one. The cycle wraps as soon as
    /// the successor would be the last entry of the list, so a list of
    /// two or more frames never shows its last one.
    pub open spec fn next_index(self) -> nat {
        if self.index + 1 >= self.frames.len() - 1 {
            0
        } else {
            self.index + 1
        }
    }

    /// One tick: the counter goes up by one, and once it exceeds the rate
    /// the next frame is shown and the counter starts again at zero.
    pub open spec fn ticked(self) -> AnimationView {
        if self.frame_counter + 1 > self.rate {
            AnimationView { frame_counter: 0, index: self.next_index(), ..self }
        } else {
            AnimationView { frame_counter: self.frame_counter + 1, ..self }
        }
    }

    /// `n` ticks in a row.
    pub open spec fn ticks(self, n: nat) -> AnimationView
        decreases n,
    {
        if n == 0 {
            self
        } else {
            self.ticked().ticks((n - 1) as nat)
        }
    }

    /// The animation brought to its rest frame: unchanged if it is there
    /// already, otherwise at frame zero with a fresh counter.
    pub open spec fn stopped(self) -> AnimationView {
        if self.index == 0 {
            self
        } else {
            AnimationView { frame_counter: 0, index: 0, ..self }
        }
    }

    /// The region that is currently shown.
    pub open spec fn current(self) -> SheetRegion {
        self.frames[self.index as int]
    }

    /// How many frame changes separate this state from the rest frame.
    pub open spec fn frames_to_rest(self) -> nat {
        if self.index == 0 {
            0
        } else {
            (self.frames.len() - self.index) as nat
        }
    }

    /// How many more ticks the current frame is held after the next one.
    pub open spec fn ticks_to_hold(self) -> nat {
        if self.frame_counter + 1 > self.rate {
            0
        } else {
            (self.rate - self.frame_counter) as nat
        }
    }
}

/// A tick keeps a valid animation valid and touches neither the frame list
/// nor the rate.
pub proof fn lemma_tick_keeps_valid(a: AnimationView)
    requires
        a.valid(),
    ensures
        a.ticked().valid(),
        a.ticked().frames == a.frames,
        a.ticked().rate == a.rate,
{
}

/// Ticking `m + n` times is ticking `m` times and then `n` times.
pub proof fn lemma_ticks_add(a: AnimationView, m: nat, n: nat)
    ensures
        a.ticks(m + n) == a.ticks(m).ticks(n),
    decreases m,
{
    if m > 0 {
        lemma_ticks_add(a.ticked(), (m - 1) as nat, n);
        assert(a.ticks(m + n) == a.ticked().ticks((m + n - 1) as nat));
    }
}

/// While the counter stays within the rate, `k` ticks only add `k` to it.
pub proof fn lemma_ticks_within_frame(a: AnimationView, k: nat)
    requires
        a.frame_counter + k <= a.rate,
    ensures
        a.ticks(k) == (AnimationView { frame_counter: a.frame_counter + k, ..a }),
    decreases k,
{
    if k > 0 {
        lemma_ticks_within_frame(a.ticked(), (k - 1) as nat);
    }
}

/// Frame cycling: from any valid state of an animation whose rate is not
/// negative, `rate + 1` ticks show exactly the next frame and leave the
/// counter where it was. A counter that starts at zero is therefore at
/// zero again.
pub proof fn lemma_full_period_advances_one_frame(a: AnimationView)
    requires
        a.valid(),
        a.rate >= 0,
    ensures
        a.ticks((a.rate + 1) as nat) == (AnimationView { index: a.next_index(), ..a }),
        a.frame_counter == 0 ==> a.ticks((a.rate + 1) as nat).frame_counter == 0,
{
    let before = (a.rate - a.frame_counter) as nat;
    let after = a.frame_counter as nat;
    let full = AnimationView { frame_counter: a.rate, ..a };
    let turned = AnimationView { frame_counter: 0, index: a.next_index(), ..a };
    lemma_ticks_within_frame(a, before);
    assert(a.ticks(before) == full);
    assert(full.ticked() == turned);
    assert(full.ticks(1) == turned) by {
        assert(full.ticks(1) == full.ticked().ticks(0));
    }
    lemma_ticks_within_frame(turned, after);
    lemma_ticks_add(a, before, 1);
    lemma_ticks_add(a, before + 1, after);
    assert(before + 1 + after == a.rate + 1);
}

/// Stopping is idempotent: a stopped animation is at frame zero, and
/// stopping it again changes nothing.
pub proof fn lemma_stop_idempotent(a: AnimationView)
    ensures
        a.stopped().index == 0,
        a.stopped().stopped() == a.stopped(),
{
}

/// Stopping is driving the animation with ticks until it first shows
/// frame zero: some number `n` of ticks leads to the stopped state, and
/// no smaller number leads to frame zero.
pub proof fn lemma_stop_is_ticking_to_rest(a: AnimationView) -> (n: nat)
    requires
        a.valid(),
    ensures
        a.ticks(n) == a.stopped(),
        forall|m: nat| m < n ==> (#[trigger] a.ticks(m)).index != 0,
    decreases a.frames_to_rest(), a.ticks_to_hold(),
{
    if a.index == 0 {
        0
    } else {
        let rest = lemma_stop_is_ticking_to_rest(a.ticked());
        let n = rest + 1;
        assert(a.ticks(n) == a.ticked().ticks(rest));
        assert forall|m: nat| m < n implies (#[trigger] a.ticks(m)).index != 0 by {
            if m > 0 {
                assert(a.ticks(m) == a.ticked().ticks((m - 1) as nat));
            }
        }
        n
    }
}

/// A sprite animation: a non-empty list of sprite-sheet regions, shown one
/// after the other, each for `rate + 1` ticks (one tick if the rate is
/// negative).
#[derive(Debug)]
pub struct Animation {
    states: Vec<SheetRegion>,
    frame_counter: i32,
    rate: i32,
    state_number: usize,
}

impl View for Animation {
    type V = AnimationView;

    closed spec fn view(&self) -> AnimationView {
        AnimationView {
            frames: self.states@,
            frame_counter: self.frame_counter as int,
            rate: self.rate as int,
            index: self.state_number as nat,
        }
    }
}

impl Animation {
    /// Holds of every `Animation` at all times.
    #[verifier::type_invariant]
    pub open spec fn well_formed(self) -> bool {
        self@.valid()
    }

    /// An animation over `states` that starts at the first of them with a
    /// fresh counter. An empty list is rejected.
    pub fn new(states: Vec<SheetRegion>, rate: i32) -> (made: Option<Animation>)
        ensures
            made is None <==> states@.len() == 0,
            made matches Some(a) ==> a@ == (AnimationView {
                frames: states@,
                frame_counter: 0,
                rate: rate as int,
                index: 0,
            }),
    {
        if states.len() == 0 {
            None
        } else {
            Some(Animation { states, frame_counter: 0, rate, state_number: 0 })
        }
    }

    /// Advances the animation by one tick.
    pub fn tick(&mut self)
        ensures
            final(self)@ == old(self)@.ticked(),
        no_unwind
    {
        proof {
            use_type_invariant(&*self);
        }
        if self.frame_counter >= self.rate {
            let count: usize = self.states.len();
            let next: usize = self.state_number + 1;
            self.state_number = if next >= count - 1 {
                0
            } else {
                next
            };
            self.frame_counter = 0;
        } else {
            self.frame_counter = self.frame_counter + 1;
        }
    }

    /// Returns the animation to its rest frame by ticking it until frame
    /// zero is shown.
    pub fn stop(&mut self)
        ensures
            final(self)@ == old(self)@.stopped(),
        no_unwind
    {
        while self.state_number != 0
            invariant
                self@.stopped() == old(self)@.stopped(),
            decreases self@.frames_to_rest(), self@.ticks_to_hold(),
        {
            proof {
                use_type_invariant(&*self);
            }
            self.tick();
        }
    }

    /// The sprite-sheet region of the current frame.
    pub fn get_current_state(&self) -> (region: SheetRegion)
        ensures
            region == self@.current(),
        no_unwind
    {
        proof {
            use_type_invariant(self);
        }
        self.states[self.state_number]
    }

    /// Ticks spent so far on the current frame.
    pub fn frame_counter(&self) -> (n: i32)
        ensures
            n == self@.frame_counter,
        no_unwind
    {
        self.frame_counter
    }

    /// Ticks a frame has to be held before the next one is shown.
    pub fn rate(&self) -> (n: i32)
        ensures
            n == self@.rate,
        no_unwind
    {
        self.rate
    }

    /// Position of the current frame in the frame list.
    pub fn state_number(&self) -> (n: usize)
        ensures
            n == self@.index,
        no_unwind
    {
        self.state_number
    }
}

} // verus!
