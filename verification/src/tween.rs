//! The mode-transition state machine.
//!
//! A `Tween` tracks the active visual mode and a bounded countdown of frames
//! remaining in the current transition. A switch request is accepted only
//! while no transition is running and only if it names a different mode;
//! every frame the countdown, if positive, decreases by one, and reaching
//! zero makes the requested mode the active one.

use vstd::prelude::*;

verus! {

/// Number of frames a mode transition takes.
pub const NUM_TWEEN_FRAMES: u32 = 50;

/// The two terminal visual behaviors: undistorted circles, or
/// noise-perturbed rings.
#[derive(Clone, Copy, Debug, PartialEq, Eq, Structural)]
pub enum Mode {
    Circles,
    Noise,
}

/// Transition state: `frames` frames remain until `mode_to` is fully active.
/// `frames == 0` means the machine is idle in mode `mode_to`.
#[derive(Clone, Copy, Debug, PartialEq, Eq, Structural)]
pub struct Tween {
    pub frames: u32,
    pub mode_to: Mode,
}

/// The state after a switch request: accepted only when idle and the target
/// differs from the active mode; otherwise the request is ignored.
pub open spec fn spec_request(t: Tween, target: Mode) -> Tween {
    if t.frames == 0 && t.mode_to != target {
        Tween { frames: NUM_TWEEN_FRAMES, mode_to: target }
    } else {
        t
    }
}

/// The state after one frame: the countdown, if positive, decreases by one.
pub open spec fn spec_advance(t: Tween) -> Tween {
    if t.frames > 0 {
        Tween { frames: (t.frames - 1) as u32, mode_to: t.mode_to }
    } else {
        t
    }
}

/// The state after `n` frames.
pub open spec fn spec_advance_n(t: Tween, n: nat) -> Tween
    decreases n,
{
    if n == 0 {
        t
    } else {
        spec_advance(spec_advance_n(t, (n - 1) as nat))
    }
}

impl Tween {
    /// The countdown never exceeds the transition length.
    pub open spec fn wf(self) -> bool {
        self.frames <= NUM_TWEEN_FRAMES
    }

    /// The startup state: idle, circular mode.
    pub fn new() -> (t: Tween)
        ensures
            t.frames == 0,
            t.mode_to == Mode::Circles,
            t.wf(),
    {
        Tween { frames: 0, mode_to: Mode::Circles }
    }

    /// Apply a discrete mode-switch request. Accepted only while idle
    /// (`frames == 0`) and only if `target` differs from the active mode;
    /// accepting starts a fresh countdown of `NUM_TWEEN_FRAMES` frames.
    pub fn request_mode(&mut self, target: Mode)
        ensures
            *final(self) == spec_request(*old(self), target),
            old(self).frames == 0 && old(self).mode_to != target ==> final(self).frames
                == NUM_TWEEN_FRAMES && final(self).mode_to == target,
            old(self).frames > 0 ==> *final(self) == *old(self),
            old(self).frames == 0 && old(self).mode_to == target ==> *final(self) == *old(self),
            old(self).wf() ==> final(self).wf(),
    {
        if self.frames == 0 && self.mode_to != target {
            self.frames = NUM_TWEEN_FRAMES;
            self.mode_to = target;
        }
    }

    /// End-of-frame bookkeeping: a running countdown decreases by one; an
    /// idle machine is unchanged.
    pub fn advance(&mut self)
        ensures
            *final(self) == spec_advance(*old(self)),
            final(self).mode_to == old(self).mode_to,
            old(self).frames > 0 ==> final(self).frames == old(self).frames - 1,
            old(self).frames == 0 ==> final(self).frames == 0,
            old(self).wf() ==> final(self).wf(),
    {
        if self.frames > 0 {
            self.frames = self.frames - 1;
        }
    }
}

/// Advancing never changes the mode, and after `n` frames the countdown is
/// the old countdown less `n`, floored at zero.
pub proof fn lemma_advance_n(t: Tween, n: nat)
    ensures
        spec_advance_n(t, n).mode_to == t.mode_to,
        spec_advance_n(t, n).frames == if n >= t.frames { 0int } else { t.frames - n },
    decreases n,
{
    if n > 0 {
        lemma_advance_n(t, (n - 1) as nat);
    }
}

/// A transition runs its full course: starting from an idle machine, a
/// request for a different mode is accepted, the machine stays mid-transition
/// for the next `NUM_TWEEN_FRAMES - 1` frames, and after exactly
/// `NUM_TWEEN_FRAMES` frames it is idle in the requested mode.
pub proof fn lemma_transition_completes(t: Tween, target: Mode)
    requires
        t.frames == 0,
        t.mode_to != target,
    ensures
        spec_advance_n(spec_request(t, target), NUM_TWEEN_FRAMES as nat).frames == 0,
        spec_advance_n(spec_request(t, target), NUM_TWEEN_FRAMES as nat).mode_to == target,
        forall|k: nat|
            k < NUM_TWEEN_FRAMES ==> spec_advance_n(spec_request(t, target), k).frames > 0,
{
    let started = spec_request(t, target);
    lemma_advance_n(started, NUM_TWEEN_FRAMES as nat);
    assert forall|k: nat| k < NUM_TWEEN_FRAMES implies spec_advance_n(started, k).frames > 0 by {
        lemma_advance_n(started, k);
    }
}

} // verus!
