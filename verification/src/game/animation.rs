//! Looping frame sequences.

use crate::shapes::UvRect;
use vstd::arithmetic::div_mod::lemma_fundamental_div_mod;
use vstd::arithmetic::div_mod::lemma_fundamental_div_mod_converse_mod;
use vstd::arithmetic::div_mod::lemma_small_mod;
use vstd::prelude::*;

verus! {

/// What an [`Animation`] is: its frames in order, and which one is current.
pub struct AnimationView {
    pub frames: Seq<UvRect>,
    pub index: int,
}

impl AnimationView {
    /// There is at least one frame and the index points at one.
    pub open spec fn wf(self) -> bool {
        0 <= self.index < self.frames.len()
    }

    /// The frame that is showing.
    pub open spec fn current(self) -> UvRect {
        self.frames[self.index]
    }

    /// The same frames with the index moved on by one, back to the first
    /// frame after the last.
    pub open spec fn advance(self) -> AnimationView {
        AnimationView {
            index: if self.index + 1 == self.frames.len() {
                0
            } else {
                self.index + 1
            },
            ..self
        }
    }

    /// `advance` applied `n` times.
    pub open spec fn advance_by(self, n: nat) -> AnimationView
        decreases n,
    {
        if n == 0 {
            self
        } else {
            self.advance_by((n - 1) as nat).advance()
        }
    }
}

/// The one way to misconfigure the game: an animation without frames.
#[derive(Clone, Copy, Debug, PartialEq, Eq, Structural)]
pub struct InvalidConfiguration;

/// An ordered, non-empty list of frames that is played in a loop.
pub struct Animation {
    frames: Vec<UvRect>,
    current_frame: usize,
}

impl View for Animation {
    type V = AnimationView;

    closed spec fn view(&self) -> AnimationView {
        AnimationView { frames: self.frames@, index: self.current_frame as int }
    }
}

impl Animation {
    /// An animation over `frames` that starts at the first one, or
    /// `InvalidConfiguration` if there is no frame to show.
    pub fn new(frames: Vec<UvRect>) -> (made: Result<Animation, InvalidConfiguration>)
        ensures
            made is Err <==> frames@.len() == 0,
            made matches Ok(animation) ==> animation@.wf() && animation@ == (AnimationView {
                frames: frames@,
                index: 0,
            }),
    {
        if frames.len() == 0 {
            Err(InvalidConfiguration)
        } else {
            Ok(Animation { frames, current_frame: 0 })
        }
    }

    /// Returns the frame that was current and then moves on to the next one,
    /// wrapping after the last.
    pub fn next_frame(&mut self) -> (frame: UvRect)
        requires
            old(self)@.wf(),
        ensures
            frame == old(self)@.current(),
            final(self)@ == old(self)@.advance(),
            final(self)@.wf(),
    {
        let frame: UvRect = self.frames[self.current_frame];
        self.current_frame = if self.current_frame == self.frames.len() - 1 {
            0
        } else {
            self.current_frame + 1
        };
        frame
    }

    /// Whether there is a frame and the index points at one.
    pub fn is_well_formed(&self) -> (ok: bool)
        ensures
            ok == self@.wf(),
    {
        self.current_frame < self.frames.len()
    }

    /// The frame that is showing; nothing moves.
    pub fn current_frame(&self) -> (frame: UvRect)
        requires
            self@.wf(),
        ensures
            frame == self@.current(),
    {
        self.frames[self.current_frame]
    }
}

/// Advancing keeps an animation well formed and never touches its frames.
pub proof fn lemma_advance_keeps_frames(a: AnimationView, n: nat)
    requires
        a.wf(),
    ensures
        a.advance_by(n).wf(),
        a.advance_by(n).frames == a.frames,
    decreases n,
{
    if n > 0 {
        lemma_advance_keeps_frames(a, (n - 1) as nat);
    }
}

/// After `n` advances the index stands `n` places further on, counted around
/// the loop.
pub proof fn lemma_advance_by_index(a: AnimationView, n: nat)
    requires
        a.wf(),
    ensures
        a.advance_by(n).index == (a.index + n) % (a.frames.len() as int),
    decreases n,
{
    let len = a.frames.len() as int;
    if n == 0 {
        lemma_small_mod(a.index as nat, len as nat);
    } else {
        let m = (n - 1) as nat;
        lemma_advance_by_index(a, m);
        lemma_advance_keeps_frames(a, m);
        let before = a.advance_by(m).index;
        let k = (a.index + m) / len;
        lemma_fundamental_div_mod(a.index + m, len);
        assert(len * k == k * len && (k + 1) * len == k * len + len) by (nonlinear_arith);
        if before + 1 == len {
            lemma_fundamental_div_mod_converse_mod(a.index + n, len, k + 1, 0);
        } else {
            lemma_fundamental_div_mod_converse_mod(a.index + n, len, k, before + 1);
        }
    }
}

/// Playing an animation once through, as many advances as it has frames,
/// brings it back to the frame it started from.
pub proof fn lemma_full_cycle_returns(a: AnimationView)
    requires
        a.wf(),
    ensures
        a.advance_by(a.frames.len()) == a,
{
    let len = a.frames.len() as int;
    lemma_advance_keeps_frames(a, a.frames.len());
    lemma_advance_by_index(a, a.frames.len());
    assert(1 * len + a.index == a.index + len) by (nonlinear_arith);
    lemma_fundamental_div_mod_converse_mod(a.index + len, len, 1, a.index);
}

} // verus!
