//! Sprite animation: which frame of its sheet a sprite shows after a tick.

use vstd::prelude::*;

verus! {

/// What a tick of the animation timer does to a sprite's frame.
#[derive(Clone, Copy, Debug, PartialEq, Eq, Structural)]
pub enum FrameStep {
    /// The timer has not fired: the frame stays.
    Hold,
    /// The timer fired on a sprite at rest: back to the first frame.
    Rewind,
    /// The timer fired on an animated sprite: on to the next frame.
    Advance,
}

/// The frame after `index` on a sheet of `frames` frames, wrapping to the first.
pub open spec fn frame_after(index: int, frames: int) -> int
    recommends
        frames > 0,
{
    (index + 1) % frames
}

impl FrameStep {
    /// The frame that a sprite on `index` shows after the step.
    pub open spec fn target(self, index: int, frames: int) -> int {
        match self {
            FrameStep::Hold => index,
            FrameStep::Rewind => 0,
            FrameStep::Advance => frame_after(index, frames),
        }
    }

    /// Whether the step reads the number of frames on the sheet.
    pub open spec fn reads_sheet(self) -> bool {
        self == FrameStep::Advance
    }

    /// Applies the step to a sprite on `index`. Only `Advance` reads `frames`,
    /// and needs a sheet with at least one frame.
    pub fn apply(self, index: usize, frames: usize) -> (next: usize)
        requires
            self.reads_sheet() ==> frames > 0 && index < usize::MAX,
        ensures
            next == self.target(index as int, frames as int),
            self.reads_sheet() ==> next < frames,
    {
        match self {
            FrameStep::Hold => index,
            FrameStep::Rewind => 0,
            FrameStep::Advance => next_frame(index, frames),
        }
    }
}

/// Decides what a tick does: nothing unless the timer fired, then an advance
/// for an animated sprite and a rewind for one at rest.
pub fn frame_step(timer_finished: bool, animated: bool) -> (step: FrameStep)
    ensures
        !timer_finished ==> step == FrameStep::Hold,
        timer_finished && animated ==> step == FrameStep::Advance,
        timer_finished && !animated ==> step == FrameStep::Rewind,
{
    if !timer_finished {
        FrameStep::Hold
    } else if animated {
        FrameStep::Advance
    } else {
        FrameStep::Rewind
    }
}

/// The frame after `index`, wrapping to the first after the last.
pub fn next_frame(index: usize, frames: usize) -> (next: usize)
    requires
        frames > 0,
        index < usize::MAX,
    ensures
        next == frame_after(index as int, frames as int),
        next < frames,
{
    (index + 1) % frames
}

/// The frame reached from `index` by `steps` advances.
pub open spec fn advanced(index: int, frames: int, steps: nat) -> int
    decreases steps,
{
    if steps == 0 {
        index
    } else {
        frame_after(advanced(index, frames, (steps - 1) as nat), frames)
    }
}

/// A sprite that advances through a sheet from any frame on it comes back to
/// that frame after as many advances as the sheet has frames, and stays on the
/// sheet all the way.
pub proof fn advance_cycles(index: int, frames: int, steps: nat)
    requires
        frames > 0,
        0 <= index < frames,
    ensures
        0 <= advanced(index, frames, steps) < frames,
        advanced(index, frames, steps) == (index + steps) % frames,
        steps == frames ==> advanced(index, frames, steps) == index,
    decreases steps,
{
    if steps > 0 {
        advance_cycles(index, frames, (steps - 1) as nat);
        let before = advanced(index, frames, (steps - 1) as nat);
        assert((before + 1) % frames == (index + steps) % frames) by (nonlinear_arith)
            requires
                frames > 0,
                before == (index + steps - 1) % frames,
        ;
    } else {
        assert(index % frames == index) by (nonlinear_arith)
            requires
                0 <= index < frames,
        ;
    }
    if steps == frames {
        assert((index + frames) % frames == index) by (nonlinear_arith)
            requires
                0 <= index < frames,
        ;
    }
}

} // verus!
