//! Crop growth: a crop advances one stage each time its timer fires while it is watered.

use vstd::prelude::*;

verus! {

/// How far a crop has grown, and how far it can grow.
#[derive(Clone, Copy, Debug, PartialEq, Eq, Structural)]
pub struct Growable {
    pub growth_state: u32,
    pub max_growth_state: u32,
}

impl Growable {
    /// A crop is never past its last stage.
    pub open spec fn wf(self) -> bool {
        self.growth_state <= self.max_growth_state
    }

    /// Whether the crop has stages left to grow through.
    pub open spec fn can_grow(self) -> bool {
        self.growth_state < self.max_growth_state
    }

    /// Whether the crop grows on a frame: its timer fired, it is watered, and
    /// it has a stage left.
    pub open spec fn grows(self, timer_finished: bool, hydrated: bool) -> bool {
        timer_finished && hydrated && self.can_grow()
    }

    /// The crop after a frame.
    pub open spec fn grown(self, timer_finished: bool, hydrated: bool) -> Growable {
        if self.grows(timer_finished, hydrated) {
            Growable {
                growth_state: (self.growth_state + 1) as u32,
                max_growth_state: self.max_growth_state,
            }
        } else {
            self
        }
    }

    /// A freshly planted crop: two stages ahead of it.
    pub fn seedling() -> (crop: Growable)
        ensures
            crop.growth_state == 0,
            crop.max_growth_state == 2,
            crop.wf(),
    {
        Growable { growth_state: 0, max_growth_state: 2 }
    }

    /// One frame of growth. Returns whether the crop grew; a crop that grew
    /// has used its water up and shows the sprite of its new stage.
    pub fn grow(&mut self, timer_finished: bool, hydrated: bool) -> (grew: bool)
        ensures
            grew == old(self).grows(timer_finished, hydrated),
            *final(self) == old(self).grown(timer_finished, hydrated),
            old(self).wf() ==> final(self).wf(),
    {
        if timer_finished && hydrated && self.growth_state < self.max_growth_state {
            self.growth_state += 1;
            true
        } else {
            false
        }
    }

    /// The frame of the crop's sheet that shows its stage.
    pub fn sprite_index(&self) -> (index: usize)
        ensures
            index == self.growth_state,
    {
        self.growth_state as usize
    }
}

/// The crop after `frames` frames on each of which its timer fires and it is
/// watered.
pub open spec fn tended(crop: Growable, frames: nat) -> Growable
    decreases frames,
{
    if frames == 0 {
        crop
    } else {
        tended(crop, (frames - 1) as nat).grown(true, true)
    }
}

/// A well-tended crop gains one stage a frame until it is fully grown, and
/// then stays as it is.
pub proof fn tended_reaches_full(crop: Growable, frames: nat)
    requires
        crop.wf(),
    ensures
        tended(crop, frames).wf(),
        tended(crop, frames).max_growth_state == crop.max_growth_state,
        tended(crop, frames).growth_state == if crop.growth_state + frames
            <= crop.max_growth_state {
            crop.growth_state + frames
        } else {
            crop.max_growth_state as int
        },
    decreases frames,
{
    if frames > 0 {
        tended_reaches_full(crop, (frames - 1) as nat);
    }
}

} // verus!
