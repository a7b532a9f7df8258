//! Animation states and the static table that assigns each state its
//! sprite-sheet clip: a contiguous range of frame indices.

use vstd::prelude::*;

verus! {

/// The five animation states a character can be in. Exactly one is active at
/// a time; states are never stacked or composed.
#[derive(Clone, Copy, Debug, PartialEq, Eq, Structural)]
pub enum AnimationState {
    Idle,
    Jumping,
    Falling,
    Running,
    Slashing,
}

/// A contiguous range of frame indices within a sprite sheet holding one
/// animation. Well-formed when `first_frame <= last_frame`.
#[derive(Clone, Copy, Debug, PartialEq, Eq, Structural)]
pub struct ClipRange {
    pub first_frame: usize,
    pub last_frame: usize,
}

impl ClipRange {
    pub open spec fn wf(self) -> bool {
        self.first_frame <= self.last_frame
    }
}

/// First frame of the clip assigned to state `s`.
pub open spec fn first_frame_of(s: AnimationState) -> int {
    match s {
        AnimationState::Idle => 0,
        AnimationState::Jumping => 69,
        AnimationState::Falling => 22,
        AnimationState::Running => 8,
        AnimationState::Slashing => 42,
    }
}

/// Last frame of the clip assigned to state `s`.
pub open spec fn last_frame_of(s: AnimationState) -> int {
    match s {
        AnimationState::Idle => 3,
        AnimationState::Jumping => 71,
        AnimationState::Falling => 23,
        AnimationState::Running => 13,
        AnimationState::Slashing => 45,
    }
}

/// Looks up the clip assigned to state `s`. The match is exhaustive over the
/// enumeration, so the lookup is total: every state has a clip.
pub fn clip_range(s: AnimationState) -> (c: ClipRange)
    ensures
        c.first_frame == first_frame_of(s),
        c.last_frame == last_frame_of(s),
        c.wf(),
{
    match s {
        AnimationState::Idle => ClipRange { first_frame: 0, last_frame: 3 },
        AnimationState::Jumping => ClipRange { first_frame: 69, last_frame: 71 },
        AnimationState::Falling => ClipRange { first_frame: 22, last_frame: 23 },
        AnimationState::Running => ClipRange { first_frame: 8, last_frame: 13 },
        AnimationState::Slashing => ClipRange { first_frame: 42, last_frame: 45 },
    }
}

/// Law: every animation state's clip is well-formed, its first frame never
/// exceeding its last.
pub proof fn lemma_clip_table_wf(s: AnimationState)
    ensures
        0 <= first_frame_of(s) <= last_frame_of(s),
{
}

} // verus!
