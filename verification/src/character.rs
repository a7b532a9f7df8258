//! The character's animation core as one object: the locomotion state
//! machine, the frame player's cursor, and the pending slash-completion
//! report, driven once per simulation tick by the host loop.
//!
//! Per-tick order, as the host samples its collaborators: the input snapshot
//! and the physics velocity come in, the state machine evaluates its rules
//! and writes the velocity components it controls, then the frame player
//! consumes the (possibly changed) state and picks the frame to draw.

use vstd::prelude::*;
use crate::clip::AnimationState;
use crate::clip::first_frame_of;
use crate::input::InputSnapshot;
use crate::motion::LocomotionStateMachine;
use crate::motion::Velocity;
use crate::motion::facing_after;
use crate::motion::next_state;
use crate::motion::vx_after;
use crate::motion::vy_after;
use crate::frames::FRAME_DURATION_MICROS;
use crate::frames::PlaybackCursor;
use crate::frames::advanced;
use crate::frames::clip_completed;

verus! {

/// What the renderer needs each tick: which clip to draw from (the state
/// selects the sprite-sheet clip), the frame within it, and whether to flip
/// the sprite horizontally.
#[derive(Clone, Copy, Debug, PartialEq, Eq, Structural)]
pub struct FrameOutput {
    pub state: AnimationState,
    pub frame_index: usize,
    pub flip_horizontal: bool,
}

/// A character's complete animation condition. Created once at spawn and
/// mutated only through `tick`; reset to a fresh value on respawn.
#[derive(Clone, Copy, Debug, PartialEq, Eq, Structural)]
pub struct Character {
    pub machine: LocomotionStateMachine,
    pub cursor: PlaybackCursor,
    /// The frame player's report, carried to the next tick, that the slash
    /// clip played through — the slash exit rule's trigger.
    pub slash_done: bool,
}

impl Character {
    /// The character invariant: the frame on display lies within the active
    /// state's clip. Established at spawn and kept by every tick.
    pub open spec fn wf(self) -> bool {
        self.cursor.wf(self.machine.state)
    }

    /// A freshly spawned character: idle, facing right, on the idle clip's
    /// first frame.
    pub fn spawn() -> (c: Character)
        ensures
            c.wf(),
            c.machine.state is Idle,
            !c.machine.facing_left,
            c.cursor.current_frame as int == first_frame_of(AnimationState::Idle),
            c.cursor.elapsed_in_frame == 0,
            !c.slash_done,
    {
        Character {
            machine: LocomotionStateMachine::new(),
            cursor: PlaybackCursor::new(AnimationState::Idle),
            slash_done: false,
        }
    }

    /// One simulation tick: runs the state machine on the tick's input and
    /// the physics velocity, then the frame player on the resulting state,
    /// and hands the renderer its frame. Keeps the character invariant.
    pub fn tick(&mut self, vel: &mut Velocity, inp: InputSnapshot, dt_micros: u64) -> (out: FrameOutput)
        requires
            old(self).wf(),
            dt_micros <= u64::MAX - FRAME_DURATION_MICROS,
        ensures
            final(self).wf(),
            final(self).machine.state == next_state(
                old(self).machine.state,
                old(vel).y as int,
                inp,
                old(self).slash_done,
            ),
            final(vel).y as int == vy_after(old(self).machine.state, old(vel).y as int, inp),
            final(vel).x as int == vx_after(inp),
            final(self).machine.facing_left == facing_after(old(self).machine.facing_left, inp),
            final(self).cursor == advanced(
                old(self).cursor,
                final(self).machine.state,
                final(self).machine.state != old(self).machine.state,
                dt_micros,
            ),
            final(self).slash_done == (final(self).machine.state is Slashing && clip_completed(
                old(self).cursor,
                final(self).machine.state,
                final(self).machine.state != old(self).machine.state,
                dt_micros,
            )),
            out.state == final(self).machine.state,
            out.frame_index == final(self).cursor.current_frame,
            out.flip_horizontal == final(self).machine.facing_left,
    {
        let pending_slash_done = self.slash_done;
        let entered = self.machine.tick(vel, inp, pending_slash_done);
        let state_now = self.machine.state;
        let (frame, completed) = self.cursor.advance(state_now, entered, dt_micros);
        self.slash_done = state_now == AnimationState::Slashing && completed;
        FrameOutput {
            state: state_now,
            frame_index: frame,
            flip_horizontal: self.machine.facing_left,
        }
    }
}

} // verus!
