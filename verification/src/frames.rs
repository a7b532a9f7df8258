//! The frame player: advances a frame index within the active state's clip,
//! stepping one frame each time a fixed per-frame duration has accumulated,
//! wrapping to the clip's first frame past its last, and restarting the clip
//! only on genuine state entry — never on an ordinary tick.

use vstd::prelude::*;
use crate::clip::AnimationState;
use crate::clip::clip_range;
use crate::clip::first_frame_of;
use crate::clip::last_frame_of;
use crate::clip::lemma_clip_table_wf;

verus! {

/// How long each frame stays on screen, in microseconds of elapsed tick time.
pub const FRAME_DURATION_MICROS: u64 = 100_000;

/// Playback position within the active state's clip: the frame on display and
/// the time accumulated toward the next frame step, in microseconds.
#[derive(Clone, Copy, Debug, PartialEq, Eq, Structural)]
pub struct PlaybackCursor {
    pub current_frame: usize,
    pub elapsed_in_frame: u64,
}

impl PlaybackCursor {
    /// Well-formed for the active state `s`: the frame lies within `s`'s clip
    /// and the accumulator has not yet reached a full frame duration.
    pub open spec fn wf(self, s: AnimationState) -> bool {
        &&& first_frame_of(s) <= self.current_frame as int <= last_frame_of(s)
        &&& self.elapsed_in_frame < FRAME_DURATION_MICROS
    }

    /// A cursor at the start of state `s`'s clip.
    pub fn new(s: AnimationState) -> (c: PlaybackCursor)
        ensures
            c.current_frame as int == first_frame_of(s),
            c.elapsed_in_frame == 0,
            c.wf(s),
    {
        proof {
            lemma_clip_table_wf(s);
        }
        PlaybackCursor { current_frame: clip_range(s).first_frame, elapsed_in_frame: 0 }
    }

    /// Advances playback by one tick of `dt_micros` elapsed time in state `s`.
    ///
    /// On the tick a state change is reported the cursor restarts at the new
    /// state's first frame with an empty accumulator, and no further
    /// advancement happens that tick. Otherwise the elapsed time accumulates;
    /// when a full frame duration has been reached the accumulator resets and
    /// the frame steps by one, wrapping to the clip's first frame past its
    /// last; below the threshold the frame is unchanged.
    ///
    /// Returns the frame now on display and whether this tick stepped past
    /// the clip's last frame — the clip has played through once.
    pub fn advance(&mut self, s: AnimationState, state_changed: bool, dt_micros: u64) -> (r: (usize, bool))
        requires
            state_changed || old(self).wf(s),
            dt_micros <= u64::MAX - FRAME_DURATION_MICROS,
        ensures
            *final(self) == advanced(*old(self), s, state_changed, dt_micros),
            final(self).wf(s),
            r.0 == final(self).current_frame,
            r.1 == clip_completed(*old(self), s, state_changed, dt_micros),
    {
        proof {
            lemma_clip_table_wf(s);
        }
        if state_changed {
            self.elapsed_in_frame = 0;
            self.current_frame = clip_range(s).first_frame;
            (self.current_frame, false)
        } else {
            self.elapsed_in_frame = self.elapsed_in_frame + dt_micros;
            if self.elapsed_in_frame >= FRAME_DURATION_MICROS {
                self.elapsed_in_frame = 0;
                let c = clip_range(s);
                let wrapped = self.current_frame == c.last_frame;
                if wrapped {
                    self.current_frame = c.first_frame;
                } else {
                    self.current_frame = self.current_frame + 1;
                }
                (self.current_frame, wrapped)
            } else {
                (self.current_frame, false)
            }
        }
    }
}

/// The cursor after one `advance` call on cursor `c` in state `s`.
pub open spec fn advanced(c: PlaybackCursor, s: AnimationState, state_changed: bool, dt_micros: u64) -> PlaybackCursor {
    if state_changed {
        PlaybackCursor { current_frame: first_frame_of(s) as usize, elapsed_in_frame: 0 }
    } else {
        let acc = c.elapsed_in_frame + dt_micros;
        if acc >= FRAME_DURATION_MICROS {
            PlaybackCursor {
                current_frame: if c.current_frame as int == last_frame_of(s) {
                    first_frame_of(s) as usize
                } else {
                    (c.current_frame + 1) as usize
                },
                elapsed_in_frame: 0,
            }
        } else {
            PlaybackCursor { current_frame: c.current_frame, elapsed_in_frame: acc as u64 }
        }
    }
}

/// Whether one `advance` call on cursor `c` in state `s` steps past the
/// clip's last frame: a frame step fires while the last frame is on display.
pub open spec fn clip_completed(c: PlaybackCursor, s: AnimationState, state_changed: bool, dt_micros: u64) -> bool {
    &&& !state_changed
    &&& c.elapsed_in_frame + dt_micros >= FRAME_DURATION_MICROS
    &&& c.current_frame as int == last_frame_of(s)
}

/// Law (frame bounds): one `advance` step on a cursor within bounds — or on
/// any cursor at all when a state change restarts the clip — lands within the
/// active state's clip again, whatever the elapsed time; so along every
/// sequence of `advance` calls the frame never leaves the clip.
pub proof fn lemma_advance_keeps_bounds(c: PlaybackCursor, s: AnimationState, state_changed: bool, dt_micros: u64)
    requires
        state_changed || c.wf(s),
    ensures
        advanced(c, s, state_changed, dt_micros).wf(s),
{
    lemma_clip_table_wf(s);
}

/// Law (state-entry reset): on the tick a state change is reported, `advance`
/// puts the new state's first frame on display with an empty accumulator,
/// regardless of where playback stood before.
pub proof fn lemma_state_entry_reset(c: PlaybackCursor, s: AnimationState, dt_micros: u64)
    ensures
        advanced(c, s, true, dt_micros).current_frame as int == first_frame_of(s),
        advanced(c, s, true, dt_micros).elapsed_in_frame == 0,
{
}

/// Law (zero-time idempotence): without a state change, a tick of zero
/// elapsed time leaves the cursor exactly as it was — so any number of such
/// ticks never move the frame.
pub proof fn lemma_zero_time_idempotent(c: PlaybackCursor, s: AnimationState)
    requires
        c.wf(s),
    ensures
        advanced(c, s, false, 0) == c,
{
}

} // verus!
