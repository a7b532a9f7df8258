//! Input edge tracking: turns two consecutive raw key-down samples into the
//! per-tick events the state machine consumes — edge events (newly pressed
//! this tick) for jump and attack, level events (held) for movement.

use vstd::prelude::*;

verus! {

/// Raw key-down levels sampled from the input device on one tick. An absent
/// input device is reported as all keys up.
#[derive(Clone, Copy, Debug, PartialEq, Eq, Structural)]
pub struct KeySample {
    pub jump_down: bool,
    pub move_left_down: bool,
    pub move_right_down: bool,
    pub attack_down: bool,
}

impl KeySample {
    /// The sample with every key up: what an absent input device yields.
    pub fn released() -> (k: KeySample)
        ensures
            !k.jump_down,
            !k.move_left_down,
            !k.move_right_down,
            !k.attack_down,
    {
        KeySample { jump_down: false, move_left_down: false, move_right_down: false, attack_down: false }
    }
}

/// A key is newly pressed on the one tick it goes from up to down.
pub open spec fn pressed_edge(prev_down: bool, cur_down: bool) -> bool {
    cur_down && !prev_down
}

/// One tick's immutable input record: jump and attack fire only on the tick
/// their key transitions from up to down; movement is reported as long as its
/// key is held.
#[derive(Clone, Copy, Debug, PartialEq, Eq, Structural)]
pub struct InputSnapshot {
    pub jump_pressed: bool,
    pub move_left_held: bool,
    pub move_right_held: bool,
    pub attack_pressed: bool,
}

impl InputSnapshot {
    /// Derives this tick's snapshot from the previous tick's raw sample and
    /// the current one. Pure: a function of the two samples alone.
    pub fn from_samples(prev: KeySample, cur: KeySample) -> (snap: InputSnapshot)
        ensures
            snap.jump_pressed == pressed_edge(prev.jump_down, cur.jump_down),
            snap.move_left_held == cur.move_left_down,
            snap.move_right_held == cur.move_right_down,
            snap.attack_pressed == pressed_edge(prev.attack_down, cur.attack_down),
    {
        InputSnapshot {
            jump_pressed: cur.jump_down && !prev.jump_down,
            move_left_held: cur.move_left_down,
            move_right_held: cur.move_right_down,
            attack_pressed: cur.attack_down && !prev.attack_down,
        }
    }

    /// The snapshot with no event at all, as two all-up samples yield.
    pub fn quiet() -> (snap: InputSnapshot)
        ensures
            !snap.jump_pressed,
            !snap.move_left_held,
            !snap.move_right_held,
            !snap.attack_pressed,
    {
        InputSnapshot {
            jump_pressed: false,
            move_left_held: false,
            move_right_held: false,
            attack_pressed: false,
        }
    }
}

} // verus!
