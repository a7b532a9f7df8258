//! The locomotion state machine: once per tick it evaluates the transition
//! rules in a fixed priority order against the physics velocity and the
//! tick's input snapshot, writes the velocity components the character
//! controls, and reports whether a new state was entered.
//!
//! Rule order, later rules overriding earlier ones within the same tick
//! (each effect still applies once its guard is true, and later guards see
//! velocity components already updated by earlier rules):
//!
//! 1. Idle -> Jumping: jump newly pressed and vertical velocity zero;
//!    sets the vertical velocity to the jump impulse.
//! 2. Jumping -> Falling: vertical velocity has gone negative.
//! 3. Falling -> Idle: vertical velocity is zero again (landed).
//! 4. Slashing -> Idle: the slash clip has played through. The slash exit is
//!    deliberate policy: a slash runs to the end of its clip, then yields.
//! 5. Idle | Running -> Running: a move key is held and vertical velocity is
//!    zero; sets the horizontal velocity to the run speed (sign by direction)
//!    and the sprite facing flag. With no move key held, the horizontal
//!    velocity is set to zero instead.
//! 6. Running -> Idle: horizontal velocity is zero — which, the move rule
//!    having just run, means no move key was held this tick, so releasing the
//!    key stops the run within the same tick.
//! 7. Any -> Slashing: attack newly pressed; interrupts every other state.

use vstd::prelude::*;
use crate::clip::AnimationState;
use crate::input::InputSnapshot;

verus! {

/// The character's 2D velocity in integer world units per second. The physics
/// engine owns it — gravity and collisions update the vertical component
/// between ticks — while the state machine writes only the components the
/// character controls: the horizontal run speed and the vertical jump impulse.
/// A vertical velocity of exactly zero stands for "grounded".
#[derive(Clone, Copy, Debug, PartialEq, Eq, Structural)]
pub struct Velocity {
    pub x: i32,
    pub y: i32,
}

/// Vertical velocity set on the tick a jump starts, in units per second.
pub const JUMP_IMPULSE: i32 = 600;

/// Horizontal velocity while a move key is held, in units per second.
pub const RUN_SPEED: i32 = 500;

/// The jump rule's guard: grounded in Idle with a fresh jump press.
pub open spec fn jump_fires(s: AnimationState, vy: int, inp: InputSnapshot) -> bool {
    s is Idle && inp.jump_pressed && vy == 0
}

/// Vertical velocity after the tick's rules: the jump impulse on the tick a
/// jump starts, otherwise untouched.
pub open spec fn vy_after(s: AnimationState, vy: int, inp: InputSnapshot) -> int {
    if jump_fires(s, vy, inp) {
        JUMP_IMPULSE as int
    } else {
        vy
    }
}

/// Horizontal velocity after the tick's rules: the run speed toward the held
/// direction (left wins when both are held), zero when neither is held.
pub open spec fn vx_after(inp: InputSnapshot) -> int {
    if inp.move_left_held {
        -(RUN_SPEED as int)
    } else if inp.move_right_held {
        RUN_SPEED as int
    } else {
        0
    }
}

/// Sprite facing after the tick: a held direction turns the sprite that way;
/// with neither held the facing is kept.
pub open spec fn facing_after(facing_left: bool, inp: InputSnapshot) -> bool {
    if inp.move_left_held {
        true
    } else if inp.move_right_held {
        false
    } else {
        facing_left
    }
}

/// The transition pending after all rules have been evaluated in priority
/// order against state `s`, pre-tick vertical velocity `vy0`, input `inp`,
/// and the frame player's report `slash_done` that the slash clip has played
/// through. `None` when no guard matched.
pub open spec fn pending_transition(
    s: AnimationState,
    vy0: int,
    inp: InputSnapshot,
    slash_done: bool,
) -> Option<AnimationState> {
    let vy = vy_after(s, vy0, inp);
    let vx = vx_after(inp);
    let after_jump = if jump_fires(s, vy0, inp) {
        Some(AnimationState::Jumping)
    } else {
        None
    };
    let after_fall = if s is Jumping && vy < 0 {
        Some(AnimationState::Falling)
    } else {
        after_jump
    };
    let after_land = if s is Falling && vy == 0 {
        Some(AnimationState::Idle)
    } else {
        after_fall
    };
    let after_slash_exit = if s is Slashing && slash_done {
        Some(AnimationState::Idle)
    } else {
        after_land
    };
    let after_run = if (inp.move_left_held || inp.move_right_held) && vy == 0 && (s is Idle || s is Running) {
        Some(AnimationState::Running)
    } else {
        after_slash_exit
    };
    let after_stop = if s is Running && vx == 0 {
        Some(AnimationState::Idle)
    } else {
        after_run
    };
    if inp.attack_pressed {
        Some(AnimationState::Slashing)
    } else {
        after_stop
    }
}

/// The state after the tick: the pending transition's target, or the old
/// state when no guard matched.
pub open spec fn next_state(
    s: AnimationState,
    vy0: int,
    inp: InputSnapshot,
    slash_done: bool,
) -> AnimationState {
    match pending_transition(s, vy0, inp, slash_done) {
        Some(t) => t,
        None => s,
    }
}

/// The locomotion state machine: the active animation state and the sprite
/// facing flag, advanced once per simulation tick.
#[derive(Clone, Copy, Debug, PartialEq, Eq, Structural)]
pub struct LocomotionStateMachine {
    pub state: AnimationState,
    pub facing_left: bool,
}

impl LocomotionStateMachine {
    /// A freshly spawned character stands idle, facing right.
    pub fn new() -> (m: LocomotionStateMachine)
        ensures
            m.state is Idle,
            !m.facing_left,
    {
        LocomotionStateMachine { state: AnimationState::Idle, facing_left: false }
    }

    /// One tick: evaluates every transition rule in priority order, writes
    /// the velocity components the character controls, updates the facing
    /// flag, and returns whether a state genuinely different from the old one
    /// was entered (a rule re-targeting the current state is no entry).
    ///
    /// `slash_done` is the frame player's report that the slash clip played
    /// through on the previous tick; it drives the slash exit rule.
    pub fn tick(&mut self, vel: &mut Velocity, inp: InputSnapshot, slash_done: bool) -> (entered: bool)
        ensures
            final(vel).y as int == vy_after(old(self).state, old(vel).y as int, inp),
            final(vel).x as int == vx_after(inp),
            final(self).state == next_state(old(self).state, old(vel).y as int, inp, slash_done),
            final(self).facing_left == facing_after(old(self).facing_left, inp),
            entered == (final(self).state != old(self).state),
    {
        let s0 = self.state;
        let mut pending: Option<AnimationState> = None;

        // Rule 1: Idle -> Jumping.
        if s0 == AnimationState::Idle && inp.jump_pressed && vel.y == 0 {
            vel.y = JUMP_IMPULSE;
            pending = Some(AnimationState::Jumping);
        }
        // Rule 2: Jumping -> Falling, once descent begins.
        if s0 == AnimationState::Jumping && vel.y < 0 {
            pending = Some(AnimationState::Falling);
        }
        // Rule 3: Falling -> Idle, on landing.
        if s0 == AnimationState::Falling && vel.y == 0 {
            pending = Some(AnimationState::Idle);
        }
        // Rule 4: Slashing -> Idle, once the slash clip has played through.
        if s0 == AnimationState::Slashing && slash_done {
            pending = Some(AnimationState::Idle);
        }
        // Rule 5: run while grounded; left wins over right; neither held
        // zeroes the horizontal velocity.
        if inp.move_left_held {
            vel.x = -RUN_SPEED;
            self.facing_left = true;
            if vel.y == 0 && (s0 == AnimationState::Idle || s0 == AnimationState::Running) {
                pending = Some(AnimationState::Running);
            }
        } else if inp.move_right_held {
            vel.x = RUN_SPEED;
            self.facing_left = false;
            if vel.y == 0 && (s0 == AnimationState::Idle || s0 == AnimationState::Running) {
                pending = Some(AnimationState::Running);
            }
        } else {
            vel.x = 0;
        }
        // Rule 6: Running -> Idle, once the run rule has zeroed the velocity.
        if s0 == AnimationState::Running && vel.x == 0 {
            pending = Some(AnimationState::Idle);
        }
        // Rule 7: attack interrupts everything.
        if inp.attack_pressed {
            pending = Some(AnimationState::Slashing);
        }

        match pending {
            Some(t) => {
                self.state = t;
                t != s0
            }
            None => false,
        }
    }
}

/// Law (jump guard, firing side): grounded in Idle with a fresh jump press
/// and no simultaneous attack, the tick ends in Jumping with the vertical
/// velocity at the jump impulse — whatever the move keys or the slash report.
pub proof fn lemma_jump_guard_fires(s: AnimationState, vy: int, inp: InputSnapshot, slash_done: bool)
    requires
        s is Idle,
        vy == 0,
        inp.jump_pressed,
        !inp.attack_pressed,
    ensures
        next_state(s, vy, inp, slash_done) == AnimationState::Jumping,
        vy_after(s, vy, inp) == JUMP_IMPULSE as int,
{
}

/// Law (jump guard, blocked side): already airborne in Idle — vertical
/// velocity nonzero — a jump press does nothing: with no other event this
/// tick the state is kept and the vertical velocity is untouched.
pub proof fn lemma_jump_guard_blocked(s: AnimationState, vy: int, inp: InputSnapshot, slash_done: bool)
    requires
        s is Idle,
        vy != 0,
        !inp.attack_pressed,
        !inp.move_left_held,
        !inp.move_right_held,
    ensures
        next_state(s, vy, inp, slash_done) == s,
        vy_after(s, vy, inp) == vy,
        vx_after(inp) == 0,
{
}

/// Law (run stop): in Running with every key released and no attack, the run
/// rule zeroes the horizontal velocity and the stop rule, seeing the already
/// updated velocity, returns the state to Idle within the same tick.
pub proof fn lemma_run_stop_same_tick(s: AnimationState, vy: int, inp: InputSnapshot, slash_done: bool)
    requires
        s is Running,
        !inp.move_left_held,
        !inp.move_right_held,
        !inp.attack_pressed,
    ensures
        vx_after(inp) == 0,
        next_state(s, vy, inp, slash_done) == AnimationState::Idle,
{
}

/// Law (slash interrupt): a fresh attack press forces Slashing within the
/// tick, from every state, every velocity and whatever else is pressed.
pub proof fn lemma_slash_interrupt(s: AnimationState, vy: int, inp: InputSnapshot, slash_done: bool)
    requires
        inp.attack_pressed,
    ensures
        next_state(s, vy, inp, slash_done) == AnimationState::Slashing,
{
}

} // verus!
