use slasher::character::Character;
use slasher::clip::AnimationState;
use slasher::frames::FRAME_DURATION_MICROS;
use slasher::input::InputSnapshot;
use slasher::motion::Velocity;

fn input(jump: bool, left: bool, right: bool, attack: bool) -> InputSnapshot {
    InputSnapshot {
        jump_pressed: jump,
        move_left_held: left,
        move_right_held: right,
        attack_pressed: attack,
    }
}

fn quiet() -> InputSnapshot {
    input(false, false, false, false)
}

#[test]
fn spawned_character_idles_on_frame_zero() {
    let c = Character::spawn();
    assert_eq!(c.machine.state, AnimationState::Idle);
    assert!(!c.machine.facing_left);
    assert_eq!(c.cursor.current_frame, 0);
    assert_eq!(c.cursor.elapsed_in_frame, 0);
}

#[test]
fn run_release_returns_frame_zero_immediately() {
    // enter Running and play a while into its clip
    let mut c = Character::spawn();
    let mut v = Velocity { x: 0, y: 0 };
    c.tick(&mut v, input(false, false, true, false), FRAME_DURATION_MICROS);
    for _ in 0..3 {
        c.tick(&mut v, input(false, false, true, false), FRAME_DURATION_MICROS);
    }
    assert_eq!(c.machine.state, AnimationState::Running);
    assert!(c.cursor.current_frame > 8);
    // release: Running -> Idle, and the very next frame shown is Idle's first
    let out = c.tick(&mut v, quiet(), 70_000);
    assert_eq!(out.state, AnimationState::Idle);
    assert_eq!(out.frame_index, 0);
    assert_eq!(c.cursor.elapsed_in_frame, 0);
}

#[test]
fn full_jump_arc_lands_back_in_idle() {
    let mut c = Character::spawn();
    let mut v = Velocity { x: 0, y: 0 };
    let out = c.tick(&mut v, input(true, false, false, false), 16_000);
    assert_eq!(out.state, AnimationState::Jumping);
    assert_eq!(out.frame_index, 69);
    assert_eq!(v.y, 600);
    // gravity (the physics collaborator) drains the ascent
    v.y = 20;
    let out = c.tick(&mut v, quiet(), 16_000);
    assert_eq!(out.state, AnimationState::Jumping);
    v.y = -300;
    let out = c.tick(&mut v, quiet(), 16_000);
    assert_eq!(out.state, AnimationState::Falling);
    assert_eq!(out.frame_index, 22);
    // touchdown: the physics engine zeroes the vertical velocity
    v.y = 0;
    let out = c.tick(&mut v, quiet(), 16_000);
    assert_eq!(out.state, AnimationState::Idle);
    assert_eq!(out.frame_index, 0);
}

#[test]
fn slash_plays_through_then_yields_to_idle() {
    let mut c = Character::spawn();
    let mut v = Velocity { x: 0, y: 0 };
    let out = c.tick(&mut v, input(false, false, false, true), FRAME_DURATION_MICROS);
    assert_eq!(out.state, AnimationState::Slashing);
    assert_eq!(out.frame_index, 42);
    for expected in [43, 44, 45] {
        let out = c.tick(&mut v, quiet(), FRAME_DURATION_MICROS);
        assert_eq!(out.state, AnimationState::Slashing);
        assert_eq!(out.frame_index, expected);
    }
    // the wrap past the last frame completes the clip...
    let out = c.tick(&mut v, quiet(), FRAME_DURATION_MICROS);
    assert_eq!(out.state, AnimationState::Slashing);
    assert_eq!(out.frame_index, 42);
    // ...and the next tick's slash exit rule returns to Idle
    let out = c.tick(&mut v, quiet(), FRAME_DURATION_MICROS);
    assert_eq!(out.state, AnimationState::Idle);
    assert_eq!(out.frame_index, 0);
}

#[test]
fn attack_mid_run_slashes_within_one_tick() {
    let mut c = Character::spawn();
    let mut v = Velocity { x: 0, y: 0 };
    c.tick(&mut v, input(false, true, false, false), 16_000);
    assert_eq!(c.machine.state, AnimationState::Running);
    // move key still held, so the run guard is simultaneously true
    let out = c.tick(&mut v, input(false, true, false, true), 16_000);
    assert_eq!(out.state, AnimationState::Slashing);
    assert_eq!(out.frame_index, 42);
    assert!(out.flip_horizontal);
}

#[test]
fn renderer_output_mirrors_the_machine() {
    let mut c = Character::spawn();
    let mut v = Velocity { x: 0, y: 0 };
    let out = c.tick(&mut v, input(false, false, true, false), 16_000);
    assert_eq!(out.state, AnimationState::Running);
    assert_eq!(out.frame_index, 8);
    assert!(!out.flip_horizontal);
    let out = c.tick(&mut v, input(false, true, false, false), 16_000);
    assert!(out.flip_horizontal);
    assert_eq!(v.x, -500);
}
