use slasher::clip::AnimationState;
use slasher::clip::ClipRange;
use slasher::clip::clip_range;

#[test]
fn every_state_has_a_clip_with_first_at_most_last() {
    let states = [
        AnimationState::Idle,
        AnimationState::Jumping,
        AnimationState::Falling,
        AnimationState::Running,
        AnimationState::Slashing,
    ];
    for s in states {
        let c = clip_range(s);
        assert!(c.first_frame <= c.last_frame);
    }
}

#[test]
fn clip_table_matches_the_sprite_sheet() {
    assert_eq!(
        clip_range(AnimationState::Idle),
        ClipRange { first_frame: 0, last_frame: 3 }
    );
    assert_eq!(
        clip_range(AnimationState::Running),
        ClipRange { first_frame: 8, last_frame: 13 }
    );
    assert_eq!(
        clip_range(AnimationState::Falling),
        ClipRange { first_frame: 22, last_frame: 23 }
    );
    assert_eq!(
        clip_range(AnimationState::Jumping),
        ClipRange { first_frame: 69, last_frame: 71 }
    );
    assert_eq!(
        clip_range(AnimationState::Slashing),
        ClipRange { first_frame: 42, last_frame: 45 }
    );
}
