//! Animation state selection, clip binding, flip and frame advance.

use platformer_core::animation::animate_sprite;
use platformer_core::animation::animation_state_for;
use platformer_core::animation::change_player_animation;
use platformer_core::animation::AnimationMeta;
use platformer_core::animation::AnimationResource;
use platformer_core::animation::AnimationState;
use platformer_core::animation::FrameTime;
use platformer_core::animation::SpriteState;
use platformer_core::movement::Velocity;

#[test]
fn meta_new_converts_fps_to_micros() {
    assert_eq!(AnimationMeta::new(11, 20).frame_time, 50_000);
    assert_eq!(AnimationMeta::new(11, 20).len, 11);
    assert_eq!(AnimationMeta::new(1, 1).frame_time, 1_000_000);
}

#[test]
fn default_clip_table_contents() {
    let animations = AnimationResource::with_default_clips();
    assert_eq!(
        animations.get(AnimationState::Idle),
        Some(AnimationMeta { len: 11, frame_time: 50_000 })
    );
    assert_eq!(
        animations.get(AnimationState::Run),
        Some(AnimationMeta { len: 12, frame_time: 50_000 })
    );
    assert_eq!(
        animations.get(AnimationState::Jump),
        Some(AnimationMeta { len: 1, frame_time: 1_000_000 })
    );
    assert_eq!(
        animations.get(AnimationState::Fall),
        Some(AnimationMeta { len: 1, frame_time: 1_000_000 })
    );
}

#[test]
fn add_registers_and_replaces_clips() {
    let mut animations = AnimationResource::default();
    assert_eq!(animations.get(AnimationState::Run), None);
    animations.add(AnimationState::Run, AnimationMeta::new(6, 10));
    assert_eq!(
        animations.get(AnimationState::Run),
        Some(AnimationMeta { len: 6, frame_time: 100_000 })
    );
    assert_eq!(animations.get(AnimationState::Idle), None);
    animations.add(AnimationState::Run, AnimationMeta::new(3, 4));
    assert_eq!(
        animations.get(AnimationState::Run),
        Some(AnimationMeta { len: 3, frame_time: 250_000 })
    );
}

#[test]
fn state_selection_from_velocity() {
    assert_eq!(animation_state_for(&Velocity { x: 0, y: 0 }), AnimationState::Idle);
    assert_eq!(animation_state_for(&Velocity { x: 5000, y: 0 }), AnimationState::Run);
    assert_eq!(animation_state_for(&Velocity { x: -1, y: 0 }), AnimationState::Run);
    assert_eq!(animation_state_for(&Velocity { x: 0, y: 5000 }), AnimationState::Jump);
    assert_eq!(animation_state_for(&Velocity { x: 9000, y: -5000 }), AnimationState::Fall);
}

#[test]
fn vertical_dead_band_is_strict() {
    // 0.01 px/s either way is still horizontal
    assert_eq!(animation_state_for(&Velocity { x: 0, y: 1 }), AnimationState::Idle);
    assert_eq!(animation_state_for(&Velocity { x: 0, y: -1 }), AnimationState::Idle);
    assert_eq!(animation_state_for(&Velocity { x: 0, y: 2 }), AnimationState::Jump);
    assert_eq!(animation_state_for(&Velocity { x: 0, y: -2 }), AnimationState::Fall);
}

#[test]
fn flip_follows_motion_outside_dead_zone() {
    let animations = AnimationResource::with_default_clips();
    let mut sprite = SpriteState::default();
    let mut meta = AnimationMeta::new(11, 20);
    change_player_animation(&animations, &Velocity { x: -5000, y: 0 }, &mut sprite, &mut meta);
    assert!(sprite.flip_x);
    change_player_animation(&animations, &Velocity { x: 5000, y: 0 }, &mut sprite, &mut meta);
    assert!(!sprite.flip_x);
}

#[test]
fn flip_keeps_facing_in_dead_zone() {
    let animations = AnimationResource::with_default_clips();
    let mut sprite = SpriteState { index: 0, flip_x: true };
    let mut meta = AnimationMeta::new(11, 20);
    // 0.1 px/s rightward is inside the dead zone: facing unchanged
    change_player_animation(&animations, &Velocity { x: 10, y: 0 }, &mut sprite, &mut meta);
    assert!(sprite.flip_x);
    change_player_animation(&animations, &Velocity { x: -10, y: 0 }, &mut sprite, &mut meta);
    assert!(sprite.flip_x);
    change_player_animation(&animations, &Velocity { x: 11, y: 0 }, &mut sprite, &mut meta);
    assert!(!sprite.flip_x);
}

#[test]
fn clip_swap_carries_frame_index_modulo() {
    let animations = AnimationResource::with_default_clips();
    let mut sprite = SpriteState { index: 7, flip_x: false };
    let mut meta = AnimationMeta::new(11, 20);
    // idle to run: 7 still fits in 12 frames
    let found = change_player_animation(&animations, &Velocity { x: 5000, y: 0 }, &mut sprite, &mut meta);
    assert!(found);
    assert_eq!(meta.len, 12);
    assert_eq!(sprite.index, 7);
    // run to jump: 7 wraps into the single-frame clip
    let found = change_player_animation(&animations, &Velocity { x: 0, y: 5000 }, &mut sprite, &mut meta);
    assert!(found);
    assert_eq!(meta.len, 1);
    assert_eq!(sprite.index, 0);
}

#[test]
fn missing_clip_skips_the_swap_but_not_the_flip() {
    let mut animations = AnimationResource::default();
    animations.add(AnimationState::Idle, AnimationMeta::new(11, 20));
    let mut sprite = SpriteState { index: 3, flip_x: false };
    let mut meta = AnimationMeta::new(11, 20);
    // run is selected but unregistered: non-fatal, nothing swapped
    let found = change_player_animation(&animations, &Velocity { x: -5000, y: 0 }, &mut sprite, &mut meta);
    assert!(!found);
    assert_eq!(meta, AnimationMeta::new(11, 20));
    assert_eq!(sprite.index, 3);
    assert!(sprite.flip_x);
}

#[test]
fn animate_accumulates_below_one_frame() {
    let meta = AnimationMeta::new(11, 20);
    let mut sprite = SpriteState { index: 2, flip_x: false };
    let mut timer = FrameTime(0);
    animate_sprite(&mut sprite, &meta, &mut timer, 30_000);
    assert_eq!(sprite.index, 2);
    assert_eq!(timer.0, 30_000);
}

#[test]
fn animate_boundary_is_strict() {
    // exactly one frame duration does not advance yet
    let meta = AnimationMeta::new(11, 20);
    let mut sprite = SpriteState { index: 2, flip_x: false };
    let mut timer = FrameTime(0);
    animate_sprite(&mut sprite, &meta, &mut timer, 50_000);
    assert_eq!(sprite.index, 2);
    assert_eq!(timer.0, 50_000);
    animate_sprite(&mut sprite, &meta, &mut timer, 1);
    assert_eq!(sprite.index, 3);
    assert_eq!(timer.0, 1);
}

#[test]
fn animate_skips_whole_frames_under_low_frame_rate() {
    let meta = AnimationMeta::new(11, 20);
    let mut sprite = SpriteState { index: 0, flip_x: false };
    let mut timer = FrameTime(0);
    // 160 ms against 50 ms frames: three whole frames consumed
    animate_sprite(&mut sprite, &meta, &mut timer, 160_000);
    assert_eq!(sprite.index, 3);
    assert_eq!(timer.0, 10_000);
}

#[test]
fn animate_wraps_modulo_frame_count() {
    let meta = AnimationMeta::new(11, 20);
    let mut sprite = SpriteState { index: 10, flip_x: false };
    let mut timer = FrameTime(0);
    animate_sprite(&mut sprite, &meta, &mut timer, 60_000);
    assert_eq!(sprite.index, 0);
    assert_eq!(timer.0, 10_000);
    // a very long stall wraps several times over: 700 ms is 14 frames
    let mut sprite = SpriteState { index: 10, flip_x: false };
    let mut timer = FrameTime(0);
    animate_sprite(&mut sprite, &meta, &mut timer, 700_000);
    assert_eq!(sprite.index, (10 + 14) % 11);
    assert_eq!(timer.0, 0);
}

#[test]
fn animate_index_stays_in_range() {
    let meta = AnimationMeta::new(5, 100);
    let mut sprite = SpriteState { index: 0, flip_x: false };
    let mut timer = FrameTime(0);
    let deltas = [3_000u64, 10_000, 25_000, 60_000, 123_456, 7, 999_999];
    for &delta in deltas.iter() {
        animate_sprite(&mut sprite, &meta, &mut timer, delta);
        assert!(sprite.index < meta.len);
        assert!(timer.0 <= meta.frame_time);
    }
}
