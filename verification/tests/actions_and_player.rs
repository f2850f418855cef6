//! Action mapping and the full per-tick rule sequence.

use platformer_core::actions::action_for_key;
use platformer_core::actions::actions_from_keys;
use platformer_core::actions::Action;
use platformer_core::actions::Key;
use platformer_core::actions::LogicalActionState;
use platformer_core::animation::AnimationResource;
use platformer_core::animation::AnimationState;
use platformer_core::movement::JUMP_IMPULSE;
use platformer_core::movement::MOVE_SPEED;
use platformer_core::player::Player;

#[test]
fn binding_table_is_fixed() {
    assert_eq!(action_for_key(Key::W), Action::Up);
    assert_eq!(action_for_key(Key::A), Action::Left);
    assert_eq!(action_for_key(Key::S), Action::Down);
    assert_eq!(action_for_key(Key::D), Action::Right);
    assert_eq!(action_for_key(Key::Space), Action::Jump);
    assert_eq!(action_for_key(Key::Shift), Action::Speed);
}

#[test]
fn no_keys_press_nothing() {
    let acts = actions_from_keys(&Vec::new());
    assert_eq!(acts, LogicalActionState::default());
    assert!(!acts.pressed(Action::Jump));
}

#[test]
fn held_keys_press_their_actions() {
    let acts = actions_from_keys(&vec![Key::D, Key::Space, Key::Shift]);
    assert!(acts.pressed(Action::Right));
    assert!(acts.pressed(Action::Jump));
    assert!(acts.pressed(Action::Speed));
    assert!(!acts.pressed(Action::Left));
    assert!(!acts.pressed(Action::Up));
    assert!(!acts.pressed(Action::Down));
}

#[test]
fn well_formedness_is_decidable_at_run_time() {
    let animations = AnimationResource::with_default_clips();
    let mut player = Player::spawn(&animations).unwrap();
    assert!(player.is_wf());
    player.sprite.index = player.animation.len;
    assert!(!player.is_wf());
}

#[test]
fn spawn_needs_an_idle_clip() {
    assert!(Player::spawn(&AnimationResource::default()).is_none());
    let player = Player::spawn(&AnimationResource::with_default_clips()).unwrap();
    assert!(player.grounded.0);
    assert_eq!(player.velocity.x, 0);
    assert_eq!(player.velocity.y, 0);
    assert_eq!(player.jump_flag.jump_count, 0);
    assert_eq!(player.animation.len, 11);
    assert_eq!(player.sprite.index, 0);
}

#[test]
fn tick_runs_the_rules_in_order() {
    let animations = AnimationResource::with_default_clips();
    let mut player = Player::spawn(&animations).unwrap();
    let mut acts = LogicalActionState::default();
    acts.right = true;
    acts.jump = true;
    // the fresh sensor has no evidence of stability, so the first tick
    // releases the grounded flag and the jump counts against the limit
    let found = player.tick(&animations, &acts, 0, 10_000);
    assert!(found);
    assert_eq!(player.velocity.x, MOVE_SPEED);
    assert_eq!(player.velocity.y, JUMP_IMPULSE);
    assert!(!player.grounded.0);
    assert_eq!(player.jump_flag.jump_count, 1);
    assert!(player.jump_was_pressed);
    // rising, so the single-frame jump clip is bound
    assert_eq!(player.animation.len, 1);
    assert_eq!(player.sprite.index, 0);
    assert!(!player.sprite.flip_x);
    // holding jump over later ticks takes no second jump
    player.tick(&animations, &acts, -500, 10_000);
    player.tick(&animations, &acts, -1_000, 10_000);
    assert_eq!(player.jump_flag.jump_count, 1);
    assert_eq!(player.frame_time.0, 30_000);
}

#[test]
fn landing_resets_the_jump_counter() {
    let animations = AnimationResource::with_default_clips();
    let mut player = Player::spawn(&animations).unwrap();
    let mut jump = LogicalActionState::default();
    jump.jump = true;
    let idle = LogicalActionState::default();
    player.tick(&animations, &jump, 0, 1_000);
    assert_eq!(player.jump_flag.jump_count, 1);
    // velocity decays to rest while the position settles on the floor
    player.velocity.y = 0;
    // the first settled tick differs from the last airborne sample, the
    // five after it repeat it and latch the grounded flag back on
    for _ in 0..6 {
        player.tick(&animations, &idle, 42, 1_000);
    }
    assert!(player.grounded.0);
    assert_eq!(player.jump_flag.jump_count, 0);
}
