//! The player record and the per-tick rule sequence.
//!
//! All per-tick mutable player state lives in one record passed by
//! exclusive reference, so the order the rules run in is an explicit,
//! documented sequence rather than a scheduler side effect. Each tick:
//!
//! 1. ground detection samples the quantized y-position;
//! 2. the movement rule reads the fresh grounded flag, writes the
//!    velocity and takes or clears jumps (jump edge first, grounded clear
//!    second, so a jump pressed on the landing tick keeps its impulse and
//!    the counter ends the tick cleared);
//! 3. animation state selection binds the clip for the new velocity and
//!    updates the sprite flip;
//! 4. frame advance accumulates the elapsed time into the bound clip.

use vstd::prelude::*;

use crate::actions::LogicalActionState;
use crate::animation::animate_sprite;
use crate::animation::change_player_animation;
use crate::animation::flip_after;
use crate::animation::frames_elapsed;
use crate::animation::next_index;
use crate::animation::spec_animation_state_for;
use crate::animation::timer_after;
use crate::animation::AnimationMeta;
use crate::animation::AnimationResource;
use crate::animation::AnimationState;
use crate::animation::FrameTime;
use crate::animation::SpriteState;
use crate::ground::ground_detection;
use crate::ground::step_grounded;
use crate::ground::step_stability;
use crate::ground::Grounded;
use crate::ground::GroundSensor;
use crate::jump::JumpFlag;
use crate::movement::count_after;
use crate::movement::horizontal_after;
use crate::movement::jump_accepted;
use crate::movement::player_movement;
use crate::movement::vertical_after;
use crate::movement::Velocity;

verus! {

/// Everything about the player that the gameplay rules mutate, created
/// once when the player spawns and living until despawn.
#[derive(Clone, Copy, Debug, PartialEq, Eq, Structural)]
pub struct Player {
    pub velocity: Velocity,
    pub jump_flag: JumpFlag,
    pub grounded: Grounded,
    pub sensor: GroundSensor,
    pub jump_was_pressed: bool,
    pub sprite: SpriteState,
    pub animation: AnimationMeta,
    pub frame_time: FrameTime,
}

impl Player {
    /// Well-formedness: the pieces keep their own invariants and the
    /// sprite's frame index points into the bound clip.
    pub open spec fn wf(self) -> bool {
        &&& self.jump_flag.wf()
        &&& self.sensor.wf()
        &&& self.animation.wf()
        &&& self.sprite.index < self.animation.len
    }

    /// Decide well-formedness at run time, so unverified callers can test
    /// the precondition of `tick` before calling it.
    pub fn is_wf(&self) -> (r: bool)
        ensures
            r == self.wf(),
    {
        self.jump_flag.jump_count <= self.jump_flag.jump_limit
            && self.sensor.stability <= crate::ground::STABILITY_ON
            && self.animation.len >= 1
            && self.animation.frame_time >= 1
            && self.sprite.index < self.animation.len
    }

    /// Spawn a player: at rest, grounded, no jumps taken, bound to the
    /// idle clip on its first frame. Returns `None` when no idle clip is
    /// registered (a non-fatal configuration error: the caller logs it
    /// and spawns nothing this tick).
    pub fn spawn(animations: &AnimationResource) -> (r: Option<Player>)
        requires
            animations.wf(),
        ensures
            (r is Some) == (animations.spec_get(AnimationState::Idle) is Some),
            r matches Some(p) ==> {
                &&& p.wf()
                &&& p.velocity == (Velocity { x: 0i64, y: 0i64 })
                &&& p.jump_flag.jump_count == 0
                &&& p.jump_flag.jump_limit == crate::jump::DEFAULT_JUMP_LIMIT
                &&& p.grounded.0 == true
                &&& p.sensor == (GroundSensor { last_y: 0i64, stability: 0u8 })
                &&& p.jump_was_pressed == false
                &&& p.sprite == (SpriteState { index: 0usize, flip_x: false })
                &&& Some(p.animation) == animations.spec_get(AnimationState::Idle)
                &&& p.frame_time.0 == 0
            },
    {
        match animations.get(AnimationState::Idle) {
            Some(animation) => Some(Player {
                velocity: Velocity::default(),
                jump_flag: JumpFlag::default(),
                grounded: Grounded::default(),
                sensor: GroundSensor::default(),
                jump_was_pressed: false,
                sprite: SpriteState::default(),
                animation,
                frame_time: FrameTime::default(),
            }),
            None => None,
        }
    }
}

/// The player record after one tick of the rule sequence, paired with
/// whether a clip was found for the selected animation state.
pub open spec fn spec_tick(
    p: Player,
    animations: AnimationResource,
    acts: LogicalActionState,
    y: int,
    delta: int,
) -> (Player, bool) {
    let stability = step_stability(p.sensor.stability as int, y == p.sensor.last_y);
    let grounded = step_grounded(p.grounded.0, stability);
    let sensor = GroundSensor { last_y: y as i64, stability: stability as u8 };
    let accepted = jump_accepted(
        acts,
        p.jump_was_pressed,
        p.jump_flag.jump_count as int,
        p.jump_flag.jump_limit as int,
    );
    let velocity = Velocity {
        x: horizontal_after(acts, p.velocity.x as int) as i64,
        y: vertical_after(accepted, p.velocity.y as int) as i64,
    };
    let jump_flag = JumpFlag {
        jump_count: count_after(accepted, grounded, p.jump_flag.jump_count as int) as usize,
        jump_limit: p.jump_flag.jump_limit,
    };
    let flip = flip_after(velocity.x as int, p.sprite.flip_x);
    let (animation, index, found) = match animations.spec_get(
        spec_animation_state_for(velocity),
    ) {
        Some(meta) => (meta, p.sprite.index as int % meta.len as int, true),
        None => (p.animation, p.sprite.index as int, false),
    };
    let t = p.frame_time.0 + delta;
    let frames = frames_elapsed(t, animation.frame_time as int);
    let sprite = SpriteState {
        index: next_index(index, frames, animation.len as int) as usize,
        flip_x: flip,
    };
    let frame_time = FrameTime(timer_after(t, animation.frame_time as int) as u64);
    (
        Player {
            velocity,
            jump_flag,
            grounded: Grounded(grounded),
            sensor,
            jump_was_pressed: acts.jump,
            sprite,
            animation,
            frame_time,
        },
        found,
    )
}

impl Player {
    /// Run one tick of the gameplay rules, in the order documented on
    /// this module. `y` is the player's current y-position quantized to
    /// hundredths of a pixel and `delta` the elapsed time of this tick in
    /// microseconds. Returns whether a clip was registered for the
    /// selected animation state (when not, the clip swap was skipped and
    /// the caller may log the missing configuration).
    pub fn tick(
        &mut self,
        animations: &AnimationResource,
        actions: &LogicalActionState,
        y: i64,
        delta: u64,
    ) -> (clip_found: bool)
        requires
            old(self).wf(),
            animations.wf(),
            old(self).frame_time.0 + delta <= u64::MAX,
        ensures
            final(self).wf(),
            *final(self) == spec_tick(*old(self), *animations, *actions, y as int, delta as int).0,
            clip_found == spec_tick(*old(self), *animations, *actions, y as int, delta as int).1,
    {
        ground_detection(&mut self.sensor, &mut self.grounded, y);
        let was_pressed = self.jump_was_pressed;
        player_movement(
            actions,
            was_pressed,
            &mut self.velocity,
            &mut self.jump_flag,
            &self.grounded,
        );
        self.jump_was_pressed = actions.jump;
        let clip_found = change_player_animation(
            animations,
            &self.velocity,
            &mut self.sprite,
            &mut self.animation,
        );
        animate_sprite(&mut self.sprite, &self.animation, &mut self.frame_time, delta);
        clip_found
    }
}

} // verus!
