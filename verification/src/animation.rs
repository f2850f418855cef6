//! Sprite animation: state selection from the velocity vector, the clip
//! table, horizontal flip with a dead zone, and frame advance.
//!
//! Time is measured in microseconds. The frame timer accumulates elapsed
//! time; once it passes the clip's per-frame duration, the frame index
//! advances by however many whole frames fit (so low frame rates skip
//! frames instead of slowing the clip down), wraps modulo the frame count,
//! and the consumed whole frames are subtracted from the timer.

use vstd::arithmetic::div_mod::lemma_add_mod_noop_right;
use vstd::arithmetic::div_mod::lemma_div_non_zero;
use vstd::arithmetic::div_mod::lemma_fundamental_div_mod_converse_mod;
use vstd::arithmetic::div_mod::lemma_small_mod;
use vstd::prelude::*;

use crate::movement::Velocity;

verus! {

/// Horizontal speeds within `[-FLIP_DEADZONE, FLIP_DEADZONE]` (hundredths
/// of a pixel per second, so 0.1 px/s) leave the sprite's flip alone,
/// preventing flip flicker at rest.
pub const FLIP_DEADZONE: i64 = 10;

/// Vertical speeds with magnitude above this (hundredths of a pixel per
/// second, so 0.01 px/s) count as jumping or falling.
pub const VERTICAL_EPSILON: i64 = 1;

/// Microseconds per second, for converting a frame rate into a per-frame
/// duration.
pub const MICROS_PER_SECOND: u64 = 1_000_000;

/// The animation states, recomputed from the velocity every tick.
#[derive(Clone, Copy, Debug, PartialEq, Eq, Hash, Structural)]
pub enum AnimationState {
    Idle,
    Jump,
    Run,
    Fall,
}

/// Metadata of one clip: its frame count and the duration of one frame in
/// microseconds.
#[derive(Clone, Copy, Debug, PartialEq, Eq, Structural)]
pub struct AnimationMeta {
    pub len: usize,
    pub frame_time: u64,
}

impl AnimationMeta {
    /// Well-formedness: a clip has at least one frame, and a frame lasts
    /// at least one microsecond.
    pub open spec fn wf(self) -> bool {
        self.len >= 1 && self.frame_time >= 1
    }

    /// Build the metadata of a clip with `len` frames played at `fps`
    /// frames per second.
    pub fn new(len: usize, fps: u64) -> (r: AnimationMeta)
        requires
            len >= 1,
            1 <= fps <= MICROS_PER_SECOND,
        ensures
            r.len == len,
            r.frame_time == MICROS_PER_SECOND as int / fps as int,
            r.wf(),
    {
        proof {
            lemma_div_non_zero(MICROS_PER_SECOND as int, fps as int);
        }
        AnimationMeta { len, frame_time: MICROS_PER_SECOND / fps }
    }
}

/// The player's sprite as the animation rules see it: the current frame
/// index into the bound clip and the horizontal flip.
#[derive(Clone, Copy, Debug, PartialEq, Eq, Structural)]
pub struct SpriteState {
    pub index: usize,
    pub flip_x: bool,
}

impl Default for SpriteState {
    /// First frame, facing right.
    fn default() -> (r: Self)
        ensures
            r.index == 0,
            r.flip_x == false,
    {
        SpriteState { index: 0, flip_x: false }
    }
}

/// Elapsed time within the current frame, in microseconds.
#[derive(Clone, Copy, Debug, PartialEq, Eq, Structural)]
pub struct FrameTime(pub u64);

impl Default for FrameTime {
    /// No time elapsed yet.
    fn default() -> (r: Self)
        ensures
            r.0 == 0,
    {
        FrameTime(0)
    }
}

/// The clip table: for each animation state, the metadata of the clip
/// bound to it, if one has been registered. A missing entry is a
/// non-fatal configuration error and skips the clip swap for the tick.
#[derive(Clone, Copy, Debug, PartialEq, Eq, Structural)]
pub struct AnimationResource {
    pub idle: Option<AnimationMeta>,
    pub run: Option<AnimationMeta>,
    pub jump: Option<AnimationMeta>,
    pub fall: Option<AnimationMeta>,
}

impl AnimationResource {
    /// The entry registered for `state`.
    pub open spec fn spec_get(self, state: AnimationState) -> Option<AnimationMeta> {
        match state {
            AnimationState::Idle => self.idle,
            AnimationState::Run => self.run,
            AnimationState::Jump => self.jump,
            AnimationState::Fall => self.fall,
        }
    }

    /// Well-formedness: every registered clip is itself well formed.
    pub open spec fn wf(self) -> bool {
        forall|s: AnimationState| (#[trigger] self.spec_get(s)) matches Some(m) ==> m.wf()
    }

    /// Register (or replace) the clip for `state`.
    pub fn add(&mut self, state: AnimationState, meta: AnimationMeta)
        requires
            old(self).wf(),
            meta.wf(),
        ensures
            final(self).spec_get(state) == Some(meta),
            forall|s: AnimationState| s != state
                ==> #[trigger] final(self).spec_get(s) == old(self).spec_get(s),
            final(self).wf(),
    {
        match state {
            AnimationState::Idle => self.idle = Some(meta),
            AnimationState::Run => self.run = Some(meta),
            AnimationState::Jump => self.jump = Some(meta),
            AnimationState::Fall => self.fall = Some(meta),
        }
        proof {
            assert forall|s: AnimationState|
                (#[trigger] self.spec_get(s)) matches Some(m) ==> m.wf() by {
                if s != state {
                    assert(old(self).spec_get(s) matches Some(m2) ==> m2.wf());
                }
            }
        }
    }

    /// Look up the clip for `state`.
    pub fn get(&self, state: AnimationState) -> (r: Option<AnimationMeta>)
        ensures
            r == self.spec_get(state),
    {
        match state {
            AnimationState::Idle => self.idle,
            AnimationState::Run => self.run,
            AnimationState::Jump => self.jump,
            AnimationState::Fall => self.fall,
        }
    }

    /// The clip set this game ships: an 11-frame idle and a 12-frame run,
    /// both at 20 fps, and single-frame jump and fall poses held for a
    /// second.
    pub fn with_default_clips() -> (r: AnimationResource)
        ensures
            r.spec_get(AnimationState::Idle) == Some(AnimationMeta { len: 11, frame_time: 50_000u64 }),
            r.spec_get(AnimationState::Run) == Some(AnimationMeta { len: 12, frame_time: 50_000u64 }),
            r.spec_get(AnimationState::Jump)
                == Some(AnimationMeta { len: 1, frame_time: 1_000_000u64 }),
            r.spec_get(AnimationState::Fall)
                == Some(AnimationMeta { len: 1, frame_time: 1_000_000u64 }),
            r.wf(),
    {
        let mut r = AnimationResource::default();
        r.add(AnimationState::Idle, AnimationMeta::new(11, 20));
        r.add(AnimationState::Run, AnimationMeta::new(12, 20));
        r.add(AnimationState::Jump, AnimationMeta::new(1, 1));
        r.add(AnimationState::Fall, AnimationMeta::new(1, 1));
        r
    }
}

impl Default for AnimationResource {
    /// An empty table: no clips registered.
    fn default() -> (r: Self)
        ensures
            forall|s: AnimationState| #[trigger] r.spec_get(s) is None,
            r.wf(),
    {
        AnimationResource { idle: None, run: None, jump: None, fall: None }
    }
}

/// The animation state selected for a velocity: rising means Jump,
/// sinking means Fall, otherwise moving horizontally means Run and
/// standing still means Idle.
pub open spec fn spec_animation_state_for(v: Velocity) -> AnimationState {
    if v.y > VERTICAL_EPSILON {
        AnimationState::Jump
    } else if v.y < -VERTICAL_EPSILON {
        AnimationState::Fall
    } else if v.x != 0 {
        AnimationState::Run
    } else {
        AnimationState::Idle
    }
}

/// Select the animation state for the current velocity.
pub fn animation_state_for(velocity: &Velocity) -> (r: AnimationState)
    ensures
        r == spec_animation_state_for(*velocity),
{
    if velocity.y > VERTICAL_EPSILON {
        AnimationState::Jump
    } else if velocity.y < -VERTICAL_EPSILON {
        AnimationState::Fall
    } else if velocity.x != 0 {
        AnimationState::Run
    } else {
        AnimationState::Idle
    }
}

/// The sprite flip after one tick: leftward motion faces the sprite left,
/// rightward motion faces it right, and speeds inside the dead zone keep
/// the previous facing.
pub open spec fn flip_after(vx: int, flip: bool) -> bool {
    if vx < -FLIP_DEADZONE {
        true
    } else if vx > FLIP_DEADZONE {
        false
    } else {
        flip
    }
}

/// Whole frames consumed by a timer of `t` against a frame duration of
/// `d`: none until the timer strictly exceeds the duration.
pub open spec fn frames_elapsed(t: int, d: int) -> int {
    if t > d {
        t / d
    } else {
        0
    }
}

/// The timer left after consuming whole frames.
pub open spec fn timer_after(t: int, d: int) -> int {
    if t > d {
        t % d
    } else {
        t
    }
}

/// The frame index after advancing `frames` frames and wrapping.
pub open spec fn next_index(i: int, frames: int, len: int) -> int {
    (i + frames) % len
}

/// One tick of frame advance for the bound clip: accumulate `delta`
/// microseconds into the frame timer and, once it exceeds the frame
/// duration, skip forward by the whole frames consumed, wrapping the
/// index modulo the frame count.
pub fn animate_sprite(
    sprite: &mut SpriteState,
    animation: &AnimationMeta,
    frame_time: &mut FrameTime,
    delta: u64,
)
    requires
        animation.wf(),
        old(sprite).index < animation.len,
        old(frame_time).0 + delta <= u64::MAX,
    ensures
        final(sprite).flip_x == old(sprite).flip_x,
        final(sprite).index == next_index(
            old(sprite).index as int,
            frames_elapsed(old(frame_time).0 + delta, animation.frame_time as int),
            animation.len as int,
        ),
        final(sprite).index < animation.len,
        final(frame_time).0 == timer_after(
            old(frame_time).0 + delta,
            animation.frame_time as int,
        ),
{
    let ghost i = sprite.index as int;
    let ghost len = animation.len as int;
    let ghost t = old(frame_time).0 + delta;
    let ghost d = animation.frame_time as int;
    frame_time.0 = frame_time.0 + delta;
    if frame_time.0 > animation.frame_time {
        let frames: u64 = frame_time.0 / animation.frame_time;
        let len64: u64 = animation.len as u64;
        let adv: u64 = frames % len64;
        assert(adv < len64);
        let adv_idx: usize = adv as usize;
        let wrap_at: usize = animation.len - sprite.index;
        let ghost f = frames as int;
        sprite.index = if adv_idx >= wrap_at {
            adv_idx - wrap_at
        } else {
            sprite.index + adv_idx
        };
        proof {
            assert(f == t / d);
            assert(adv as int == f % len);
            lemma_add_mod_noop_right(i, f, len);
            if i + (f % len) < len {
                lemma_small_mod((i + (f % len)) as nat, len as nat);
            } else {
                lemma_fundamental_div_mod_converse_mod(
                    i + (f % len),
                    len,
                    1,
                    i + (f % len) - len,
                );
            }
            assert(sprite.index as int == (i + f) % len);
        }
        frame_time.0 = frame_time.0 % animation.frame_time;
    } else {
        proof {
            lemma_small_mod(i as nat, len as nat);
        }
    }
}

/// One tick of animation state maintenance: update the sprite flip from
/// the horizontal velocity, select the animation state for the velocity,
/// and bind that state's clip, carrying the current frame index over
/// modulo the new clip's frame count so playback stays continuous. When
/// no clip is registered for the selected state, the flip still updates
/// but the clip and index are left alone, and `false` is returned so the
/// caller can log the missing configuration.
pub fn change_player_animation(
    animations: &AnimationResource,
    velocity: &Velocity,
    sprite: &mut SpriteState,
    animation: &mut AnimationMeta,
) -> (found: bool)
    requires
        animations.wf(),
    ensures
        final(sprite).flip_x == flip_after(velocity.x as int, old(sprite).flip_x),
        found == (animations.spec_get(spec_animation_state_for(*velocity)) is Some),
        found ==> {
            &&& Some(*final(animation))
                == animations.spec_get(spec_animation_state_for(*velocity))
            &&& final(animation).wf()
            &&& final(sprite).index
                == old(sprite).index as int % final(animation).len as int
            &&& final(sprite).index < final(animation).len
        },
        !found ==> *final(animation) == *old(animation)
            && final(sprite).index == old(sprite).index,
{
    if velocity.x < -FLIP_DEADZONE {
        sprite.flip_x = true;
    } else if velocity.x > FLIP_DEADZONE {
        sprite.flip_x = false;
    }

    let state = animation_state_for(velocity);
    match animations.get(state) {
        Some(new_animation) => {
            sprite.index = sprite.index % new_animation.len;
            *animation = new_animation;
            true
        },
        None => false,
    }
}

} // verus!
