//! The per-tick player movement rule.
//!
//! Horizontal: holding Left or Right writes a fixed horizontal speed
//! (doubled while Speed is held), Right winning when both are held, and
//! releasing both leaves the horizontal velocity alone (deceleration is the
//! physics collaborator's business). Vertical: a rising edge of the Jump
//! action, while the jump counter is under its limit, writes the fixed jump
//! impulse and takes one jump. Landing clears the counter, and the clear is
//! applied after the jump edge within the same tick: a jump pressed exactly
//! on the landing tick keeps its impulse, and the counter ends the tick at
//! zero.

use vstd::prelude::*;

use crate::actions::LogicalActionState;
use crate::ground::Grounded;
use crate::jump::JumpFlag;

verus! {

/// Base horizontal speed, in hundredths of a pixel per second (80 px/s).
pub const MOVE_SPEED: i64 = 8000;

/// Vertical velocity written by an accepted jump, in hundredths of a pixel
/// per second (160 px/s).
pub const JUMP_IMPULSE: i64 = 16000;

/// The player's linear velocity, in hundredths of a pixel per second.
/// The physics collaborator integrates it into a position.
#[derive(Clone, Copy, Debug, PartialEq, Eq, Structural)]
pub struct Velocity {
    pub x: i64,
    pub y: i64,
}

impl Default for Velocity {
    /// At rest.
    fn default() -> (r: Self)
        ensures
            r.x == 0 && r.y == 0,
    {
        Velocity { x: 0, y: 0 }
    }
}

/// The horizontal speed written while a direction is held.
pub open spec fn held_speed(speed_active: bool) -> int {
    if speed_active {
        2 * MOVE_SPEED
    } else {
        MOVE_SPEED as int
    }
}

/// Horizontal velocity after the rule: Right wins over Left when both are
/// held, and with neither held the old velocity stands.
pub open spec fn horizontal_after(acts: LogicalActionState, vx: int) -> int {
    if acts.right {
        held_speed(acts.speed)
    } else if acts.left {
        -held_speed(acts.speed)
    } else {
        vx
    }
}

/// A jump request fires only on the rising edge of the Jump action: it is
/// pressed this tick and was not pressed on the previous tick.
pub open spec fn jump_edge(jump_pressed: bool, was_pressed: bool) -> bool {
    jump_pressed && !was_pressed
}

/// Whether this tick's jump request is accepted: an edge while the counter
/// is under its limit.
pub open spec fn jump_accepted(
    acts: LogicalActionState,
    was_pressed: bool,
    count: int,
    limit: int,
) -> bool {
    jump_edge(acts.jump, was_pressed) && count < limit
}

/// Vertical velocity after the rule: the fixed impulse on an accepted
/// jump, otherwise unchanged.
pub open spec fn vertical_after(accepted: bool, vy: int) -> int {
    if accepted {
        JUMP_IMPULSE as int
    } else {
        vy
    }
}

/// The jump counter after the rule. The accepted jump increments first;
/// the grounded clear is applied afterwards and wins, so a jump taken on
/// the landing tick still ends the tick with a cleared counter.
pub open spec fn count_after(accepted: bool, grounded: bool, count: int) -> int {
    if grounded {
        0
    } else if accepted {
        count + 1
    } else {
        count
    }
}

/// One tick of the movement rule. `jump_was_pressed` is whether the Jump
/// action was active on the previous tick, for edge detection. Returns
/// whether this tick's jump request was accepted.
pub fn player_movement(
    actions: &LogicalActionState,
    jump_was_pressed: bool,
    velocity: &mut Velocity,
    jump_flag: &mut JumpFlag,
    grounded: &Grounded,
) -> (accepted: bool)
    requires
        old(jump_flag).wf(),
    ensures
        accepted == jump_accepted(
            *actions,
            jump_was_pressed,
            old(jump_flag).jump_count as int,
            old(jump_flag).jump_limit as int,
        ),
        final(velocity).x == horizontal_after(*actions, old(velocity).x as int),
        final(velocity).y == vertical_after(accepted, old(velocity).y as int),
        final(jump_flag).jump_count
            == count_after(accepted, grounded.0, old(jump_flag).jump_count as int),
        final(jump_flag).jump_limit == old(jump_flag).jump_limit,
        final(jump_flag).wf(),
{
    let speed: i64 = if actions.speed {
        2 * MOVE_SPEED
    } else {
        MOVE_SPEED
    };

    if actions.left {
        velocity.x = -speed;
    }
    if actions.right {
        velocity.x = speed;
    }

    let edge = actions.jump && !jump_was_pressed;
    let accepted = edge && jump_flag.can_jump();
    if accepted {
        velocity.y = JUMP_IMPULSE;
        jump_flag.increase_jump_count();
    }

    if grounded.0 {
        jump_flag.clear();
    }

    accepted
}

/// The jump counter after a run of `n` ticks during which the Jump action
/// is held the whole time (so only the first tick can be an edge) and the
/// player never counts as grounded. `was_pressed` is the state of the Jump
/// action before the first of these ticks.
pub open spec fn held_jump_counts(
    acts: LogicalActionState,
    was_pressed: bool,
    count: int,
    limit: int,
    n: nat,
) -> int
    decreases n,
{
    if n == 0 {
        count
    } else {
        let c1 = count_after(jump_accepted(acts, was_pressed, count, limit), false, count);
        held_jump_counts(acts, acts.jump, c1, limit, (n - 1) as nat)
    }
}

/// Law: holding Jump across any number of airborne ticks takes at most
/// one jump. The press edge on the first tick increments the counter by
/// exactly one; every later tick sees the action already held, so no
/// further jump fires.
pub proof fn lemma_held_jump_single_increment(
    acts: LogicalActionState,
    count: int,
    limit: int,
    n: nat,
)
    requires
        acts.jump,
        count < limit,
        n >= 1,
    ensures
        held_jump_counts(acts, false, count, limit, n) == count + 1,
{
    assert(held_jump_counts(acts, false, count, limit, n)
        == held_jump_counts(acts, true, count + 1, limit, (n - 1) as nat));
    lemma_held_jump_no_edge(acts, count + 1, limit, (n - 1) as nat);
}

/// Law: while the Jump action stays held from the previous tick, the jump
/// counter does not move, however many airborne ticks pass.
pub proof fn lemma_held_jump_no_edge(acts: LogicalActionState, count: int, limit: int, n: nat)
    requires
        acts.jump,
    ensures
        held_jump_counts(acts, true, count, limit, n) == count,
    decreases n,
{
    if n > 0 {
        lemma_held_jump_no_edge(acts, count, limit, (n - 1) as nat);
    }
}

} // verus!
