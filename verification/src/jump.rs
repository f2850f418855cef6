//! Jump-count gating: a bounded counter that permits a fixed number of
//! jumps (one from the ground plus extra air jumps) before the player must
//! land again.

use vstd::prelude::*;

verus! {

/// Number of jumps the player may take before landing again: one ground
/// jump plus two air jumps (a triple jump).
pub const DEFAULT_JUMP_LIMIT: usize = 2;

/// Bounded jump counter. `jump_count` tracks how many jumps have been taken
/// since the player last stood on the ground; `jump_limit` is set at
/// construction and never written again by the rules in this crate. The
/// invariant `jump_count <= jump_limit` always holds.
#[derive(Clone, Copy, Debug, PartialEq, Eq, Structural)]
pub struct JumpFlag {
    pub jump_count: usize,
    pub jump_limit: usize,
}

impl JumpFlag {
    /// Well-formedness: the counter never passes the limit.
    pub open spec fn wf(self) -> bool {
        self.jump_count <= self.jump_limit
    }

    /// A jump is permitted exactly while the counter is under the limit.
    pub fn can_jump(&self) -> (r: bool)
        ensures
            r == (self.jump_count < self.jump_limit),
    {
        self.jump_count < self.jump_limit
    }

    /// Record one accepted jump. The caller must have checked `can_jump`
    /// first: incrementing past the limit is a contract violation, not a
    /// handled error.
    pub fn increase_jump_count(&mut self)
        requires
            old(self).jump_count < old(self).jump_limit,
        ensures
            final(self).jump_count == old(self).jump_count + 1,
            final(self).jump_limit == old(self).jump_limit,
            final(self).wf(),
    {
        self.jump_count += 1;
    }

    /// Reset the counter to zero, as happens whenever the player is
    /// reported grounded.
    pub fn clear(&mut self)
        ensures
            final(self).jump_count == 0,
            final(self).jump_limit == old(self).jump_limit,
            final(self).wf(),
    {
        self.jump_count = 0;
    }
}

impl Default for JumpFlag {
    /// A fresh counter: no jumps taken, limit fixed at `DEFAULT_JUMP_LIMIT`.
    fn default() -> (r: Self)
        ensures
            r.jump_count == 0,
            r.jump_limit == DEFAULT_JUMP_LIMIT,
            r.wf(),
    {
        JumpFlag { jump_count: 0, jump_limit: DEFAULT_JUMP_LIMIT }
    }
}

} // verus!
