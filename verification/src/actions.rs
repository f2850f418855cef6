//! Logical actions and the fixed key binding table.
//!
//! Raw input-device polling belongs to the host engine; the gameplay rules
//! only ever see a set of named logical actions. The binding table is
//! static: W to Up, A to Left, S to Down, D to Right, Space to Jump and
//! Shift to Speed, with no dynamic rebinding.

use vstd::prelude::*;

verus! {

/// The named logical actions the gameplay rules react to.
#[derive(Clone, Copy, Debug, PartialEq, Eq, Hash, Structural)]
pub enum Action {
    Up,
    Down,
    Right,
    Left,
    Jump,
    Speed,
}

/// The physical keys the binding table knows about.
#[derive(Clone, Copy, Debug, PartialEq, Eq, Hash, Structural)]
pub enum Key {
    W,
    A,
    S,
    D,
    Space,
    Shift,
}

/// The static binding table.
pub open spec fn spec_action_for_key(k: Key) -> Action {
    match k {
        Key::W => Action::Up,
        Key::A => Action::Left,
        Key::S => Action::Down,
        Key::D => Action::Right,
        Key::Space => Action::Jump,
        Key::Shift => Action::Speed,
    }
}

/// Translate one pressed key into its logical action.
pub fn action_for_key(k: Key) -> (r: Action)
    ensures
        r == spec_action_for_key(k),
{
    match k {
        Key::W => Action::Up,
        Key::A => Action::Left,
        Key::S => Action::Down,
        Key::D => Action::Right,
        Key::Space => Action::Jump,
        Key::Shift => Action::Speed,
    }
}

/// The set of logical actions active this tick, refreshed from raw input
/// every tick and read-only to the gameplay rules.
#[derive(Clone, Copy, Debug, PartialEq, Eq, Structural)]
pub struct LogicalActionState {
    pub up: bool,
    pub down: bool,
    pub left: bool,
    pub right: bool,
    pub jump: bool,
    pub speed: bool,
}

impl LogicalActionState {
    /// Membership of one action in the set.
    pub open spec fn spec_pressed(self, a: Action) -> bool {
        match a {
            Action::Up => self.up,
            Action::Down => self.down,
            Action::Right => self.right,
            Action::Left => self.left,
            Action::Jump => self.jump,
            Action::Speed => self.speed,
        }
    }

    /// Whether `a` is active this tick.
    pub fn pressed(&self, a: Action) -> (r: bool)
        ensures
            r == self.spec_pressed(a),
    {
        match a {
            Action::Up => self.up,
            Action::Down => self.down,
            Action::Right => self.right,
            Action::Left => self.left,
            Action::Jump => self.jump,
            Action::Speed => self.speed,
        }
    }

    /// Mark `a` as active.
    pub fn press(&mut self, a: Action)
        ensures
            forall|b: Action| #[trigger] final(self).spec_pressed(b)
                == (b == a || old(self).spec_pressed(b)),
            final(self).up == (old(self).up || a == Action::Up),
            final(self).down == (old(self).down || a == Action::Down),
            final(self).right == (old(self).right || a == Action::Right),
            final(self).left == (old(self).left || a == Action::Left),
            final(self).jump == (old(self).jump || a == Action::Jump),
            final(self).speed == (old(self).speed || a == Action::Speed),
    {
        match a {
            Action::Up => self.up = true,
            Action::Down => self.down = true,
            Action::Right => self.right = true,
            Action::Left => self.left = true,
            Action::Jump => self.jump = true,
            Action::Speed => self.speed = true,
        }
    }
}

impl Default for LogicalActionState {
    /// The empty set: an absent input device presses nothing.
    fn default() -> (r: Self)
        ensures
            forall|a: Action| !r.spec_pressed(a),
            r == (LogicalActionState {
                up: false,
                down: false,
                left: false,
                right: false,
                jump: false,
                speed: false,
            }),
    {
        LogicalActionState {
            up: false,
            down: false,
            left: false,
            right: false,
            jump: false,
            speed: false,
        }
    }
}

/// Build the logical action set for one tick from the keys currently held
/// down: an action is active exactly when some held key is bound to it.
pub fn actions_from_keys(keys: &Vec<Key>) -> (r: LogicalActionState)
    ensures
        forall|a: Action| r.spec_pressed(a)
            == exists|i: int| 0 <= i < keys@.len() && spec_action_for_key(keys@[i]) == a,
{
    let mut r = LogicalActionState::default();
    let mut n: usize = 0;
    while n < keys.len()
        invariant
            n <= keys@.len(),
            forall|a: Action| r.spec_pressed(a)
                == exists|i: int| 0 <= i < n && spec_action_for_key(keys@[i]) == a,
        decreases keys@.len() - n,
    {
        let a = action_for_key(keys[n]);
        r.press(a);
        n += 1;
    }
    r
}

} // verus!
