//! Movement-key state and the translation motor one update step produces.
//!
//! The camera layer records which of the six movement keys are held and, on
//! each update, folds them into a pure translation along the forward, up and
//! sideways axes scaled by the distance covered this step. Opposite keys
//! cancel; the fourth axis is never driven by keys.

use vstd::prelude::*;

use crate::rotor::Rotor;
use crate::rotor::RotorModel;
use crate::rotor::spec_translation;

verus! {

/// Which movement keys are currently held.
#[derive(Clone, Copy, Debug, PartialEq, Eq, Structural)]
pub struct MovementState {
    pub forward: bool,
    pub backward: bool,
    pub left: bool,
    pub right: bool,
    pub up: bool,
    pub down: bool,
}

/// The six movement keys.
#[derive(Clone, Copy, Debug, PartialEq, Eq, Structural)]
pub enum MoveKey {
    Forward,
    Backward,
    Left,
    Right,
    Up,
    Down,
}

/// `1` when the key toward the positive side of an axis is held and its
/// opposite is not, `-1` the other way round, `0` otherwise.
pub open spec fn spec_axis(pos: bool, neg: bool) -> int {
    (if pos {
        1int
    } else {
        0int
    }) - (if neg {
        1int
    } else {
        0int
    })
}

impl Default for MovementState {
    /// No key held.
    fn default() -> (r: MovementState)
        ensures
            !r.forward && !r.backward && !r.left && !r.right && !r.up && !r.down,
    {
        MovementState {
            forward: false,
            backward: false,
            left: false,
            right: false,
            up: false,
            down: false,
        }
    }
}

impl MovementState {
    /// Record that `key` is now held or released.
    pub fn apply_key(&mut self, key: MoveKey, pressed: bool)
        ensures
            final(self).forward == (if key == MoveKey::Forward {
                pressed
            } else {
                old(self).forward
            }),
            final(self).backward == (if key == MoveKey::Backward {
                pressed
            } else {
                old(self).backward
            }),
            final(self).left == (if key == MoveKey::Left {
                pressed
            } else {
                old(self).left
            }),
            final(self).right == (if key == MoveKey::Right {
                pressed
            } else {
                old(self).right
            }),
            final(self).up == (if key == MoveKey::Up {
                pressed
            } else {
                old(self).up
            }),
            final(self).down == (if key == MoveKey::Down {
                pressed
            } else {
                old(self).down
            }),
    {
        match key {
            MoveKey::Forward => self.forward = pressed,
            MoveKey::Backward => self.backward = pressed,
            MoveKey::Left => self.left = pressed,
            MoveKey::Right => self.right = pressed,
            MoveKey::Up => self.up = pressed,
            MoveKey::Down => self.down = pressed,
        }
    }

    /// The translation motor for one update step that covers a distance of
    /// `step / den` along each driven axis: forward minus backward on the
    /// first axis, up minus down on the second, right minus left on the
    /// third, and never the fourth.
    pub fn transform(&self, step: i64, den: i64) -> (r: Rotor)
        requires
            0 <= step <= 0x1000_0000,
            1 <= den <= 0x1000_0000,
        ensures
            r@ == spec_translation(
                spec_axis(self.forward, self.backward) * step,
                spec_axis(self.up, self.down) * step,
                spec_axis(self.right, self.left) * step,
                0,
                den as int,
            ),
    {
        let fx: i64 = if self.forward {
            1
        } else {
            0
        } - if self.backward {
            1
        } else {
            0
        };
        let fy: i64 = if self.up {
            1
        } else {
            0
        } - if self.down {
            1
        } else {
            0
        };
        let fz: i64 = if self.right {
            1
        } else {
            0
        } - if self.left {
            1
        } else {
            0
        };
        Rotor::translation([fx * step, fy * step, fz * step, 0], den)
    }
}

} // verus!
