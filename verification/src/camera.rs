//! The per-camera configuration record and its bounds.

use vstd::prelude::*;
use crate::fixed::FX_ONE;
use crate::transform::Vec3Fx;

verus! {

/// A key identifier as the host engine reports it.
#[derive(Clone, Copy, PartialEq, Eq, Structural, Debug)]
pub struct Key(pub u32);

/// Largest sensitivity magnitude the record admits: a thousand degrees
/// of rotation per pointer count and pixel, far past any usable setting.
pub const SENSITIVITY_MAX: i64 = 1_000_000_000;

/// Largest movement-speed scale magnitude the record admits (a factor of
/// a thousand).
pub const SPEED_MAX: i64 = 1_000_000_000;

/// Mouse sensitivity, movement speed and the four movement bindings of
/// one controlled camera.
///
/// `sensitivity` is in micro-degrees of rotation per pointer count and
/// pixel; a negative sensitivity inverts the look direction. `speed` is
/// the scale transform applied to the movement direction, one factor
/// per world axis in millionths (`FX_ONE` in each is a uniform factor
/// of one). A negative factor reverses movement along its axis, as a
/// negated scale would.
pub struct FpsCamera {
    pub sensitivity: i64,
    pub speed: Vec3Fx,
    pub move_forward: Key,
    pub move_backward: Key,
    pub move_left: Key,
    pub move_right: Key,
}

impl FpsCamera {
    /// The record keeps its scalars inside the representable ranges.
    pub open spec fn wf(self) -> bool {
        &&& -SENSITIVITY_MAX <= self.sensitivity <= SENSITIVITY_MAX
        &&& self.speed.bounded(SPEED_MAX as int)
    }
}

/// Host key identifiers of the default bindings: the values the host
/// engine gives its key codes for W, S, A and D.
pub const KEY_CODE_W: u32 = 32;
pub const KEY_CODE_S: u32 = 28;
pub const KEY_CODE_A: u32 = 10;
pub const KEY_CODE_D: u32 = 13;

impl Default for FpsCamera {
    /// Thirty degrees per count and pixel, unit speed, and W/S/A/D for
    /// forward, backward, left and right.
    fn default() -> (cam: FpsCamera)
        ensures
            cam.sensitivity == 30_000_000,
            cam.speed == (Vec3Fx { x: FX_ONE, y: FX_ONE, z: FX_ONE }),
            cam.move_forward == (Key(KEY_CODE_W)),
            cam.move_backward == (Key(KEY_CODE_S)),
            cam.move_left == (Key(KEY_CODE_A)),
            cam.move_right == (Key(KEY_CODE_D)),
            cam.wf(),
    {
        FpsCamera {
            sensitivity: 30_000_000,
            speed: Vec3Fx { x: FX_ONE, y: FX_ONE, z: FX_ONE },
            move_forward: Key(KEY_CODE_W),
            move_backward: Key(KEY_CODE_S),
            move_left: Key(KEY_CODE_A),
            move_right: Key(KEY_CODE_D),
        }
    }
}

} // verus!
