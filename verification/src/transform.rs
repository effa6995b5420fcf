//! The camera transform model: a translation and a yaw/pitch rotation.
//!
//! The host's rotation is decomposed into yaw about the vertical axis and
//! pitch about the lateral axis, roll discarded; both are kept here in
//! micro-degrees. Yaw is kept wrapped to a half turn either way, pitch is
//! kept inside the clamp range, so a well-formed transform stays
//! well-formed across frames.

use vstd::prelude::*;
use vstd::arithmetic::div_mod::lemma_fundamental_div_mod;
use vstd::arithmetic::div_mod::lemma_fundamental_div_mod_converse;
use crate::fixed::abs_spec;

verus! {

/// Half a turn, in micro-degrees.
pub const HALF_TURN: i64 = 180_000_000;

/// A full turn, in micro-degrees.
pub const FULL_TURN: i64 = 360_000_000;

/// The pitch clamp bound, in micro-degrees: roughly 88 degrees, the
/// angle of 1.54 radians, short of straight up or down.
pub const PITCH_LIMIT: i64 = 88_235_000;

/// Largest translation component magnitude the model represents: a
/// billion units either way.
pub const TRANSLATION_MAX: i64 = 1_000_000_000_000_000;

/// A fixed-point 3-vector, components in millionths of a unit.
#[derive(Clone, Copy, PartialEq, Eq, Structural, Debug)]
pub struct Vec3Fx {
    pub x: i64,
    pub y: i64,
    pub z: i64,
}

impl Vec3Fx {
    /// The zero vector.
    pub fn zero() -> (v: Vec3Fx)
        ensures
            v == (Vec3Fx { x: 0, y: 0, z: 0 }),
    {
        Vec3Fx { x: 0, y: 0, z: 0 }
    }

    /// Every component has magnitude at most `b`.
    pub open spec fn bounded(self, b: int) -> bool {
        &&& abs_spec(self.x as int) <= b
        &&& abs_spec(self.y as int) <= b
        &&& abs_spec(self.z as int) <= b
    }
}

/// Position and rotation of one controlled camera, in model units.
#[derive(Clone, Copy, PartialEq, Eq, Structural, Debug)]
pub struct CameraTransform {
    pub translation: Vec3Fx,
    pub yaw: i64,
    pub pitch: i64,
}

impl CameraTransform {
    /// Translation in range, yaw wrapped, pitch inside the clamp range.
    pub open spec fn wf(self) -> bool {
        &&& self.translation.bounded(TRANSLATION_MAX as int)
        &&& -HALF_TURN < self.yaw <= HALF_TURN
        &&& -PITCH_LIMIT <= self.pitch <= PITCH_LIMIT
    }
}

/// The angle congruent to `a` that lies in `(-HALF_TURN, HALF_TURN]`.
pub open spec fn wrap_angle_spec(a: int) -> int {
    let m = a % (FULL_TURN as int);
    if m > HALF_TURN { m - FULL_TURN } else { m }
}

/// A wrapped angle is congruent to the angle it came from and lies in the
/// half-open turn around zero; an angle already there is left unchanged.
pub proof fn lemma_wrap_angle_spec(a: int)
    ensures
        -HALF_TURN < wrap_angle_spec(a) <= HALF_TURN,
        (a - wrap_angle_spec(a)) % (FULL_TURN as int) == 0,
        -HALF_TURN < a <= HALF_TURN ==> wrap_angle_spec(a) == a,
{
    lemma_fundamental_div_mod(a, FULL_TURN as int);
    let q = a / (FULL_TURN as int);
    let m = a % (FULL_TURN as int);
    assert(q * FULL_TURN % (FULL_TURN as int) == 0) by {
        lemma_fundamental_div_mod_converse(q * (FULL_TURN as int), FULL_TURN as int, q, 0);
    }
    if m > HALF_TURN {
        assert((q + 1) * FULL_TURN % (FULL_TURN as int) == 0) by {
            lemma_fundamental_div_mod_converse(
                (q + 1) * (FULL_TURN as int), FULL_TURN as int, q + 1, 0);
        }
        assert(a - wrap_angle_spec(a) == (q + 1) * FULL_TURN) by (nonlinear_arith)
            requires
                a == q * (FULL_TURN as int) + m,
                wrap_angle_spec(a) == m - FULL_TURN,
        {
        }
    }
    if -HALF_TURN < a <= HALF_TURN {
        if a >= 0 {
            lemma_fundamental_div_mod_converse(a, FULL_TURN as int, 0, a);
        } else {
            lemma_fundamental_div_mod_converse(a, FULL_TURN as int, -1, a + FULL_TURN);
        }
    }
}

/// Wrap an angle into `(-HALF_TURN, HALF_TURN]`.
pub fn wrap_angle(a: i64) -> (r: i64)
    requires
        a > i64::MIN + FULL_TURN,
        a < i64::MAX - FULL_TURN,
    ensures
        r == wrap_angle_spec(a as int),
        -HALF_TURN < r <= HALF_TURN,
{
    proof {
        lemma_wrap_angle_spec(a as int);
    }
    let m: i64 = if a >= 0 {
        a % FULL_TURN
    } else {
        let n: i64 = (-a) % FULL_TURN;
        proof {
            lemma_fundamental_div_mod(-a as int, FULL_TURN as int);
            let q = (-a as int) / (FULL_TURN as int);
            if n == 0 {
                lemma_fundamental_div_mod_converse(a as int, FULL_TURN as int, -q, 0);
            } else {
                assert(a as int == (-q - 1) * (FULL_TURN as int) + (FULL_TURN - n))
                    by (nonlinear_arith)
                    requires
                        -a as int == q * (FULL_TURN as int) + n,
                {
                }
                lemma_fundamental_div_mod_converse(
                    a as int, FULL_TURN as int, -q - 1, FULL_TURN - n);
            }
        }
        if n == 0 {
            0
        } else {
            FULL_TURN - n
        }
    };
    if m > HALF_TURN {
        m - FULL_TURN
    } else {
        m
    }
}

} // verus!
