//! The per-frame movement routine.
//!
//! Each frame the routine reads the set of held keys, accumulates a unit
//! direction for each configured binding that is down (forward and
//! backward along the local forward axis, strafe along the supplied
//! right axis), normalizes the accumulated vector to zero or unit
//! length, scales it by the movement speed and the frame delta time, and
//! adds the result to the translation. When the host reports no primary
//! window the routine leaves the transform alone and reports that
//! instead.

use vstd::prelude::*;
use crate::camera::{FpsCamera, Key, SPEED_MAX};
use crate::fixed::{FX_ONE, abs_spec, clamp_spec, fx_mul_spec, clamp, fx_mul};
use crate::transform::{CameraTransform, Vec3Fx, TRANSLATION_MAX};

verus! {

/// The inverse square root of two, in millionths: the scale a diagonal
/// direction takes to reach unit length.
pub const INV_SQRT2: i64 = 707_107;

/// Largest frame delta time the routine admits: a hundred seconds, in
/// millionths.
pub const DT_MAX: i64 = 100_000_000;

/// Largest magnitude one frame can add to a translation component, with
/// every scalar at its admitted bound.
pub const MOVE_DELTA_MAX: i64 = 200_000_000_000;

/// What a per-frame routine did.
#[derive(Clone, Copy, PartialEq, Eq, Structural, Debug)]
pub enum RoutineOutcome {
    /// The routine ran and wrote the transform.
    Applied,
    /// The host reported no primary window; the transform was left
    /// alone, and the caller should log a warning.
    NoPrimaryWindow,
}

/// The backward binding counts only when it is not the forward binding:
/// a held key feeds the first binding it matches.
pub open spec fn backward_distinct(cam: FpsCamera) -> bool {
    cam.move_backward != cam.move_forward
}

/// The left binding counts only when no earlier binding shadows it.
pub open spec fn left_distinct(cam: FpsCamera) -> bool {
    cam.move_left != cam.move_forward && cam.move_left != cam.move_backward
}

/// The right binding counts only when no earlier binding shadows it.
pub open spec fn right_distinct(cam: FpsCamera) -> bool {
    cam.move_right != cam.move_forward && cam.move_right != cam.move_backward
        && cam.move_right != cam.move_left
}

/// Net contribution of the held keys along the local forward axis.
pub open spec fn forward_axis_spec(cam: FpsCamera, keys: Seq<Key>) -> int {
    (if keys.contains(cam.move_forward) { 1int } else { 0int })
        - (if keys.contains(cam.move_backward) && backward_distinct(cam) { 1int } else { 0int })
}

/// Net contribution of the held keys along the supplied right axis.
pub open spec fn right_axis_spec(cam: FpsCamera, keys: Seq<Key>) -> int {
    (if keys.contains(cam.move_right) && right_distinct(cam) { 1int } else { 0int })
        - (if keys.contains(cam.move_left) && left_distinct(cam) { 1int } else { 0int })
}

/// A prefix one longer contains exactly what the shorter prefix
/// contains, plus the element at its end.
pub proof fn lemma_take_contains<A>(s: Seq<A>, i: int, x: A)
    requires
        0 <= i < s.len(),
    ensures
        s.take(i + 1).contains(x) <==> (s.take(i).contains(x) || s[i] == x),
{
    let t0 = s.take(i);
    let t1 = s.take(i + 1);
    if s[i] == x {
        assert(t1.contains(x)) by {
            assert(t1[i] == x);
        }
    }
    if t0.contains(x) {
        let j = choose|j: int| 0 <= j < t0.len() && t0[j] == x;
        assert(t1.contains(x)) by {
            assert(t1[j] == x);
        }
    }
    if t1.contains(x) {
        let j = choose|j: int| 0 <= j < t1.len() && t1[j] == x;
        if j < i {
            assert(t0.contains(x)) by {
                assert(t0[j] == x);
            }
        } else {
            assert(s[i] == x);
        }
    }
}

/// Accumulate the held keys into the two movement axes: forward minus
/// backward, and right minus left, each binding counting at most once
/// and a key feeding only the first binding it matches.
pub fn movement_axes(cam: &FpsCamera, pressed: &Vec<Key>) -> (axes: (i64, i64))
    ensures
        axes.0 == forward_axis_spec(*cam, pressed@),
        axes.1 == right_axis_spec(*cam, pressed@),
        -1 <= axes.0 <= 1,
        -1 <= axes.1 <= 1,
{
    let mut saw_forward: bool = false;
    let mut saw_backward: bool = false;
    let mut saw_left: bool = false;
    let mut saw_right: bool = false;
    let n: usize = pressed.len();
    for i in 0..n
        invariant
            n == pressed@.len(),
            saw_forward == pressed@.take(i as int).contains(cam.move_forward),
            saw_backward == (pressed@.take(i as int).contains(cam.move_backward)
                && backward_distinct(*cam)),
            saw_left == (pressed@.take(i as int).contains(cam.move_left)
                && left_distinct(*cam)),
            saw_right == (pressed@.take(i as int).contains(cam.move_right)
                && right_distinct(*cam)),
    {
        let k: Key = pressed[i];
        proof {
            lemma_take_contains(pressed@, i as int, cam.move_forward);
            lemma_take_contains(pressed@, i as int, cam.move_backward);
            lemma_take_contains(pressed@, i as int, cam.move_left);
            lemma_take_contains(pressed@, i as int, cam.move_right);
        }
        if k == cam.move_forward {
            saw_forward = true;
        } else if k == cam.move_backward {
            saw_backward = true;
        } else if k == cam.move_left {
            saw_left = true;
        } else if k == cam.move_right {
            saw_right = true;
        }
    }
    proof {
        assert(pressed@.take(n as int) =~= pressed@);
    }
    let f: i64 = (if saw_forward { 1i64 } else { 0i64 }) - (if saw_backward { 1i64 } else { 0i64 });
    let r: i64 = (if saw_right { 1i64 } else { 0i64 }) - (if saw_left { 1i64 } else { 0i64 });
    (f, r)
}

/// An accumulated movement direction after normalization: the zero
/// vector, or a unit vector recorded by the integer numerators of its
/// forward and right components, `f / sqrt(f*f + r*r)` forward and
/// `r / sqrt(f*f + r*r)` right.
#[derive(Clone, Copy, PartialEq, Eq, Structural, Debug)]
pub enum NormDir {
    Zero,
    Unit { f: i64, r: i64 },
}

impl NormDir {
    /// A unit direction has numerators in range and not both zero.
    pub open spec fn wf(self) -> bool {
        match self {
            NormDir::Zero => true,
            NormDir::Unit { f, r } => (f != 0 || r != 0) && -1 <= f <= 1 && -1 <= r <= 1,
        }
    }
}

/// Normalize the accumulated axes to zero or unit length.
pub fn normalize_or_zero(f: i64, r: i64) -> (d: NormDir)
    requires
        -1 <= f <= 1,
        -1 <= r <= 1,
    ensures
        d.wf(),
        f == 0 && r == 0 ==> d == NormDir::Zero,
        !(f == 0 && r == 0) ==> d == (NormDir::Unit { f, r }),
{
    if f == 0 && r == 0 {
        NormDir::Zero
    } else {
        NormDir::Unit { f, r }
    }
}

/// Squared length of a raw axis pair.
pub open spec fn dir_len_sq(f: int, r: int) -> int {
    f * f + r * r
}

/// Law: for any camera and any sequence of held keys, the accumulated
/// direction is zero-length or unit-length before speed scaling.
/// Writing `L2` for the squared length `f*f + r*r` of the raw key
/// contribution, either `L2 == 0` and normalization yields the zero
/// vector, or the normalized vector `(f, r) / sqrt(L2)` has squared
/// length `L2 / L2`, exactly one.
pub proof fn lemma_direction_zero_or_unit(cam: FpsCamera, keys: Seq<Key>)
    ensures
        ({
            let f = forward_axis_spec(cam, keys);
            let r = right_axis_spec(cam, keys);
            let len2 = dir_len_sq(f, r);
            &&& -1 <= f <= 1
            &&& -1 <= r <= 1
            &&& 0 <= len2 <= 2
            &&& (len2 == 0 <==> f == 0 && r == 0)
            &&& (len2 != 0 ==> len2 / len2 == 1)
        }),
{
    let f = forward_axis_spec(cam, keys);
    let r = right_axis_spec(cam, keys);
    let len2 = dir_len_sq(f, r);
    assert(0 <= len2 <= 2 && (len2 == 0 <==> f == 0 && r == 0)) by (nonlinear_arith)
        requires
            -1 <= f <= 1,
            -1 <= r <= 1,
            len2 == f * f + r * r,
    {
    }
    if len2 == 1 {
        assert(1int / 1int == 1);
    }
    if len2 == 2 {
        assert(2int / 2int == 1);
    }
}

/// One translation component of the frame's movement: the raw axis
/// contribution scaled in turn by the normalization factor, the movement
/// speed and the delta time, each product in millionths.
pub open spec fn scaled_component_spec(raw: int, norm: int, speed: int, dt: int) -> int {
    fx_mul_spec(fx_mul_spec(fx_mul_spec(raw, norm), speed), dt)
}

/// The frame's translation delta from the raw movement axes: zero when
/// no effective key is held, else the unit direction along the two axis
/// vectors, scaled by speed and delta time. `INV_SQRT2` is the
/// normalization factor of a diagonal direction, `FX_ONE` that of an
/// axis-aligned one.
pub open spec fn move_delta_axes_spec(
    cam: FpsCamera,
    f: int,
    r: int,
    fwd: Vec3Fx,
    right: Vec3Fx,
    dt: int,
) -> (int, int, int) {
    if f == 0 && r == 0 {
        (0, 0, 0)
    } else {
        let norm = if f != 0 && r != 0 { INV_SQRT2 as int } else { FX_ONE as int };
        (
            scaled_component_spec(f * fwd.x + r * right.x, norm, cam.speed.x as int, dt),
            scaled_component_spec(f * fwd.y + r * right.y, norm, cam.speed.y as int, dt),
            scaled_component_spec(f * fwd.z + r * right.z, norm, cam.speed.z as int, dt),
        )
    }
}

/// Signed product of an axis value in `{-1, 0, 1}` with a vector
/// component.
fn axis_times(c: i64, v: i64) -> (r: i64)
    requires
        -1 <= c <= 1,
        v > i64::MIN,
    ensures
        r == c * v,
        abs_spec(r as int) <= abs_spec(v as int),
{
    if c == 1 {
        proof {
            assert(1 * (v as int) == v as int) by (nonlinear_arith);
        }
        v
    } else if c == -1 {
        proof {
            assert((-1) * (v as int) == -(v as int)) by (nonlinear_arith);
        }
        -v
    } else {
        proof {
            assert(0 * (v as int) == 0) by (nonlinear_arith);
        }
        0
    }
}

/// One component of the frame's movement, computed and bounded.
fn scaled_component(raw: i64, norm: i64, speed: i64, dt: i64) -> (c: i64)
    requires
        abs_spec(raw as int) <= 2 * FX_ONE,
        0 <= norm <= FX_ONE,
        abs_spec(speed as int) <= SPEED_MAX,
        0 <= dt <= DT_MAX,
    ensures
        c == scaled_component_spec(raw as int, norm as int, speed as int, dt as int),
        abs_spec(c as int) <= MOVE_DELTA_MAX,
{
    proof {
        assert(abs_spec(raw as int) * abs_spec(norm as int) <= 2 * FX_ONE * FX_ONE)
            by (nonlinear_arith)
            requires
                abs_spec(raw as int) <= 2 * FX_ONE,
                0 <= abs_spec(norm as int) <= FX_ONE,
                FX_ONE == 1_000_000,
        {
        }
    }
    let s1: i64 = fx_mul(raw, norm);
    proof {
        assert(abs_spec(s1 as int) * abs_spec(speed as int) <= 2 * FX_ONE * SPEED_MAX)
            by (nonlinear_arith)
            requires
                abs_spec(s1 as int) <= 2 * FX_ONE,
                0 <= abs_spec(speed as int) <= SPEED_MAX,
                FX_ONE == 1_000_000,
                SPEED_MAX == 1_000_000_000,
        {
        }
    }
    let s2: i64 = fx_mul(s1, speed);
    proof {
        assert(abs_spec(s2 as int) * abs_spec(dt as int) <= 2_000_000_000 * DT_MAX)
            by (nonlinear_arith)
            requires
                abs_spec(s2 as int) <= 2_000_000_000,
                0 <= abs_spec(dt as int) <= DT_MAX,
                DT_MAX == 100_000_000,
        {
        }
    }
    let s3: i64 = fx_mul(s2, dt);
    s3
}

/// The frame's translation delta for a normalized direction and the
/// local axis vectors.
pub fn move_delta(
    cam: &FpsCamera,
    d: &NormDir,
    fwd: &Vec3Fx,
    right: &Vec3Fx,
    dt: i64,
) -> (delta: Vec3Fx)
    requires
        cam.wf(),
        d.wf(),
        fwd.bounded(FX_ONE as int),
        right.bounded(FX_ONE as int),
        0 <= dt <= DT_MAX,
    ensures
        ({
            let spec_delta = match *d {
                NormDir::Zero => (0int, 0int, 0int),
                NormDir::Unit { f, r } =>
                    move_delta_axes_spec(*cam, f as int, r as int, *fwd, *right, dt as int),
            };
            &&& delta.x == spec_delta.0
            &&& delta.y == spec_delta.1
            &&& delta.z == spec_delta.2
        }),
        delta.bounded(MOVE_DELTA_MAX as int),
{
    match d {
        NormDir::Zero => Vec3Fx::zero(),
        NormDir::Unit { f, r } => {
            let norm: i64 = if *f != 0 && *r != 0 { INV_SQRT2 } else { FX_ONE };
            let raw_x: i64 = axis_times(*f, fwd.x) + axis_times(*r, right.x);
            let raw_y: i64 = axis_times(*f, fwd.y) + axis_times(*r, right.y);
            let raw_z: i64 = axis_times(*f, fwd.z) + axis_times(*r, right.z);
            Vec3Fx {
                x: scaled_component(raw_x, norm, cam.speed.x, dt),
                y: scaled_component(raw_y, norm, cam.speed.y, dt),
                z: scaled_component(raw_z, norm, cam.speed.z, dt),
            }
        },
    }
}

/// Movement routine for one camera and one frame.
///
/// `pressed` is the set of keys the host reports held this frame; `fwd`
/// and `right` are the camera's local forward and right axis vectors,
/// unit length in millionths; `dt` is the frame delta time in
/// millionths of a second. With a primary window present, the held
/// bindings are accumulated, normalized, scaled by speed and delta time
/// and added to the translation, which saturates at the representable
/// range; rotation is untouched. With none, nothing changes and the
/// outcome asks the caller to warn.
pub fn player_move(
    cam: &FpsCamera,
    pressed: &Vec<Key>,
    window_present: bool,
    fwd: &Vec3Fx,
    right: &Vec3Fx,
    dt: i64,
    t: &mut CameraTransform,
) -> (out: RoutineOutcome)
    requires
        cam.wf(),
        old(t).wf(),
        fwd.bounded(FX_ONE as int),
        right.bounded(FX_ONE as int),
        0 <= dt <= DT_MAX,
    ensures
        out == if window_present { RoutineOutcome::Applied } else {
            RoutineOutcome::NoPrimaryWindow
        },
        !window_present ==> *final(t) == *old(t),
        window_present ==> ({
            let delta = move_delta_axes_spec(
                *cam,
                forward_axis_spec(*cam, pressed@),
                right_axis_spec(*cam, pressed@),
                *fwd,
                *right,
                dt as int,
            );
            &&& final(t).translation.x == clamp_spec(
                old(t).translation.x + delta.0, -TRANSLATION_MAX as int, TRANSLATION_MAX as int)
            &&& final(t).translation.y == clamp_spec(
                old(t).translation.y + delta.1, -TRANSLATION_MAX as int, TRANSLATION_MAX as int)
            &&& final(t).translation.z == clamp_spec(
                old(t).translation.z + delta.2, -TRANSLATION_MAX as int, TRANSLATION_MAX as int)
            &&& final(t).yaw == old(t).yaw
            &&& final(t).pitch == old(t).pitch
        }),
        final(t).wf(),
{
    if !window_present {
        return RoutineOutcome::NoPrimaryWindow;
    }
    let axes: (i64, i64) = movement_axes(cam, pressed);
    let d: NormDir = normalize_or_zero(axes.0, axes.1);
    let delta: Vec3Fx = move_delta(cam, &d, fwd, right, dt);
    t.translation.x = clamp(t.translation.x + delta.x, -TRANSLATION_MAX, TRANSLATION_MAX);
    t.translation.y = clamp(t.translation.y + delta.y, -TRANSLATION_MAX, TRANSLATION_MAX);
    t.translation.z = clamp(t.translation.z + delta.z, -TRANSLATION_MAX, TRANSLATION_MAX);
    RoutineOutcome::Applied
}

/// Law: with no held key matching a binding, the frame's translation
/// delta is zero, and adding it to a well-formed translation gives the
/// translation back: the movement routine leaves the transform
/// unchanged.
pub proof fn lemma_idle_keys_translation_unchanged(
    t: CameraTransform,
    cam: FpsCamera,
    keys: Seq<Key>,
    fwd: Vec3Fx,
    right: Vec3Fx,
    dt: int,
)
    requires
        t.wf(),
        !keys.contains(cam.move_forward),
        !keys.contains(cam.move_backward),
        !keys.contains(cam.move_left),
        !keys.contains(cam.move_right),
    ensures
        forward_axis_spec(cam, keys) == 0,
        right_axis_spec(cam, keys) == 0,
        move_delta_axes_spec(cam, 0, 0, fwd, right, dt) == (0int, 0int, 0int),
        clamp_spec(t.translation.x + 0, -TRANSLATION_MAX as int, TRANSLATION_MAX as int)
            == t.translation.x,
        clamp_spec(t.translation.y + 0, -TRANSLATION_MAX as int, TRANSLATION_MAX as int)
            == t.translation.y,
        clamp_spec(t.translation.z + 0, -TRANSLATION_MAX as int, TRANSLATION_MAX as int)
            == t.translation.z,
{
}

} // verus!
