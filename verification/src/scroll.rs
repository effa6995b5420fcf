//! The wheel-driven speed and zoom adjustment layered on the controller.
//!
//! A two-valued mode selects what the mouse wheel drives. A key-press
//! edge toggles the mode. Each wheel event always adjusts the camera's
//! field of view; in the movement-speed mode it additionally rescales
//! the movement speed by the wheel delta.

use vstd::prelude::*;
use crate::camera::{FpsCamera, SPEED_MAX};
use crate::fixed::{abs_spec, clamp_spec, div_trunc_spec, fx_mul_spec, clamp, div_trunc, fx_mul};

verus! {

/// What the mouse wheel adjusts.
#[derive(Clone, Copy, PartialEq, Eq, Structural, Debug)]
pub enum ScrollType {
    /// The wheel rescales the movement speed (and still nudges the
    /// field of view).
    MovementSpeed,
    /// The wheel adjusts the field of view only.
    Zoom,
}

impl Default for ScrollType {
    /// The mode starts on movement speed.
    fn default() -> (s: ScrollType)
        ensures
            s == ScrollType::MovementSpeed,
    {
        ScrollType::MovementSpeed
    }
}

/// The other mode.
pub open spec fn flip_spec(s: ScrollType) -> ScrollType {
    match s {
        ScrollType::MovementSpeed => ScrollType::Zoom,
        ScrollType::Zoom => ScrollType::MovementSpeed,
    }
}

/// Advance the mode for one frame: a key-press edge flips it, anything
/// else keeps it.
pub fn switch_scroll_type(current: ScrollType, just_pressed: bool) -> (next: ScrollType)
    ensures
        next == if just_pressed { flip_spec(current) } else { current },
{
    if just_pressed {
        match current {
            ScrollType::MovementSpeed => ScrollType::Zoom,
            ScrollType::Zoom => ScrollType::MovementSpeed,
        }
    } else {
        current
    }
}

/// The mode after `n` key-press edges.
pub open spec fn toggled_n(s: ScrollType, n: nat) -> ScrollType
    decreases n,
{
    if n == 0 {
        s
    } else {
        flip_spec(toggled_n(s, (n - 1) as nat))
    }
}

/// Law: toggling the mode an even number of times returns it to its
/// original value; an odd number flips it.
pub proof fn lemma_toggle_parity(s: ScrollType, n: nat)
    ensures
        n % 2 == 0 ==> toggled_n(s, n) == s,
        n % 2 == 1 ==> toggled_n(s, n) == flip_spec(s),
    decreases n,
{
    if n > 0 {
        lemma_toggle_parity(s, (n - 1) as nat);
    }
}

/// Largest wheel magnitude one event may carry, in millionths of a
/// scroll line.
pub const WHEEL_MAX: i64 = 1_000_000_000;

/// Largest field of view the model represents, in micro-radians.
pub const FOV_MAX: i64 = 100_000_000;

/// Wheel units per micro-radian of field-of-view change: a whole scroll
/// line moves the field of view by a hundredth of a radian.
pub const FOV_WHEEL_DIVISOR: i64 = 100;

/// Wheel divisor of the speed rescale: a whole scroll line rescales the
/// speed by a tenth.
pub const SPEED_WHEEL_DIVISOR: i64 = 10;

/// The field of view after one wheel event: the scaled delta is
/// subtracted and the result clamped into `[0, FOV_MAX]`, so a positive
/// delta never raises the field of view and a negative one never lowers
/// it.
pub open spec fn fov_step_spec(fov: int, y: int) -> int {
    clamp_spec(fov - div_trunc_spec(y, FOV_WHEEL_DIVISOR as int), 0, FOV_MAX as int)
}

/// The movement speed after one wheel event in the movement-speed mode:
/// the speed is rescaled by a tenth of the wheel delta, saturating at
/// the representable range.
pub open spec fn speed_step_spec(speed: int, y: int) -> int {
    clamp_spec(
        fx_mul_spec(speed, div_trunc_spec(y, SPEED_WHEEL_DIVISOR as int)),
        -SPEED_MAX as int,
        SPEED_MAX as int,
    )
}

/// Apply one wheel event to the field of view.
pub fn scroll_fov_event(fov: i64, y: i64) -> (r: i64)
    requires
        0 <= fov <= FOV_MAX,
        abs_spec(y as int) <= WHEEL_MAX,
    ensures
        r == fov_step_spec(fov as int, y as int),
        0 <= r <= FOV_MAX,
{
    let q: i64 = div_trunc(y, FOV_WHEEL_DIVISOR);
    clamp(fov - q, 0, FOV_MAX)
}

/// Apply one wheel event to the movement speed.
pub fn scroll_speed_event(speed: i64, y: i64) -> (r: i64)
    requires
        abs_spec(speed as int) <= SPEED_MAX,
        abs_spec(y as int) <= WHEEL_MAX,
    ensures
        r == speed_step_spec(speed as int, y as int),
        abs_spec(r as int) <= SPEED_MAX,
{
    let q: i64 = div_trunc(y, SPEED_WHEEL_DIVISOR);
    proof {
        assert(abs_spec(speed as int) * abs_spec(q as int) <= SPEED_MAX * 100_000_000)
            by (nonlinear_arith)
            requires
                abs_spec(speed as int) <= SPEED_MAX,
                10 * abs_spec(q as int) <= abs_spec(y as int),
                abs_spec(y as int) <= WHEEL_MAX,
                SPEED_MAX == 1_000_000_000,
                WHEEL_MAX == 1_000_000_000,
        {
        }
    }
    clamp(fx_mul(speed, q), -SPEED_MAX, SPEED_MAX)
}

/// The field of view and per-axis speed factors after a frame's worth
/// of wheel events, applied oldest first.
pub open spec fn scroll_fold_spec(
    mode: ScrollType,
    fov: int,
    speed: (int, int, int),
    wheel: Seq<i64>,
) -> (int, (int, int, int))
    decreases wheel.len(),
{
    if wheel.len() == 0 {
        (fov, speed)
    } else {
        let prev = scroll_fold_spec(mode, fov, speed, wheel.drop_last());
        let y = wheel.last() as int;
        (
            fov_step_spec(prev.0, y),
            if mode == ScrollType::MovementSpeed {
                (
                    speed_step_spec(prev.1.0, y),
                    speed_step_spec(prev.1.1, y),
                    speed_step_spec(prev.1.2, y),
                )
            } else {
                prev.1
            },
        )
    }
}

/// Every wheel event of the frame is within the admitted magnitude.
pub open spec fn wheel_in_range(wheel: Seq<i64>) -> bool {
    forall|i: int| 0 <= i < wheel.len() ==> abs_spec(#[trigger] wheel[i] as int) <= WHEEL_MAX
}

/// Scroll routine for one camera and one frame: consume the frame's
/// wheel events in order. Every event adjusts the field of view; in the
/// movement-speed mode each event additionally rescales the movement
/// speed. The bindings and sensitivity are untouched.
pub fn scroll(mode: ScrollType, wheel: &Vec<i64>, cam: &mut FpsCamera, fov: &mut i64)
    requires
        old(cam).wf(),
        0 <= *old(fov) <= FOV_MAX,
        wheel_in_range(wheel@),
    ensures
        ({
            let end = scroll_fold_spec(
                mode,
                *old(fov) as int,
                (old(cam).speed.x as int, old(cam).speed.y as int, old(cam).speed.z as int),
                wheel@,
            );
            &&& *final(fov) == end.0
            &&& final(cam).speed.x == end.1.0
            &&& final(cam).speed.y == end.1.1
            &&& final(cam).speed.z == end.1.2
        }),
        final(cam).sensitivity == old(cam).sensitivity,
        final(cam).move_forward == old(cam).move_forward,
        final(cam).move_backward == old(cam).move_backward,
        final(cam).move_left == old(cam).move_left,
        final(cam).move_right == old(cam).move_right,
        final(cam).wf(),
        0 <= *final(fov) <= FOV_MAX,
{
    let n: usize = wheel.len();
    for i in 0..n
        invariant
            n == wheel@.len(),
            wheel_in_range(wheel@),
            cam.wf(),
            0 <= *fov <= FOV_MAX,
            ({
                let mid = scroll_fold_spec(
                    mode,
                    *old(fov) as int,
                    (old(cam).speed.x as int, old(cam).speed.y as int, old(cam).speed.z as int),
                    wheel@.take(i as int),
                );
                &&& *fov == mid.0
                &&& cam.speed.x == mid.1.0
                &&& cam.speed.y == mid.1.1
                &&& cam.speed.z == mid.1.2
            }),
            cam.sensitivity == old(cam).sensitivity,
            cam.move_forward == old(cam).move_forward,
            cam.move_backward == old(cam).move_backward,
            cam.move_left == old(cam).move_left,
            cam.move_right == old(cam).move_right,
    {
        proof {
            assert(wheel@.take(i + 1).drop_last() =~= wheel@.take(i as int));
            assert(wheel@.take(i + 1).last() == wheel@[i as int]);
        }
        let y: i64 = wheel[i];
        *fov = scroll_fov_event(*fov, y);
        if mode == ScrollType::MovementSpeed {
            cam.speed.x = scroll_speed_event(cam.speed.x, y);
            cam.speed.y = scroll_speed_event(cam.speed.y, y);
            cam.speed.z = scroll_speed_event(cam.speed.z, y);
        }
    }
    proof {
        assert(wheel@.take(n as int) =~= wheel@);
    }
}

/// Law: within a single tick the field-of-view adjustment is monotonic
/// in the sign of the wheel delta: a non-negative delta never raises
/// the field of view, a non-positive one never lowers it, and a zero
/// delta keeps it.
pub proof fn lemma_fov_monotonic_in_wheel_sign(fov: int, y: int)
    requires
        0 <= fov <= FOV_MAX,
    ensures
        y >= 0 ==> fov_step_spec(fov, y) <= fov,
        y <= 0 ==> fov_step_spec(fov, y) >= fov,
        y == 0 ==> fov_step_spec(fov, y) == fov,
{
    let q = div_trunc_spec(y, FOV_WHEEL_DIVISOR as int);
    if y <= 0 {
        assert(q <= 0) by (nonlinear_arith)
            requires
                q == div_trunc_spec(y, 100),
                y <= 0,
        {
        }
    }
    if y >= 0 {
        assert(q >= 0) by (nonlinear_arith)
            requires
                q == div_trunc_spec(y, 100),
                y >= 0,
        {
        }
    }
}

} // verus!
