//! The per-frame look routine.
//!
//! Each frame the routine sums the pointer-motion deltas the host
//! reported since the last tick, converts the sum to a yaw and pitch
//! change scaled by the sensitivity divided by the smaller window
//! dimension (so angular speed is resolution independent), subtracts the
//! changes from the current yaw and pitch, clamps pitch to the
//! configured range to prevent inversion, and keeps yaw wrapped. Roll is
//! not represented, so the reconstructed rotation cannot pick one up.
//! When the host reports no primary window the routine leaves the
//! transform alone and reports that instead.

use vstd::prelude::*;
use crate::camera::{FpsCamera, SENSITIVITY_MAX};
use crate::fixed::{abs_spec, clamp_spec, div_trunc_spec, clamp, div_trunc};
use crate::movement::RoutineOutcome;
use crate::transform::{CameraTransform, PITCH_LIMIT, wrap_angle_spec, wrap_angle,
    lemma_wrap_angle_spec};

verus! {

/// Largest pointer-motion magnitude one event may carry, in counts.
pub const MOTION_EVENT_MAX: i64 = 100_000;

/// Largest number of pointer-motion events one frame may carry.
pub const MOTION_EVENTS_MAX: usize = 10_000;

/// Largest summed pointer-motion magnitude of one frame:
/// `MOTION_EVENT_MAX` counts in each of `MOTION_EVENTS_MAX` events.
pub const MOTION_TOTAL_MAX: i64 = 1_000_000_000;

/// One pointer-motion event: counts moved rightward and downward.
#[derive(Clone, Copy, PartialEq, Eq, Structural, Debug)]
pub struct MouseDelta {
    pub x: i64,
    pub y: i64,
}

/// Sum of the rightward components of a sequence of motion events.
pub open spec fn sum_dx(s: Seq<MouseDelta>) -> int
    decreases s.len(),
{
    if s.len() == 0 {
        0
    } else {
        sum_dx(s.drop_last()) + s.last().x
    }
}

/// Sum of the downward components of a sequence of motion events.
pub open spec fn sum_dy(s: Seq<MouseDelta>) -> int
    decreases s.len(),
{
    if s.len() == 0 {
        0
    } else {
        sum_dy(s.drop_last()) + s.last().y
    }
}

/// Every event of the frame is within the admitted magnitude and count.
pub open spec fn motion_in_range(s: Seq<MouseDelta>) -> bool {
    &&& s.len() <= MOTION_EVENTS_MAX
    &&& forall|i: int| 0 <= i < s.len() ==> abs_spec(#[trigger] s[i].x as int) <= MOTION_EVENT_MAX
        && abs_spec(s[i].y as int) <= MOTION_EVENT_MAX
}

/// Sum all pointer-motion deltas of the frame.
pub fn sum_motion(events: &Vec<MouseDelta>) -> (total: (i64, i64))
    requires
        motion_in_range(events@),
    ensures
        total.0 == sum_dx(events@),
        total.1 == sum_dy(events@),
        abs_spec(total.0 as int) <= MOTION_TOTAL_MAX,
        abs_spec(total.1 as int) <= MOTION_TOTAL_MAX,
{
    let mut dx: i64 = 0;
    let mut dy: i64 = 0;
    let n: usize = events.len();
    for i in 0..n
        invariant
            n == events@.len(),
            motion_in_range(events@),
            dx == sum_dx(events@.take(i as int)),
            dy == sum_dy(events@.take(i as int)),
            abs_spec(dx as int) <= i * MOTION_EVENT_MAX,
            abs_spec(dy as int) <= i * MOTION_EVENT_MAX,
    {
        proof {
            assert(events@.take(i + 1).drop_last() =~= events@.take(i as int));
            assert(events@.take(i + 1).last() == events@[i as int]);
        }
        dx = dx + events[i].x;
        dy = dy + events[i].y;
    }
    proof {
        assert(events@.take(n as int) =~= events@);
    }
    (dx, dy)
}

/// The per-count rotation scale: sensitivity divided by the smaller
/// window dimension, in micro-degrees per count. A negative sensitivity
/// gives a negative scale, which inverts the look direction.
pub open spec fn look_scale_spec(cam: FpsCamera, w: u32, h: u32) -> int {
    div_trunc_spec(cam.sensitivity as int, if w <= h { w as int } else { h as int })
}

/// Compute the per-count rotation scale of the frame.
pub fn look_scale(cam: &FpsCamera, w: u32, h: u32) -> (s: i64)
    requires
        cam.wf(),
        w >= 1,
        h >= 1,
    ensures
        s == look_scale_spec(*cam, w, h),
        abs_spec(s as int) <= SENSITIVITY_MAX,
{
    let min_dim: u32 = if w <= h { w } else { h };
    div_trunc(cam.sensitivity, min_dim as i64)
}

/// Look routine for one camera and one frame.
///
/// `events` holds the pointer-motion deltas since the last tick;
/// `window` holds the primary window's width and height in pixels, or
/// nothing when the host has no primary window. With a window present,
/// the summed motion, scaled by sensitivity over the smaller dimension,
/// is subtracted from yaw and pitch; pitch is clamped to
/// `PITCH_LIMIT` either way and yaw stays wrapped; translation is
/// untouched. With none, nothing changes and the outcome asks the
/// caller to warn.
pub fn player_look(
    cam: &FpsCamera,
    events: &Vec<MouseDelta>,
    window: Option<(u32, u32)>,
    t: &mut CameraTransform,
) -> (out: RoutineOutcome)
    requires
        cam.wf(),
        old(t).wf(),
        motion_in_range(events@),
        window matches Some(dims) ==> dims.0 >= 1 && dims.1 >= 1,
    ensures
        out == if window matches Some(_) { RoutineOutcome::Applied } else {
            RoutineOutcome::NoPrimaryWindow
        },
        window matches None ==> *final(t) == *old(t),
        window matches Some(dims) ==> ({
            let s = look_scale_spec(*cam, dims.0, dims.1);
            &&& final(t).pitch == clamp_spec(
                old(t).pitch - sum_dy(events@) * s, -PITCH_LIMIT as int, PITCH_LIMIT as int)
            &&& final(t).yaw == wrap_angle_spec(old(t).yaw - sum_dx(events@) * s)
            &&& final(t).translation == old(t).translation
        }),
        final(t).wf(),
{
    let (w, h): (u32, u32) = match window {
        Option::Some(dims) => dims,
        Option::None => {
            return RoutineOutcome::NoPrimaryWindow;
        },
    };
    let totals: (i64, i64) = sum_motion(events);
    let s: i64 = look_scale(cam, w, h);
    proof {
        assert(abs_spec(totals.0 as int * s as int) <= MOTION_TOTAL_MAX * SENSITIVITY_MAX)
            by (nonlinear_arith)
            requires
                abs_spec(totals.0 as int) <= MOTION_TOTAL_MAX,
                abs_spec(s as int) <= SENSITIVITY_MAX,
                MOTION_TOTAL_MAX == 1_000_000_000,
                SENSITIVITY_MAX == 1_000_000_000,
        {
        }
        assert(abs_spec(totals.1 as int * s as int) <= MOTION_TOTAL_MAX * SENSITIVITY_MAX)
            by (nonlinear_arith)
            requires
                abs_spec(totals.1 as int) <= MOTION_TOTAL_MAX,
                abs_spec(s as int) <= SENSITIVITY_MAX,
                MOTION_TOTAL_MAX == 1_000_000_000,
                SENSITIVITY_MAX == 1_000_000_000,
        {
        }
    }
    let pitch_change: i64 = totals.1 * s;
    let yaw_change: i64 = totals.0 * s;
    t.pitch = clamp(t.pitch - pitch_change, -PITCH_LIMIT, PITCH_LIMIT);
    t.yaw = wrap_angle(t.yaw - yaw_change);
    RoutineOutcome::Applied
}

/// Law: pitch after the look routine is inside the configured clamp
/// range whatever the motion and scale, and an in-range pitch facing
/// zero motion is returned unchanged.
pub proof fn lemma_pitch_always_clamped(pitch: int, dy: int, s: int)
    ensures
        -PITCH_LIMIT <= clamp_spec(pitch - dy * s, -PITCH_LIMIT as int, PITCH_LIMIT as int)
            <= PITCH_LIMIT,
        -PITCH_LIMIT <= pitch <= PITCH_LIMIT && dy * s == 0
            ==> clamp_spec(pitch - dy * s, -PITCH_LIMIT as int, PITCH_LIMIT as int) == pitch,
{
}

/// Law: with zero pointer motion the look routine leaves the rotation
/// unchanged. An empty event list sums to zero, a zero sum scales to a
/// zero change, and a well-formed yaw and pitch absorb a zero change.
pub proof fn lemma_zero_motion_rotation_unchanged(t: CameraTransform, s: int)
    requires
        t.wf(),
    ensures
        sum_dx(Seq::<MouseDelta>::empty()) == 0,
        sum_dy(Seq::<MouseDelta>::empty()) == 0,
        0 * s == 0,
        clamp_spec(t.pitch - 0, -PITCH_LIMIT as int, PITCH_LIMIT as int) == t.pitch,
        wrap_angle_spec(t.yaw - 0) == t.yaw,
{
    lemma_wrap_angle_spec(t.yaw as int);
}

} // verus!
