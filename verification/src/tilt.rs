//! Tilt control decisions. The sensor head tilts in whole degrees; a discrete
//! input event asks for one fixed step up or down. The device itself accepts
//! or rejects the command (its physical range is its own business); a rejected
//! command must leave the tracked tilt state exactly where it was.
//!
//! The device call happens outside this crate; these functions decide the
//! target angle and fold the command's outcome back into the state.

use vstd::prelude::*;

verus! {

/// Degrees moved per discrete tilt event.
pub const TILT_STEP: i64 = 5;

/// A discrete tilt request from the input device.
#[derive(Clone, Copy, Debug, PartialEq, Eq, Structural)]
pub enum TiltEvent {
    Up,
    Down,
}

/// The angle one tilt event asks for, from the current angle.
pub open spec fn tilt_step_spec(current: int, ev: TiltEvent) -> int {
    match ev {
        TiltEvent::Up => current + TILT_STEP,
        TiltEvent::Down => current - TILT_STEP,
    }
}

/// Target angle for one tilt event: one fixed step up or down from the
/// current angle. The precondition asks only for one step of arithmetic
/// headroom — a machine limit, amply implied by the device's bounded
/// physical tilt range, from which the current angle is read.
pub fn tilt_target(current: i64, ev: TiltEvent) -> (target: i64)
    requires
        i64::MIN + TILT_STEP <= current <= i64::MAX - TILT_STEP,
    ensures
        target == tilt_step_spec(current as int, ev),
{
    match ev {
        TiltEvent::Up => current + TILT_STEP,
        TiltEvent::Down => current - TILT_STEP,
    }
}

/// Fold the device's answer back into the tilt state: an accepted command
/// moves the state to the target, a rejected one leaves it unchanged.
pub fn settle_tilt(current: i64, target: i64, accepted: bool) -> (new: i64)
    ensures
        accepted ==> new == target,
        !accepted ==> new == current,
{
    if accepted {
        target
    } else {
        current
    }
}

/// A tilt step up followed by a tilt step down (or the other way round)
/// restores the angle the state started from, whenever both commands are
/// accepted.
pub proof fn lemma_tilt_round_trip(current: int)
    ensures
        tilt_step_spec(tilt_step_spec(current, TiltEvent::Up), TiltEvent::Down) == current,
        tilt_step_spec(tilt_step_spec(current, TiltEvent::Down), TiltEvent::Up) == current,
{
}

} // verus!
