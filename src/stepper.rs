use vstd::prelude::*;
use crate::kinematics::abs;

verus! {

/// Pulse count that stands for "until stopped": the pulse generator keeps
/// its remaining count across commands, so a continuous run is a very long one.
pub const CONTINUOUS_STEPS: i32 = 1_000_000_000;

/// What one motor's pulse generator is set to: the direction line, the number
/// of pulses, and the on and off time of each pulse (ns).
#[derive(Clone, Copy, Debug, PartialEq, Eq, Structural)]
pub struct PulseSchedule {
    pub forward: bool,
    pub count: u32,
    pub half_period_ns: u64,
}

impl PulseSchedule {
    /// `|steps|` pulses of period `period_ns`; the sign of `steps` selects the
    /// direction.
    pub fn turn_steps(period_ns: u64, steps: i32) -> (r: PulseSchedule)
        requires
            steps > i32::MIN,
        ensures
            r.forward == (steps >= 0),
            r.count == abs(steps as int),
            r.half_period_ns == period_ns / 2,
    {
        if steps < 0 {
            PulseSchedule { forward: false, count: (-steps) as u32, half_period_ns: period_ns / 2 }
        } else {
            PulseSchedule { forward: true, count: steps as u32, half_period_ns: period_ns / 2 }
        }
    }

    /// An unbounded run in direction `forward` with period `period_ns`.
    pub fn turn(forward: bool, period_ns: u64) -> (r: PulseSchedule)
        ensures
            r.forward == forward,
            r.count == CONTINUOUS_STEPS,
            r.half_period_ns == period_ns / 2,
    {
        if forward {
            PulseSchedule::turn_steps(period_ns, CONTINUOUS_STEPS)
        } else {
            PulseSchedule::turn_steps(period_ns, -CONTINUOUS_STEPS)
        }
    }
}

} // verus!
