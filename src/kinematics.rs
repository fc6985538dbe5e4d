use vstd::prelude::*;

verus! {

/// Per-pulse period of the slow speed, used whenever a piece is attached (ns).
pub const SLOW_DELAY_NS: u64 = 8_000_000;

/// Per-pulse period of the fast speed, used for free travel (ns).
pub const FAST_DELAY_NS: u64 = 4_000_000;

/// Largest number of steps one motor makes in a single move inside the envelope.
pub const MAX_MOTOR_STEPS: i32 = 4600;

/// The two travel speeds of the carriage.
#[derive(Clone, Copy, Debug, PartialEq, Eq, Structural)]
pub enum Speed {
    Slow,
    Fast,
}

pub open spec fn base_period(speed: Speed) -> int {
    match speed {
        Speed::Slow => SLOW_DELAY_NS as int,
        Speed::Fast => FAST_DELAY_NS as int,
    }
}

impl Speed {
    /// The per-pulse period of this speed, in nanoseconds.
    pub fn period_ns(self) -> (r: u64)
        ensures
            r == base_period(self),
    {
        match self {
            Speed::Slow => SLOW_DELAY_NS,
            Speed::Fast => FAST_DELAY_NS,
        }
    }
}

pub open spec fn abs(a: int) -> int {
    if a < 0 { -a } else { a }
}

pub open spec fn max(a: int, b: int) -> int {
    if a < b { b } else { a }
}

/// Steps of motor 1 for a Cartesian displacement `(dx, dy)` of the H-bot.
pub open spec fn motor1_steps(dx: int, dy: int) -> int {
    -dx - dy
}

/// Steps of motor 2 for a Cartesian displacement `(dx, dy)` of the H-bot.
pub open spec fn motor2_steps(dx: int, dy: int) -> int {
    -dx + dy
}

/// Common duration of a move: the busier motor runs at the base period.
pub open spec fn move_duration(s1: int, s2: int, base: int) -> int {
    max(abs(s1), abs(s2)) * base
}

/// Per-pulse period that makes a motor with `s` steps last `duration`;
/// zero where the motor is not commanded.
pub open spec fn motor_period(s: int, duration: int) -> int {
    if s == 0 { 0 } else { duration / abs(s) }
}

/// One motor's part of a move: a signed step count and a per-pulse period (ns).
/// A zero step count means that the motor is not commanded.
#[derive(Clone, Copy, Debug, PartialEq, Eq, Structural)]
pub struct MotorCommand {
    pub steps: i32,
    pub period_ns: u64,
}

/// What both motors run for one straight move of the carriage.
#[derive(Clone, Copy, Debug, PartialEq, Eq, Structural)]
pub struct MotorPlan {
    pub m1: MotorCommand,
    pub m2: MotorCommand,
}

/// The motor plan for a displacement `(dx, dy)` at per-pulse period `base`.
pub open spec fn plan_spec(dx: int, dy: int, base: int) -> MotorPlan {
    let s1 = motor1_steps(dx, dy);
    let s2 = motor2_steps(dx, dy);
    let d = move_duration(s1, s2, base);
    MotorPlan {
        m1: MotorCommand { steps: s1 as i32, period_ns: motor_period(s1, d) as u64 },
        m2: MotorCommand { steps: s2 as i32, period_ns: motor_period(s2, d) as u64 },
    }
}

fn abs_i32(a: i32) -> (r: u64)
    requires
        a > i32::MIN,
    ensures
        r == abs(a as int),
{
    if a < 0 { (-a) as u64 } else { a as u64 }
}

/// Computes both motors' step counts and periods for the displacement
/// `(dx, dy)`, so that both motors finish together.
pub fn plan_displacement(dx: i32, dy: i32, speed: Speed) -> (r: MotorPlan)
    requires
        abs(dx as int) <= 2400,
        abs(dy as int) <= 2200,
    ensures
        r == plan_spec(dx as int, dy as int, base_period(speed)),
        abs(r.m1.steps as int) <= MAX_MOTOR_STEPS,
        abs(r.m2.steps as int) <= MAX_MOTOR_STEPS,
{
    let s1: i32 = -dx - dy;
    let s2: i32 = -dx + dy;
    let a1 = abs_i32(s1);
    let a2 = abs_i32(s2);
    let base = speed.period_ns();
    let longest = if a1 < a2 { a2 } else { a1 };
    assert(longest * base <= 4600 * 8_000_000) by (nonlinear_arith)
        requires longest <= 4600, base <= 8_000_000;
    let duration = longest * base;
    let p1: u64 = if a1 == 0 { 0 } else { duration / a1 };
    let p2: u64 = if a2 == 0 { 0 } else { duration / a2 };
    assert(p1 <= duration) by (nonlinear_arith)
        requires a1 == 0 ==> p1 == 0, a1 != 0 ==> p1 == duration / a1;
    assert(p2 <= duration) by (nonlinear_arith)
        requires a2 == 0 ==> p2 == 0, a2 != 0 ==> p2 == duration / a2;
    MotorPlan {
        m1: MotorCommand { steps: s1, period_ns: p1 },
        m2: MotorCommand { steps: s2, period_ns: p2 },
    }
}

proof fn lemma_period_bounds(s: int, m: int, base: int)
    requires
        0 < s <= m <= MAX_MOTOR_STEPS,
        MAX_MOTOR_STEPS < base,
    ensures
        base <= (m * base) / s,
        ((m * base) / s) * s <= m * base,
        m * base < ((m * base) / s) * s + s,
{
    assert(m * base >= s * base) by (nonlinear_arith)
        requires s <= m, 0 < base;
    assert(base <= (m * base) / s) by (nonlinear_arith)
        requires m * base >= s * base, 0 < s;
    assert(((m * base) / s) * s <= m * base && m * base < ((m * base) / s) * s + s)
        by (nonlinear_arith)
        requires 0 < s;
}

/// Simultaneous completion: where both motors are commanded, each motor's
/// period times its step count lies within one pulse period of the move's
/// duration, and the two products differ by less than either period.
pub proof fn lemma_simultaneous_completion(dx: int, dy: int, speed: Speed)
    requires
        abs(dx) <= 2400,
        abs(dy) <= 2200,
        motor1_steps(dx, dy) != 0,
        motor2_steps(dx, dy) != 0,
    ensures
        ({
            let s1 = motor1_steps(dx, dy);
            let s2 = motor2_steps(dx, dy);
            let d = move_duration(s1, s2, base_period(speed));
            let t1 = motor_period(s1, d) * abs(s1);
            let t2 = motor_period(s2, d) * abs(s2);
            &&& t1 <= d < t1 + motor_period(s1, d)
            &&& t2 <= d < t2 + motor_period(s2, d)
            &&& abs(t1 - t2) < motor_period(s1, d)
            &&& abs(t1 - t2) < motor_period(s2, d)
        }),
{
    let s1 = motor1_steps(dx, dy);
    let s2 = motor2_steps(dx, dy);
    let base = base_period(speed);
    let m = max(abs(s1), abs(s2));
    lemma_period_bounds(abs(s1), m, base);
    lemma_period_bounds(abs(s2), m, base);
}

} // verus!
