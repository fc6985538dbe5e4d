use vstd::prelude::*;
use crate::geometry::{in_envelope, MIN_X, MAX_X, MIN_Y, MAX_Y};
use crate::kinematics::{Speed, MotorPlan, plan_displacement, plan_spec, base_period};
use crate::planner::{Command, all_in_envelope};

verus! {

/// Steps both motors make away from the stop to free a switch that is
/// already pressed when an axis is homed.
pub const RELEASE_STEPS: i32 = 100;

/// Steps both motors back off from a stop once its switch has triggered.
pub const BACKOFF_STEPS: i32 = 40;

/// The phases of homing. The pose is meaningful only in `Homed`.
#[derive(Clone, Copy, Debug, PartialEq, Eq, Structural)]
pub enum HomingPhase {
    Unhomed,
    TouchingAxis1,
    BackedOff1,
    TouchingAxis2,
    BackedOff2,
    Homed,
}

/// What the hardware reports to the homing state machine.
#[derive(Clone, Copy, Debug, PartialEq, Eq, Structural)]
pub enum HomingEvent {
    /// The previous actions are done; `switch_active` is the reading of the
    /// limit switch of the axis that comes next.
    Ready { switch_active: bool },
    /// The switch that was awaited has become active.
    SwitchActive,
}

/// What the hardware is asked to do during homing.
#[derive(Clone, Copy, Debug, PartialEq, Eq, Structural)]
pub enum HomingAction {
    /// Drive the magnet servo to `engaged` and let it settle.
    Engage,
    /// Run both motors the given signed step counts at the slow speed and wait
    /// until both are done.
    Steps { m1: i32, m2: i32 },
    /// Run both motors continuously at the slow speed in the given directions.
    Run { m1_forward: bool, m2_forward: bool },
    /// Block until the limit switch of `axis` (1 or 2) is active.
    AwaitSwitch { axis: u8 },
    /// Stop both motors.
    Stop,
    /// The fixed safety delay.
    Settle,
}

/// The gantry as the planner sees it: the carriage pose in steps and the
/// homing phase.
#[derive(Clone, Copy, Debug, PartialEq, Eq, Structural)]
pub struct HBot {
    pub x: i32,
    pub y: i32,
    pub phase: HomingPhase,
}

/// Actions that start homing an axis: free a pressed switch, then run toward
/// the stop and wait for the switch.
pub open spec fn approach_actions(axis: u8, switch_active: bool) -> Seq<HomingAction> {
    let release = if axis == 1 {
        HomingAction::Steps { m1: (-RELEASE_STEPS) as i32, m2: RELEASE_STEPS }
    } else {
        HomingAction::Steps { m1: (-RELEASE_STEPS) as i32, m2: (-RELEASE_STEPS) as i32 }
    };
    let run = if axis == 1 {
        HomingAction::Run { m1_forward: true, m2_forward: false }
    } else {
        HomingAction::Run { m1_forward: true, m2_forward: true }
    };
    (if switch_active { seq![release, HomingAction::Settle] } else { seq![] }).add(
        seq![run, HomingAction::AwaitSwitch { axis }],
    )
}

/// Actions once the switch of `axis` has triggered: stop, back off, settle.
pub open spec fn backoff_actions(axis: u8) -> Seq<HomingAction> {
    let back = if axis == 1 {
        HomingAction::Steps { m1: (-BACKOFF_STEPS) as i32, m2: BACKOFF_STEPS }
    } else {
        HomingAction::Steps { m1: (-BACKOFF_STEPS) as i32, m2: (-BACKOFF_STEPS) as i32 }
    };
    seq![HomingAction::Stop, back, HomingAction::Stop, HomingAction::Settle]
}

/// One transition of the homing state machine: the next gantry state and the
/// actions to perform. Events that do not fit the phase change nothing.
pub open spec fn homing_next(g: HBot, e: HomingEvent) -> (HBot, Seq<HomingAction>) {
    match (g.phase, e) {
        (HomingPhase::Unhomed, HomingEvent::Ready { switch_active })
        | (HomingPhase::Homed, HomingEvent::Ready { switch_active }) => (
            HBot { phase: HomingPhase::TouchingAxis1, ..g },
            seq![HomingAction::Engage].add(approach_actions(1, switch_active)),
        ),
        (HomingPhase::TouchingAxis1, HomingEvent::SwitchActive) => (
            HBot { phase: HomingPhase::BackedOff1, ..g },
            backoff_actions(1),
        ),
        (HomingPhase::BackedOff1, HomingEvent::Ready { switch_active }) => (
            HBot { phase: HomingPhase::TouchingAxis2, ..g },
            approach_actions(2, switch_active),
        ),
        (HomingPhase::TouchingAxis2, HomingEvent::SwitchActive) => (
            HBot { phase: HomingPhase::BackedOff2, ..g },
            backoff_actions(2),
        ),
        (HomingPhase::BackedOff2, HomingEvent::Ready { .. }) => (
            HBot { x: 0, y: 0, phase: HomingPhase::Homed },
            seq![],
        ),
        _ => (g, seq![]),
    }
}

/// A whole homing run from an idle gantry, the switches reading `a1` and `a2`
/// when their axes come up.
pub open spec fn homing_run(g: HBot, a1: bool, a2: bool) -> (HBot, Seq<HomingAction>) {
    let (g1, c1) = homing_next(g, HomingEvent::Ready { switch_active: a1 });
    let (g2, c2) = homing_next(g1, HomingEvent::SwitchActive);
    let (g3, c3) = homing_next(g2, HomingEvent::Ready { switch_active: a2 });
    let (g4, c4) = homing_next(g3, HomingEvent::SwitchActive);
    let (g5, c5) = homing_next(g4, HomingEvent::Ready { switch_active: false });
    (g5, c1 + c2 + c3 + c4 + c5)
}

/// The actions of a full homing run, which depend on the switch readings alone.
pub open spec fn homing_script(a1: bool, a2: bool) -> Seq<HomingAction> {
    seq![HomingAction::Engage] + approach_actions(1, a1) + backoff_actions(1)
        + approach_actions(2, a2) + backoff_actions(2)
}

pub open spec fn idle(g: HBot) -> bool {
    g.phase == HomingPhase::Unhomed || g.phase == HomingPhase::Homed
}

/// Homing is idempotent: from any idle gantry a run ends homed at `(0, 0)` with
/// actions that depend on the switch readings alone, so a second run right
/// after the first ends at `(0, 0)` again and, with the same readings, emits the
/// same actions.
pub proof fn lemma_homing_idempotent(g: HBot, a1: bool, a2: bool, b1: bool, b2: bool)
    requires
        idle(g),
    ensures
        homing_run(g, a1, a2).0 == (HBot { x: 0, y: 0, phase: HomingPhase::Homed }),
        homing_run(g, a1, a2).1 == homing_script(a1, a2),
        homing_run(homing_run(g, a1, a2).0, b1, b2).0 == homing_run(g, a1, a2).0,
        homing_run(homing_run(g, a1, a2).0, b1, b2).1 == homing_script(b1, b2),
        (a1 == b1 && a2 == b2) ==> homing_run(homing_run(g, a1, a2).0, b1, b2).1
            == homing_run(g, a1, a2).1,
{
    let g1 = homing_run(g, a1, a2).0;
    assert(homing_run(g, a1, a2).1 =~= homing_script(a1, a2));
    assert(homing_run(g1, b1, b2).1 =~= homing_script(b1, b2));
}

/// The gantry after one command of a plan: a travel commits its target.
pub open spec fn after_command(g: HBot, c: Command) -> HBot {
    match c {
        Command::MoveTo { x, y, .. } => HBot { x, y, ..g },
        _ => g,
    }
}

/// The gantry after every command of `s`, in order.
pub open spec fn after_commands(g: HBot, s: Seq<Command>) -> HBot
    decreases s.len(),
{
    if s.len() == 0 {
        g
    } else {
        after_command(after_commands(g, s.drop_last()), s.last())
    }
}

/// Pose closure: after a plan whose travels all stay inside the envelope, the
/// gantry stays well-formed and homed, and its pose is the target of the last
/// travel of the plan (or the old pose, where the plan has none).
pub proof fn lemma_pose_closure(g: HBot, s: Seq<Command>)
    requires
        g.wf(),
        g.is_homed_spec(),
        all_in_envelope(s),
    ensures
        after_commands(g, s).wf(),
        after_commands(g, s).is_homed_spec(),
        forall|i: int|
            0 <= i < s.len() && s[i] is MoveTo && (forall|j: int| i < j < s.len() ==> !(
            #[trigger] s[j] is MoveTo)) ==> after_commands(g, s).x == s[i]->MoveTo_x
                && after_commands(g, s).y == s[i]->MoveTo_y,
        (forall|j: int| 0 <= j < s.len() ==> !(#[trigger] s[j] is MoveTo)) ==> after_commands(
            g,
            s,
        ).x == g.x && after_commands(g, s).y == g.y,
    decreases s.len(),
{
    if s.len() > 0 {
        let p = s.drop_last();
        assert(all_in_envelope(p)) by {
            assert forall|i: int| 0 <= i < p.len() implies match #[trigger] p[i] {
                Command::MoveTo { x, y, .. } => crate::geometry::in_envelope(x as int, y as int),
                _ => true,
            } by {
                assert(p[i] == s[i]);
            }
        }
        lemma_pose_closure(g, p);
        assert(s.last() == s[s.len() - 1]);
        assert forall|i: int|
            0 <= i < s.len() && s[i] is MoveTo && (forall|j: int| i < j < s.len() ==> !(
            #[trigger] s[j] is MoveTo)) implies after_commands(g, s).x == s[i]->MoveTo_x
            && after_commands(g, s).y == s[i]->MoveTo_y by {
            if i < s.len() - 1 {
                assert(!(s[s.len() - 1] is MoveTo));
                assert(p[i] == s[i]);
                assert forall|j: int| i < j < p.len() implies !(#[trigger] p[j] is MoveTo) by {
                    assert(p[j] == s[j]);
                }
            }
        }
        if forall|j: int| 0 <= j < s.len() ==> !(#[trigger] s[j] is MoveTo) {
            assert forall|j: int| 0 <= j < p.len() implies !(#[trigger] p[j] is MoveTo) by {
                assert(p[j] == s[j]);
            }
            assert(!(s[s.len() - 1] is MoveTo));
        }
    }
}

fn approach(axis: u8, switch_active: bool, out: &mut Vec<HomingAction>)
    requires
        axis == 1 || axis == 2,
    ensures
        final(out)@ == old(out)@ + approach_actions(axis, switch_active),
{
    let ghost start = out@;
    if switch_active {
        if axis == 1 {
            out.push(HomingAction::Steps { m1: -RELEASE_STEPS, m2: RELEASE_STEPS });
        } else {
            out.push(HomingAction::Steps { m1: -RELEASE_STEPS, m2: -RELEASE_STEPS });
        }
        out.push(HomingAction::Settle);
    }
    if axis == 1 {
        out.push(HomingAction::Run { m1_forward: true, m2_forward: false });
    } else {
        out.push(HomingAction::Run { m1_forward: true, m2_forward: true });
    }
    out.push(HomingAction::AwaitSwitch { axis });
    assert(out@ =~= start + approach_actions(axis, switch_active));
}

fn backoff(axis: u8) -> (r: Vec<HomingAction>)
    requires
        axis == 1 || axis == 2,
    ensures
        r@ == backoff_actions(axis),
{
    let mut out: Vec<HomingAction> = Vec::new();
    out.push(HomingAction::Stop);
    if axis == 1 {
        out.push(HomingAction::Steps { m1: -BACKOFF_STEPS, m2: BACKOFF_STEPS });
    } else {
        out.push(HomingAction::Steps { m1: -BACKOFF_STEPS, m2: -BACKOFF_STEPS });
    }
    out.push(HomingAction::Stop);
    out.push(HomingAction::Settle);
    assert(out@ =~= backoff_actions(axis));
    out
}

impl HBot {
    /// Well-formed: the pose lies inside the work envelope.
    pub open spec fn wf(self) -> bool {
        in_envelope(self.x as int, self.y as int)
    }

    pub open spec fn is_homed_spec(self) -> bool {
        self.phase == HomingPhase::Homed
    }

    /// A gantry that has not been homed yet.
    pub fn new() -> (r: HBot)
        ensures
            r.wf(),
            r.phase == HomingPhase::Unhomed,
    {
        HBot { x: 0, y: 0, phase: HomingPhase::Unhomed }
    }

    pub fn is_homed(&self) -> (r: bool)
        ensures
            r == self.is_homed_spec(),
    {
        match self.phase {
            HomingPhase::Homed => true,
            _ => false,
        }
    }

    /// Feeds one event to the homing state machine and returns the actions the
    /// hardware must perform next.
    pub fn homing_step(&mut self, event: HomingEvent) -> (r: Vec<HomingAction>)
        requires
            old(self).wf(),
        ensures
            (*final(self), r@) == homing_next(*old(self), event),
            final(self).wf(),
    {
        match (self.phase, event) {
            (HomingPhase::Unhomed, HomingEvent::Ready { switch_active })
            | (HomingPhase::Homed, HomingEvent::Ready { switch_active }) => {
                self.phase = HomingPhase::TouchingAxis1;
                let mut out: Vec<HomingAction> = Vec::new();
                out.push(HomingAction::Engage);
                approach(1, switch_active, &mut out);
                out
            },
            (HomingPhase::TouchingAxis1, HomingEvent::SwitchActive) => {
                self.phase = HomingPhase::BackedOff1;
                backoff(1)
            },
            (HomingPhase::BackedOff1, HomingEvent::Ready { switch_active }) => {
                self.phase = HomingPhase::TouchingAxis2;
                let mut out: Vec<HomingAction> = Vec::new();
                approach(2, switch_active, &mut out);
                assert(out@ =~= approach_actions(2, switch_active));
                out
            },
            (HomingPhase::TouchingAxis2, HomingEvent::SwitchActive) => {
                self.phase = HomingPhase::BackedOff2;
                backoff(2)
            },
            (HomingPhase::BackedOff2, HomingEvent::Ready { .. }) => {
                self.x = 0;
                self.y = 0;
                self.phase = HomingPhase::Homed;
                Vec::new()
            },
            _ => Vec::new(),
        }
    }

    /// Runs one command of a plan on the gantry: a travel commits its target
    /// and returns what the motors run; other commands change nothing here.
    pub fn apply(&mut self, c: Command) -> (r: Option<MotorPlan>)
        requires
            old(self).wf(),
            old(self).is_homed_spec(),
            c matches Command::MoveTo { x, y, .. } ==> in_envelope(x as int, y as int),
        ensures
            *final(self) == after_command(*old(self), c),
            final(self).wf(),
            match c {
                Command::MoveTo { x, y, speed } => r == Some(
                    plan_spec(x - old(self).x, y - old(self).y, base_period(speed)),
                ),
                _ => r is None,
            },
    {
        match c {
            Command::MoveTo { x, y, speed } => Some(self.move_to_xy(x, y, speed)),
            _ => None,
        }
    }

    /// The motors' plan for a straight move from the current pose to `(x, y)`.
    pub fn plan_move(&self, x: i32, y: i32, speed: Speed) -> (r: MotorPlan)
        requires
            self.wf(),
            in_envelope(x as int, y as int),
        ensures
            r == plan_spec(x - self.x, y - self.y, base_period(speed)),
    {
        plan_displacement(x - self.x, y - self.y, speed)
    }

    /// Moves the carriage in a straight line to `(x, y)`: returns what both
    /// motors run, and commits `(x, y)` as the pose. The caller runs the plan to
    /// its end before asking for the next move.
    pub fn move_to_xy(&mut self, x: i32, y: i32, speed: Speed) -> (r: MotorPlan)
        requires
            old(self).wf(),
            old(self).is_homed_spec(),
            in_envelope(x as int, y as int),
        ensures
            r == plan_spec(x - old(self).x, y - old(self).y, base_period(speed)),
            *final(self) == (HBot { x, y, phase: HomingPhase::Homed }),
    {
        let r = self.plan_move(x, y, speed);
        self.x = x;
        self.y = y;
        r
    }

    pub fn move_to_xy_slow(&mut self, x: i32, y: i32) -> (r: MotorPlan)
        requires
            old(self).wf(),
            old(self).is_homed_spec(),
            in_envelope(x as int, y as int),
        ensures
            r == plan_spec(x - old(self).x, y - old(self).y, base_period(Speed::Slow)),
            *final(self) == (HBot { x, y, phase: HomingPhase::Homed }),
    {
        self.move_to_xy(x, y, Speed::Slow)
    }

    pub fn move_to_xy_fast(&mut self, x: i32, y: i32) -> (r: MotorPlan)
        requires
            old(self).wf(),
            old(self).is_homed_spec(),
            in_envelope(x as int, y as int),
        ensures
            r == plan_spec(x - old(self).x, y - old(self).y, base_period(Speed::Fast)),
            *final(self) == (HBot { x, y, phase: HomingPhase::Homed }),
    {
        self.move_to_xy(x, y, Speed::Fast)
    }
}

} // verus!
