//! Closed-loop verification, run after the fitted gains are written:
//! current-mode steps against an end stop (the loop must settle onto the goal)
//! and velocity-mode travel legs (the pot slope must follow the goal). The
//! machines capture; the verdicts are judged from what they captured.

use super::rig::Rig;
use super::{distance, put, Cmd, Experiment, RigParams, WindowSample, WindowStream};
use crate::frame::TelemetrySnapshot;
use crate::math::{abs, magnitude};
use crate::regs::control;
use vstd::prelude::*;

verus! {

/// Still reads in a row, this one included.
pub open spec fn still_reads(last: Option<u16>, still: int, pos: u16, eps: int) -> int {
    if last matches Some(l) && abs(pos - l) <= eps {
        still + 1
    } else {
        0
    }
}

/// The low 16 bits of `x`, as an `i16`.
pub open spec fn wrap16(x: int) -> int {
    (x + 0x8000) % 0x1_0000 - 0x8000
}

/// Goal-current steps into a stall. Amplitudes must clear the current window
/// floor and stay under the table's current limit.
pub struct VerifyCurrentCfg {
    /// Seek drive toward each end, q15, open loop.
    pub seek_duty_q15: i16,
    /// Step amplitudes, ccounts, applied with the stall direction's sign.
    pub steps_counts: Vec<i16>,
    pub dwell_polls: u32,
    pub poll_ms: u32,
    pub rest_ms: u32,
    pub stall_eps: u16,
    pub stall_polls: u32,
    pub seek_poll_ms: u32,
}

impl Default for VerifyCurrentCfg {
    fn default() -> (r: Self)
        ensures
            r.seek_duty_q15 == 8520,
            r.steps_counts@ == seq![110i16, 140i16],
            r.dwell_polls == 250,
            r.poll_ms == 2,
            r.rest_ms == 300,
            r.stall_eps == 3,
            r.stall_polls == 8,
            r.seek_poll_ms == 30,
    {
        VerifyCurrentCfg {
            seek_duty_q15: 8520,
            steps_counts: vec![110, 140],
            dwell_polls: 250,
            poll_ms: 2,
            rest_ms: 300,
            stall_eps: 3,
            stall_polls: 8,
            seek_poll_ms: 30,
        }
    }
}

#[derive(Copy, Clone, Debug, PartialEq, Eq, Structural)]
pub enum CPhase {
    ModeOpen,
    TorqueOn,
    SeekSet,
    SeekRead,
    SeekEval,
    SeekOff,
    SwitchTorqueOff,
    SwitchMode,
    SwitchTorqueOn,
    StepSet,
    StepRead,
    StepEval,
    StepOff,
    StepRest,
    DirTorqueOff,
    DirModeOpen,
    FinishGoal,
    FinishTorque,
    Finished,
}

/// One step's raw windows, every one from the step on, so that the settle time
/// is measurable; the step's clock starts at the first.
pub struct StepCapture {
    pub goal: i16,
    pub windows: Vec<WindowSample>,
}

/// A captured step as plain values.
pub struct StepView {
    pub goal: int,
    pub windows: Seq<WindowSample>,
}

impl StepCapture {
    pub open spec fn view(&self) -> StepView {
        StepView { goal: self.goal as int, windows: self.windows@ }
    }
}

pub open spec fn steps_of(captures: Seq<StepCapture>) -> Seq<StepView> {
    captures.map_values(|c: StepCapture| c@)
}

pub struct VerifyCurrent {
    pub cfg: VerifyCurrentCfg,
    /// Windows the mean leaves out at the head of each step.
    pub settle_windows: u32,
    pub phase: CPhase,
    /// The second end, with negative drive.
    pub reverse: bool,
    pub step_idx: usize,
    pub polls_left: u32,
    pub last_pos: Option<u16>,
    pub still: u32,
    pub windows: WindowStream,
    pub cur: Option<StepCapture>,
    pub captures: Vec<StepCapture>,
}

/// The configuration as plain values.
pub struct CurrentPlan {
    pub seek_duty: int,
    pub steps: Seq<i16>,
    pub dwell_polls: u32,
    pub poll_ms: u32,
    pub rest_ms: u32,
    pub stall_eps: u16,
    pub stall_polls: u32,
    pub seek_poll_ms: u32,
}

/// The machine as plain values.
pub struct CurrentView {
    pub phase: CPhase,
    pub reverse: bool,
    pub step_idx: int,
    pub polls_left: int,
    pub last_pos: Option<u16>,
    pub still: int,
    pub windows: WindowStream,
    pub cur: Option<StepView>,
    pub captures: Seq<StepView>,
}

impl CurrentPlan {
    pub open spec fn valid(self) -> bool {
        1 <= self.steps.len()
    }

    pub open spec fn signed(self, reverse: bool, x: int) -> int {
        if reverse {
            -x
        } else {
            x
        }
    }

    pub open spec fn goal(self, reverse: bool, step: int) -> int {
        self.signed(reverse, self.steps[step] as int)
    }
}

impl CurrentView {
    pub open spec fn to(self, phase: CPhase) -> CurrentView {
        CurrentView { phase, ..self }
    }

    /// A seek read judged: enough still reads in a row end the seek.
    pub open spec fn seek_judged(self, plan: CurrentPlan, obs: Option<TelemetrySnapshot>) -> CurrentView {
        let t = match obs {
            Some(o) => CurrentView {
                still: still_reads(self.last_pos, self.still, o.pos, plan.stall_eps as int),
                last_pos: Some(o.pos),
                ..self
            },
            None => self,
        };
        t.to(
            if t.still >= plan.stall_polls {
                CPhase::SeekOff
            } else {
                CPhase::SeekRead
            },
        )
    }

    /// A step read judged: a fresh window is kept, and the dwell counts down.
    pub open spec fn step_judged(self, plan: CurrentPlan, obs: Option<TelemetrySnapshot>) -> CurrentView {
        let left = if self.polls_left > 0 {
            self.polls_left - 1
        } else {
            0
        };
        let phase = if left == 0 {
            CPhase::StepOff
        } else {
            CPhase::StepRead
        };
        match obs {
            None => CurrentView { polls_left: left, phase, ..self },
            Some(o) => CurrentView {
                polls_left: left,
                phase,
                windows: self.windows.after(o.agg_seq),
                cur: match (self.cur, self.windows.sampled(o)) {
                    (Some(c), Some(w)) => Some(StepView { windows: c.windows.push(w), ..c }),
                    _ => self.cur,
                },
                ..self
            },
        }
    }

    /// One step of the machine.
    pub open spec fn next(self, plan: CurrentPlan, obs: Option<TelemetrySnapshot>) -> (CurrentView, Cmd) {
        match self.phase {
            CPhase::ModeOpen => (self.to(CPhase::TorqueOn), put(control::mode(), 0)),
            CPhase::TorqueOn => (self.to(CPhase::SeekSet), put(control::torque_enable(), 1)),
            CPhase::SeekSet => (
                CurrentView { phase: CPhase::SeekRead, last_pos: None, still: 0, ..self },
                put(control::goal_duty(), plan.signed(self.reverse, plan.seek_duty)),
            ),
            CPhase::SeekRead => (self.to(CPhase::SeekEval), Cmd::Read),
            CPhase::SeekEval => {
                let n = self.seek_judged(plan, obs);
                (
                    n,
                    Cmd::Pause {
                        ms: if n.phase == CPhase::SeekOff {
                            0
                        } else {
                            plan.seek_poll_ms
                        },
                    },
                )
            },
            CPhase::SeekOff => (self.to(CPhase::SwitchTorqueOff), put(control::goal_duty(), 0)),
            CPhase::SwitchTorqueOff => (
                self.to(CPhase::SwitchMode),
                put(control::torque_enable(), 0),
            ),
            CPhase::SwitchMode => (self.to(CPhase::SwitchTorqueOn), put(control::mode(), 1)),
            CPhase::SwitchTorqueOn => (
                CurrentView { step_idx: 0, phase: CPhase::StepSet, ..self },
                put(control::torque_enable(), 1),
            ),
            CPhase::StepSet => {
                let goal = plan.goal(self.reverse, self.step_idx);
                (
                    CurrentView {
                        polls_left: plan.dwell_polls as int,
                        windows: self.windows.marked(),
                        cur: Some(StepView { goal: wrap16(goal), windows: Seq::empty() }),
                        phase: CPhase::StepRead,
                        ..self
                    },
                    put(control::goal_current(), goal),
                )
            },
            CPhase::StepRead => (self.to(CPhase::StepEval), Cmd::Read),
            CPhase::StepEval => {
                let n = self.step_judged(plan, obs);
                (
                    n,
                    Cmd::Pause {
                        ms: if n.phase == CPhase::StepOff {
                            0
                        } else {
                            plan.poll_ms
                        },
                    },
                )
            },
            CPhase::StepOff => (
                CurrentView {
                    captures: match self.cur {
                        Some(c) => self.captures.push(c),
                        None => self.captures,
                    },
                    cur: None,
                    phase: CPhase::StepRest,
                    ..self
                },
                put(control::goal_current(), 0),
            ),
            CPhase::StepRest => {
                let idx = self.step_idx + 1;
                (
                    if idx < plan.steps.len() {
                        CurrentView { step_idx: idx, phase: CPhase::StepSet, ..self }
                    } else if !self.reverse {
                        CurrentView {
                            step_idx: idx,
                            reverse: true,
                            phase: CPhase::DirTorqueOff,
                            ..self
                        }
                    } else {
                        CurrentView { step_idx: idx, phase: CPhase::FinishGoal, ..self }
                    },
                    Cmd::Pause { ms: plan.rest_ms },
                )
            },
            CPhase::DirTorqueOff => (
                self.to(CPhase::DirModeOpen),
                put(control::torque_enable(), 0),
            ),
            CPhase::DirModeOpen => (self.to(CPhase::TorqueOn), put(control::mode(), 0)),
            CPhase::FinishGoal => (self.to(CPhase::FinishTorque), put(control::goal_current(), 0)),
            CPhase::FinishTorque => (self.to(CPhase::Finished), put(control::torque_enable(), 0)),
            CPhase::Finished => (self, Cmd::Done),
        }
    }

    pub open spec fn seeking(self) -> bool {
        self.phase == CPhase::SeekRead || self.phase == CPhase::SeekEval
    }

    /// A step is set and not yet filed.
    pub open spec fn stepping(self) -> bool {
        self.phase == CPhase::StepRead || self.phase == CPhase::StepEval || self.phase
            == CPhase::StepOff
    }

    /// Steps behind the machine.
    pub open spec fn steps_done(self, plan: CurrentPlan) -> int {
        let n = plan.steps.len() as int;
        match self.phase {
            CPhase::StepSet | CPhase::StepRead | CPhase::StepEval | CPhase::StepOff => (if self.reverse {
                n
            } else {
                0
            }) + self.step_idx,
            CPhase::StepRest => (if self.reverse {
                n
            } else {
                0
            }) + self.step_idx + 1,
            CPhase::FinishGoal | CPhase::FinishTorque | CPhase::Finished => 2 * n,
            _ => if self.reverse {
                n
            } else {
                0
            },
        }
    }

    /// What the machine's own steps keep true.
    pub open spec fn consistent(self, plan: CurrentPlan) -> bool {
        &&& 0 <= self.still && 0 <= self.polls_left
        &&& self.seeking() ==> self.still < plan.stall_polls || self.still == 0
        &&& self.stepping() || self.phase == CPhase::StepSet || self.phase == CPhase::StepRest
            ==> 0 <= self.step_idx < plan.steps.len()
        &&& self.phase == CPhase::ModeOpen ==> !self.reverse
        &&& self.phase == CPhase::DirTorqueOff || self.phase == CPhase::DirModeOpen ==> self.reverse
        &&& self.phase == CPhase::FinishGoal || self.phase == CPhase::FinishTorque || self.phase
            == CPhase::Finished ==> self.reverse
        &&& self.stepping() ==> (self.cur matches Some(c) && c.goal == wrap16(
            plan.goal(self.reverse, self.step_idx),
        ))
        &&& self.captures.len() == self.steps_done(plan)
        &&& forall|k: int|
            0 <= k < self.captures.len() ==> (#[trigger] self.captures[k]).goal == wrap16(
                if k < plan.steps.len() {
                    plan.goal(false, k)
                } else {
                    plan.goal(true, k - plan.steps.len())
                },
            )
    }

    /// What the control registers hold in each phase.
    pub open spec fn posture(self, plan: CurrentPlan, rig: Rig) -> bool {
        &&& rig.velocity == 0
        &&& match self.phase {
            CPhase::ModeOpen => rig == Rig::parked(),
            CPhase::TorqueOn => rig == Rig::parked(),
            CPhase::SeekSet | CPhase::SwitchTorqueOff => rig.torque == 1 && rig.mode == 0 && rig.idle(),
            CPhase::SeekRead | CPhase::SeekEval | CPhase::SeekOff => rig.torque == 1 && rig.mode == 0
                && rig.current == 0 && rig.duty == plan.signed(self.reverse, plan.seek_duty),
            CPhase::SwitchMode => rig.torque == 0 && rig.mode == 0 && rig.idle(),
            CPhase::SwitchTorqueOn | CPhase::DirModeOpen => rig.torque == 0 && rig.mode == 1
                && rig.idle(),
            CPhase::StepSet
            | CPhase::StepRest
            | CPhase::DirTorqueOff
            | CPhase::FinishGoal
            | CPhase::FinishTorque => rig.torque == 1 && rig.mode == 1 && rig.idle(),
            CPhase::StepRead | CPhase::StepEval | CPhase::StepOff => rig.torque == 1 && rig.mode == 1
                && rig.duty == 0 && rig.current == plan.goal(self.reverse, self.step_idx),
            CPhase::Finished => rig.torque == 0 && rig.idle(),
        }
    }
}

impl VerifyCurrent {
    pub open spec fn plan(&self) -> CurrentPlan {
        CurrentPlan {
            seek_duty: self.cfg.seek_duty_q15 as int,
            steps: self.cfg.steps_counts@,
            dwell_polls: self.cfg.dwell_polls,
            poll_ms: self.cfg.poll_ms,
            rest_ms: self.cfg.rest_ms,
            stall_eps: self.cfg.stall_eps,
            stall_polls: self.cfg.stall_polls,
            seek_poll_ms: self.cfg.seek_poll_ms,
        }
    }

    pub open spec fn view(&self) -> CurrentView {
        CurrentView {
            phase: self.phase,
            reverse: self.reverse,
            step_idx: self.step_idx as int,
            polls_left: self.polls_left as int,
            last_pos: self.last_pos,
            still: self.still as int,
            windows: self.windows,
            cur: match self.cur {
                Some(c) => Some(c@),
                None => None,
            },
            captures: steps_of(self.captures@),
        }
    }

    /// The stream keeps every window: settling is what the steps measure.
    pub fn new(cfg: VerifyCurrentCfg, params: &RigParams) -> (r: Self)
        ensures
            r.cfg == cfg,
            r.settle_windows == params.settle_windows,
            r@ == (CurrentView {
                phase: CPhase::ModeOpen,
                reverse: false,
                step_idx: 0,
                polls_left: 0,
                last_pos: None,
                still: 0,
                windows: WindowStream::started(0),
                cur: None,
                captures: Seq::empty(),
            }),
            r.plan().valid() ==> r.wf(),
    {
        let raw = RigParams { settle_windows: 0, ..*params };
        let r = VerifyCurrent {
            cfg,
            settle_windows: params.settle_windows,
            phase: CPhase::ModeOpen,
            reverse: false,
            step_idx: 0,
            polls_left: 0,
            last_pos: None,
            still: 0,
            windows: WindowStream::new(&raw),
            cur: None,
            captures: Vec::new(),
        };
        assert(r@.captures =~= Seq::empty());
        r
    }

    fn signed(&self, x: i16) -> (r: i32)
        ensures
            r == self.plan().signed(self.reverse, x as int),
    {
        if self.reverse {
            -(x as i32)
        } else {
            x as i32
        }
    }
}

fn narrow(x: i32) -> (r: i16)
    requires
        -32_768 <= x <= 32_768,
    ensures
        r == wrap16(x as int),
{
    if x == 32_768 {
        i16::MIN
    } else {
        x as i16
    }
}

impl Experiment for VerifyCurrent {
    open spec fn wf(&self) -> bool {
        self.plan().valid() && self@.consistent(self.plan())
    }

    open spec fn steps_to(&self, obs: Option<TelemetrySnapshot>, next: &Self, cmd: Cmd) -> bool {
        &&& (next@, cmd) == self@.next(self.plan(), obs)
        &&& next.cfg == self.cfg
        &&& next.settle_windows == self.settle_windows
    }

    fn step(&mut self, obs: Option<&TelemetrySnapshot>) -> (cmd: Cmd) {
        match self.phase {
            CPhase::ModeOpen => {
                self.phase = CPhase::TorqueOn;
                Cmd::Write { reg: control::mode(), value: 0 }
            },
            CPhase::TorqueOn => {
                self.phase = CPhase::SeekSet;
                Cmd::Write { reg: control::torque_enable(), value: 1 }
            },
            CPhase::SeekSet => {
                self.phase = CPhase::SeekRead;
                self.last_pos = None;
                self.still = 0;
                let value: i32 = self.signed(self.cfg.seek_duty_q15);
                Cmd::Write { reg: control::goal_duty(), value }
            },
            CPhase::SeekRead => {
                self.phase = CPhase::SeekEval;
                Cmd::Read
            },
            CPhase::SeekEval => {
                if let Some(o) = obs {
                    let mut held: bool = false;
                    if let Some(last) = self.last_pos {
                        held = distance(o.pos, last) <= self.cfg.stall_eps;
                    }
                    if held {
                        self.still = self.still + 1;
                    } else {
                        self.still = 0;
                    }
                    self.last_pos = Some(o.pos);
                }
                if self.still >= self.cfg.stall_polls {
                    self.phase = CPhase::SeekOff;
                    Cmd::Pause { ms: 0 }
                } else {
                    self.phase = CPhase::SeekRead;
                    Cmd::Pause { ms: self.cfg.seek_poll_ms }
                }
            },
            CPhase::SeekOff => {
                self.phase = CPhase::SwitchTorqueOff;
                Cmd::Write { reg: control::goal_duty(), value: 0 }
            },
            CPhase::SwitchTorqueOff => {
                self.phase = CPhase::SwitchMode;
                Cmd::Write { reg: control::torque_enable(), value: 0 }
            },
            CPhase::SwitchMode => {
                self.phase = CPhase::SwitchTorqueOn;
                Cmd::Write { reg: control::mode(), value: 1 }
            },
            CPhase::SwitchTorqueOn => {
                self.step_idx = 0;
                self.phase = CPhase::StepSet;
                Cmd::Write { reg: control::torque_enable(), value: 1 }
            },
            CPhase::StepSet => {
                let goal: i32 = self.signed(self.cfg.steps_counts[self.step_idx]);
                self.polls_left = self.cfg.dwell_polls;
                self.windows.mark_transition();
                let c = StepCapture { goal: narrow(goal), windows: Vec::new() };
                assert(c@.windows =~= Seq::empty());
                self.cur = Some(c);
                self.phase = CPhase::StepRead;
                Cmd::Write { reg: control::goal_current(), value: goal }
            },
            CPhase::StepRead => {
                self.phase = CPhase::StepEval;
                Cmd::Read
            },
            CPhase::StepEval => {
                if let Some(o) = obs {
                    if let Some(w) = self.windows.push(o) {
                        if let Some(mut c) = self.cur.take() {
                            c.windows.push(w);
                            self.cur = Some(c);
                        }
                    }
                }
                if self.polls_left > 0 {
                    self.polls_left = self.polls_left - 1;
                }
                if self.polls_left == 0 {
                    self.phase = CPhase::StepOff;
                    Cmd::Pause { ms: 0 }
                } else {
                    self.phase = CPhase::StepRead;
                    Cmd::Pause { ms: self.cfg.poll_ms }
                }
            },
            CPhase::StepOff => {
                if let Some(c) = self.cur.take() {
                    let ghost filed = steps_of(self.captures@).push(c@);
                    self.captures.push(c);
                    assert(steps_of(self.captures@) =~= filed);
                }
                self.phase = CPhase::StepRest;
                Cmd::Write { reg: control::goal_current(), value: 0 }
            },
            CPhase::StepRest => {
                let steps: usize = self.cfg.steps_counts.len();
                self.step_idx = self.step_idx + 1;
                if self.step_idx < steps {
                    self.phase = CPhase::StepSet;
                } else if !self.reverse {
                    self.reverse = true;
                    self.phase = CPhase::DirTorqueOff;
                } else {
                    self.phase = CPhase::FinishGoal;
                }
                Cmd::Pause { ms: self.cfg.rest_ms }
            },
            CPhase::DirTorqueOff => {
                self.phase = CPhase::DirModeOpen;
                Cmd::Write { reg: control::torque_enable(), value: 0 }
            },
            CPhase::DirModeOpen => {
                self.phase = CPhase::TorqueOn;
                Cmd::Write { reg: control::mode(), value: 0 }
            },
            CPhase::FinishGoal => {
                self.phase = CPhase::FinishTorque;
                Cmd::Write { reg: control::goal_current(), value: 0 }
            },
            CPhase::FinishTorque => {
                self.phase = CPhase::Finished;
                Cmd::Write { reg: control::torque_enable(), value: 0 }
            },
            CPhase::Finished => Cmd::Done,
        }
    }
}

/// The choreography is safe throughout: every mode change rides a torque-off
/// gap with nothing commanded, and a finished run leaves torque off and every
/// goal at zero.
pub proof fn law_current_choreography(
    c: CurrentView,
    plan: CurrentPlan,
    rig: Rig,
    obs: Option<TelemetrySnapshot>,
)
    requires
        plan.valid(),
        -0x8000 <= plan.seek_duty < 0x8000,
        c.consistent(plan),
        c.posture(plan, rig),
    ensures
        rig.permits(c.next(plan, obs).1),
        c.next(plan, obs).0.posture(plan, rig.after(c.next(plan, obs).1)),
        c.phase == CPhase::Finished ==> rig.torque == 0 && rig.idle(),
{
}

/// A finished run captured every step once in each direction, in order.
pub proof fn law_current_covers_steps(c: CurrentView, plan: CurrentPlan)
    requires
        plan.valid(),
        c.consistent(plan),
        c.phase == CPhase::Finished,
        forall|k: int| 0 <= k < plan.steps.len() ==> #[trigger] plan.steps[k] > i16::MIN,
    ensures
        c.captures.len() == 2 * plan.steps.len(),
        forall|k: int|
            0 <= k < plan.steps.len() ==> #[trigger] plan.steps[k] == c.captures[k].goal && -plan.steps[k]
                == c.captures[k + plan.steps.len()].goal,
{
    assert forall|k: int| 0 <= k < plan.steps.len() implies #[trigger] plan.steps[k]
        == c.captures[k].goal && -plan.steps[k] == c.captures[k + plan.steps.len()].goal by {
        assert(c.captures[k].goal == wrap16(plan.goal(false, k)));
        assert(c.captures[k + plan.steps.len()].goal == wrap16(plan.goal(true, k)));
    }
}

/// Velocity-mode legs across the travel; the pot slope against the goal is the
/// check. Legs alternate direction so that each ends where the next starts.
pub struct VerifyVelocityCfg {
    pub seek_duty_q15: i16,
    /// Leg speeds, c/s.
    pub legs_cps: Vec<i32>,
    pub poll_ms: u32,
    pub rest_ms: u32,
    pub seek_poll_ms: u32,
    /// Travel margin off each guard edge where a leg turns around.
    pub margin: u16,
    /// Park distance off the low guard edge for the open-loop seek, which
    /// cannot brake.
    pub seek_margin: u16,
    /// Polls after which a leg gives up.
    pub leg_cap_polls: u32,
}

impl Default for VerifyVelocityCfg {
    fn default() -> (r: Self)
        ensures
            r.seek_duty_q15 == 8520,
            r.legs_cps@ == seq![600i32, 1200i32],
            r.poll_ms == 4,
            r.rest_ms == 300,
            r.seek_poll_ms == 30,
            r.margin == 550,
            r.seek_margin == 1300,
            r.leg_cap_polls == 4000,
    {
        VerifyVelocityCfg {
            seek_duty_q15: 8520,
            legs_cps: vec![600, 1200],
            poll_ms: 4,
            rest_ms: 300,
            seek_poll_ms: 30,
            margin: 550,
            seek_margin: 1300,
            leg_cap_polls: 4000,
        }
    }
}

#[derive(Copy, Clone, Debug, PartialEq, Eq, Structural)]
pub enum VPhase {
    ModeOpen,
    TorqueOn,
    SeekSet,
    SeekRead,
    SeekEval,
    SeekOff,
    SwitchTorqueOff,
    SwitchMode,
    SwitchTorqueOn,
    LegSet,
    LegRead,
    LegEval,
    LegOff,
    LegRest,
    FinishGoal,
    FinishTorque,
    Finished,
}

/// One point of a leg: fast ticks since the leg's first read, and the pot.
#[derive(Copy, Clone, Debug, PartialEq, Eq, Structural)]
pub struct LegPoint {
    pub ticks: u32,
    pub pos: u16,
}

/// One leg, slip-zone reads left out.
pub struct LegCapture {
    pub goal_cps: i32,
    pub pts: Vec<LegPoint>,
}

/// A captured leg as plain values.
pub struct LegView {
    pub goal: int,
    pub pts: Seq<LegPoint>,
}

impl LegCapture {
    pub open spec fn view(&self) -> LegView {
        LegView { goal: self.goal_cps as int, pts: self.pts@ }
    }
}

pub open spec fn legs_of(captures: Seq<LegCapture>) -> Seq<LegView> {
    captures.map_values(|c: LegCapture| c@)
}

pub open spec fn goals_of(v: Seq<i32>) -> Seq<int> {
    v.map_values(|x: i32| x as int)
}

/// Stillness of the parking seek: counts, and reads in a row.
pub const PARK_EPS: u16 = 3;

pub const PARK_POLLS: u32 = 8;

pub struct VerifyVelocity {
    pub cfg: VerifyVelocityCfg,
    pub params: RigParams,
    /// Edges the legs run between.
    pub band: (u16, u16),
    pub phase: VPhase,
    pub leg_idx: usize,
    pub polls: u32,
    pub last_pos: Option<u16>,
    pub still: u32,
    pub tick0: Option<u32>,
    pub cur: Option<LegCapture>,
    pub captures: Vec<LegCapture>,
    /// Goals of the legs that were capped before the far edge.
    pub capped: Vec<i32>,
}

/// The configuration as plain values.
pub struct VelocityPlan {
    pub seek_duty: int,
    pub legs: Seq<i32>,
    pub poll_ms: u32,
    pub rest_ms: u32,
    pub seek_poll_ms: u32,
    pub margin: int,
    pub seek_margin: int,
    pub leg_cap_polls: u32,
    pub band_lo: int,
    pub band_hi: int,
    pub params: RigParams,
}

/// The machine as plain values.
pub struct VelocityView {
    pub phase: VPhase,
    pub leg_idx: int,
    pub polls: int,
    pub last_pos: Option<u16>,
    pub still: int,
    pub tick0: Option<u32>,
    pub cur: Option<LegView>,
    pub captures: Seq<LegView>,
    pub capped: Seq<int>,
}

impl VelocityPlan {
    /// At least one speed, each of which can be negated, and edges that fit.
    pub open spec fn valid(self) -> bool {
        &&& 1 <= self.legs.len()
        &&& self.total() <= usize::MAX
        &&& forall|k: int| 0 <= k < self.legs.len() ==> #[trigger] self.legs[k] > i32::MIN
        &&& self.band_lo + self.margin <= u16::MAX
        &&& self.band_lo + self.seek_margin <= u16::MAX
        &&& self.band_hi - self.margin >= 0
    }

    pub open spec fn total(self) -> int {
        2 * (self.legs.len() as int)
    }

    /// Each speed runs forward then back.
    pub open spec fn goal(self, leg: int) -> int {
        let speed = self.legs[leg / 2] as int;
        if leg % 2 == 0 {
            speed
        } else {
            -speed
        }
    }

    pub open spec fn turned(self, leg: int, pos: int) -> bool {
        if self.goal(leg) > 0 {
            pos >= self.band_hi - self.margin
        } else {
            pos <= self.band_lo + self.margin
        }
    }
}

impl VelocityView {
    pub open spec fn to(self, phase: VPhase) -> VelocityView {
        VelocityView { phase, ..self }
    }

    /// A seek read judged: near enough to the low edge, or standing still.
    pub open spec fn seek_judged(self, plan: VelocityPlan, obs: Option<TelemetrySnapshot>) -> VelocityView {
        let t = match obs {
            Some(o) => VelocityView {
                still: still_reads(self.last_pos, self.still, o.pos, PARK_EPS as int),
                last_pos: Some(o.pos),
                ..self
            },
            None => self,
        };
        let parked = obs matches Some(o) && o.pos <= plan.band_lo + plan.seek_margin;
        t.to(
            if parked || t.still >= PARK_POLLS {
                VPhase::SeekOff
            } else {
                VPhase::SeekRead
            },
        )
    }

    /// A leg read judged: the point is kept unless it lies in the slip zone;
    /// the far edge ends the leg, and so does the poll cap, which is noted.
    pub open spec fn leg_judged(self, plan: VelocityPlan, obs: Option<TelemetrySnapshot>) -> VelocityView {
        let capped = self.polls + 1 >= plan.leg_cap_polls;
        let done = capped || (obs matches Some(o) && plan.turned(self.leg_idx, o.pos as int));
        let t = match obs {
            None => self,
            Some(o) => {
                let t0 = match self.tick0 {
                    Some(t) => t,
                    None => o.sample_tick,
                };
                VelocityView {
                    tick0: Some(t0),
                    cur: match self.cur {
                        Some(c) if !plan.params.slips(o.pos) => Some(
                            LegView {
                                pts: c.pts.push(
                                    LegPoint {
                                        ticks: ((o.sample_tick - t0) % 0x1_0000_0000) as u32,
                                        pos: o.pos,
                                    },
                                ),
                                ..c
                            },
                        ),
                        _ => self.cur,
                    },
                    ..self
                }
            },
        };
        VelocityView {
            polls: self.polls + 1,
            capped: if capped {
                self.capped.push(plan.goal(self.leg_idx))
            } else {
                self.capped
            },
            phase: if done {
                VPhase::LegOff
            } else {
                VPhase::LegRead
            },
            ..t
        }
    }

    /// One step of the machine.
    pub open spec fn next(self, plan: VelocityPlan, obs: Option<TelemetrySnapshot>) -> (VelocityView, Cmd) {
        match self.phase {
            VPhase::ModeOpen => (self.to(VPhase::TorqueOn), put(control::mode(), 0)),
            VPhase::TorqueOn => (self.to(VPhase::SeekSet), put(control::torque_enable(), 1)),
            VPhase::SeekSet => (
                VelocityView { phase: VPhase::SeekRead, last_pos: None, still: 0, ..self },
                put(control::goal_duty(), -plan.seek_duty),
            ),
            VPhase::SeekRead => (self.to(VPhase::SeekEval), Cmd::Read),
            VPhase::SeekEval => {
                let n = self.seek_judged(plan, obs);
                (
                    n,
                    Cmd::Pause {
                        ms: if n.phase == VPhase::SeekOff {
                            0
                        } else {
                            plan.seek_poll_ms
                        },
                    },
                )
            },
            VPhase::SeekOff => (self.to(VPhase::SwitchTorqueOff), put(control::goal_duty(), 0)),
            VPhase::SwitchTorqueOff => (
                self.to(VPhase::SwitchMode),
                put(control::torque_enable(), 0),
            ),
            VPhase::SwitchMode => (self.to(VPhase::SwitchTorqueOn), put(control::mode(), 2)),
            VPhase::SwitchTorqueOn => (self.to(VPhase::LegSet), put(control::torque_enable(), 1)),
            VPhase::LegSet => (
                VelocityView {
                    polls: 0,
                    tick0: None,
                    cur: Some(LegView { goal: plan.goal(self.leg_idx), pts: Seq::empty() }),
                    phase: VPhase::LegRead,
                    ..self
                },
                put(control::goal_velocity(), plan.goal(self.leg_idx)),
            ),
            VPhase::LegRead => (self.to(VPhase::LegEval), Cmd::Read),
            VPhase::LegEval => {
                let n = self.leg_judged(plan, obs);
                (
                    n,
                    Cmd::Pause {
                        ms: if n.phase == VPhase::LegOff {
                            0
                        } else {
                            plan.poll_ms
                        },
                    },
                )
            },
            VPhase::LegOff => (
                VelocityView {
                    captures: match self.cur {
                        Some(c) => self.captures.push(c),
                        None => self.captures,
                    },
                    cur: None,
                    phase: VPhase::LegRest,
                    ..self
                },
                put(control::goal_velocity(), 0),
            ),
            VPhase::LegRest => (
                VelocityView {
                    leg_idx: self.leg_idx + 1,
                    phase: if self.leg_idx + 1 < plan.total() {
                        VPhase::LegSet
                    } else {
                        VPhase::FinishGoal
                    },
                    ..self
                },
                Cmd::Pause { ms: plan.rest_ms },
            ),
            VPhase::FinishGoal => (
                self.to(VPhase::FinishTorque),
                put(control::goal_velocity(), 0),
            ),
            VPhase::FinishTorque => (self.to(VPhase::Finished), put(control::torque_enable(), 0)),
            VPhase::Finished => (self, Cmd::Done),
        }
    }

    pub open spec fn legging(self) -> bool {
        self.phase == VPhase::LegRead || self.phase == VPhase::LegEval || self.phase
            == VPhase::LegOff
    }

    pub open spec fn finishing(self) -> bool {
        self.phase == VPhase::FinishGoal || self.phase == VPhase::FinishTorque || self.phase
            == VPhase::Finished
    }

    /// What the machine's own steps keep true.
    pub open spec fn consistent(self, plan: VelocityPlan) -> bool {
        &&& 0 <= self.still && 0 <= self.polls
        &&& self.phase == VPhase::SeekRead || self.phase == VPhase::SeekEval ==> self.still
            < PARK_POLLS
        &&& self.phase == VPhase::LegRead || self.phase == VPhase::LegEval ==> self.polls
            < plan.leg_cap_polls || self.polls == 0
        &&& !self.finishing() ==> 0 <= self.leg_idx < plan.total()
        &&& self.finishing() ==> self.leg_idx == plan.total()
        &&& self.legging() ==> (self.cur matches Some(c) && c.goal == plan.goal(self.leg_idx))
        &&& self.captures.len() == self.leg_idx + (if self.phase == VPhase::LegRest {
            1int
        } else {
            0int
        })
        &&& forall|k: int|
            0 <= k < self.captures.len() ==> (#[trigger] self.captures[k]).goal == plan.goal(k)
    }

    /// What the control registers hold in each phase.
    pub open spec fn posture(self, plan: VelocityPlan, rig: Rig) -> bool {
        &&& rig.current == 0
        &&& match self.phase {
            VPhase::ModeOpen | VPhase::TorqueOn => rig == Rig::parked(),
            VPhase::SeekSet | VPhase::SwitchTorqueOff => rig.torque == 1 && rig.mode == 0 && rig.idle(),
            VPhase::SeekRead | VPhase::SeekEval | VPhase::SeekOff => rig.torque == 1 && rig.mode == 0
                && rig.velocity == 0 && rig.duty == -plan.seek_duty,
            VPhase::SwitchMode => rig.torque == 0 && rig.mode == 0 && rig.idle(),
            VPhase::SwitchTorqueOn => rig.torque == 0 && rig.mode == 2 && rig.idle(),
            VPhase::LegSet | VPhase::LegRest | VPhase::FinishGoal | VPhase::FinishTorque => rig.torque
                == 1 && rig.mode == 2 && rig.idle(),
            VPhase::LegRead | VPhase::LegEval | VPhase::LegOff => rig.torque == 1 && rig.mode == 2
                && rig.duty == 0 && rig.velocity == plan.goal(self.leg_idx),
            VPhase::Finished => rig.torque == 0 && rig.idle(),
        }
    }
}

impl VerifyVelocity {
    pub open spec fn plan(&self) -> VelocityPlan {
        VelocityPlan {
            seek_duty: self.cfg.seek_duty_q15 as int,
            legs: self.cfg.legs_cps@,
            poll_ms: self.cfg.poll_ms,
            rest_ms: self.cfg.rest_ms,
            seek_poll_ms: self.cfg.seek_poll_ms,
            margin: self.cfg.margin as int,
            seek_margin: self.cfg.seek_margin as int,
            leg_cap_polls: self.cfg.leg_cap_polls,
            band_lo: self.band.0 as int,
            band_hi: self.band.1 as int,
            params: self.params,
        }
    }

    pub open spec fn view(&self) -> VelocityView {
        VelocityView {
            phase: self.phase,
            leg_idx: self.leg_idx as int,
            polls: self.polls as int,
            last_pos: self.last_pos,
            still: self.still as int,
            tick0: self.tick0,
            cur: match self.cur {
                Some(c) => Some(c@),
                None => None,
            },
            captures: legs_of(self.captures@),
            capped: goals_of(self.capped@),
        }
    }

    pub fn new(cfg: VerifyVelocityCfg, params: &RigParams) -> (r: Self)
        ensures
            r.cfg == cfg,
            r.params == *params,
            r.band == (match params.pos_guard {
                Some(g) => g,
                None => (150u16, 3950u16),
            }),
            r@ == (VelocityView {
                phase: VPhase::ModeOpen,
                leg_idx: 0,
                polls: 0,
                last_pos: None,
                still: 0,
                tick0: None,
                cur: None,
                captures: Seq::empty(),
                capped: Seq::empty(),
            }),
            r.plan().valid() ==> r.wf(),
    {
        let band: (u16, u16) = match params.pos_guard {
            Some(g) => g,
            None => (150, 3950),
        };
        let r = VerifyVelocity {
            cfg,
            params: *params,
            band,
            phase: VPhase::ModeOpen,
            leg_idx: 0,
            polls: 0,
            last_pos: None,
            still: 0,
            tick0: None,
            cur: None,
            captures: Vec::new(),
            capped: Vec::new(),
        };
        assert(r@.captures =~= Seq::empty());
        assert(r@.capped =~= Seq::empty());
        r
    }

    fn goal(&self) -> (r: i32)
        requires
            self.plan().valid(),
            self.leg_idx < self.plan().total(),
        ensures
            r == self.plan().goal(self.leg_idx as int),
    {
        let speed: i32 = self.cfg.legs_cps[self.leg_idx / 2];
        assert(self.plan().legs[self.leg_idx as int / 2] == speed);
        if self.leg_idx % 2 == 0 {
            speed
        } else {
            -speed
        }
    }

    fn leg_done(&self, pos: u16) -> (r: bool)
        requires
            self.plan().valid(),
            self.leg_idx < self.plan().total(),
        ensures
            r == self.plan().turned(self.leg_idx as int, pos as int),
    {
        if self.goal() > 0 {
            pos >= self.band.1 - self.cfg.margin
        } else {
            pos <= self.band.0 + self.cfg.margin
        }
    }
}

impl Experiment for VerifyVelocity {
    open spec fn wf(&self) -> bool {
        self.plan().valid() && self@.consistent(self.plan())
    }

    open spec fn steps_to(&self, obs: Option<TelemetrySnapshot>, next: &Self, cmd: Cmd) -> bool {
        &&& (next@, cmd) == self@.next(self.plan(), obs)
        &&& next.cfg == self.cfg
        &&& next.params == self.params
        &&& next.band == self.band
    }

    fn step(&mut self, obs: Option<&TelemetrySnapshot>) -> (cmd: Cmd) {
        match self.phase {
            VPhase::ModeOpen => {
                self.phase = VPhase::TorqueOn;
                Cmd::Write { reg: control::mode(), value: 0 }
            },
            VPhase::TorqueOn => {
                self.phase = VPhase::SeekSet;
                Cmd::Write { reg: control::torque_enable(), value: 1 }
            },
            VPhase::SeekSet => {
                self.phase = VPhase::SeekRead;
                self.last_pos = None;
                self.still = 0;
                Cmd::Write { reg: control::goal_duty(), value: -(self.cfg.seek_duty_q15 as i32) }
            },
            VPhase::SeekRead => {
                self.phase = VPhase::SeekEval;
                Cmd::Read
            },
            VPhase::SeekEval => {
                let mut parked: bool = false;
                if let Some(o) = obs {
                    parked = o.pos <= self.band.0 + self.cfg.seek_margin;
                    let mut held: bool = false;
                    if let Some(last) = self.last_pos {
                        held = distance(o.pos, last) <= PARK_EPS;
                    }
                    if held {
                        self.still = self.still + 1;
                    } else {
                        self.still = 0;
                    }
                    self.last_pos = Some(o.pos);
                }
                if parked || self.still >= PARK_POLLS {
                    self.phase = VPhase::SeekOff;
                    Cmd::Pause { ms: 0 }
                } else {
                    self.phase = VPhase::SeekRead;
                    Cmd::Pause { ms: self.cfg.seek_poll_ms }
                }
            },
            VPhase::SeekOff => {
                self.phase = VPhase::SwitchTorqueOff;
                Cmd::Write { reg: control::goal_duty(), value: 0 }
            },
            VPhase::SwitchTorqueOff => {
                self.phase = VPhase::SwitchMode;
                Cmd::Write { reg: control::torque_enable(), value: 0 }
            },
            VPhase::SwitchMode => {
                self.phase = VPhase::SwitchTorqueOn;
                Cmd::Write { reg: control::mode(), value: 2 }
            },
            VPhase::SwitchTorqueOn => {
                self.phase = VPhase::LegSet;
                Cmd::Write { reg: control::torque_enable(), value: 1 }
            },
            VPhase::LegSet => {
                let goal: i32 = self.goal();
                self.polls = 0;
                self.tick0 = None;
                let c = LegCapture { goal_cps: goal, pts: Vec::new() };
                assert(c@.pts =~= Seq::empty());
                self.cur = Some(c);
                self.phase = VPhase::LegRead;
                Cmd::Write { reg: control::goal_velocity(), value: goal }
            },
            VPhase::LegRead => {
                self.phase = VPhase::LegEval;
                Cmd::Read
            },
            VPhase::LegEval => {
                let mut done: bool = false;
                if let Some(o) = obs {
                    let t0: u32 = match self.tick0 {
                        Some(t) => t,
                        None => o.sample_tick,
                    };
                    self.tick0 = Some(t0);
                    if !self.params.in_slip(o.pos) {
                        if let Some(mut c) = self.cur.take() {
                            c.pts.push(LegPoint { ticks: o.sample_tick.wrapping_sub(t0), pos: o.pos });
                            self.cur = Some(c);
                        }
                    }
                    done = self.leg_done(o.pos);
                }
                self.polls = self.polls + 1;
                if self.polls >= self.cfg.leg_cap_polls {
                    let goal: i32 = self.goal();
                    let ghost noted = goals_of(self.capped@).push(goal as int);
                    self.capped.push(goal);
                    assert(goals_of(self.capped@) =~= noted);
                    done = true;
                }
                if done {
                    self.phase = VPhase::LegOff;
                    Cmd::Pause { ms: 0 }
                } else {
                    self.phase = VPhase::LegRead;
                    Cmd::Pause { ms: self.cfg.poll_ms }
                }
            },
            VPhase::LegOff => {
                if let Some(c) = self.cur.take() {
                    let ghost filed = legs_of(self.captures@).push(c@);
                    self.captures.push(c);
                    assert(legs_of(self.captures@) =~= filed);
                }
                self.phase = VPhase::LegRest;
                Cmd::Write { reg: control::goal_velocity(), value: 0 }
            },
            VPhase::LegRest => {
                self.leg_idx = self.leg_idx + 1;
                if self.leg_idx < self.cfg.legs_cps.len() * 2 {
                    self.phase = VPhase::LegSet;
                } else {
                    self.phase = VPhase::FinishGoal;
                }
                Cmd::Pause { ms: self.cfg.rest_ms }
            },
            VPhase::FinishGoal => {
                self.phase = VPhase::FinishTorque;
                Cmd::Write { reg: control::goal_velocity(), value: 0 }
            },
            VPhase::FinishTorque => {
                self.phase = VPhase::Finished;
                Cmd::Write { reg: control::torque_enable(), value: 0 }
            },
            VPhase::Finished => Cmd::Done,
        }
    }
}

/// The choreography is safe throughout: the mode changes in a torque-off gap,
/// and a finished run leaves torque off and every goal at zero.
pub proof fn law_velocity_choreography(
    v: VelocityView,
    plan: VelocityPlan,
    rig: Rig,
    obs: Option<TelemetrySnapshot>,
)
    requires
        plan.valid(),
        -0x8000 <= plan.seek_duty < 0x8000,
        v.consistent(plan),
        v.posture(plan, rig),
    ensures
        rig.permits(v.next(plan, obs).1),
        v.next(plan, obs).0.posture(plan, rig.after(v.next(plan, obs).1)),
        v.phase == VPhase::Finished ==> rig.torque == 0 && rig.idle(),
{
    if v.phase == VPhase::LegSet {
        assert(plan.legs[v.leg_idx / 2] > i32::MIN);
    }
}

/// A finished run captured every speed once in each direction, in order.
pub proof fn law_velocity_covers_legs(v: VelocityView, plan: VelocityPlan)
    requires
        plan.valid(),
        v.consistent(plan),
        v.phase == VPhase::Finished,
    ensures
        v.captures.len() == 2 * plan.legs.len(),
        forall|k: int|
            0 <= k < plan.legs.len() ==> #[trigger] plan.legs[k] == v.captures[2 * k].goal && -plan.legs[k]
                == v.captures[2 * k + 1].goal,
{
    assert forall|k: int| 0 <= k < plan.legs.len() implies #[trigger] plan.legs[k] == v.captures[2
        * k].goal && -plan.legs[k] == v.captures[2 * k + 1].goal by {
        assert(v.captures[2 * k].goal == plan.goal(2 * k));
        assert(v.captures[2 * k + 1].goal == plan.goal(2 * k + 1));
    }
}

/// Sum of the window currents.
pub open spec fn current_sum(s: Seq<WindowSample>) -> int
    decreases s.len(),
{
    if s.len() == 0 {
        0
    } else {
        current_sum(s.drop_last()) + s.last().i
    }
}

/// Number of the first window whose current lies within `band` of the goal.
pub open spec fn settled_at(s: Seq<WindowSample>, goal: int, band: int) -> Option<u64>
    decreases s.len(),
{
    if s.len() == 0 {
        None
    } else if abs(s[0].i - goal) <= band {
        Some(s[0].seq)
    } else {
        settled_at(s.skip(1), goal, band)
    }
}

/// What a captured step holds behind its settle discard.
pub open spec fn tail_of(s: Seq<WindowSample>, settle_windows: int) -> Seq<WindowSample> {
    if settle_windows >= s.len() {
        seq![]
    } else {
        s.skip(settle_windows)
    }
}

/// A captured step reduced: its mean current is `sum / windows`.
#[derive(Copy, Clone, Debug, PartialEq, Eq, Structural)]
pub struct StepTail {
    /// Windows behind the settle discard.
    pub windows: usize,
    /// Sum of their currents.
    pub sum: i128,
    /// Number of the first window of the whole step inside the band.
    pub settled: Option<u64>,
}

/// Reduce a captured step. The mean is taken behind the settle discard, the
/// settle time from the step on: `band` is how far a window may be off the goal.
pub fn step_tail(c: &StepCapture, settle_windows: u32, band: u32) -> (r: StepTail)
    ensures
        r.windows == tail_of(c.windows@, settle_windows as int).len(),
        r.sum == current_sum(tail_of(c.windows@, settle_windows as int)),
        r.settled == settled_at(c.windows@, c.goal as int, band as int),
{
    let n: usize = c.windows.len();
    let skip: usize = if settle_windows as usize >= n {
        n
    } else {
        settle_windows as usize
    };
    let ghost tail = tail_of(c.windows@, settle_windows as int);
    assert(tail =~= c.windows@.skip(skip as int));
    let mut sum: i128 = 0;
    let mut k: usize = skip;
    assert(tail.take(0) =~= Seq::<WindowSample>::empty());
    while k < n
        invariant
            n == c.windows@.len(),
            skip <= k <= n,
            tail == c.windows@.skip(skip as int),
            sum == current_sum(tail.take(k - skip)),
            -0x8000 * (k - skip) <= sum <= 0x8000 * (k - skip),
        decreases n - k,
    {
        let ghost t = tail.take(k - skip + 1);
        assert(t.drop_last() =~= tail.take(k - skip));
        assert(t.last() == c.windows@[k as int]);
        sum = sum + c.windows[k].i as i128;
        k = k + 1;
    }
    assert(tail.take(n - skip) =~= tail);
    let mut settled: Option<u64> = None;
    let mut i: usize = 0;
    assert(c.windows@.skip(0) =~= c.windows@);
    while i < n && settled.is_none()
        invariant
            n == c.windows@.len(),
            i <= n,
            settled_at(c.windows@, c.goal as int, band as int) == (match settled {
                Some(s) => Some(s),
                None => settled_at(c.windows@.skip(i as int), c.goal as int, band as int),
            }),
        decreases n - i,
    {
        let ghost rest = c.windows@.skip(i as int);
        assert(rest[0] == c.windows@[i as int]);
        assert(rest.skip(1) =~= c.windows@.skip(i + 1));
        let w: WindowSample = c.windows[i];
        let off: i32 = w.i as i32 - c.goal as i32;
        if magnitude(off) <= band {
            settled = Some(w.seq);
        }
        i = i + 1;
    }
    StepTail { windows: n - skip, sum, settled }
}

/// The outcome over the judged steps or legs: at least one, and none failed.
pub open spec fn all_passed(passes: Seq<bool>) -> bool {
    passes.len() > 0 && forall|k: int| 0 <= k < passes.len() ==> passes[k]
}

pub fn passed(passes: &Vec<bool>) -> (r: bool)
    ensures
        r == all_passed(passes@),
{
    let mut i: usize = 0;
    while i < passes.len()
        invariant
            i <= passes@.len(),
            forall|k: int| 0 <= k < i ==> passes@[k],
        decreases passes@.len() - i,
    {
        if !passes[i] {
            return false;
        }
        i = i + 1;
    }
    passes.len() > 0
}

/// The combined outcome: at least one section ran, and none that ran failed.
#[derive(Copy, Clone, Debug, PartialEq, Eq, Structural)]
pub struct VerifyResult {
    pub current: Option<bool>,
    pub velocity: Option<bool>,
    pub pass: bool,
}

impl VerifyResult {
    pub fn assemble(current: Option<bool>, velocity: Option<bool>) -> (r: Self)
        ensures
            r.current == current,
            r.velocity == velocity,
            r.pass == ((current is Some || velocity is Some) && current != Some(false) && velocity
                != Some(false)),
    {
        let c: bool = match current {
            Some(p) => p,
            None => true,
        };
        let v: bool = match velocity {
            Some(p) => p,
            None => true,
        };
        let pass: bool = c && v && (current.is_some() || velocity.is_some());
        VerifyResult { current, velocity, pass }
    }
}

} // verus!
