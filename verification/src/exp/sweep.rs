//! Constant-duty ripple capture: one clean constant-duty traverse whose
//! per-tick current carries an uninterrupted commutation-ripple signal.
//!
//! The traverse does nothing but pause, so the driver can drain the stream
//! continuously and the whole capture lands as one contiguous run: no reads, no
//! positioning, no speed probe. The caller positions first and sizes the
//! duration so that the motion stays off both rails.

use super::rig::Rig;
use super::{put, Cmd, Experiment};
use crate::frame::TelemetrySnapshot;
use crate::regs::control;
use vstd::prelude::*;

verus! {

#[derive(Copy, Clone, Debug, PartialEq, Eq, Structural)]
pub struct SweepCfg {
    /// Constant capture drive magnitude, q15.
    pub duty_q15: i16,
    /// Capture duration, sized by the caller from a measured speed.
    pub capture_ms: u32,
}

impl Default for SweepCfg {
    fn default() -> (r: Self)
        ensures
            r == (SweepCfg { duty_q15: 8520, capture_ms: 800 }),
    {
        SweepCfg { duty_q15: 8520, capture_ms: 800 }
    }
}

#[derive(Copy, Clone, Debug, PartialEq, Eq, Structural)]
pub enum Phase {
    ModeWrite,
    TorqueOn,
    CaptureDuty,
    CapturePause,
    ZeroDuty,
    TorqueOff,
    Finished,
}

#[derive(Copy, Clone, Debug, PartialEq, Eq, Structural)]
pub struct Sweep {
    pub cfg: SweepCfg,
    pub phase: Phase,
    /// The duty sign that drives toward the capture end, 1 or -1.
    pub sweep_sign: i8,
}

impl Sweep {
    pub fn new(cfg: SweepCfg, sweep_sign: i8) -> (r: Self)
        ensures
            r == (Sweep {
                cfg,
                phase: Phase::ModeWrite,
                sweep_sign: if sweep_sign < 0 {
                    -1i8
                } else {
                    1i8
                },
            }),
            r.wf(),
    {
        Sweep {
            cfg,
            phase: Phase::ModeWrite,
            sweep_sign: if sweep_sign < 0 {
                -1
            } else {
                1
            },
        }
    }

    /// The one duty of the capture.
    pub open spec fn drive(self) -> int {
        self.sweep_sign * self.cfg.duty_q15
    }

    fn capture_duty(&self) -> (r: i32)
        requires
            self.wf(),
        ensures
            r == self.drive(),
    {
        self.sweep_sign as i32 * self.cfg.duty_q15 as i32
    }

    /// One step of the machine; observations play no part.
    pub open spec fn next(self) -> (Sweep, Cmd) {
        match self.phase {
            Phase::ModeWrite => (
                Sweep { phase: Phase::TorqueOn, ..self },
                put(control::mode(), 0),
            ),
            Phase::TorqueOn => (
                Sweep { phase: Phase::CaptureDuty, ..self },
                put(control::torque_enable(), 1),
            ),
            Phase::CaptureDuty => (
                Sweep { phase: Phase::CapturePause, ..self },
                put(control::goal_duty(), self.drive()),
            ),
            Phase::CapturePause => (
                Sweep { phase: Phase::ZeroDuty, ..self },
                Cmd::Pause { ms: self.cfg.capture_ms },
            ),
            Phase::ZeroDuty => (
                Sweep { phase: Phase::TorqueOff, ..self },
                put(control::goal_duty(), 0),
            ),
            Phase::TorqueOff => (
                Sweep { phase: Phase::Finished, ..self },
                put(control::torque_enable(), 0),
            ),
            Phase::Finished => (self, Cmd::Done),
        }
    }

    /// The commands of the next `n` steps.
    pub open spec fn commands(self, n: nat) -> Seq<Cmd>
        decreases n,
    {
        if n == 0 {
            seq![]
        } else {
            seq![self.next().1] + self.next().0.commands((n - 1) as nat)
        }
    }
}

impl Experiment for Sweep {
    open spec fn wf(&self) -> bool {
        self.sweep_sign == 1 || self.sweep_sign == -1
    }

    open spec fn steps_to(&self, obs: Option<TelemetrySnapshot>, next: &Self, cmd: Cmd) -> bool {
        (*next, cmd) == self.next()
    }

    fn step(&mut self, obs: Option<&TelemetrySnapshot>) -> (cmd: Cmd) {
        match self.phase {
            Phase::ModeWrite => {
                self.phase = Phase::TorqueOn;
                Cmd::Write { reg: control::mode(), value: 0 }
            },
            Phase::TorqueOn => {
                self.phase = Phase::CaptureDuty;
                Cmd::Write { reg: control::torque_enable(), value: 1 }
            },
            Phase::CaptureDuty => {
                self.phase = Phase::CapturePause;
                Cmd::Write { reg: control::goal_duty(), value: self.capture_duty() }
            },
            Phase::CapturePause => {
                self.phase = Phase::ZeroDuty;
                Cmd::Pause { ms: self.cfg.capture_ms }
            },
            Phase::ZeroDuty => {
                self.phase = Phase::TorqueOff;
                Cmd::Write { reg: control::goal_duty(), value: 0 }
            },
            Phase::TorqueOff => {
                self.phase = Phase::Finished;
                Cmd::Write { reg: control::torque_enable(), value: 0 }
            },
            Phase::Finished => Cmd::Done,
        }
    }
}

/// A sweep is one fixed script: open loop, torque on, one drive write, one
/// pause for the whole capture, duty 0, torque off, Done. Nothing in it reads,
/// so nothing breaks the capture up.
pub proof fn law_sweep_script(s: Sweep)
    requires
        s.phase == Phase::ModeWrite,
    ensures
        s.commands(7) == seq![
            put(control::mode(), 0),
            put(control::torque_enable(), 1),
            put(control::goal_duty(), s.drive()),
            Cmd::Pause { ms: s.cfg.capture_ms },
            put(control::goal_duty(), 0),
            put(control::torque_enable(), 0),
            Cmd::Done,
        ],
{
    reveal_with_fuel(Sweep::commands, 8);
    assert(s.commands(7) =~= seq![
        put(control::mode(), 0),
        put(control::torque_enable(), 1),
        put(control::goal_duty(), s.drive()),
        Cmd::Pause { ms: s.cfg.capture_ms },
        put(control::goal_duty(), 0),
        put(control::torque_enable(), 0),
        Cmd::Done,
    ]);
}

/// The script is safe on a parked rig and leaves it parked.
pub proof fn law_sweep_parks(s: Sweep)
    requires
        s.wf(),
        s.phase == Phase::ModeWrite,
    ensures
        Rig::parked().permits(s.next().1),
        ({
            let r1 = Rig::parked().after(s.next().1);
            let s1 = s.next().0;
            let r2 = r1.after(s1.next().1);
            let s2 = s1.next().0;
            let r3 = r2.after(s2.next().1);
            let s3 = s2.next().0;
            let r4 = r3.after(s3.next().1);
            let s4 = s3.next().0;
            let r5 = r4.after(s4.next().1);
            let s5 = s4.next().0;
            let r6 = r5.after(s5.next().1);
            &&& r1.permits(s1.next().1)
            &&& r2.permits(s2.next().1)
            &&& r3.permits(s3.next().1)
            &&& r4.permits(s4.next().1)
            &&& r5.permits(s5.next().1)
            &&& r3.duty == s.drive()
            &&& r6 == Rig::parked()
            &&& s5.next().0.phase == Phase::Finished
        }),
{
}

/// Flipping the sign flips the duty and nothing else.
pub proof fn law_sweep_sign(cfg: SweepCfg)
    ensures
        (Sweep { cfg, phase: Phase::ModeWrite, sweep_sign: -1i8 }).drive() == -(Sweep {
            cfg,
            phase: Phase::ModeWrite,
            sweep_sign: 1,
        }).drive(),
{
}

} // verus!
