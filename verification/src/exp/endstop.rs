//! End-stop finder and drive-direction check: open loop, seek each mechanical
//! hard stop at modest duty, record the settled pot count at each end, and
//! infer the drive polarity from which rail a positive duty reached.
//!
//! Run with the travel guard off: driving into the physical ends is the method.
//! The current abort stays live so that a stalled winding is not cooked.

use super::rig::Rig;
use super::{distance, mag16, put, Cmd, Experiment, RigParams};
use crate::frame::TelemetrySnapshot;
use crate::math::{abs, greatest, least};
use crate::regs::control;
use vstd::prelude::*;

verus! {

#[derive(Copy, Clone, Debug, PartialEq, Eq, Structural)]
pub struct EndstopCfg {
    /// Seek drive toward each end, q15.
    pub seek_duty_q15: i16,
    pub seek_poll_ms: u32,
    /// Cool-down between the two seeks, duty 0.
    pub rest_ms: u32,
}

impl Default for EndstopCfg {
    fn default() -> (r: Self)
        ensures
            r == (EndstopCfg { seek_duty_q15: 8520, seek_poll_ms: 30, rest_ms: 300 }),
    {
        EndstopCfg { seek_duty_q15: 8520, seek_poll_ms: 30, rest_ms: 300 }
    }
}

#[derive(Copy, Clone, Debug, PartialEq, Eq, Structural)]
pub struct EndstopResult {
    pub pos_min_phys: i32,
    pub pos_max_phys: i32,
    /// true: positive duty increased position counts.
    pub drive_polarity: bool,
    /// Larger of the two stall currents, counts.
    pub i_stall_counts: i16,
}

#[derive(Copy, Clone, Debug, PartialEq, Eq, Structural)]
pub enum Phase {
    ModeWrite,
    TorqueOn,
    SeekSet,
    SeekRead,
    SeekEval,
    RestOff,
    RestPause,
    FinishDuty,
    FinishTorque,
    Finished,
}

/// A rail: where the pot settled and the stall current there.
#[derive(Copy, Clone, Debug, PartialEq, Eq, Structural)]
pub struct Rail {
    pub pos: u16,
    pub i: i16,
}

#[derive(Copy, Clone, Debug, PartialEq, Eq, Structural)]
pub struct Endstop {
    pub cfg: EndstopCfg,
    pub phase: Phase,
    pub stall_eps: u16,
    pub stall_polls: u32,
    /// The second seek, with negative duty.
    pub reverse: bool,
    pub last_pos: Option<u16>,
    pub still: u32,
    /// The rail each duty sign reached.
    pub rail_fwd: Option<Rail>,
    pub rail_rev: Option<Rail>,
}

impl Endstop {
    pub fn new(cfg: EndstopCfg, params: &RigParams) -> (r: Self)
        ensures
            r == (Endstop {
                cfg,
                phase: Phase::ModeWrite,
                stall_eps: params.stall_eps,
                stall_polls: params.stall_polls,
                reverse: false,
                last_pos: None,
                still: 0,
                rail_fwd: None,
                rail_rev: None,
            }),
            r.wf(),
    {
        Endstop {
            cfg,
            phase: Phase::ModeWrite,
            stall_eps: params.stall_eps,
            stall_polls: params.stall_polls,
            reverse: false,
            last_pos: None,
            still: 0,
            rail_fwd: None,
            rail_rev: None,
        }
    }

    pub open spec fn sign(self) -> int {
        if self.reverse {
            -1
        } else {
            1
        }
    }

    fn dir(&self) -> (r: i32)
        ensures
            r == self.sign(),
    {
        if self.reverse {
            -1
        } else {
            1
        }
    }

    /// The duty this seek drives with.
    pub open spec fn seek_duty(self) -> int {
        self.sign() * self.cfg.seek_duty_q15
    }

    /// Both rails have been reached.
    pub open spec fn complete(self) -> bool {
        self.rail_fwd is Some && self.rail_rev is Some
    }

    /// Nothing until both rails have been reached; an abort leaves one side
    /// unrecorded.
    pub fn result(&self) -> (r: Option<EndstopResult>)
        requires
            self.rail_fwd matches Some(p) ==> p.i > i16::MIN,
            self.rail_rev matches Some(n) ==> n.i > i16::MIN,
        ensures
            r is Some <==> self.complete(),
            r matches Some(x) ==> {
                let p = self.rail_fwd->0;
                let n = self.rail_rev->0;
                &&& x.pos_min_phys == least(p.pos as int, n.pos as int)
                &&& x.pos_max_phys == greatest(p.pos as int, n.pos as int)
                &&& x.drive_polarity == (p.pos > n.pos)
                &&& x.i_stall_counts == greatest(abs(p.i as int), abs(n.i as int))
                &&& p.pos > n.pos ==> x.pos_max_phys == p.pos && x.pos_min_phys == n.pos
                &&& p.pos <= n.pos ==> x.pos_max_phys == n.pos && x.pos_min_phys == p.pos
                &&& x.i_stall_counts >= p.i && x.i_stall_counts >= -p.i
                &&& x.i_stall_counts >= n.i && x.i_stall_counts >= -n.i
                &&& x.i_stall_counts == p.i || x.i_stall_counts == -p.i || x.i_stall_counts == n.i
                    || x.i_stall_counts == -n.i
            },
    {
        match (self.rail_fwd, self.rail_rev) {
            (Some(p), Some(n)) => {
                let (ip, i_n): (u16, u16) = (mag16(p.i), mag16(n.i));
                Some(
                    EndstopResult {
                        pos_min_phys: if p.pos <= n.pos {
                            p.pos as i32
                        } else {
                            n.pos as i32
                        },
                        pos_max_phys: if p.pos >= n.pos {
                            p.pos as i32
                        } else {
                            n.pos as i32
                        },
                        drive_polarity: p.pos > n.pos,
                        i_stall_counts: if ip >= i_n {
                            ip as i16
                        } else {
                            i_n as i16
                        },
                    },
                )
            },
            _ => None,
        }
    }

    /// Still reads in a row, this one included.
    pub open spec fn still_after(self, pos: u16) -> int {
        if self.last_pos matches Some(last) && abs(pos - last) <= self.stall_eps {
            self.still + 1
        } else {
            0
        }
    }

    /// The machine after judging a seek read: enough still reads in a row are
    /// the rail.
    pub open spec fn judged(self, o: TelemetrySnapshot) -> Endstop {
        let still = self.still_after(o.pos) as u32;
        let e = Endstop { still, last_pos: Some(o.pos), phase: Phase::SeekRead, ..self };
        if still >= self.stall_polls {
            let rail = Some(Rail { pos: o.pos, i: o.i_mean_counts });
            if self.reverse {
                Endstop { phase: Phase::RestOff, rail_rev: rail, ..e }
            } else {
                Endstop { phase: Phase::RestOff, rail_fwd: rail, ..e }
            }
        } else {
            e
        }
    }

    /// One step of the machine.
    pub open spec fn next(self, obs: Option<TelemetrySnapshot>) -> (Endstop, Cmd) {
        match self.phase {
            Phase::ModeWrite => (
                Endstop { phase: Phase::TorqueOn, ..self },
                put(control::mode(), 0),
            ),
            Phase::TorqueOn => (
                Endstop { phase: Phase::SeekSet, ..self },
                put(control::torque_enable(), 1),
            ),
            Phase::SeekSet => (
                Endstop { phase: Phase::SeekRead, last_pos: None, still: 0, ..self },
                put(control::goal_duty(), self.seek_duty()),
            ),
            Phase::SeekRead => (Endstop { phase: Phase::SeekEval, ..self }, Cmd::Read),
            Phase::SeekEval => match obs {
                Some(o) => {
                    let e = self.judged(o);
                    (
                        e,
                        Cmd::Pause {
                            ms: if e.phase == Phase::RestOff {
                                0
                            } else {
                                self.cfg.seek_poll_ms
                            },
                        },
                    )
                },
                None => (
                    Endstop { phase: Phase::SeekRead, ..self },
                    Cmd::Pause { ms: self.cfg.seek_poll_ms },
                ),
            },
            Phase::RestOff => (
                Endstop { phase: Phase::RestPause, ..self },
                put(control::goal_duty(), 0),
            ),
            Phase::RestPause => (
                if self.reverse {
                    Endstop { phase: Phase::FinishDuty, ..self }
                } else {
                    Endstop { phase: Phase::SeekSet, reverse: true, ..self }
                },
                Cmd::Pause { ms: self.cfg.rest_ms },
            ),
            Phase::FinishDuty => (
                Endstop { phase: Phase::FinishTorque, ..self },
                put(control::goal_duty(), 0),
            ),
            Phase::FinishTorque => (
                Endstop { phase: Phase::Finished, ..self },
                put(control::torque_enable(), 0),
            ),
            Phase::Finished => (self, Cmd::Done),
        }
    }

    /// What the control registers hold in each phase.
    pub open spec fn posture(self, rig: Rig) -> bool {
        &&& rig.mode == 0
        &&& rig.current == 0 && rig.velocity == 0
        &&& match self.phase {
            Phase::ModeWrite | Phase::TorqueOn | Phase::Finished => rig.torque == 0 && rig.duty == 0,
            Phase::SeekSet | Phase::RestPause | Phase::FinishDuty | Phase::FinishTorque => rig.torque
                == 1 && rig.duty == 0,
            Phase::SeekRead | Phase::SeekEval | Phase::RestOff => rig.torque == 1 && rig.duty
                == self.seek_duty(),
        }
    }
}

impl Experiment for Endstop {
    open spec fn wf(&self) -> bool {
        &&& self.phase == Phase::SeekRead || self.phase == Phase::SeekEval ==> self.still
            < self.stall_polls || self.still == 0
        &&& self.phase == Phase::FinishDuty || self.phase == Phase::FinishTorque || self.phase
            == Phase::Finished ==> self.complete()
        &&& self.phase == Phase::RestOff || self.phase == Phase::RestPause ==> (if self.reverse {
            self.complete()
        } else {
            self.rail_fwd is Some
        })
        &&& self.reverse ==> self.rail_fwd is Some
    }

    open spec fn steps_to(&self, obs: Option<TelemetrySnapshot>, next: &Self, cmd: Cmd) -> bool {
        (*next, cmd) == self.next(obs)
    }

    fn step(&mut self, obs: Option<&TelemetrySnapshot>) -> (cmd: Cmd) {
        match self.phase {
            Phase::ModeWrite => {
                self.phase = Phase::TorqueOn;
                Cmd::Write { reg: control::mode(), value: 0 }
            },
            Phase::TorqueOn => {
                self.phase = Phase::SeekSet;
                Cmd::Write { reg: control::torque_enable(), value: 1 }
            },
            Phase::SeekSet => {
                self.phase = Phase::SeekRead;
                self.last_pos = None;
                self.still = 0;
                let value: i32 = self.dir() * self.cfg.seek_duty_q15 as i32;
                Cmd::Write { reg: control::goal_duty(), value }
            },
            Phase::SeekRead => {
                self.phase = Phase::SeekEval;
                Cmd::Read
            },
            Phase::SeekEval => {
                if let Some(o) = obs {
                    let mut held: bool = false;
                    if let Some(last) = self.last_pos {
                        held = distance(o.pos, last) <= self.stall_eps;
                    }
                    if held {
                        self.still = self.still + 1;
                    } else {
                        self.still = 0;
                    }
                    self.last_pos = Some(o.pos);
                    if self.still >= self.stall_polls {
                        let rail = Some(Rail { pos: o.pos, i: o.i_mean_counts });
                        if self.reverse {
                            self.rail_rev = rail;
                        } else {
                            self.rail_fwd = rail;
                        }
                        self.phase = Phase::RestOff;
                        return Cmd::Pause { ms: 0 };
                    }
                }
                self.phase = Phase::SeekRead;
                Cmd::Pause { ms: self.cfg.seek_poll_ms }
            },
            Phase::RestOff => {
                self.phase = Phase::RestPause;
                Cmd::Write { reg: control::goal_duty(), value: 0 }
            },
            Phase::RestPause => {
                if self.reverse {
                    self.phase = Phase::FinishDuty;
                } else {
                    self.reverse = true;
                    self.phase = Phase::SeekSet;
                }
                Cmd::Pause { ms: self.cfg.rest_ms }
            },
            Phase::FinishDuty => {
                self.phase = Phase::FinishTorque;
                Cmd::Write { reg: control::goal_duty(), value: 0 }
            },
            Phase::FinishTorque => {
                self.phase = Phase::Finished;
                Cmd::Write { reg: control::torque_enable(), value: 0 }
            },
            Phase::Finished => Cmd::Done,
        }
    }
}

/// The choreography is safe throughout: from a parked rig every command is one
/// the rig permits (torque before any drive, drive at zero before torque goes),
/// and the machine always knows what the registers hold. Finished means parked.
pub proof fn law_endstop_choreography(e: Endstop, rig: Rig, obs: Option<TelemetrySnapshot>)
    requires
        e.posture(rig),
    ensures
        rig.permits(e.next(obs).1),
        e.next(obs).0.posture(rig.after(e.next(obs).1)),
        e.phase == Phase::Finished ==> rig == Rig::parked(),
        e.phase == Phase::ModeWrite ==> rig == Rig::parked(),
{
}

/// A finished run has both rails, and a finished machine stays finished with
/// its rails untouched.
pub proof fn law_endstop_finishes_complete(e: Endstop, obs: Option<TelemetrySnapshot>)
    requires
        e.wf(),
        e.phase == Phase::Finished,
    ensures
        e.complete(),
        e.next(obs) == (e, Cmd::Done),
{
}

/// A rail is declared exactly on the read that makes `stall_polls` still reads
/// in a row, at the position of that read and for the direction being sought.
pub proof fn law_rail_needs_stillness(e: Endstop, o: TelemetrySnapshot)
    requires
        e.wf(),
        e.phase == Phase::SeekEval,
    ensures
        e.next(Some(o)).0.phase == Phase::RestOff <==> e.still_after(o.pos) >= e.stall_polls,
        e.next(Some(o)).0.phase == Phase::RestOff ==> (if e.reverse {
            e.next(Some(o)).0.rail_rev == Some(Rail { pos: o.pos, i: o.i_mean_counts })
                && e.next(Some(o)).0.rail_fwd == e.rail_fwd
        } else {
            e.next(Some(o)).0.rail_fwd == Some(Rail { pos: o.pos, i: o.i_mean_counts })
                && e.next(Some(o)).0.rail_rev == e.rail_rev
        }),
{
}

} // verus!
