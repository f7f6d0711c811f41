//! Steady-state duty ladder: constant-duty full-travel sweeps, both directions.
//! Each rung seeks the start end, rests, then sweeps across the travel
//! collecting windows paired with the pot position. The steady segment of a
//! rung (ends trimmed, slip zone masked) feeds the fits; a rung whose segment
//! is too short, or that stalls mid-sweep, is dropped with its reason.
//!
//! Rungs alternate positive and negative duty at each level so that the pot
//! ends near the next sweep's start and seeks stay short.

use super::rig::Rig;
use super::{distance, put, Cmd, Experiment, RigParams, WindowSample, WindowStream};
use crate::frame::TelemetrySnapshot;
use crate::math::abs;
use crate::regs::control;
use vstd::prelude::*;

verus! {

pub struct LadderCfg {
    /// Rung duties, q15, each run positive then negative.
    pub rungs_q15: Vec<i16>,
    /// Seek drive toward the start end, q15.
    pub seek_duty_q15: i16,
    /// Sweep start and stop distance from the guard edges, counts. Open loop
    /// cannot brake, and this absorbs the coast.
    pub stop_margin: u16,
    pub poll_ms: u32,
    pub seek_poll_ms: u32,
    /// Rest after every seek and every sweep.
    pub rest_ms: u32,
    /// Still detect: position change at most `stall_eps` across `stall_polls`
    /// polls in a row.
    pub stall_eps: u16,
    pub stall_polls: u32,
    /// Polls after which a seek gives up.
    pub seek_cap_polls: u32,
    /// Minimum steady windows for a rung to enter the fits.
    pub min_steady: usize,
}

impl Default for LadderCfg {
    fn default() -> (r: Self)
        ensures
            r.rungs_q15@ == seq![8520i16, 10813i16, 13107i16, 15400i16, 18022i16, 20971i16],
            r.seek_duty_q15 == 8520,
            r.stop_margin == 1300,
            r.poll_ms == 2,
            r.seek_poll_ms == 30,
            r.rest_ms == 300,
            r.stall_eps == 3,
            r.stall_polls == 10,
            r.seek_cap_polls == 400,
            r.min_steady == 12,
    {
        LadderCfg {
            rungs_q15: vec![8520, 10813, 13107, 15400, 18022, 20971],
            seek_duty_q15: 8520,
            stop_margin: 1300,
            poll_ms: 2,
            seek_poll_ms: 30,
            rest_ms: 300,
            stall_eps: 3,
            stall_polls: 10,
            seek_cap_polls: 400,
            min_steady: 12,
        }
    }
}

/// One accepted sweep window with the pot position it was read with.
#[derive(Copy, Clone, Debug, PartialEq, Eq, Structural)]
pub struct SweepSample {
    pub w: WindowSample,
    pub pos: u16,
}

/// One sweep as it was captured.
pub struct RungCapture {
    pub duty_q15: i16,
    pub samples: Vec<SweepSample>,
    /// The shaft stood still before the far edge.
    pub stalled: bool,
}

/// A captured sweep as plain values.
pub struct Rung {
    pub duty: int,
    pub samples: Seq<SweepSample>,
    pub stalled: bool,
}

impl RungCapture {
    pub open spec fn view(&self) -> Rung {
        Rung { duty: self.duty_q15 as int, samples: self.samples@, stalled: self.stalled }
    }
}

#[derive(Copy, Clone, Debug, PartialEq, Eq, Structural)]
pub enum Phase {
    ModeWrite,
    TorqueOn,
    SeekSet,
    SeekRead,
    SeekEval,
    SeekOff,
    SeekRest,
    RungSet,
    RungRead,
    RungEval,
    RungOff,
    RungRest,
    FinishTorque,
    Finished,
}

pub struct Ladder {
    pub cfg: LadderCfg,
    /// Edges the sweeps run between.
    pub band: (u16, u16),
    pub phase: Phase,
    /// Rung level is `sweep / 2`; even sweeps drive forward.
    pub sweep: usize,
    pub last_pos: Option<u16>,
    pub still: u32,
    pub polls: u32,
    pub windows: WindowStream,
    pub samples: Vec<SweepSample>,
    pub stalled: bool,
    pub captures: Vec<RungCapture>,
    /// Sweeps whose seek gave up and started where it was.
    pub gave_up: Vec<usize>,
}

/// The configuration as plain values.
pub struct LadderPlan {
    pub rungs: Seq<i16>,
    pub seek_duty: int,
    pub stop_margin: int,
    pub poll_ms: u32,
    pub seek_poll_ms: u32,
    pub rest_ms: u32,
    pub stall_eps: u16,
    pub stall_polls: u32,
    pub seek_cap_polls: u32,
    pub band_lo: int,
    pub band_hi: int,
}

/// The machine as plain values.
pub struct LadderView {
    pub phase: Phase,
    pub sweep: int,
    pub last_pos: Option<u16>,
    pub still: int,
    pub polls: int,
    pub windows: WindowStream,
    pub samples: Seq<SweepSample>,
    pub stalled: bool,
    pub captures: Seq<Rung>,
    pub gave_up: Seq<int>,
}

impl LadderPlan {
    pub open spec fn forward(self, sweep: int) -> bool {
        sweep % 2 == 0
    }

    /// Sweep edges, whichever way the sweep runs.
    pub open spec fn lo(self) -> int {
        self.band_lo + self.stop_margin
    }

    pub open spec fn hi(self) -> int {
        self.band_hi - self.stop_margin
    }

    pub open spec fn duty(self, sweep: int) -> int {
        let d = self.rungs[sweep / 2] as int;
        if self.forward(sweep) {
            d
        } else {
            -d
        }
    }

    /// The seek drives back toward the edge the sweep leaves from.
    pub open spec fn seek(self, sweep: int) -> int {
        if self.forward(sweep) {
            -self.seek_duty
        } else {
            self.seek_duty
        }
    }

    pub open spec fn at_start(self, sweep: int, pos: int) -> bool {
        if self.forward(sweep) {
            pos <= self.lo()
        } else {
            pos >= self.hi()
        }
    }

    pub open spec fn at_stop(self, sweep: int, pos: int) -> bool {
        if self.forward(sweep) {
            pos >= self.hi()
        } else {
            pos <= self.lo()
        }
    }

    pub open spec fn sweeps(self) -> int {
        2 * (self.rungs.len() as int)
    }

    /// The plan names duties that can be negated, edges that fit, and at least
    /// one rung.
    pub open spec fn valid(self) -> bool {
        &&& self.rungs.len() >= 1
        &&& self.sweeps() <= usize::MAX
        &&& forall|k: int| 0 <= k < self.rungs.len() ==> #[trigger] self.rungs[k] > i16::MIN
        &&& self.lo() <= u16::MAX
        &&& self.hi() >= 0
    }
}

impl LadderView {
    /// Still reads in a row, this one included.
    pub open spec fn still_after(self, plan: LadderPlan, pos: u16) -> int {
        if self.last_pos matches Some(last) && abs(pos - last) <= plan.stall_eps {
            self.still + 1
        } else {
            0
        }
    }

    pub open spec fn followed(self, plan: LadderPlan, pos: u16) -> LadderView {
        LadderView { still: self.still_after(plan, pos), last_pos: Some(pos), ..self }
    }

    pub open spec fn fresh_track(self) -> LadderView {
        LadderView { last_pos: None, still: 0, polls: 0, ..self }
    }

    pub open spec fn marked(self) -> LadderView {
        LadderView { windows: self.windows.marked(), ..self }
    }

    pub open spec fn to(self, phase: Phase) -> LadderView {
        LadderView { phase, ..self }
    }

    /// A seek read judged: the start edge, or a shaft that stands still, ends
    /// the seek; so does the poll cap, which is noted.
    pub open spec fn seek_judged(self, plan: LadderPlan, obs: Option<TelemetrySnapshot>) -> LadderView {
        let t = match obs {
            Some(o) => self.followed(plan, o.pos),
            None => self,
        };
        let there = obs matches Some(o) && (plan.at_start(self.sweep, o.pos as int) || t.still
            >= plan.stall_polls);
        let capped = !there && self.polls + 1 >= plan.seek_cap_polls;
        LadderView {
            polls: self.polls + 1,
            gave_up: if capped {
                self.gave_up.push(self.sweep)
            } else {
                self.gave_up
            },
            phase: if there || capped {
                Phase::SeekOff
            } else {
                Phase::SeekRead
            },
            ..t
        }
    }

    /// A sweep read judged: a fresh window is kept with its position; the far
    /// edge ends the sweep, and so does a stall, which is noted.
    pub open spec fn sweep_judged(self, plan: LadderPlan, obs: Option<TelemetrySnapshot>) -> LadderView {
        match obs {
            None => self.to(Phase::RungRead),
            Some(o) => {
                let t = self.followed(plan, o.pos);
                let stalled = t.still >= plan.stall_polls;
                LadderView {
                    windows: self.windows.after(o.agg_seq),
                    samples: match self.windows.sampled(o) {
                        Some(w) => self.samples.push(SweepSample { w, pos: o.pos }),
                        None => self.samples,
                    },
                    stalled: self.stalled || stalled,
                    phase: if stalled || plan.at_stop(self.sweep, o.pos as int) {
                        Phase::RungOff
                    } else {
                        Phase::RungRead
                    },
                    ..t
                }
            },
        }
    }

    /// The finished sweep filed away.
    pub open spec fn filed(self, plan: LadderPlan) -> LadderView {
        LadderView {
            captures: self.captures.push(
                Rung { duty: plan.duty(self.sweep), samples: self.samples, stalled: self.stalled },
            ),
            samples: Seq::empty(),
            stalled: false,
            ..self
        }
    }

    /// One step of the machine.
    pub open spec fn next(self, plan: LadderPlan, obs: Option<TelemetrySnapshot>) -> (LadderView, Cmd) {
        match self.phase {
            Phase::ModeWrite => (self.to(Phase::TorqueOn), put(control::mode(), 0)),
            Phase::TorqueOn => (self.to(Phase::SeekSet), put(control::torque_enable(), 1)),
            Phase::SeekSet => (
                self.fresh_track().marked().to(Phase::SeekRead),
                put(control::goal_duty(), plan.seek(self.sweep)),
            ),
            Phase::SeekRead => (self.to(Phase::SeekEval), Cmd::Read),
            Phase::SeekEval => {
                let n = self.seek_judged(plan, obs);
                (
                    n,
                    Cmd::Pause {
                        ms: if n.phase == Phase::SeekOff {
                            0
                        } else {
                            plan.seek_poll_ms
                        },
                    },
                )
            },
            Phase::SeekOff => (self.marked().to(Phase::SeekRest), put(control::goal_duty(), 0)),
            Phase::SeekRest => (self.to(Phase::RungSet), Cmd::Pause { ms: plan.rest_ms }),
            Phase::RungSet => (
                self.fresh_track().marked().to(Phase::RungRead),
                put(control::goal_duty(), plan.duty(self.sweep)),
            ),
            Phase::RungRead => (self.to(Phase::RungEval), Cmd::Read),
            Phase::RungEval => {
                let n = self.sweep_judged(plan, obs);
                (
                    n,
                    Cmd::Pause {
                        ms: if n.phase == Phase::RungOff {
                            0
                        } else {
                            plan.poll_ms
                        },
                    },
                )
            },
            Phase::RungOff => (
                self.filed(plan).marked().to(Phase::RungRest),
                put(control::goal_duty(), 0),
            ),
            Phase::RungRest => (
                LadderView {
                    sweep: self.sweep + 1,
                    phase: if self.sweep + 1 < plan.sweeps() {
                        Phase::SeekSet
                    } else {
                        Phase::FinishTorque
                    },
                    ..self
                },
                Cmd::Pause { ms: plan.rest_ms },
            ),
            Phase::FinishTorque => (self.to(Phase::Finished), put(control::torque_enable(), 0)),
            Phase::Finished => (self, Cmd::Done),
        }
    }

    /// What the machine's own steps keep true.
    pub open spec fn consistent(self, plan: LadderPlan) -> bool {
        &&& 0 <= self.still && 0 <= self.polls
        &&& self.phase != Phase::FinishTorque && self.phase != Phase::Finished ==> 0 <= self.sweep
            < plan.sweeps()
        &&& self.phase == Phase::FinishTorque || self.phase == Phase::Finished ==> self.sweep
            == plan.sweeps()
        &&& self.phase == Phase::SeekRead || self.phase == Phase::SeekEval || self.phase
            == Phase::RungRead || self.phase == Phase::RungEval ==> self.still < plan.stall_polls
            || self.still == 0
        &&& self.phase == Phase::SeekRead || self.phase == Phase::SeekEval ==> self.polls
            < plan.seek_cap_polls || self.polls == 0
        &&& self.captures.len() == self.sweep + (if self.phase == Phase::RungRest {
            1int
        } else {
            0int
        })
        &&& forall|k: int|
            0 <= k < self.captures.len() ==> (#[trigger] self.captures[k]).duty == plan.duty(k)
    }

    /// What the control registers hold in each phase.
    pub open spec fn posture(self, plan: LadderPlan, rig: Rig) -> bool {
        &&& rig.mode == 0
        &&& rig.current == 0 && rig.velocity == 0
        &&& match self.phase {
            Phase::ModeWrite | Phase::TorqueOn | Phase::Finished => rig.torque == 0 && rig.duty == 0,
            Phase::SeekSet
            | Phase::SeekRest
            | Phase::RungSet
            | Phase::RungRest
            | Phase::FinishTorque => rig.torque == 1 && rig.duty == 0,
            Phase::SeekRead | Phase::SeekEval | Phase::SeekOff => rig.torque == 1 && rig.duty
                == plan.seek(self.sweep),
            Phase::RungRead | Phase::RungEval | Phase::RungOff => rig.torque == 1 && rig.duty
                == plan.duty(self.sweep),
        }
    }
}

pub open spec fn rungs_of(captures: Seq<RungCapture>) -> Seq<Rung> {
    captures.map_values(|c: RungCapture| c@)
}

pub open spec fn ints_of(v: Seq<usize>) -> Seq<int> {
    v.map_values(|x: usize| x as int)
}

impl Ladder {
    pub open spec fn plan(&self) -> LadderPlan {
        LadderPlan {
            rungs: self.cfg.rungs_q15@,
            seek_duty: self.cfg.seek_duty_q15 as int,
            stop_margin: self.cfg.stop_margin as int,
            poll_ms: self.cfg.poll_ms,
            seek_poll_ms: self.cfg.seek_poll_ms,
            rest_ms: self.cfg.rest_ms,
            stall_eps: self.cfg.stall_eps,
            stall_polls: self.cfg.stall_polls,
            seek_cap_polls: self.cfg.seek_cap_polls,
            band_lo: self.band.0 as int,
            band_hi: self.band.1 as int,
        }
    }

    pub open spec fn view(&self) -> LadderView {
        LadderView {
            phase: self.phase,
            sweep: self.sweep as int,
            last_pos: self.last_pos,
            still: self.still as int,
            polls: self.polls as int,
            windows: self.windows,
            samples: self.samples@,
            stalled: self.stalled,
            captures: rungs_of(self.captures@),
            gave_up: ints_of(self.gave_up@),
        }
    }

    /// Sweeps need a band to run between even when the travel guard is off;
    /// they fall back to the default guard.
    pub fn new(cfg: LadderCfg, params: &RigParams) -> (r: Self)
        ensures
            r.cfg == cfg,
            r.band == (match params.pos_guard {
                Some(g) => g,
                None => (150u16, 3950u16),
            }),
            r@ == (LadderView {
                phase: Phase::ModeWrite,
                sweep: 0,
                last_pos: None,
                still: 0,
                polls: 0,
                windows: WindowStream::started(params.settle_windows),
                samples: Seq::empty(),
                stalled: false,
                captures: Seq::empty(),
                gave_up: Seq::empty(),
            }),
            r.plan().valid() ==> r.wf(),
    {
        let band: (u16, u16) = match params.pos_guard {
            Some(g) => g,
            None => (150, 3950),
        };
        let r = Ladder {
            cfg,
            band,
            phase: Phase::ModeWrite,
            sweep: 0,
            last_pos: None,
            still: 0,
            polls: 0,
            windows: WindowStream::new(params),
            samples: Vec::new(),
            stalled: false,
            captures: Vec::new(),
            gave_up: Vec::new(),
        };
        assert(r@.captures =~= Seq::empty());
        assert(r@.gave_up =~= Seq::empty());
        r
    }

    fn forward(&self) -> (r: bool)
        ensures
            r == self.plan().forward(self.sweep as int),
    {
        self.sweep % 2 == 0
    }

    fn duty(&self) -> (r: i16)
        requires
            self.plan().valid(),
            self.sweep < self.plan().sweeps(),
        ensures
            r == self.plan().duty(self.sweep as int),
    {
        let d: i16 = self.cfg.rungs_q15[self.sweep / 2];
        assert(self.plan().rungs[self.sweep as int / 2] == d);
        if self.forward() {
            d
        } else {
            -d
        }
    }

    fn seek_done(&self, pos: u16) -> (r: bool)
        requires
            self.plan().valid(),
        ensures
            r == self.plan().at_start(self.sweep as int, pos as int),
    {
        if self.forward() {
            pos <= self.band.0 + self.cfg.stop_margin
        } else {
            pos >= self.band.1 - self.cfg.stop_margin
        }
    }

    fn sweep_done(&self, pos: u16) -> (r: bool)
        requires
            self.plan().valid(),
        ensures
            r == self.plan().at_stop(self.sweep as int, pos as int),
    {
        if self.forward() {
            pos >= self.band.1 - self.cfg.stop_margin
        } else {
            pos <= self.band.0 + self.cfg.stop_margin
        }
    }

    fn track_still(&mut self, pos: u16)
        requires
            old(self).still < old(self).cfg.stall_polls || old(self).still == 0,
        ensures
            final(self)@ == old(self)@.followed(old(self).plan(), pos),
            final(self).cfg == old(self).cfg,
            final(self).band == old(self).band,
    {
        let mut held: bool = false;
        if let Some(last) = self.last_pos {
            held = distance(pos, last) <= self.cfg.stall_eps;
        }
        if held {
            self.still = self.still + 1;
        } else {
            self.still = 0;
        }
        self.last_pos = Some(pos);
    }

    /// File the finished sweep.
    fn close_rung(&mut self)
        requires
            old(self).plan().valid(),
            old(self).sweep < old(self).plan().sweeps(),
        ensures
            final(self)@ == old(self)@.filed(old(self).plan()),
            final(self).cfg == old(self).cfg,
            final(self).band == old(self).band,
    {
        let duty_q15: i16 = self.duty();
        let mut samples: Vec<SweepSample> = Vec::new();
        std::mem::swap(&mut samples, &mut self.samples);
        let c = RungCapture { duty_q15, samples, stalled: self.stalled };
        let ghost filed = rungs_of(self.captures@).push(c@);
        self.captures.push(c);
        assert(rungs_of(self.captures@) =~= filed);
        self.stalled = false;
        assert(self.samples@ =~= Seq::empty());
    }

    /// Every sweep so far, in the order it was run, the ones that stalled
    /// included.
    pub fn captures(&self) -> (r: &Vec<RungCapture>)
        ensures
            *r == self.captures,
    {
        &self.captures
    }
}

impl Experiment for Ladder {
    open spec fn wf(&self) -> bool {
        self.plan().valid() && self@.consistent(self.plan())
    }

    open spec fn steps_to(&self, obs: Option<TelemetrySnapshot>, next: &Self, cmd: Cmd) -> bool {
        &&& (next@, cmd) == self@.next(self.plan(), obs)
        &&& next.cfg == self.cfg
        &&& next.band == self.band
    }

    fn step(&mut self, obs: Option<&TelemetrySnapshot>) -> (cmd: Cmd) {
        match self.phase {
            Phase::ModeWrite => {
                self.phase = Phase::TorqueOn;
                Cmd::Write { reg: control::mode(), value: 0 }
            },
            Phase::TorqueOn => {
                self.phase = Phase::SeekSet;
                Cmd::Write { reg: control::torque_enable(), value: 1 }
            },
            Phase::SeekSet => {
                self.last_pos = None;
                self.still = 0;
                self.polls = 0;
                self.windows.mark_transition();
                self.phase = Phase::SeekRead;
                let seek: i32 = self.cfg.seek_duty_q15 as i32;
                let value: i32 = if self.forward() {
                    -seek
                } else {
                    seek
                };
                Cmd::Write { reg: control::goal_duty(), value }
            },
            Phase::SeekRead => {
                self.phase = Phase::SeekEval;
                Cmd::Read
            },
            Phase::SeekEval => {
                let mut done: bool = false;
                if let Some(o) = obs {
                    self.track_still(o.pos);
                    done = self.seek_done(o.pos) || self.still >= self.cfg.stall_polls;
                }
                self.polls = self.polls + 1;
                if !done && self.polls >= self.cfg.seek_cap_polls {
                    let ghost noted = ints_of(self.gave_up@).push(self.sweep as int);
                    self.gave_up.push(self.sweep);
                    assert(ints_of(self.gave_up@) =~= noted);
                    done = true;
                }
                if done {
                    self.phase = Phase::SeekOff;
                    Cmd::Pause { ms: 0 }
                } else {
                    self.phase = Phase::SeekRead;
                    Cmd::Pause { ms: self.cfg.seek_poll_ms }
                }
            },
            Phase::SeekOff => {
                self.windows.mark_transition();
                self.phase = Phase::SeekRest;
                Cmd::Write { reg: control::goal_duty(), value: 0 }
            },
            Phase::SeekRest => {
                self.phase = Phase::RungSet;
                Cmd::Pause { ms: self.cfg.rest_ms }
            },
            Phase::RungSet => {
                self.last_pos = None;
                self.still = 0;
                self.polls = 0;
                self.windows.mark_transition();
                self.phase = Phase::RungRead;
                Cmd::Write { reg: control::goal_duty(), value: self.duty() as i32 }
            },
            Phase::RungRead => {
                self.phase = Phase::RungEval;
                Cmd::Read
            },
            Phase::RungEval => {
                let mut done: bool = false;
                if let Some(o) = obs {
                    if let Some(w) = self.windows.push(o) {
                        self.samples.push(SweepSample { w, pos: o.pos });
                    }
                    self.track_still(o.pos);
                    if self.still >= self.cfg.stall_polls {
                        self.stalled = true;
                        done = true;
                    }
                    done = done || self.sweep_done(o.pos);
                }
                if done {
                    self.phase = Phase::RungOff;
                    Cmd::Pause { ms: 0 }
                } else {
                    self.phase = Phase::RungRead;
                    Cmd::Pause { ms: self.cfg.poll_ms }
                }
            },
            Phase::RungOff => {
                self.close_rung();
                self.windows.mark_transition();
                self.phase = Phase::RungRest;
                Cmd::Write { reg: control::goal_duty(), value: 0 }
            },
            Phase::RungRest => {
                self.sweep = self.sweep + 1;
                self.phase = if self.sweep < 2 * self.cfg.rungs_q15.len() {
                    Phase::SeekSet
                } else {
                    Phase::FinishTorque
                };
                Cmd::Pause { ms: self.cfg.rest_ms }
            },
            Phase::FinishTorque => {
                self.phase = Phase::Finished;
                Cmd::Write { reg: control::torque_enable(), value: 0 }
            },
            Phase::Finished => Cmd::Done,
        }
    }
}

/// Why a rung stays out of the fits.
#[derive(Copy, Clone, Debug, PartialEq, Eq, Structural)]
pub enum RungNote {
    /// The shaft stood still mid-sweep.
    Stalled,
    /// Fewer steady windows than a fit needs.
    TooShort,
    /// Steady windows through which no line can be laid: the fit's to find.
    Degenerate,
}

/// The samples of a rung outside the slip zone, in order.
pub open spec fn unslipped(samples: Seq<SweepSample>, params: RigParams) -> Seq<SweepSample> {
    samples.filter(|s: SweepSample| !params.slips(s.pos))
}

/// The samples between the trimmed ends.
pub open spec fn trimmed(samples: Seq<SweepSample>, trim: int) -> Seq<SweepSample> {
    samples.subrange(trim, samples.len() - trim)
}

/// What a rung is marked with, by its stall flag and its steady windows.
pub open spec fn rung_note(stalled: bool, steady: int, min_steady: int) -> Option<RungNote> {
    if stalled {
        Some(RungNote::Stalled)
    } else if steady < min_steady {
        Some(RungNote::TooShort)
    } else {
        None
    }
}

/// A rung reduced to what the fits may use.
pub struct RungSegment {
    pub duty_q15: i16,
    pub steady: Vec<SweepSample>,
    /// The reason it stays out, for a rung that does.
    pub note: Option<RungNote>,
}

/// Reduce a captured sweep: `trim` windows come off each end, the slip zone is
/// masked, and a rung that stalled or kept too little is marked.
pub fn steady_segment(c: &RungCapture, trim: usize, params: &RigParams, min_steady: usize) -> (r: RungSegment)
    requires
        2 * trim <= c.samples@.len(),
    ensures
        r.duty_q15 == c.duty_q15,
        r.steady@ == unslipped(trimmed(c.samples@, trim as int), *params),
        r.note == rung_note(c.stalled, r.steady@.len() as int, min_steady as int),
{
    let n: usize = c.samples.len();
    let ghost keep = |s: SweepSample| !params.slips(s.pos);
    let mut steady: Vec<SweepSample> = Vec::new();
    let mut i: usize = trim;
    assert(c.samples@.subrange(trim as int, trim as int) =~= Seq::<SweepSample>::empty());
    proof {
        reveal(Seq::filter);
    }
    while i < n - trim
        invariant
            trim <= i <= n - trim,
            n == c.samples@.len(),
            2 * trim <= n,
            keep == |s: SweepSample| !params.slips(s.pos),
            steady@ == c.samples@.subrange(trim as int, i as int).filter(keep),
        decreases n - trim - i,
    {
        let s: SweepSample = c.samples[i];
        proof {
            let now = c.samples@.subrange(trim as int, i as int);
            let then = c.samples@.subrange(trim as int, i + 1);
            assert(then.drop_last() =~= now);
            assert(then.last() == s);
            reveal(Seq::filter);
        }
        if !params.in_slip(s.pos) {
            steady.push(s);
        }
        i = i + 1;
    }
    let note: Option<RungNote> = if c.stalled {
        Some(RungNote::Stalled)
    } else if steady.len() < min_steady {
        Some(RungNote::TooShort)
    } else {
        None
    };
    RungSegment { duty_q15: c.duty_q15, steady, note }
}

/// The warnings over a series of reduced rungs: the duty and the reason of each
/// that stays out, in order.
pub open spec fn warned(rungs: Seq<RungSegment>) -> Seq<(i16, RungNote)> {
    rungs.filter(|r: RungSegment| r.note is Some).map_values(
        |r: RungSegment| (r.duty_q15, r.note->0),
    )
}

proof fn lemma_warned_push(rungs: Seq<RungSegment>, r: RungSegment)
    ensures
        warned(rungs.push(r)) == (match r.note {
            Some(n) => warned(rungs).push((r.duty_q15, n)),
            None => warned(rungs),
        }),
{
    reveal(Seq::filter);
    assert(rungs.push(r).drop_last() =~= rungs);
    if r.note is Some {
        assert(warned(rungs.push(r)) =~= warned(rungs).push((r.duty_q15, r.note->0)));
    }
}

/// Collect the warnings of a ladder's reduced rungs.
pub fn rung_warnings(rungs: &Vec<RungSegment>) -> (r: Vec<(i16, RungNote)>)
    ensures
        r@ == warned(rungs@),
{
    let mut out: Vec<(i16, RungNote)> = Vec::new();
    let mut i: usize = 0;
    proof {
        reveal(Seq::filter);
        assert(warned(rungs@.take(0)) =~= out@);
    }
    while i < rungs.len()
        invariant
            i <= rungs@.len(),
            out@ == warned(rungs@.take(i as int)),
        decreases rungs@.len() - i,
    {
        proof {
            lemma_warned_push(rungs@.take(i as int), rungs@[i as int]);
            assert(rungs@.take(i + 1) =~= rungs@.take(i as int).push(rungs@[i as int]));
        }
        if let Some(n) = rungs[i].note {
            out.push((rungs[i].duty_q15, n));
        }
        i = i + 1;
    }
    assert(rungs@.take(i as int) =~= rungs@);
    out
}

/// A rung that stays out adds exactly one warning, its own and the last; a rung
/// that enters the fits adds none. A ladder whose rungs all enter has no
/// warnings.
pub proof fn law_warnings(rungs: Seq<RungSegment>, r: RungSegment)
    ensures
        r.note matches Some(n) ==> warned(rungs.push(r)) == warned(rungs).push((r.duty_q15, n)),
        r.note is None ==> warned(rungs.push(r)) == warned(rungs),
        (forall|k: int| 0 <= k < rungs.len() ==> (#[trigger] rungs[k]).note is None) ==> warned(
            rungs,
        ).len() == 0,
    decreases rungs.len(),
{
    lemma_warned_push(rungs, r);
    if rungs.len() > 0 {
        let before = rungs.drop_last();
        law_warnings(before, rungs.last());
        assert(before.push(rungs.last()) =~= rungs);
        assert(forall|k: int| 0 <= k < before.len() ==> before[k] == rungs[k]);
    } else {
        reveal(Seq::filter);
    }
}

/// A rung enters the fits exactly when it did not stall and kept enough steady
/// windows.
pub proof fn law_used_iff_steady(stalled: bool, steady: int, min_steady: int)
    ensures
        rung_note(stalled, steady, min_steady) is None <==> !stalled && steady >= min_steady,
        stalled ==> rung_note(stalled, steady, min_steady) == Some(RungNote::Stalled),
        !stalled && steady < min_steady ==> rung_note(stalled, steady, min_steady) == Some(
            RungNote::TooShort,
        ),
{
}

/// The choreography is safe throughout: torque before any drive, drive at zero
/// before torque goes, and a finished ladder leaves the rig parked.
pub proof fn law_ladder_choreography(
    l: LadderView,
    plan: LadderPlan,
    rig: Rig,
    obs: Option<TelemetrySnapshot>,
)
    requires
        plan.valid(),
        -0x8000 <= plan.seek_duty < 0x8000,
        l.consistent(plan),
        l.posture(plan, rig),
    ensures
        rig.permits(l.next(plan, obs).1),
        l.next(plan, obs).0.posture(plan, rig.after(l.next(plan, obs).1)),
        l.phase == Phase::Finished ==> rig == Rig::parked(),
{
    if l.phase == Phase::RungSet {
        assert(plan.rungs[l.sweep / 2] > i16::MIN);
    }
}

/// A finished ladder has run every rung once in each direction, in order.
pub proof fn law_ladder_runs_every_rung(l: LadderView, plan: LadderPlan)
    requires
        plan.valid(),
        l.consistent(plan),
        l.phase == Phase::Finished,
    ensures
        l.captures.len() == 2 * plan.rungs.len(),
        forall|k: int|
            0 <= k < plan.rungs.len() ==> #[trigger] plan.rungs[k] == l.captures[2 * k].duty && -plan.rungs[k]
                == l.captures[2 * k + 1].duty,
{
    assert forall|k: int| 0 <= k < plan.rungs.len() implies #[trigger] plan.rungs[k] == l.captures[2
        * k].duty && -plan.rungs[k] == l.captures[2 * k + 1].duty by {
        assert(l.captures[2 * k].duty == plan.duty(2 * k));
        assert(l.captures[2 * k + 1].duty == plan.duty(2 * k + 1));
    }
}

/// Masking is sound and complete: a steady segment holds no slip-zone sample,
/// and a sample outside the zone and the trims is never lost.
pub proof fn law_slip_is_masked(samples: Seq<SweepSample>, trim: int, params: RigParams)
    requires
        0 <= trim,
        2 * trim <= samples.len(),
    ensures
        forall|s: SweepSample| #[trigger]
            unslipped(trimmed(samples, trim), params).contains(s) ==> !params.slips(s.pos),
        forall|k: int|
            trim <= k < samples.len() - trim && !params.slips((#[trigger] samples[k]).pos)
                ==> unslipped(trimmed(samples, trim), params).contains(samples[k]),
{
    broadcast use vstd::seq_lib::group_filter_ensures;

    let t = trimmed(samples, trim);
    let keep = |s: SweepSample| !params.slips(s.pos);
    assert forall|k: int|
        trim <= k < samples.len() - trim && !params.slips((#[trigger] samples[k]).pos) implies unslipped(
        t,
        params,
    ).contains(samples[k]) by {
        assert(t[k - trim] == samples[k]);
        assert(keep(t[k - trim]));
    }
    assert forall|s: SweepSample| #[trigger] unslipped(t, params).contains(s) implies !params.slips(
        s.pos,
    ) by {
        let f = t.filter(keep);
        let i = choose|i: int| 0 <= i < f.len() && f[i] == s;
        assert(keep(f[i]));
    }
}

} // verus!
