//! Motion around the ripple capture, as experiments for the driver to pump:
//! closed-loop nudges to a place, the speed probe, and the stream switch around
//! a run that would not enable the stream itself.

use crate::exp::rig::Rig;
use crate::exp::{distance, put, Cmd, Experiment};
use crate::frame::TelemetrySnapshot;
use crate::math::{bound, clamp32, divide, fits32, greatest, max32, quotient};
use crate::regs::control;
use vstd::prelude::*;

verus! {

/// Polls before a nudge gives up.
pub const SEEK_POLLS: u32 = 200;

/// Pause between two polls.
pub const SEEK_PAUSE_MS: u32 = 25;

/// Half-width of the band around a target count, well inside the rail inset.
pub const TARGET_BAND: i32 = 40;

/// Duty magnitude of a nudge to mid-travel.
pub const NUDGE_DUTY_Q15: i16 = 9000;

/// Mid-travel band that in-band experiments start from.
pub const MID_LO: u16 = 1750;

pub const MID_HI: u16 = 2350;

/// Stream mask of the capture: position, current, duty, differential.
pub const CAPTURE_MASK: u16 = 0x1b;

/// Duty magnitude of the capture.
pub const CAPTURE_DUTY_Q15: i16 = 8520;

/// Least distance kept from a rail.
pub const INSET_MIN: i32 = 80;

#[derive(Copy, Clone, Debug, PartialEq, Eq, Structural)]
pub enum SeekPhase {
    ModeWrite,
    TorqueOn,
    Poll,
    Judge,
    Wait,
    TorqueOff,
    Finished,
}

/// A closed-loop nudge: poll the position, drive toward the band until it is
/// inside or the polls run out, then stop.
#[derive(Copy, Clone, Debug, PartialEq, Eq, Structural)]
pub struct Seek {
    /// The band to reach.
    pub lo: i32,
    pub hi: i32,
    /// Below this count the way to the band is up.
    pub pivot: i32,
    /// Positive duty raises the count.
    pub polarity: bool,
    pub duty_q15: i16,
    /// Turn torque off at the end.
    pub release: bool,
    /// Polls left.
    pub left: u32,
    pub reached: bool,
    pub phase: SeekPhase,
}

impl Seek {
    pub open spec fn fresh(
        lo: i32,
        hi: i32,
        pivot: i32,
        polarity: bool,
        duty_q15: i16,
        release: bool,
    ) -> Seek {
        Seek {
            lo,
            hi,
            pivot,
            polarity,
            duty_q15,
            release,
            left: SEEK_POLLS,
            reached: false,
            phase: SeekPhase::ModeWrite,
        }
    }

    /// Drive to a target count and hold there.
    pub fn to_count(target: i32, polarity: bool, duty_q15: i16) -> (r: Self)
        requires
            i32::MIN + TARGET_BAND <= target <= i32::MAX - TARGET_BAND,
        ensures
            r == Seek::fresh(
                (target - TARGET_BAND) as i32,
                (target + TARGET_BAND) as i32,
                target,
                polarity,
                duty_q15,
                false,
            ),
            r.lo == target - 40,
            r.hi == target + 40,
    {
        Seek {
            lo: target - TARGET_BAND,
            hi: target + TARGET_BAND,
            pivot: target,
            polarity,
            duty_q15,
            release: false,
            left: SEEK_POLLS,
            reached: false,
            phase: SeekPhase::ModeWrite,
        }
    }

    /// Drive to a tenth of the travel around the middle of two rails and let
    /// go, so that the servo does not rest on a hard stop.
    pub fn to_middle(pos_min: i32, pos_max: i32, polarity: bool) -> (r: Self)
        requires
            fits32(pos_min + pos_max),
            fits32(pos_max - pos_min),
        ensures
            ({
                let mid = quotient(pos_min + pos_max, 2);
                let margin = greatest(quotient(pos_max - pos_min, 10), 1);
                r == Seek::fresh(
                    bound(mid - margin, 0, u16::MAX as int) as i32,
                    bound(mid + margin, 0, u16::MAX as int) as i32,
                    mid as i32,
                    polarity,
                    NUDGE_DUTY_Q15,
                    true,
                )
            }),
            pos_min + pos_max >= 0 ==> 0 <= pos_min + pos_max - 2 * r.pivot <= 1,
            0 <= r.lo <= r.hi <= 65_535,
            ({
                let tenth = r.pivot - r.lo;
                0 <= pos_min && pos_max - pos_min >= 20 && pos_max <= 65_535 ==> r.hi - r.pivot
                    == tenth && 10 * tenth <= pos_max - pos_min < 10 * tenth + 10
            }),
    {
        let mid: i32 = divide(pos_min + pos_max, 2);
        let margin: i32 = max32(divide(pos_max - pos_min, 10), 1);
        Seek {
            lo: clamp32(mid - margin, 0, 65535),
            hi: clamp32(mid + margin, 0, 65535),
            pivot: mid,
            polarity,
            duty_q15: NUDGE_DUTY_Q15,
            release: true,
            left: SEEK_POLLS,
            reached: false,
            phase: SeekPhase::ModeWrite,
        }
    }

    /// Drive off a rail to the fixed mid-travel band.
    pub fn to_mid_travel() -> (r: Self)
        ensures
            r == Seek::fresh(
                MID_LO as i32,
                MID_HI as i32,
                MID_LO as i32,
                true,
                NUDGE_DUTY_Q15,
                true,
            ),
    {
        Seek {
            lo: MID_LO as i32,
            hi: MID_HI as i32,
            pivot: MID_LO as i32,
            polarity: true,
            duty_q15: NUDGE_DUTY_Q15,
            release: true,
            left: SEEK_POLLS,
            reached: false,
            phase: SeekPhase::ModeWrite,
        }
    }

    pub open spec fn inside(self, pos: u16) -> bool {
        self.lo <= pos <= self.hi
    }

    /// The position is already in the band: nothing to do.
    pub fn holds(&self, pos: u16) -> (r: bool)
        ensures
            r == self.inside(pos),
    {
        self.lo <= pos as i32 && pos as i32 <= self.hi
    }

    /// The duty that leads from a position toward the band.
    pub open spec fn duty_from(self, pos: u16) -> int {
        if (pos < self.pivot) == self.polarity {
            self.duty_q15 as int
        } else {
            -self.duty_q15
        }
    }

    fn duty_at(&self, pos: u16) -> (r: i32)
        ensures
            r == self.duty_from(pos),
    {
        if ((pos as i32) < self.pivot) == self.polarity {
            self.duty_q15 as i32
        } else {
            -(self.duty_q15 as i32)
        }
    }

    /// Where a stop leads.
    pub open spec fn stopping(self) -> SeekPhase {
        if self.release {
            SeekPhase::TorqueOff
        } else {
            SeekPhase::Finished
        }
    }

    fn stop(&self) -> (r: SeekPhase)
        ensures
            r == self.stopping(),
    {
        if self.release {
            SeekPhase::TorqueOff
        } else {
            SeekPhase::Finished
        }
    }

    /// One step of the machine.
    pub open spec fn next(self, obs: Option<TelemetrySnapshot>) -> (Seek, Cmd) {
        match self.phase {
            SeekPhase::ModeWrite => (
                Seek { phase: SeekPhase::TorqueOn, ..self },
                put(control::mode(), 0),
            ),
            SeekPhase::TorqueOn => (
                Seek { phase: SeekPhase::Poll, ..self },
                put(control::torque_enable(), 1),
            ),
            SeekPhase::Poll => if self.left == 0 {
                (Seek { phase: self.stopping(), ..self }, put(control::goal_duty(), 0))
            } else {
                (Seek { phase: SeekPhase::Judge, ..self }, Cmd::Read)
            },
            SeekPhase::Judge => match obs {
                None => (self, Cmd::Read),
                Some(o) => {
                    let left = (if self.left > 0 {
                        self.left - 1
                    } else {
                        0
                    }) as u32;
                    if self.inside(o.pos) {
                        (
                            Seek { phase: self.stopping(), reached: true, left, ..self },
                            put(control::goal_duty(), 0),
                        )
                    } else {
                        (
                            Seek { phase: SeekPhase::Wait, left, ..self },
                            put(control::goal_duty(), self.duty_from(o.pos)),
                        )
                    }
                },
            },
            SeekPhase::Wait => (
                Seek { phase: SeekPhase::Poll, ..self },
                Cmd::Pause { ms: SEEK_PAUSE_MS },
            ),
            SeekPhase::TorqueOff => (
                Seek { phase: SeekPhase::Finished, ..self },
                put(control::torque_enable(), 0),
            ),
            SeekPhase::Finished => (self, Cmd::Done),
        }
    }

    /// Steps still to come where every read is answered.
    pub open spec fn remaining(self) -> int {
        let polls = 3 * self.left;
        match self.phase {
            SeekPhase::ModeWrite => polls + 5,
            SeekPhase::TorqueOn => polls + 4,
            SeekPhase::Poll => polls + 3,
            SeekPhase::Judge => polls + 2,
            SeekPhase::Wait => polls + 4,
            SeekPhase::TorqueOff => 1,
            SeekPhase::Finished => 0,
        }
    }

    /// What the registers hold in each phase.
    pub open spec fn posture(self, rig: Rig) -> bool {
        match self.phase {
            SeekPhase::ModeWrite => true,
            SeekPhase::TorqueOn => rig.mode == 0,
            SeekPhase::Poll | SeekPhase::Judge | SeekPhase::Wait => rig.mode == 0 && rig.torque == 1,
            SeekPhase::TorqueOff => rig.mode == 0 && rig.torque == 1 && rig.duty == 0 && self.release,
            SeekPhase::Finished => rig.mode == 0 && rig.duty == 0 && rig.torque == (if self.release {
                0int
            } else {
                1
            }),
        }
    }
}

impl Experiment for Seek {
    open spec fn wf(&self) -> bool {
        self.phase == SeekPhase::Judge ==> self.left > 0
    }

    open spec fn steps_to(&self, obs: Option<TelemetrySnapshot>, next: &Self, cmd: Cmd) -> bool {
        (*next, cmd) == self.next(obs)
    }

    fn step(&mut self, obs: Option<&TelemetrySnapshot>) -> (cmd: Cmd) {
        match self.phase {
            SeekPhase::ModeWrite => {
                self.phase = SeekPhase::TorqueOn;
                Cmd::Write { reg: control::mode(), value: 0 }
            },
            SeekPhase::TorqueOn => {
                self.phase = SeekPhase::Poll;
                Cmd::Write { reg: control::torque_enable(), value: 1 }
            },
            SeekPhase::Poll => {
                if self.left == 0 {
                    self.phase = self.stop();
                    Cmd::Write { reg: control::goal_duty(), value: 0 }
                } else {
                    self.phase = SeekPhase::Judge;
                    Cmd::Read
                }
            },
            SeekPhase::Judge => match obs {
                None => Cmd::Read,
                Some(o) => {
                    self.left = self.left - 1;
                    if self.holds(o.pos) {
                        self.reached = true;
                        self.phase = self.stop();
                        Cmd::Write { reg: control::goal_duty(), value: 0 }
                    } else {
                        self.phase = SeekPhase::Wait;
                        Cmd::Write { reg: control::goal_duty(), value: self.duty_at(o.pos) }
                    }
                },
            },
            SeekPhase::Wait => {
                self.phase = SeekPhase::Poll;
                Cmd::Pause { ms: SEEK_PAUSE_MS }
            },
            SeekPhase::TorqueOff => {
                self.phase = SeekPhase::Finished;
                Cmd::Write { reg: control::torque_enable(), value: 0 }
            },
            SeekPhase::Finished => Cmd::Done,
        }
    }
}

/// A nudge moves only with torque on in open loop, and ends with nothing
/// commanded: torque off where it lets go, on where it holds.
pub proof fn law_seek_posture(s: Seek, rig: Rig, obs: Option<TelemetrySnapshot>)
    requires
        s.wf(),
        s.posture(rig),
    ensures
        s.next(obs).0.posture(rig.after(s.next(obs).1)),
{
}

/// Every answered step brings a nudge closer to its end: it stops after its
/// polls are spent, wherever the servo is.
pub proof fn law_seek_ends(s: Seek, obs: Option<TelemetrySnapshot>)
    requires
        s.wf(),
        s.phase == SeekPhase::Judge ==> obs is Some,
        s.phase != SeekPhase::Finished,
    ensures
        s.next(obs).0.remaining() < s.remaining(),
        s.next(obs).0.remaining() >= 0,
{
}

/// Outside the band a nudge drives toward it, by the measured polarity: the
/// duty's sign and the polarity together point at the band.
pub proof fn law_seek_heads_home(s: Seek, o: TelemetrySnapshot)
    requires
        s.phase == SeekPhase::Judge,
        s.lo <= s.pivot <= s.hi,
        s.duty_q15 > 0,
        !s.inside(o.pos),
    ensures
        s.next(Some(o)).1 == put(control::goal_duty(), s.duty_from(o.pos)),
        o.pos < s.lo ==> (s.duty_from(o.pos) > 0) == s.polarity,
        o.pos > s.hi ==> (s.duty_from(o.pos) < 0) == s.polarity,
{
}

/// A nudge counts as arrived exactly once a polled position lies in its band.
pub proof fn law_seek_arrives(s: Seek, obs: Option<TelemetrySnapshot>)
    requires
        s.wf(),
    ensures
        s.next(obs).0.reached <==> s.reached || (s.phase == SeekPhase::Judge && obs is Some && s.inside(
            obs->0.pos,
        )),
{
}

#[derive(Copy, Clone, Debug, PartialEq, Eq, Structural)]
pub enum ProbePhase {
    ModeWrite,
    TorqueOn,
    ReadStart,
    Drive,
    Wait,
    ReadEnd,
    Stop,
    Finished,
}

/// The speed probe: one fixed duty for one fixed time, a position read before
/// and after. Torque stays on for the positioning that follows.
#[derive(Copy, Clone, Debug, PartialEq, Eq, Structural)]
pub struct Probe {
    pub duty_q15: i16,
    /// 1 or -1.
    pub sign: i8,
    pub ms: u32,
    pub start: u16,
    pub end: Option<u16>,
    pub phase: ProbePhase,
}

impl Probe {
    pub fn new(duty_q15: i16, sign: i8, ms: u32) -> (r: Self)
        ensures
            r == (Probe { duty_q15, sign, ms, start: 0, end: None, phase: ProbePhase::ModeWrite }),
    {
        Probe { duty_q15, sign, ms, start: 0, end: None, phase: ProbePhase::ModeWrite }
    }

    /// Counts travelled, once the probe is done.
    pub fn moved(&self) -> (r: Option<u16>)
        ensures
            r == (match self.end {
                Some(e) => Some(crate::math::abs(e - self.start) as u16),
                None => None,
            }),
            self.end matches Some(e) ==> r is Some && (e >= self.start ==> r->0 == e - self.start)
                && (e < self.start ==> r->0 == self.start - e),
    {
        match self.end {
            Some(e) => Some(distance(e, self.start)),
            None => None,
        }
    }

    /// One step of the machine.
    pub open spec fn next(self, obs: Option<TelemetrySnapshot>) -> (Probe, Cmd) {
        match self.phase {
            ProbePhase::ModeWrite => (
                Probe { phase: ProbePhase::TorqueOn, ..self },
                put(control::mode(), 0),
            ),
            ProbePhase::TorqueOn => (
                Probe { phase: ProbePhase::ReadStart, ..self },
                put(control::torque_enable(), 1),
            ),
            ProbePhase::ReadStart => (Probe { phase: ProbePhase::Drive, ..self }, Cmd::Read),
            ProbePhase::Drive => match obs {
                None => (self, Cmd::Read),
                Some(o) => (
                    Probe { phase: ProbePhase::Wait, start: o.pos, ..self },
                    put(control::goal_duty(), self.sign * self.duty_q15),
                ),
            },
            ProbePhase::Wait => (
                Probe { phase: ProbePhase::ReadEnd, ..self },
                Cmd::Pause { ms: self.ms },
            ),
            ProbePhase::ReadEnd => (Probe { phase: ProbePhase::Stop, ..self }, Cmd::Read),
            ProbePhase::Stop => match obs {
                None => (self, Cmd::Read),
                Some(o) => (
                    Probe { phase: ProbePhase::Finished, end: Some(o.pos), ..self },
                    put(control::goal_duty(), 0),
                ),
            },
            ProbePhase::Finished => (self, Cmd::Done),
        }
    }
}

impl Experiment for Probe {
    open spec fn steps_to(&self, obs: Option<TelemetrySnapshot>, next: &Self, cmd: Cmd) -> bool {
        (*next, cmd) == self.next(obs)
    }

    fn step(&mut self, obs: Option<&TelemetrySnapshot>) -> (cmd: Cmd) {
        match self.phase {
            ProbePhase::ModeWrite => {
                self.phase = ProbePhase::TorqueOn;
                Cmd::Write { reg: control::mode(), value: 0 }
            },
            ProbePhase::TorqueOn => {
                self.phase = ProbePhase::ReadStart;
                Cmd::Write { reg: control::torque_enable(), value: 1 }
            },
            ProbePhase::ReadStart => {
                self.phase = ProbePhase::Drive;
                Cmd::Read
            },
            ProbePhase::Drive => match obs {
                None => Cmd::Read,
                Some(o) => {
                    self.start = o.pos;
                    self.phase = ProbePhase::Wait;
                    let (sign, duty): (i32, i32) = (self.sign as i32, self.duty_q15 as i32);
                    assert(-128 * 32768 <= sign * duty <= 128 * 32768) by (nonlinear_arith)
                        requires
                            -128 <= sign <= 127,
                            -32768 <= duty <= 32767,
                    ;
                    Cmd::Write {
                        reg: control::goal_duty(),
                        value: sign * duty,
                    }
                },
            },
            ProbePhase::Wait => {
                self.phase = ProbePhase::ReadEnd;
                Cmd::Pause { ms: self.ms }
            },
            ProbePhase::ReadEnd => {
                self.phase = ProbePhase::Stop;
                Cmd::Read
            },
            ProbePhase::Stop => match obs {
                None => Cmd::Read,
                Some(o) => {
                    self.end = Some(o.pos);
                    self.phase = ProbePhase::Finished;
                    Cmd::Write { reg: control::goal_duty(), value: 0 }
                },
            },
            ProbePhase::Finished => Cmd::Done,
        }
    }
}

#[derive(Copy, Clone, Debug, PartialEq, Eq, Structural)]
pub enum TelInject {
    MaskOn,
    EnaOn,
    Body,
    EnaOff,
    MaskOff,
    Done,
}

/// The stream switch around an inner experiment: mask and enable before its
/// first command, enable and mask off once it reports Done.
pub struct TelWrap<E> {
    pub inner: E,
    pub phase: TelInject,
    pub mask: u16,
}

impl<E: Experiment> TelWrap<E> {
    pub fn new(inner: E, mask: u16) -> (r: Self)
        ensures
            r.inner == inner,
            r.phase == TelInject::MaskOn,
            r.mask == mask,
            inner.wf() ==> r.wf(),
    {
        TelWrap { inner, phase: TelInject::MaskOn, mask }
    }
}

impl<E: Experiment> Experiment for TelWrap<E> {
    open spec fn wf(&self) -> bool {
        self.inner.wf()
    }

    open spec fn steps_to(&self, obs: Option<TelemetrySnapshot>, next: &Self, cmd: Cmd) -> bool {
        &&& next.mask == self.mask
        &&& match self.phase {
            TelInject::MaskOn => {
                &&& next.inner == self.inner && next.phase == TelInject::EnaOn
                &&& cmd == put(control::tel_mask(), self.mask as int)
            },
            TelInject::EnaOn => {
                &&& next.inner == self.inner && next.phase == TelInject::Body
                &&& cmd == put(control::tel_enable(), 1)
            },
            TelInject::Body => {
                ||| next.phase == TelInject::Body && cmd != Cmd::Done && self.inner.steps_to(
                    obs,
                    &next.inner,
                    cmd,
                )
                ||| next.phase == TelInject::EnaOff && cmd == put(control::tel_enable(), 0)
                    && self.inner.steps_to(obs, &next.inner, Cmd::Done)
            },
            TelInject::EnaOff => {
                &&& next.inner == self.inner && next.phase == TelInject::MaskOff
                &&& cmd == put(control::tel_mask(), 0)
            },
            TelInject::MaskOff | TelInject::Done => {
                &&& next.inner == self.inner && next.phase == TelInject::Done
                &&& cmd == Cmd::Done
            },
        }
    }

    fn step(&mut self, obs: Option<&TelemetrySnapshot>) -> (cmd: Cmd) {
        match self.phase {
            TelInject::MaskOn => {
                self.phase = TelInject::EnaOn;
                Cmd::Write { reg: control::tel_mask(), value: self.mask as i32 }
            },
            TelInject::EnaOn => {
                self.phase = TelInject::Body;
                Cmd::Write { reg: control::tel_enable(), value: 1 }
            },
            TelInject::Body => {
                let cmd: Cmd = self.inner.step(obs);
                if cmd == Cmd::Done {
                    self.phase = TelInject::EnaOff;
                    Cmd::Write { reg: control::tel_enable(), value: 0 }
                } else {
                    cmd
                }
            },
            TelInject::EnaOff => {
                self.phase = TelInject::MaskOff;
                Cmd::Write { reg: control::tel_mask(), value: 0 }
            },
            TelInject::MaskOff => {
                self.phase = TelInject::Done;
                Cmd::Done
            },
            TelInject::Done => Cmd::Done,
        }
    }
}

/// The stream is on for all of the inner run and for nothing else: two writes
/// before its first command, two after its Done, and only then Done.
pub proof fn law_stream_brackets_the_run<E: Experiment>(
    w0: TelWrap<E>,
    w1: TelWrap<E>,
    c1: Cmd,
    w2: TelWrap<E>,
    c2: Cmd,
    w5: TelWrap<E>,
    obs: Option<TelemetrySnapshot>,
    w6: TelWrap<E>,
    c6: Cmd,
    w7: TelWrap<E>,
    c7: Cmd,
    w8: TelWrap<E>,
    c8: Cmd,
)
    requires
        w0.phase == TelInject::MaskOn,
        w0.steps_to(None, &w1, c1),
        w1.steps_to(None, &w2, c2),
        w5.phase == TelInject::Body,
        w5.steps_to(obs, &w6, c6),
        w6.phase != TelInject::Body,
        w6.steps_to(None, &w7, c7),
        w7.steps_to(None, &w8, c8),
    ensures
        c1 == put(control::tel_mask(), w0.mask as int),
        c2 == put(control::tel_enable(), 1),
        w2.inner == w0.inner,
        w2.phase == TelInject::Body,
        w5.inner.steps_to(obs, &w6.inner, Cmd::Done),
        c6 == put(control::tel_enable(), 0),
        c7 == put(control::tel_mask(), 0),
        c8 == Cmd::Done,
        w8.phase == TelInject::Done,
{
}

/// Positive where positive duty raises the count.
pub open spec fn rising_sign(polarity: bool) -> int {
    if polarity {
        1
    } else {
        -1
    }
}

/// The duty sign that sweeps toward higher counts.
pub fn sweep_sign(polarity: bool) -> (r: i8)
    ensures
        r == rising_sign(polarity),
        polarity ==> r == 1,
        !polarity ==> r == -1,
{
    if polarity {
        1
    } else {
        -1
    }
}

/// The duty sign that probes away from the nearer rail.
pub fn probe_sign(here: u16, pos_min: i32, pos_max: i32, polarity: bool) -> (r: i8)
    requires
        fits32(pos_min + pos_max),
    ensures
        r == (if here < quotient(pos_min + pos_max, 2) {
            rising_sign(polarity)
        } else {
            -rising_sign(polarity)
        }),
        pos_min + pos_max >= 0 && 2 * here + 1 < pos_min + pos_max ==> r == (if polarity {
            1int
        } else {
            -1
        }),
        pos_min + pos_max >= 0 && 2 * here >= pos_min + pos_max ==> r == (if polarity {
            -1int
        } else {
            1
        }),
{
    let mid: i32 = divide(pos_min + pos_max, 2);
    if (here as i32) < mid {
        sweep_sign(polarity)
    } else {
        -sweep_sign(polarity)
    }
}

/// Counts the capture runs between.
#[derive(Copy, Clone, Debug, PartialEq, Eq, Structural)]
pub struct Window {
    pub start: i32,
    pub end: i32,
}

/// The capture keeps an inset from both rails, or runs rail to rail where the
/// insets would cross.
pub fn capture_window(pos_min: i32, pos_max: i32, inset: i32) -> (r: Window)
    requires
        fits32(pos_min + inset),
        fits32(pos_max - inset),
    ensures
        r == (if pos_max - inset <= pos_min + inset {
            Window { start: pos_min, end: pos_max }
        } else {
            Window { start: (pos_min + inset) as i32, end: (pos_max - inset) as i32 }
        }),
        pos_max - pos_min > 2 * inset ==> r.start - pos_min == inset && pos_max - r.end == inset,
        pos_max - pos_min <= 2 * inset ==> r.start == pos_min && r.end == pos_max,
{
    let start: i32 = pos_min + inset;
    let end: i32 = pos_max - inset;
    if end <= start {
        Window { start: pos_min, end: pos_max }
    } else {
        Window { start, end }
    }
}

/// The numbers of a nudge: 200 polls 25 ms apart, 40 counts either side of a
/// target, the middle band from 1750 to 2350, 9000 of duty.
pub proof fn law_nudge_numbers(lo: i32, hi: i32, pivot: i32, polarity: bool, duty: i16, release: bool)
    ensures
        SEEK_PAUSE_MS == 25,
        TARGET_BAND == 40,
        MID_LO == 1750,
        MID_HI == 2350,
        NUDGE_DUTY_Q15 == 9000,
        CAPTURE_MASK == 0x1b,
        CAPTURE_DUTY_Q15 == 8520,
        INSET_MIN == 80,
        ({
            let s = Seek::fresh(lo, hi, pivot, polarity, duty, release);
            &&& s.left == 200
            &&& !s.reached
            &&& s.phase == SeekPhase::ModeWrite
            &&& s.lo == lo && s.hi == hi && s.pivot == pivot
            &&& s.polarity == polarity && s.duty_q15 == duty && s.release == release
        }),
{
}

/// What one polled position does to a nudge: inside the band, its ends
/// included, the drive stops and it has arrived; outside, it is driven on,
/// upward exactly when it is below the pivot and downward otherwise, and polled
/// again.
pub proof fn law_nudge_read(s: Seek, o: TelemetrySnapshot, next: Seek, cmd: Cmd)
    requires
        s.wf(),
        s.phase == SeekPhase::Judge,
        s.steps_to(Some(o), &next, cmd),
    ensures
        next.left == s.left - 1,
        o.pos >= s.lo && o.pos <= s.hi ==> {
            &&& next.reached
            &&& cmd == (Cmd::Write { reg: control::goal_duty(), value: 0 })
            &&& next.phase == (if s.release {
                SeekPhase::TorqueOff
            } else {
                SeekPhase::Finished
            })
        },
        o.pos < s.lo || o.pos > s.hi ==> {
            let up = o.pos < s.pivot;
            let forward = (up && s.polarity) || (!up && !s.polarity);
            &&& next.reached == s.reached
            &&& next.phase == SeekPhase::Wait
            &&& forward ==> cmd == (Cmd::Write {
                reg: control::goal_duty(),
                value: s.duty_q15 as i32,
            })
            &&& !forward ==> cmd == (Cmd::Write {
                reg: control::goal_duty(),
                value: (-s.duty_q15) as i32,
            })
        },
        next.lo == s.lo && next.hi == s.hi && next.pivot == s.pivot && next.polarity == s.polarity
            && next.duty_q15 == s.duty_q15 && next.release == s.release,
{
}

/// The order of a nudge: open loop, torque on, then polls until it has arrived
/// or has none left; then duty 0, and torque off where it lets go.
pub proof fn law_nudge_order(s: Seek, obs: Option<TelemetrySnapshot>, next: Seek, cmd: Cmd)
    requires
        s.wf(),
        s.steps_to(obs, &next, cmd),
    ensures
        s.phase == SeekPhase::ModeWrite ==> next == (Seek { phase: SeekPhase::TorqueOn, ..s })
            && cmd == (Cmd::Write { reg: control::mode(), value: 0 }),
        s.phase == SeekPhase::TorqueOn ==> next == (Seek { phase: SeekPhase::Poll, ..s }) && cmd
            == (Cmd::Write { reg: control::torque_enable(), value: 1 }),
        s.phase == SeekPhase::Poll && s.left > 0 ==> next == (Seek {
            phase: SeekPhase::Judge,
            ..s
        }) && cmd == Cmd::Read,
        s.phase == SeekPhase::Poll && s.left == 0 ==> cmd == (Cmd::Write {
            reg: control::goal_duty(),
            value: 0,
        }) && next == (Seek {
            phase: if s.release {
                SeekPhase::TorqueOff
            } else {
                SeekPhase::Finished
            },
            ..s
        }),
        s.phase == SeekPhase::Judge && obs is None ==> next == s && cmd == Cmd::Read,
        s.phase == SeekPhase::Wait ==> next == (Seek { phase: SeekPhase::Poll, ..s }) && cmd == (
        Cmd::Pause { ms: 25 }),
        s.phase == SeekPhase::TorqueOff ==> next == (Seek { phase: SeekPhase::Finished, ..s })
            && cmd == (Cmd::Write { reg: control::torque_enable(), value: 0 }),
        s.phase == SeekPhase::Finished ==> next == s && cmd == Cmd::Done,
{
}

/// The order of the speed probe: open loop, torque on, the start position, the
/// drive with its sign, the wait, the end position, duty 0.
pub proof fn law_probe_order(p: Probe, obs: Option<TelemetrySnapshot>, next: Probe, cmd: Cmd)
    requires
        p.steps_to(obs, &next, cmd),
    ensures
        p.phase == ProbePhase::ModeWrite ==> next == (Probe { phase: ProbePhase::TorqueOn, ..p })
            && cmd == (Cmd::Write { reg: control::mode(), value: 0 }),
        p.phase == ProbePhase::TorqueOn ==> next == (Probe { phase: ProbePhase::ReadStart, ..p })
            && cmd == (Cmd::Write { reg: control::torque_enable(), value: 1 }),
        p.phase == ProbePhase::ReadStart ==> next == (Probe { phase: ProbePhase::Drive, ..p })
            && cmd == Cmd::Read,
        p.phase == ProbePhase::Drive && obs is None ==> next == p && cmd == Cmd::Read,
        p.phase == ProbePhase::Drive && obs is Some ==> {
            &&& next == (Probe { phase: ProbePhase::Wait, start: obs->0.pos, ..p })
            &&& p.sign == 1 ==> cmd == (Cmd::Write {
                reg: control::goal_duty(),
                value: p.duty_q15 as i32,
            })
            &&& p.sign == -1 ==> cmd == (Cmd::Write {
                reg: control::goal_duty(),
                value: (-p.duty_q15) as i32,
            })
        },
        p.phase == ProbePhase::Wait ==> next == (Probe { phase: ProbePhase::ReadEnd, ..p }) && cmd
            == (Cmd::Pause { ms: p.ms }),
        p.phase == ProbePhase::ReadEnd ==> next == (Probe { phase: ProbePhase::Stop, ..p }) && cmd
            == Cmd::Read,
        p.phase == ProbePhase::Stop && obs is None ==> next == p && cmd == Cmd::Read,
        p.phase == ProbePhase::Stop && obs is Some ==> next == (Probe {
            phase: ProbePhase::Finished,
            end: Some(obs->0.pos),
            ..p
        }) && cmd == (Cmd::Write { reg: control::goal_duty(), value: 0 }),
        p.phase == ProbePhase::Finished ==> next == p && cmd == Cmd::Done,
{
    let d = p.duty_q15 as int;
    assert(1 * d == d && (-1) * d == -d) by (nonlinear_arith);
}

/// The stream switch: mask, then enable, then the inner run with its commands
/// as they are, then enable off in place of its Done, then mask off, then Done.
pub proof fn law_stream_switch<E: Experiment>(
    w: TelWrap<E>,
    obs: Option<TelemetrySnapshot>,
    next: TelWrap<E>,
    cmd: Cmd,
)
    requires
        w.steps_to(obs, &next, cmd),
    ensures
        next.mask == w.mask,
        w.phase != TelInject::Body ==> next.inner == w.inner,
        w.phase == TelInject::MaskOn ==> next.phase == TelInject::EnaOn && cmd == (Cmd::Write {
            reg: control::tel_mask(),
            value: w.mask as i32,
        }),
        w.phase == TelInject::EnaOn ==> next.phase == TelInject::Body && cmd == (Cmd::Write {
            reg: control::tel_enable(),
            value: 1,
        }),
        w.phase == TelInject::Body && next.phase == TelInject::Body ==> w.inner.steps_to(
            obs,
            &next.inner,
            cmd,
        ) && cmd != Cmd::Done,
        w.phase == TelInject::Body && next.phase != TelInject::Body ==> next.phase
            == TelInject::EnaOff && w.inner.steps_to(obs, &next.inner, Cmd::Done) && cmd == (
        Cmd::Write { reg: control::tel_enable(), value: 0 }),
        w.phase == TelInject::EnaOff ==> next.phase == TelInject::MaskOff && cmd == (Cmd::Write {
            reg: control::tel_mask(),
            value: 0,
        }),
        w.phase == TelInject::MaskOff || w.phase == TelInject::Done ==> next.phase
            == TelInject::Done && cmd == Cmd::Done,
{
}

} // verus!
