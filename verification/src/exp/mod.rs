//! Sans-io experiment engine. An [`Experiment`] is a state machine: each step
//! consumes at most one observation (the reply to a previous [`Cmd::Read`]) and
//! emits the next command. The driver owns all IO and time.
//!
//! [`Guarded`] wraps any experiment with the safety envelope; rig limits live
//! in [`RigParams`].

pub mod check_laws;
pub mod endstop;
pub mod ladder;
pub mod laws;
pub mod rig;
pub mod runs;
pub mod sweep;
pub mod verify;

use crate::frame::{SeqUnwrap, TelemetrySnapshot};
use crate::math::abs;
use crate::regs::{control, Reg};
use vstd::prelude::*;

verus! {

/// One driver action. `Write` is a single-field write (the driver truncates the
/// value to the register width); `Read` is one telemetry read whose snapshot
/// feeds the next step.
#[derive(Copy, Clone, Debug, PartialEq, Eq, Structural)]
pub enum Cmd {
    Write { reg: Reg, value: i32 },
    Read,
    Pause { ms: u32 },
    Done,
}

/// A pumpable experiment. Step with an observation only in reply to
/// [`Cmd::Read`].
pub trait Experiment: Sized {
    /// The machine is in a state that its own steps lead to.
    open spec fn wf(&self) -> bool {
        true
    }

    /// On this observation the machine moves to `next` and asks for `cmd`. A
    /// machine that says nothing here may do either as it likes.
    open spec fn steps_to(&self, obs: Option<TelemetrySnapshot>, next: &Self, cmd: Cmd) -> bool {
        true
    }

    fn step(&mut self, obs: Option<&TelemetrySnapshot>) -> (cmd: Cmd)
        requires
            old(self).wf(),
        ensures
            final(self).wf(),
            old(self).steps_to(seen(obs), final(self), cmd),
    ;
}

/// The observation behind a reference.
pub open spec fn seen(obs: Option<&TelemetrySnapshot>) -> Option<TelemetrySnapshot> {
    match obs {
        Some(o) => Some(*o),
        None => None,
    }
}

/// Rig constants with bench defaults.
#[derive(Copy, Clone, Debug)]
pub struct RigParams {
    /// Soft travel guard; `None` disables it for the experiments that stall at
    /// the physical ends on purpose.
    pub pos_guard: Option<(u16, u16)>,
    /// Abort threshold on the window current mean, counts. Judged only while
    /// the duty mean is nonzero: with torque off the block holds its last
    /// driven value.
    pub i_abort: i16,
    /// Stripped-gear slip zone, masked from motion fits.
    pub slip: (u16, u16),
    /// Windows discarded after every duty change.
    pub settle_windows: u32,
    /// One aggregate window in microseconds: 16 fast ticks.
    pub agg_period_us: u32,
    /// A seek read whose position moved at most `stall_eps` counts from the one
    /// before counts as still; `stall_polls` of them in a row declare the rail.
    pub stall_eps: u16,
    pub stall_polls: u32,
}

impl Default for RigParams {
    fn default() -> (r: Self)
        ensures
            r == (RigParams {
                pos_guard: Some((150u16, 3950u16)),
                i_abort: 1100,
                slip: (1250, 1650),
                settle_windows: 5,
                agg_period_us: 800,
                stall_eps: 3,
                stall_polls: 8,
            }),
    {
        RigParams {
            pos_guard: Some((150, 3950)),
            i_abort: 1100,
            slip: (1250, 1650),
            settle_windows: 5,
            agg_period_us: 800,
            stall_eps: 3,
            stall_polls: 8,
        }
    }
}

impl RigParams {
    pub fn without_pos_guard(self) -> (r: Self)
        ensures
            r == (RigParams { pos_guard: None, ..self }),
    {
        RigParams { pos_guard: None, ..self }
    }

    pub open spec fn slips(self, pos: u16) -> bool {
        self.slip.0 <= pos <= self.slip.1
    }

    pub fn in_slip(&self, pos: u16) -> (r: bool)
        ensures
            r == self.slips(pos),
    {
        self.slip.0 <= pos && pos <= self.slip.1
    }

    /// Why an observation breaks the envelope: a latched fault first, then the
    /// travel guard, then the current, which counts only while driving.
    pub open spec fn violation_of(self, o: TelemetrySnapshot) -> Option<AbortReason> {
        if o.fault_flags != 0 {
            Some(AbortReason::Fault { flags: o.fault_flags, code: o.fault_code })
        } else if self.pos_guard matches Some(g) && !(g.0 <= o.pos <= g.1) {
            Some(AbortReason::PosGuard { pos: o.pos })
        } else if o.duty_mean_q15 != 0 && abs(o.i_mean_counts as int) > abs(self.i_abort as int) {
            Some(AbortReason::Overcurrent { i_mean: o.i_mean_counts })
        } else {
            None
        }
    }
}

/// Why the envelope stopped an experiment.
#[derive(Copy, Clone, Debug, PartialEq, Eq, Structural)]
pub enum AbortReason {
    /// The servo latched a fault (flags and code as read).
    Fault { flags: u8, code: u8 },
    /// Position left the soft guard band.
    PosGuard { pos: u16 },
    /// Window current mean past the abort threshold while driving.
    Overcurrent { i_mean: i16 },
}

/// Where the envelope stands.
#[derive(Copy, Clone, Debug, PartialEq, Eq, Structural)]
pub enum GuardState {
    Run,
    DutyOff,
    TorqueOff,
    Finished,
}

/// Safety envelope: judges every observation, and on a violation preempts the
/// inner experiment with duty 0 and torque off before reporting Done. The inner
/// experiment is left unstepped from that point on.
pub struct Guarded<E> {
    pub exp: E,
    pub params: RigParams,
    pub state: GuardState,
    pub abort: Option<AbortReason>,
}

/// Magnitude of an `i16`.
pub fn mag16(x: i16) -> (r: u16)
    ensures
        r == abs(x as int),
        x >= 0 ==> r == x,
        x < 0 ==> r == -x,
{
    if x < 0 {
        (-(x as i32)) as u16
    } else {
        x as u16
    }
}

/// Distance between two counts.
pub fn distance(a: u16, b: u16) -> (r: u16)
    ensures
        r == abs(a - b),
        a >= b ==> r == a - b,
        a < b ==> r == b - a,
{
    if a >= b {
        a - b
    } else {
        b - a
    }
}

/// A write of one register.
pub open spec fn put(reg: Reg, value: int) -> Cmd {
    Cmd::Write { reg, value: value as i32 }
}

impl<E: Experiment> Guarded<E> {
    pub fn new(exp: E, params: RigParams) -> (r: Self)
        ensures
            r.exp == exp,
            r.params == params,
            r.state == GuardState::Run,
            r.abort is None,
            exp.wf() ==> r.wf(),
    {
        Guarded { exp, params, state: GuardState::Run, abort: None }
    }

    /// The reason once the envelope has tripped; the run's samples are partial.
    pub fn abort(&self) -> (r: Option<AbortReason>)
        ensures
            r == self.abort,
    {
        self.abort
    }

    pub fn into_inner(self) -> (r: E)
        ensures
            r == self.exp,
    {
        self.exp
    }

    /// Mid-run access for side channels.
    pub fn inner_mut(&mut self) -> (r: &mut E)
        ensures
            *r == old(self).exp,
            final(self).exp == *final(r),
            final(self).params == old(self).params,
            final(self).state == old(self).state,
            final(self).abort == old(self).abort,
    {
        &mut self.exp
    }

    /// What breaks the envelope now: nothing once it has tripped.
    pub open spec fn trips(self, obs: Option<TelemetrySnapshot>) -> Option<AbortReason> {
        match obs {
            Some(o) if self.state == GuardState::Run => self.params.violation_of(o),
            _ => None,
        }
    }

    fn violation(&self, o: &TelemetrySnapshot) -> (r: Option<AbortReason>)
        ensures
            r == self.params.violation_of(*o),
    {
        if o.fault_flags != 0 {
            return Some(AbortReason::Fault { flags: o.fault_flags, code: o.fault_code });
        }
        if let Some(g) = self.params.pos_guard {
            if !(g.0 <= o.pos && o.pos <= g.1) {
                return Some(AbortReason::PosGuard { pos: o.pos });
            }
        }
        if o.duty_mean_q15 != 0 && mag16(o.i_mean_counts) > mag16(self.params.i_abort) {
            return Some(AbortReason::Overcurrent { i_mean: o.i_mean_counts });
        }
        None
    }
}

impl<E: Experiment> Experiment for Guarded<E> {
    open spec fn wf(&self) -> bool {
        self.exp.wf()
    }

    /// Running and unbroken, the inner experiment decides. Otherwise it stays
    /// as it was and the envelope shuts the drive down: duty 0, torque off,
    /// Done.
    open spec fn steps_to(&self, obs: Option<TelemetrySnapshot>, next: &Self, cmd: Cmd) -> bool {
        let tripped = self.trips(obs);
        &&& next.params == self.params
        &&& next.abort == (if tripped is Some {
            tripped
        } else {
            self.abort
        })
        &&& if tripped is Some || self.state == GuardState::DutyOff {
            &&& next.exp == self.exp
            &&& next.state == GuardState::TorqueOff
            &&& cmd == put(control::goal_duty(), 0)
        } else if self.state == GuardState::TorqueOff {
            &&& next.exp == self.exp
            &&& next.state == GuardState::Finished
            &&& cmd == put(control::torque_enable(), 0)
        } else if self.state == GuardState::Finished {
            &&& next.exp == self.exp
            &&& next.state == GuardState::Finished
            &&& cmd == Cmd::Done
        } else {
            &&& next.state == GuardState::Run
            &&& self.exp.steps_to(obs, &next.exp, cmd)
        }
    }

    fn step(&mut self, obs: Option<&TelemetrySnapshot>) -> (cmd: Cmd) {
        if self.state == GuardState::Run {
            if let Some(o) = obs {
                if let Some(reason) = self.violation(o) {
                    self.abort = Some(reason);
                    self.state = GuardState::DutyOff;
                }
            }
        }
        match self.state {
            GuardState::Run => self.exp.step(obs),
            GuardState::DutyOff => {
                self.state = GuardState::TorqueOff;
                Cmd::Write { reg: control::goal_duty(), value: 0 }
            },
            GuardState::TorqueOff => {
                self.state = GuardState::Finished;
                Cmd::Write { reg: control::torque_enable(), value: 0 }
            },
            GuardState::Finished => Cmd::Done,
        }
    }
}

/// One accepted aggregate window, numbered by the unwrapped window sequence:
/// poll jitter does not touch the fit clock.
#[derive(Copy, Clone, Debug, PartialEq, Eq, Structural)]
pub struct WindowSample {
    /// Window number; times `agg_period_us` it is the fit clock.
    pub seq: u64,
    /// Signed bias-subtracted window current mean, counts.
    pub i: i16,
    /// Drive-window differential mean, vcounts.
    pub vdiff: i16,
    /// Commanded duty mean over the window, q15.
    pub duty_q15: i16,
}

/// Turns polled snapshots into deduplicated window samples: a sample is
/// accepted only when the window sequence moved, and the first windows after
/// every duty transition are dropped.
#[derive(Copy, Clone, Debug, PartialEq, Eq, Structural)]
pub struct WindowStream {
    pub unwrap: SeqUnwrap,
    pub last: Option<u64>,
    pub settle: u32,
    pub settle_windows: u32,
}

impl WindowStream {
    pub open spec fn started(settle_windows: u32) -> WindowStream {
        WindowStream {
            unwrap: SeqUnwrap { last: None, total: 0 },
            last: None,
            settle: 0,
            settle_windows,
        }
    }

    pub fn new(params: &RigParams) -> (r: Self)
        ensures
            r == WindowStream::started(params.settle_windows),
    {
        WindowStream {
            unwrap: SeqUnwrap::new(),
            last: None,
            settle: 0,
            settle_windows: params.settle_windows,
        }
    }

    pub open spec fn marked(self) -> WindowStream {
        WindowStream { settle: self.settle_windows, ..self }
    }

    /// Call on every duty change: the next `settle_windows` windows are
    /// dropped.
    pub fn mark_transition(&mut self)
        ensures
            *final(self) == old(self).marked(),
    {
        self.settle = self.settle_windows;
    }

    /// The snapshot carries the window already seen.
    pub open spec fn repeats(self, agg_seq: u16) -> bool {
        self.last == Some(self.unwrap.pushed(agg_seq).total)
    }

    /// The stream after one snapshot.
    pub open spec fn after(self, agg_seq: u16) -> WindowStream {
        let unwrap = self.unwrap.pushed(agg_seq);
        WindowStream {
            unwrap,
            last: Some(unwrap.total),
            settle: if !self.repeats(agg_seq) && self.settle > 0 {
                (self.settle - 1) as u32
            } else {
                self.settle
            },
            ..self
        }
    }

    /// The sample a snapshot yields, if it yields one.
    pub open spec fn sampled(self, o: TelemetrySnapshot) -> Option<WindowSample> {
        if self.repeats(o.agg_seq) || self.settle > 0 {
            None
        } else {
            Some(
                WindowSample {
                    seq: self.unwrap.pushed(o.agg_seq).total,
                    i: o.i_mean_counts,
                    vdiff: o.vdiff_mean,
                    duty_q15: o.duty_mean_q15,
                },
            )
        }
    }

    pub fn push(&mut self, o: &TelemetrySnapshot) -> (r: Option<WindowSample>)
        ensures
            *final(self) == old(self).after(o.agg_seq),
            r == old(self).sampled(*o),
    {
        let seq: u64 = self.unwrap.push(o.agg_seq);
        if let Some(l) = self.last {
            if l == seq {
                return None;
            }
        }
        self.last = Some(seq);
        if self.settle > 0 {
            self.settle = self.settle - 1;
            return None;
        }
        Some(
            WindowSample {
                seq,
                i: o.i_mean_counts,
                vdiff: o.vdiff_mean,
                duty_q15: o.duty_mean_q15,
            },
        )
    }
}

/// The same window read twice yields one sample.
pub proof fn law_no_duplicate_window(s: WindowStream, o: TelemetrySnapshot)
    ensures
        s.after(o.agg_seq).sampled(o) is None,
{
    let t = s.after(o.agg_seq);
    crate::frame::law_unwrap_moves_on_change(t.unwrap, o.agg_seq, o.agg_seq);
}

/// The stream after several windows.
pub open spec fn after_all(s: WindowStream, windows: Seq<u16>) -> WindowStream
    decreases windows.len(),
{
    if windows.len() == 0 {
        s
    } else {
        after_all(s.after(windows[0]), windows.skip(1))
    }
}

/// No two neighbours are the same window.
pub open spec fn all_fresh(windows: Seq<u16>) -> bool {
    forall|k: int| 0 < k < windows.len() ==> windows[k - 1] != #[trigger] windows[k]
}

/// After a transition exactly `settle_windows` fresh windows are dropped: with
/// that many behind it the stream samples again, and with fewer it does not.
pub proof fn law_settle_drops_windows(s: WindowStream, windows: Seq<u16>, prev: u16)
    requires
        s.unwrap.last == Some(prev),
        s.last == Some(s.unwrap.total),
        windows.len() > 0 ==> windows[0] != prev,
        all_fresh(windows),
    ensures
        after_all(s, windows).settle == (if windows.len() >= s.settle {
            0
        } else {
            s.settle - windows.len()
        }),
    decreases windows.len(),
{
    if windows.len() > 0 {
        let t = s.after(windows[0]);
        let rest = windows.skip(1);
        crate::frame::law_unwrap_moves_on_change(s.unwrap, prev, windows[0]);
        assert(all_fresh(rest)) by {
            assert forall|k: int| 0 < k < rest.len() implies rest[k - 1] != #[trigger] rest[k] by {
                assert(windows[k] != windows[k + 1]);
            }
        }
        if rest.len() > 0 {
            assert(rest[0] == windows[1]);
        }
        law_settle_drops_windows(t, rest, windows[0]);
    }
}

/// Once the envelope has tripped it never steps the inner experiment again, and
/// its next commands are duty 0, torque off, Done, Done and so on, whatever is
/// observed.
pub proof fn law_abort_shuts_down<E: Experiment>(
    g0: Guarded<E>,
    o: TelemetrySnapshot,
    g1: Guarded<E>,
    c1: Cmd,
    obs2: Option<TelemetrySnapshot>,
    g2: Guarded<E>,
    c2: Cmd,
    obs3: Option<TelemetrySnapshot>,
    g3: Guarded<E>,
    c3: Cmd,
)
    requires
        g0.state == GuardState::Run,
        g0.params.violation_of(o) is Some,
        g0.steps_to(Some(o), &g1, c1),
        g1.steps_to(obs2, &g2, c2),
        g2.steps_to(obs3, &g3, c3),
    ensures
        c1 == put(control::goal_duty(), 0),
        c2 == put(control::torque_enable(), 0),
        c3 == Cmd::Done,
        g3.state == GuardState::Finished,
        g3.exp == g0.exp,
        g1.abort == g0.params.violation_of(o),
        g3.abort == g0.params.violation_of(o),
{
}

/// A finished envelope stays finished.
pub proof fn law_abort_is_final<E: Experiment>(
    g: Guarded<E>,
    obs: Option<TelemetrySnapshot>,
    next: Guarded<E>,
    cmd: Cmd,
)
    requires
        g.state == GuardState::Finished,
        g.steps_to(obs, &next, cmd),
    ensures
        cmd == Cmd::Done,
        next.state == GuardState::Finished,
        next.exp == g.exp,
        next.abort == g.abort,
{
}

/// Inside the envelope the inner experiment runs as if it were alone.
pub proof fn law_envelope_is_transparent<E: Experiment>(
    g: Guarded<E>,
    obs: Option<TelemetrySnapshot>,
    next: Guarded<E>,
    cmd: Cmd,
)
    requires
        g.state == GuardState::Run,
        obs matches Some(o) ==> g.params.violation_of(o) is None,
        g.steps_to(obs, &next, cmd),
    ensures
        g.exp.steps_to(obs, &next.exp, cmd),
        next.state == GuardState::Run,
        next.abort == g.abort,
{
}

} // verus!
