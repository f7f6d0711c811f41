//! The pump: carries an experiment's commands out one driver action at a time.
//! A write goes to the bus, a read comes back as the next observation, a pause
//! sleeps in slices that keep the stream drained and a stop request prompt.
//!
//! The stream sink opens when the experiment enables the stream and closes when
//! it disables it. The driver performs each [`Act`] and calls again.

use crate::exp::{Cmd, Experiment};
use crate::frame::TelemetrySnapshot;
use crate::regs::{control, Reg};
use vstd::prelude::*;

verus! {

/// Longest sleep between two looks at the stop request.
pub const SLICE_MS: u32 = 5;

/// What a write does to the stream sink.
#[derive(Copy, Clone, Debug, PartialEq, Eq, Structural)]
pub enum TelChange {
    Keep,
    Open,
    Close,
}

/// With a stream port, enabling the stream opens a closed sink and disabling it
/// closes an open one.
pub open spec fn tel_change_of(reg: Reg, value: int, has_port: bool, open: bool) -> TelChange {
    if reg != control::tel_enable() || !has_port {
        TelChange::Keep
    } else if value != 0 && !open {
        TelChange::Open
    } else if value == 0 && open {
        TelChange::Close
    } else {
        TelChange::Keep
    }
}

pub fn tel_change(reg: Reg, value: i32, has_port: bool, open: bool) -> (r: TelChange)
    ensures
        r == tel_change_of(reg, value as int, has_port, open),
{
    if reg != control::tel_enable() || !has_port {
        TelChange::Keep
    } else if value != 0 && !open {
        TelChange::Open
    } else if value == 0 && open {
        TelChange::Close
    } else {
        TelChange::Keep
    }
}

/// One thing for the driver to do.
#[derive(Copy, Clone, Debug, PartialEq, Eq, Structural)]
pub enum Act {
    /// Nothing: call again.
    Next,
    /// Hand over what the sink holds.
    Drain,
    /// Open the sink.
    Open,
    /// Drain the sink a last time and close it.
    Close,
    Write { reg: Reg, value: i32 },
    /// Read a snapshot and call again with it.
    Read,
    Sleep { ms: u32 },
    /// A stop was requested.
    Interrupted,
    Finish,
}

#[derive(Copy, Clone, Debug, PartialEq, Eq, Structural)]
pub enum PumpPhase {
    /// About to step the experiment.
    Ready,
    /// A command to carry out.
    Carry { cmd: Cmd },
    /// A write left to send once the sink has been switched.
    Put { reg: Reg, value: i32 },
    /// Waiting for a snapshot.
    Awaiting,
    /// About to look at the stop request within a pause.
    Pause { left: u32 },
    /// About to sleep a slice.
    Slice { left: u32 },
    Finished,
}

pub struct Pump<E> {
    pub exp: E,
    pub has_port: bool,
    /// The sink is open.
    pub open: bool,
    /// The snapshot the next step sees.
    pub pending: Option<TelemetrySnapshot>,
    pub phase: PumpPhase,
}

/// Length of the next sleep.
pub open spec fn slice_of(left: int) -> int {
    if left < SLICE_MS {
        left
    } else {
        SLICE_MS as int
    }
}

impl<E: Experiment> Pump<E> {
    pub fn new(exp: E, has_port: bool) -> (r: Self)
        requires
            exp.wf(),
        ensures
            r.wf(),
            r.exp == exp,
            r.has_port == has_port,
            !r.open,
            r.pending is None,
            r.phase == PumpPhase::Ready,
    {
        Pump { exp, has_port, open: false, pending: None, phase: PumpPhase::Ready }
    }

    pub open spec fn wf(self) -> bool {
        self.exp.wf()
    }

    /// The same pump in another phase.
    pub open spec fn in_phase(self, phase: PumpPhase) -> Pump<E> {
        Pump { phase, ..self }
    }

    /// What to do before going on: empty the sink where there is one.
    pub open spec fn draining(self) -> Act {
        if self.open {
            Act::Drain
        } else {
            Act::Next
        }
    }

    /// A write, with the sink switched first where it must be.
    pub open spec fn put(self, reg: Reg, value: i32) -> (Pump<E>, Act) {
        match tel_change_of(reg, value as int, self.has_port, self.open) {
            TelChange::Keep => (self.in_phase(PumpPhase::Ready), Act::Write { reg, value }),
            TelChange::Open => (
                Pump { open: true, phase: PumpPhase::Put { reg, value }, ..self },
                Act::Open,
            ),
            TelChange::Close => (
                Pump { open: false, phase: PumpPhase::Put { reg, value }, ..self },
                Act::Close,
            ),
        }
    }

    /// A command in hand.
    pub open spec fn carry(self, cmd: Cmd) -> (Pump<E>, Act) {
        match cmd {
            Cmd::Write { reg, value } => self.put(reg, value),
            Cmd::Read => (self.in_phase(PumpPhase::Awaiting), Act::Read),
            Cmd::Pause { ms } => (self.in_phase(PumpPhase::Pause { left: ms }), Act::Next),
            Cmd::Done => (self.in_phase(PumpPhase::Finished), Act::Finish),
        }
    }

    /// In reply to a stop request and a snapshot, the pump moves to `next` and
    /// asks for `act`.
    pub open spec fn moves_to(
        self,
        stop: bool,
        reply: Option<TelemetrySnapshot>,
        next: Pump<E>,
        act: Act,
    ) -> bool {
        match self.phase {
            PumpPhase::Ready => if stop {
                next == self && act == Act::Interrupted
            } else {
                &&& next.has_port == self.has_port
                &&& next.open == self.open
                &&& next.pending is None
                &&& next.phase is Carry
                &&& self.exp.steps_to(self.pending, &next.exp, next.phase->cmd)
                &&& act == self.draining()
            },
            PumpPhase::Carry { cmd } => (next, act) == self.carry(cmd),
            PumpPhase::Put { reg, value } => next == self.in_phase(PumpPhase::Ready) && act
                == (Act::Write { reg, value }),
            PumpPhase::Awaiting => match reply {
                None => next == self && act == Act::Read,
                Some(s) => next == (Pump { pending: Some(s), phase: PumpPhase::Ready, ..self })
                    && act == Act::Next,
            },
            PumpPhase::Pause { left } => if stop {
                next == self && act == Act::Interrupted
            } else {
                next == self.in_phase(PumpPhase::Slice { left }) && act == self.draining()
            },
            PumpPhase::Slice { left } => if left == 0 {
                next == self.in_phase(PumpPhase::Ready) && act == Act::Next
            } else {
                &&& next == self.in_phase(
                    PumpPhase::Pause { left: (left - slice_of(left as int)) as u32 },
                )
                &&& act == (Act::Sleep { ms: slice_of(left as int) as u32 })
            },
            PumpPhase::Finished => next == self && act == Act::Finish,
        }
    }

    fn drain_act(&self) -> (r: Act)
        ensures
            r == self.draining(),
    {
        if self.open {
            Act::Drain
        } else {
            Act::Next
        }
    }

    fn put_write(&mut self, reg: Reg, value: i32) -> (act: Act)
        ensures
            (*final(self), act) == old(self).put(reg, value),
    {
        match tel_change(reg, value, self.has_port, self.open) {
            TelChange::Keep => {
                self.phase = PumpPhase::Ready;
                Act::Write { reg, value }
            },
            TelChange::Open => {
                self.open = true;
                self.phase = PumpPhase::Put { reg, value };
                Act::Open
            },
            TelChange::Close => {
                self.open = false;
                self.phase = PumpPhase::Put { reg, value };
                Act::Close
            },
        }
    }

    pub fn next(&mut self, stop: bool, reply: Option<TelemetrySnapshot>) -> (act: Act)
        requires
            old(self).wf(),
        ensures
            final(self).wf(),
            old(self).moves_to(stop, reply, *final(self), act),
    {
        match self.phase {
            PumpPhase::Ready => {
                if stop {
                    return Act::Interrupted;
                }
                let obs: Option<TelemetrySnapshot> = self.pending;
                self.pending = None;
                let cmd: Cmd = match obs {
                    Some(o) => self.exp.step(Some(&o)),
                    None => self.exp.step(None),
                };
                self.phase = PumpPhase::Carry { cmd };
                self.drain_act()
            },
            PumpPhase::Carry { cmd } => match cmd {
                Cmd::Write { reg, value } => self.put_write(reg, value),
                Cmd::Read => {
                    self.phase = PumpPhase::Awaiting;
                    Act::Read
                },
                Cmd::Pause { ms } => {
                    self.phase = PumpPhase::Pause { left: ms };
                    Act::Next
                },
                Cmd::Done => {
                    self.phase = PumpPhase::Finished;
                    Act::Finish
                },
            },
            PumpPhase::Put { reg, value } => {
                self.phase = PumpPhase::Ready;
                Act::Write { reg, value }
            },
            PumpPhase::Awaiting => match reply {
                None => Act::Read,
                Some(s) => {
                    self.pending = Some(s);
                    self.phase = PumpPhase::Ready;
                    Act::Next
                },
            },
            PumpPhase::Pause { left } => {
                if stop {
                    return Act::Interrupted;
                }
                self.phase = PumpPhase::Slice { left };
                self.drain_act()
            },
            PumpPhase::Slice { left } => {
                if left == 0 {
                    self.phase = PumpPhase::Ready;
                    return Act::Next;
                }
                let ms: u32 = if left < SLICE_MS {
                    left
                } else {
                    SLICE_MS
                };
                self.phase = PumpPhase::Pause { left: left - ms };
                Act::Sleep { ms }
            },
            PumpPhase::Finished => Act::Finish,
        }
    }
}

/// Sleeps of a pause that is not interrupted.
pub open spec fn sleeps(left: int) -> Seq<int>
    decreases left,
{
    if left <= 0 {
        seq![]
    } else {
        seq![slice_of(left)] + sleeps(left - slice_of(left))
    }
}

pub open spec fn sum(s: Seq<int>) -> int
    decreases s.len(),
{
    if s.len() == 0 {
        0
    } else {
        s[0] + sum(s.skip(1))
    }
}

/// A pause sleeps exactly as long as it was asked to, never more than a slice at
/// a time.
pub proof fn law_pause_is_exact(ms: int)
    requires
        ms >= 0,
    ensures
        sum(sleeps(ms)) == ms,
        forall|k: int| 0 <= k < sleeps(ms).len() ==> 0 < #[trigger] sleeps(ms)[k] <= SLICE_MS,
    decreases ms,
{
    if ms > 0 {
        let rest = ms - slice_of(ms);
        law_pause_is_exact(rest);
        assert(sleeps(ms).skip(1) =~= sleeps(rest));
        assert forall|k: int| 0 <= k < sleeps(ms).len() implies 0 < #[trigger] sleeps(ms)[k]
            <= SLICE_MS by {
            if k > 0 {
                assert(sleeps(ms)[k] == sleeps(rest)[k - 1]);
            }
        }
    }
}

/// Each sleep of the pump is the next of its pause, and the look at the stop
/// request comes before the one after it.
pub proof fn law_pause_follows_its_slices<E: Experiment>(
    p: Pump<E>,
    left: u32,
    stop: bool,
    reply: Option<TelemetrySnapshot>,
    next: Pump<E>,
    act: Act,
)
    requires
        p.phase == (PumpPhase::Slice { left }),
        left > 0,
        p.moves_to(stop, reply, next, act),
    ensures
        act == (Act::Sleep { ms: sleeps(left as int)[0] as u32 }),
        next.phase matches PumpPhase::Pause { left: l } && sleeps(l as int) == sleeps(
            left as int,
        ).skip(1),
{
    assert(sleeps(left as int).skip(1) =~= sleeps(left - slice_of(left as int)));
}

/// A stop request is heard before every step and before every sleep, and then
/// nothing moves.
pub proof fn law_stop_is_heard<E: Experiment>(
    p: Pump<E>,
    reply: Option<TelemetrySnapshot>,
    next: Pump<E>,
    act: Act,
)
    requires
        p.phase == PumpPhase::Ready || p.phase is Pause,
        p.moves_to(true, reply, next, act),
    ensures
        act == Act::Interrupted,
        next == p,
{
}

/// The sink is switched only by the stream-enable write, and that write is still
/// sent, right after.
pub proof fn law_sink_follows_enable<E: Experiment>(
    p: Pump<E>,
    stop: bool,
    reply: Option<TelemetrySnapshot>,
    next: Pump<E>,
    act: Act,
    stop2: bool,
    reply2: Option<TelemetrySnapshot>,
    next2: Pump<E>,
    act2: Act,
)
    requires
        p.moves_to(stop, reply, next, act),
        next.open != p.open,
        next.moves_to(stop2, reply2, next2, act2),
    ensures
        exists|value: i32|
            {
                &&& p.phase == (PumpPhase::Carry {
                    cmd: #[trigger] crate::exp::put(control::tel_enable(), value as int),
                })
                &&& next.open == (value != 0)
                &&& act == (if value != 0 {
                    Act::Open
                } else {
                    Act::Close
                })
                &&& act2 == (Act::Write { reg: control::tel_enable(), value })
                &&& next2.open == next.open
            },
{
    let cmd = p.phase->cmd;
    let value = cmd->value;
    assert(cmd == crate::exp::put(control::tel_enable(), value as int));
}

/// A snapshot that was read is what the next step of the experiment sees, and
/// only that step.
pub proof fn law_reply_reaches_the_experiment<E: Experiment>(
    p: Pump<E>,
    stop: bool,
    s: TelemetrySnapshot,
    p1: Pump<E>,
    act1: Act,
    reply2: Option<TelemetrySnapshot>,
    p2: Pump<E>,
    act2: Act,
)
    requires
        p.phase == PumpPhase::Awaiting,
        p.moves_to(stop, Some(s), p1, act1),
        p1.moves_to(false, reply2, p2, act2),
    ensures
        p2.phase is Carry,
        p.exp.steps_to(Some(s), &p2.exp, p2.phase->cmd),
        p2.pending is None,
{
}

/// When the sink is switched: by a write of the stream-enable register alone,
/// where there is a port, and only where it is not so already.
pub proof fn law_sink_switch(reg: Reg, value: int, has_port: bool, open: bool)
    ensures
        tel_change_of(reg, value, has_port, open) == TelChange::Open <==> reg
            == control::tel_enable() && has_port && value != 0 && !open,
        tel_change_of(reg, value, has_port, open) == TelChange::Close <==> reg
            == control::tel_enable() && has_port && value == 0 && open,
{
}

/// A command is carried out as it is: a write as that write, a read as a read,
/// a pause in slices of at most five milliseconds that add up to it, Done as
/// the finish.
pub proof fn law_command_is_carried<E: Experiment>(
    p: Pump<E>,
    cmd: Cmd,
    stop: bool,
    reply: Option<TelemetrySnapshot>,
    next: Pump<E>,
    act: Act,
)
    requires
        p.phase == (PumpPhase::Carry { cmd }),
        p.moves_to(stop, reply, next, act),
    ensures
        next.exp == p.exp,
        next.has_port == p.has_port,
        next.pending == p.pending,
        cmd == Cmd::Read ==> act == Act::Read && next.phase == PumpPhase::Awaiting,
        cmd == Cmd::Done ==> act == Act::Finish && next.phase == PumpPhase::Finished,
        cmd matches Cmd::Pause { ms } ==> act == Act::Next && next.phase == (PumpPhase::Pause {
            left: ms,
        }),
        cmd matches Cmd::Write { reg, value } ==> {
            ||| act == (Act::Write { reg, value }) && next.phase == PumpPhase::Ready && next.open
                == p.open
            ||| (act == Act::Open || act == Act::Close) && next.phase == (PumpPhase::Put {
                reg,
                value,
            }) && next.open != p.open && reg == control::tel_enable()
        },
{
}

/// The pump's other steps: a write held back is sent, a sleep takes the rest of
/// the pause or five milliseconds of it, an unanswered read is asked again, a
/// finished pump stays finished.
pub proof fn law_pump_steps<E: Experiment>(
    p: Pump<E>,
    stop: bool,
    reply: Option<TelemetrySnapshot>,
    next: Pump<E>,
    act: Act,
)
    requires
        p.moves_to(stop, reply, next, act),
    ensures
        p.phase matches PumpPhase::Put { reg, value } ==> act == (Act::Write { reg, value })
            && next.phase == PumpPhase::Ready,
        p.phase == PumpPhase::Awaiting && reply is None ==> act == Act::Read && next == p,
        p.phase == PumpPhase::Awaiting && reply is Some ==> act == Act::Next && next.pending == reply
            && next.phase == PumpPhase::Ready,
        p.phase matches PumpPhase::Pause { left } ==> (!stop ==> next.phase == (PumpPhase::Slice {
            left,
        })),
        p.phase matches PumpPhase::Slice { left } ==> {
            &&& left == 0 ==> act == Act::Next && next.phase == PumpPhase::Ready
            &&& 0 < left <= 5 ==> act == (Act::Sleep { ms: left }) && next.phase == (
            PumpPhase::Pause { left: 0 })
            &&& left > 5 ==> act == (Act::Sleep { ms: 5 }) && next.phase == (PumpPhase::Pause {
                left: (left - 5) as u32,
            })
        },
        p.phase == PumpPhase::Finished ==> act == Act::Finish && next == p,
        !stop && (p.phase == PumpPhase::Ready || p.phase is Pause) ==> act == (if p.open {
            Act::Drain
        } else {
            Act::Next
        }),
        p.phase == PumpPhase::Ready && !stop ==> next.phase is Carry && p.exp.steps_to(
            p.pending,
            &next.exp,
            next.phase->cmd,
        ),
        p.phase != PumpPhase::Ready ==> next.exp == p.exp,
{
}

} // verus!
