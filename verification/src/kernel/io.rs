//! What crosses the kernel boundary: the sampled frame, the motor command, the
//! stream sample, and the traits a board implements.

use vstd::prelude::*;

verus! {

/// One scan of the converter, sampled inside the period the previous command
/// drove. The trough fields are the off-window samples.
#[derive(Copy, Clone, Debug, PartialEq, Eq, Structural)]
pub struct SensorFrame {
    pub pos: u16,
    pub current: u16,
    pub current_trough: u16,
    pub vmotor_a: u16,
    pub vmotor_a_trough: u16,
    pub vmotor_b: u16,
    pub vmotor_b_trough: u16,
    pub vcal: u16,
    pub tick: u32,
}

/// Signed duty, Q15.
#[derive(Copy, Clone, Debug, PartialEq, Eq, Structural)]
pub struct Effort(pub i16);

/// How the bridge spends the off window.
#[derive(Copy, Clone, Debug, PartialEq, Eq, Structural)]
pub enum DecayMode {
    Slow,
    Fast,
}

#[derive(Copy, Clone, Debug, PartialEq, Eq, Structural)]
pub enum MotorCmd {
    Disabled,
    Coast,
    Brake,
    Drive { duty: Effort, decay: DecayMode },
}

/// One stream sample: the measurements of this frame beside the command whose
/// window they were taken in.
#[derive(Copy, Clone, Debug, PartialEq, Eq, Structural)]
pub struct TelSample {
    pub pos: u16,
    pub current: i16,
    pub current_trough: u16,
    pub duty_q15: i16,
    pub vdiff: i16,
    pub vbus: u16,
    pub window_valid: bool,
}

/// What a party was told so far, for one that keeps account of it.
#[verifier::ext_equal]
pub struct Trace<C> {
    pub calls: Option<Seq<C>>,
}

impl<C> Trace<C> {
    /// No account.
    pub open spec fn none() -> Trace<C> {
        Trace { calls: None }
    }

    /// With one more call, where an account is kept.
    pub open spec fn push(self, call: C) -> Trace<C> {
        Trace {
            calls: match self.calls {
                Some(s) => Some(s.push(call)),
                None => None,
            },
        }
    }
}

/// The bridge: the board writes each command as it comes.
pub trait ControlIo {
    /// Every command so far, where the bridge keeps account.
    open spec fn written(&self) -> Trace<MotorCmd> {
        Trace::none()
    }

    fn write(&mut self, cmd: MotorCmd)
        ensures
            final(self).written() == old(self).written().push(cmd),
    ;
}

/// A bridge that keeps every command: a simulated board.
pub struct CmdLog {
    pub cmds: Vec<MotorCmd>,
}

impl CmdLog {
    pub fn new() -> (r: Self)
        ensures
            r.written() == (Trace { calls: Some(Seq::<MotorCmd>::empty()) }),
    {
        CmdLog { cmds: Vec::new() }
    }
}

impl ControlIo for CmdLog {
    open spec fn written(&self) -> Trace<MotorCmd> {
        Trace { calls: Some(self.cmds@) }
    }

    fn write(&mut self, cmd: MotorCmd) {
        self.cmds.push(cmd);
    }
}

/// One call to the stream.
#[derive(Copy, Clone, Debug, PartialEq, Eq, Structural)]
pub enum StreamCall {
    Configure { enabled: bool, mask: u16 },
    Sample { sample: TelSample },
}

/// The telemetry stream.
pub trait TelStream {
    /// Every call so far, where the stream keeps account.
    open spec fn sent(&self) -> Trace<StreamCall> {
        Trace::none()
    }

    fn configure(&mut self, enabled: bool, mask: u16)
        ensures
            final(self).sent() == old(self).sent().push(StreamCall::Configure { enabled, mask }),
    ;

    fn on_tick(&mut self, sample: &TelSample)
        ensures
            final(self).sent() == old(self).sent().push(StreamCall::Sample { sample: *sample }),
    ;
}

/// No stream.
impl TelStream for () {
    fn configure(&mut self, enabled: bool, mask: u16) {
    }

    fn on_tick(&mut self, sample: &TelSample) {
    }
}

/// A stream that keeps everything.
pub struct StreamLog {
    pub calls: Vec<StreamCall>,
}

impl StreamLog {
    pub fn new() -> (r: Self)
        ensures
            r.sent() == (Trace { calls: Some(Seq::<StreamCall>::empty()) }),
    {
        StreamLog { calls: Vec::new() }
    }
}

impl TelStream for StreamLog {
    open spec fn sent(&self) -> Trace<StreamCall> {
        Trace { calls: Some(self.calls@) }
    }

    fn configure(&mut self, enabled: bool, mask: u16) {
        self.calls.push(StreamCall::Configure { enabled, mask });
    }

    fn on_tick(&mut self, sample: &TelSample) {
        self.calls.push(StreamCall::Sample { sample: *sample });
    }
}

} // verus!
