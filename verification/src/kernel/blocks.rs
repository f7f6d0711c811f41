//! The signal blocks a kernel sequences: window judging, the inner loops, the
//! limits, the estimators, the detectors and the fault latch. A board supplies
//! them. What they are asked, in which order, and what came back is kept as a
//! trace. A board that shows its fault latch keeps it as one: raised until it is
//! acknowledged. Nothing else is promised of what they answer.

use super::io::{DecayMode, SensorFrame, Trace};
use super::state::{CurIn, FoldIn, IBand, LimitCfg, ThermIn, VelIn};
use crate::regions::telemetry::TelemetryIdent;
use vstd::prelude::*;

verus! {

/// A latched fault.
#[derive(Copy, Clone, Debug, PartialEq, Eq, Structural)]
pub enum Fault {
    OverCurrent,
    Stall,
    Sensor,
    PositionError,
    OverTemp,
    UnderVolt,
}

/// What the window of this frame is judged by: the previous command drove the
/// period the frame sampled.
#[derive(Copy, Clone, Debug, PartialEq, Eq, Structural)]
pub struct WindowIn {
    pub duty_q15: i16,
    pub decay: DecayMode,
    pub pwm_arr: u16,
    pub i_window_min_ticks: u16,
    pub v_window_min_ticks: u16,
    pub bias_counts: u16,
}

/// A valid drive window: the driven rail and the differential of the two
/// terminals, in counts.
#[derive(Copy, Clone, Debug, PartialEq, Eq, Structural)]
pub struct VDrive {
    pub rail: u16,
    pub diff: i32,
}

/// The window's reading: its width in timer ticks, the current where the shunt
/// window was valid, and the rail with the terminal differential where the
/// drive window was.
#[derive(Copy, Clone, Debug, PartialEq, Eq, Structural)]
pub struct Window {
    pub ticks: u16,
    pub i_meas: Option<i32>,
    pub vdrive: Option<VDrive>,
}

/// One step of the back-emf observer.
#[derive(Copy, Clone, Debug, PartialEq, Eq, Structural)]
pub struct BemfIn {
    pub v_mean: Option<i32>,
    pub i_meas: Option<i32>,
    pub r_q12: u16,
    pub recip_ke_q: u16,
}

/// A question to a block with its answer.
#[derive(Copy, Clone, Debug, PartialEq, Eq, Structural)]
pub enum Call {
    FilterVcal { raw: u16, out: u16 },
    Acknowledge,
    Window { frame: SensorFrame, q: WindowIn, out: Window },
    OverCurrent { over: Option<bool>, trip_ticks: u8, out: bool },
    SensorBad { pos: u16, delta_max: u16, bad_count: u8, out: bool },
    TrackingLost { over: bool, ticks: u32, out: bool },
    Raise { fault: Fault },
    FaultFlags { out: u8 },
    FaultCode { out: u8 },
    Aggregate { i: i16, vdiff: i16, duty_q15: i16, out: Option<TelemetryIdent> },
    ResetCurrent,
    ResetVelocity,
    StepCurrent { q: CurIn, out: i16 },
    StepVelocity { q: VelIn, out: i32 },
    CurrentLimit { out: u16 },
    FoldLimits { q: FoldIn, out: IBand },
    StallPending { out: bool },
    Derate { t_cc: i16, cfg: LimitCfg },
    StepRail { v: Option<u16>, floor: u16 },
    RailCounts { out: u16 },
    RailRecip { out: u32 },
    TakeRailFresh { out: bool },
    BemfCps { out: i32 },
    StepBemf { q: BemfIn, out: i16 },
    SeedThermometer { r0_q12: u16 },
    StepThermometer { q: ThermIn, out: i16 },
    WindingTemp { out: i16 },
    WindingRes { out: u16 },
}

/// A latch after an acknowledge.
pub open spec fn cleared(before: Option<u8>) -> Option<u8> {
    match before {
        Some(_) => Some(0),
        None => None,
    }
}

/// A latch over a stretch in which a fault was raised, or none was: one that is
/// shown is not empty once a fault was raised, and is as it was otherwise.
pub open spec fn held(before: Option<u8>, raised: bool, after: Option<u8>) -> bool {
    match before {
        Some(m) => after matches Some(n) && if raised {
            n != 0
        } else {
            n == m
        },
        None => after is None,
    }
}

/// The blocks of a board.
pub trait Blocks {
    /// Every call so far with its answer, where the board keeps account.
    open spec fn trace(&self) -> Trace<Call> {
        Trace::none()
    }

    /// The mask of the fault latch, where the board shows it.
    open spec fn latch(&self) -> Option<u8> {
        None
    }

    /// Filter the reference reading.
    fn filter_vcal(&mut self, raw: u16) -> (out: u16)
        ensures
            final(self).trace() == old(self).trace().push(Call::FilterVcal { raw, out }),
            final(self).latch() == old(self).latch(),
    ;

    /// Clear the fault latch, the detectors and the pending stall.
    fn acknowledge(&mut self)
        ensures
            final(self).trace() == old(self).trace().push(Call::Acknowledge),
            final(self).latch() == cleared(old(self).latch()),
    ;

    /// Judge the window of a frame.
    fn window(&mut self, frame: &SensorFrame, q: &WindowIn) -> (out: Window)
        ensures
            final(self).trace() == old(self).trace().push(
                Call::Window { frame: *frame, q: *q, out },
            ),
            final(self).latch() == old(self).latch(),
    ;

    /// Overcurrent detector; true trips.
    fn over_current(&mut self, over: Option<bool>, trip_ticks: u8) -> (out: bool)
        ensures
            final(self).trace() == old(self).trace().push(
                Call::OverCurrent { over, trip_ticks, out },
            ),
            final(self).latch() == old(self).latch(),
    ;

    /// Pot sanity screen; true trips.
    fn sensor_bad(&mut self, pos: u16, delta_max: u16, bad_count: u8) -> (out: bool)
        ensures
            final(self).trace() == old(self).trace().push(
                Call::SensorBad { pos, delta_max, bad_count, out },
            ),
            final(self).latch() == old(self).latch(),
    ;

    /// Tracking-error persistence; true trips.
    fn tracking_lost(&mut self, over: bool, ticks: u32) -> (out: bool)
        ensures
            final(self).trace() == old(self).trace().push(Call::TrackingLost { over, ticks, out }),
            final(self).latch() == old(self).latch(),
    ;

    /// Latch a fault.
    fn raise(&mut self, fault: Fault)
        ensures
            final(self).trace() == old(self).trace().push(Call::Raise { fault }),
            held(old(self).latch(), true, final(self).latch()),
    ;

    /// The mask of the latched faults, zero for none.
    fn fault_flags(&mut self) -> (out: u8)
        ensures
            final(self).trace() == old(self).trace().push(Call::FaultFlags { out }),
            final(self).latch() == old(self).latch(),
            old(self).latch() matches Some(mask) ==> out == mask,
    ;

    fn fault_code(&mut self) -> (out: u8)
        ensures
            final(self).trace() == old(self).trace().push(Call::FaultCode { out }),
            final(self).latch() == old(self).latch(),
    ;

    /// Accumulate one identification sample; a full window comes back.
    fn aggregate(&mut self, i: i16, vdiff: i16, duty_q15: i16) -> (out: Option<TelemetryIdent>)
        ensures
            final(self).trace() == old(self).trace().push(
                Call::Aggregate { i, vdiff, duty_q15, out },
            ),
            final(self).latch() == old(self).latch(),
    ;

    fn reset_current(&mut self)
        ensures
            final(self).trace() == old(self).trace().push(Call::ResetCurrent),
            final(self).latch() == old(self).latch(),
    ;

    fn reset_velocity(&mut self)
        ensures
            final(self).trace() == old(self).trace().push(Call::ResetVelocity),
            final(self).latch() == old(self).latch(),
    ;

    fn step_current(&mut self, q: &CurIn) -> (out: i16)
        ensures
            final(self).trace() == old(self).trace().push(Call::StepCurrent { q: *q, out }),
            final(self).latch() == old(self).latch(),
    ;

    fn step_velocity(&mut self, q: &VelIn) -> (out: i32)
        ensures
            final(self).trace() == old(self).trace().push(Call::StepVelocity { q: *q, out }),
            final(self).latch() == old(self).latch(),
    ;

    /// The composed current limit.
    fn current_limit(&mut self) -> (out: u16)
        ensures
            final(self).trace() == old(self).trace().push(Call::CurrentLimit { out }),
            final(self).latch() == old(self).latch(),
    ;

    fn fold_limits(&mut self, q: &FoldIn) -> (out: IBand)
        ensures
            final(self).trace() == old(self).trace().push(Call::FoldLimits { q: *q, out }),
            final(self).latch() == old(self).latch(),
    ;

    fn stall_pending(&mut self) -> (out: bool)
        ensures
            final(self).trace() == old(self).trace().push(Call::StallPending { out }),
            final(self).latch() == old(self).latch(),
    ;

    fn derate(&mut self, t_cc: i16, cfg: &LimitCfg)
        ensures
            final(self).trace() == old(self).trace().push(Call::Derate { t_cc, cfg: *cfg }),
            final(self).latch() == old(self).latch(),
    ;

    /// Feed the rail estimator.
    fn step_rail(&mut self, v: Option<u16>, floor: u16)
        ensures
            final(self).trace() == old(self).trace().push(Call::StepRail { v, floor }),
            final(self).latch() == old(self).latch(),
    ;

    fn rail_counts(&mut self) -> (out: u16)
        ensures
            final(self).trace() == old(self).trace().push(Call::RailCounts { out }),
            final(self).latch() == old(self).latch(),
    ;

    /// The reciprocal that belongs to the rail estimate, floored as it is, Q15.
    fn rail_recip_q15(&mut self) -> (out: u32)
        ensures
            final(self).trace() == old(self).trace().push(Call::RailRecip { out }),
            final(self).latch() == old(self).latch(),
    ;

    /// Whether the rail estimate saw a sample since the last time it was asked.
    fn take_rail_fresh(&mut self) -> (out: bool)
        ensures
            final(self).trace() == old(self).trace().push(Call::TakeRailFresh { out }),
            final(self).latch() == old(self).latch(),
    ;

    fn bemf_cps(&mut self) -> (out: i32)
        ensures
            final(self).trace() == old(self).trace().push(Call::BemfCps { out }),
            final(self).latch() == old(self).latch(),
    ;

    fn step_bemf(&mut self, q: &BemfIn) -> (out: i16)
        ensures
            final(self).trace() == old(self).trace().push(Call::StepBemf { q: *q, out }),
            final(self).latch() == old(self).latch(),
    ;

    fn seed_thermometer(&mut self, r0_q12: u16)
        ensures
            final(self).trace() == old(self).trace().push(Call::SeedThermometer { r0_q12 }),
            final(self).latch() == old(self).latch(),
    ;

    fn step_thermometer(&mut self, q: &ThermIn) -> (out: i16)
        ensures
            final(self).trace() == old(self).trace().push(Call::StepThermometer { q: *q, out }),
            final(self).latch() == old(self).latch(),
    ;

    fn winding_t_cc(&mut self) -> (out: i16)
        ensures
            final(self).trace() == old(self).trace().push(Call::WindingTemp { out }),
            final(self).latch() == old(self).latch(),
    ;

    fn winding_r_q12(&mut self) -> (out: u16)
        ensures
            final(self).trace() == old(self).trace().push(Call::WindingRes { out }),
            final(self).latch() == old(self).latch(),
    ;
}

/// Blocks with no motor behind them: they answer as a bridge at rest does, and
/// keep every call.
pub struct CallLog {
    pub calls: Vec<Call>,
    /// The latched faults, one bit each.
    pub mask: u8,
}

/// The bit of a fault in the log's mask.
fn fault_bit(fault: Fault) -> (r: u8)
    ensures
        r != 0,
{
    match fault {
        Fault::OverCurrent => 1,
        Fault::Stall => 2,
        Fault::Sensor => 4,
        Fault::PositionError => 8,
        Fault::OverTemp => 16,
        Fault::UnderVolt => 32,
    }
}

impl CallLog {
    pub fn new() -> (r: Self)
        ensures
            r.trace() == (Trace { calls: Some(Seq::<Call>::empty()) }),
            r.latch() == Some(0u8),
    {
        CallLog { calls: Vec::new(), mask: 0 }
    }
}

impl Blocks for CallLog {
    open spec fn trace(&self) -> Trace<Call> {
        Trace { calls: Some(self.calls@) }
    }

    open spec fn latch(&self) -> Option<u8> {
        Some(self.mask)
    }

    fn filter_vcal(&mut self, raw: u16) -> (out: u16) {
        let out: u16 = raw;
        self.calls.push(Call::FilterVcal { raw, out });
        out
    }

    fn acknowledge(&mut self) {
        self.mask = 0;
        self.calls.push(Call::Acknowledge);
    }

    fn window(&mut self, frame: &SensorFrame, q: &WindowIn) -> (out: Window) {
        let out: Window = Window { ticks: 0, i_meas: None, vdrive: None };
        self.calls.push(Call::Window { frame: *frame, q: *q, out });
        out
    }

    fn over_current(&mut self, over: Option<bool>, trip_ticks: u8) -> (out: bool) {
        let out: bool = false;
        self.calls.push(Call::OverCurrent { over, trip_ticks, out });
        out
    }

    fn sensor_bad(&mut self, pos: u16, delta_max: u16, bad_count: u8) -> (out: bool) {
        let out: bool = false;
        self.calls.push(Call::SensorBad { pos, delta_max, bad_count, out });
        out
    }

    fn tracking_lost(&mut self, over: bool, ticks: u32) -> (out: bool) {
        let out: bool = false;
        self.calls.push(Call::TrackingLost { over, ticks, out });
        out
    }

    fn raise(&mut self, fault: Fault) {
        let (mask, bit): (u8, u8) = (self.mask, fault_bit(fault));
        assert(mask | bit != 0) by (bit_vector)
            requires
                bit != 0,
        ;
        self.mask = mask | bit;
        self.calls.push(Call::Raise { fault });
    }

    fn fault_flags(&mut self) -> (out: u8) {
        let out: u8 = self.mask;
        self.calls.push(Call::FaultFlags { out });
        out
    }

    fn fault_code(&mut self) -> (out: u8) {
        let out: u8 = 0;
        self.calls.push(Call::FaultCode { out });
        out
    }

    fn aggregate(&mut self, i: i16, vdiff: i16, duty_q15: i16) -> (out: Option<TelemetryIdent>) {
        let out: Option<TelemetryIdent> = None;
        self.calls.push(Call::Aggregate { i, vdiff, duty_q15, out });
        out
    }

    fn reset_current(&mut self) {
        self.calls.push(Call::ResetCurrent);
    }

    fn reset_velocity(&mut self) {
        self.calls.push(Call::ResetVelocity);
    }

    fn step_current(&mut self, q: &CurIn) -> (out: i16) {
        let out: i16 = 0;
        self.calls.push(Call::StepCurrent { q: *q, out });
        out
    }

    fn step_velocity(&mut self, q: &VelIn) -> (out: i32) {
        let out: i32 = 0;
        self.calls.push(Call::StepVelocity { q: *q, out });
        out
    }

    fn current_limit(&mut self) -> (out: u16) {
        let out: u16 = 0;
        self.calls.push(Call::CurrentLimit { out });
        out
    }

    fn fold_limits(&mut self, q: &FoldIn) -> (out: IBand) {
        let out: IBand = IBand { lo: 0, hi: 0 };
        self.calls.push(Call::FoldLimits { q: *q, out });
        out
    }

    fn stall_pending(&mut self) -> (out: bool) {
        let out: bool = false;
        self.calls.push(Call::StallPending { out });
        out
    }

    fn derate(&mut self, t_cc: i16, cfg: &LimitCfg) {
        self.calls.push(Call::Derate { t_cc, cfg: *cfg });
    }

    fn step_rail(&mut self, v: Option<u16>, floor: u16) {
        self.calls.push(Call::StepRail { v, floor });
    }

    fn rail_counts(&mut self) -> (out: u16) {
        let out: u16 = 0;
        self.calls.push(Call::RailCounts { out });
        out
    }

    fn rail_recip_q15(&mut self) -> (out: u32) {
        let out: u32 = 0;
        self.calls.push(Call::RailRecip { out });
        out
    }

    fn take_rail_fresh(&mut self) -> (out: bool) {
        let out: bool = false;
        self.calls.push(Call::TakeRailFresh { out });
        out
    }

    fn bemf_cps(&mut self) -> (out: i32) {
        let out: i32 = 0;
        self.calls.push(Call::BemfCps { out });
        out
    }

    fn step_bemf(&mut self, q: &BemfIn) -> (out: i16) {
        let out: i16 = 0;
        self.calls.push(Call::StepBemf { q: *q, out });
        out
    }

    fn seed_thermometer(&mut self, r0_q12: u16) {
        self.calls.push(Call::SeedThermometer { r0_q12 });
    }

    fn step_thermometer(&mut self, q: &ThermIn) -> (out: i16) {
        let out: i16 = 0;
        self.calls.push(Call::StepThermometer { q: *q, out });
        out
    }

    fn winding_t_cc(&mut self) -> (out: i16) {
        let out: i16 = 0;
        self.calls.push(Call::WindingTemp { out });
        out
    }

    fn winding_r_q12(&mut self) -> (out: u16) {
        let out: u16 = 0;
        self.calls.push(Call::WindingRes { out });
        out
    }
}

} // verus!
