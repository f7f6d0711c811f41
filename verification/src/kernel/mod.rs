//! The assembled kernel: one tick per PWM period carries all three rates. FAST
//! runs every tick (sensor publish, window select, overcurrent, current loop,
//! motor write), MEDIUM every tenth (observer, profile, position and velocity
//! loops, limits, detectors, estimates publish), SLOW every thirty-second
//! medium tick (thermometer, derate, undervolt). Tick-indexed by design: a
//! missed tick dilates time and nothing reads a wall clock.
//!
//! The kernel sequences signal blocks it does not own. A board supplies them
//! through [`blocks::Blocks`]; nothing is assumed of what they answer. Every
//! decision of a tick is a function of the state, the table, the frame and those
//! answers, and what each block is asked, and when, is part of the contract.

use vstd::prelude::*;

pub mod blocks;
pub mod io;
pub mod laws;
pub mod position;
pub mod profile_laws;
pub mod state;
pub mod tick_laws;
pub mod trajectory;

use crate::math::abs;
use crate::regions::calib::{CalibMotor, CalibSense, CalibWinding};
use crate::regions::config::{ConfigLimits, ConfigRegs};
use crate::regions::control::ControlLifecycle;
use crate::regions::telemetry::{
    TelemetryCommon, TelemetryEstimates, TelemetryIdent, TelemetryMode, TelemetryRegs,
    TelemetrySensors,
};
use crate::regions::ControlTable;
use blocks::{cleared, held, BemfIn, Blocks, Call, Fault, Window, WindowIn};
use io::{
    ControlIo, DecayMode, Effort, MotorCmd, SensorFrame, StreamCall, TelSample, TelStream,
    Trace,
};
use state::{
    mean_voltage, v_mean, CurrentPlan, DrivePlan, FoldIn, Gate, IBand, KernelState, LimitCfg,
    ThermIn, POS_READING_MAX,
};

verus! {

/// Finished timing constants, so that the kernel never divides.
#[derive(Copy, Clone, Debug, PartialEq, Eq, Structural)]
pub struct KernelTiming {
    /// The timer auto-reload the motor write programs; drive-window widths
    /// derive from it.
    pub pwm_arr: u16,
    /// `2^24 / pwm_arr`: duty-fraction reciprocal.
    pub recip_arr_q24: u32,
    /// FAST tick rate, the derivation anchor of the fields below.
    pub tick_hz: u16,
    /// `2^32 / MED_HZ`: the medium integration step.
    pub dt_med_q32: u32,
    /// `(MED_HZ << 16) / 1000`: milliseconds to medium ticks.
    pub med_ticks_per_ms_q16: u32,
}

/// What the blocks answered on a slow pass.
#[derive(Copy, Clone, Debug, PartialEq, Eq, Structural)]
pub struct SlowReplies {
    pub t_cc: i16,
    pub vbus: u16,
    pub vbus_fresh: bool,
}

/// What the blocks answered on a medium pass.
#[derive(Copy, Clone, Debug, PartialEq, Eq, Structural)]
pub struct MediumReplies {
    pub bemf_prev_cps: i32,
    pub i_lim_prev: u16,
    pub band: IBand,
    pub stall_pending: bool,
    /// The velocity loop's command, 0 where it was not stepped.
    pub i_ref: i32,
    pub omega_bemf_cps: i16,
    pub sensor_bad: bool,
    pub tracking_lost: bool,
    pub slow: Option<SlowReplies>,
    pub i_lim: u16,
    pub t_winding_cc: i16,
    pub vbus: u16,
    pub r_hat_q12: u16,
    pub fault_code: u8,
    pub fault_flags: u8,
}

/// What the blocks answered over one tick.
#[derive(Copy, Clone, Debug, PartialEq, Eq, Structural)]
pub struct Replies {
    pub vcal_lpf: u16,
    pub window: Window,
    pub oc_tripped: bool,
    pub vbus_stream: u16,
    pub aggregate: Option<TelemetryIdent>,
    pub flags_at_gate: u8,
    pub medium: Option<MediumReplies>,
    pub flags_at_drive: u8,
    pub vbus_drive: u16,
    pub recip_drive: u32,
    /// The current loop's duty, 0 where it was not stepped.
    pub duty: i16,
}

/// What a slow pass decided.
#[derive(Copy, Clone, Debug, PartialEq, Eq, Structural)]
pub struct SlowReport {
    pub therm: ThermIn,
    pub reseed_thermometer: bool,
    pub over_temp: bool,
    pub under_volt: bool,
}

/// What a medium pass decided.
#[derive(Copy, Clone, Debug, PartialEq, Eq, Structural)]
pub struct MediumReport {
    pub fold: FoldIn,
    pub stall: bool,
    pub plan: CurrentPlan,
    pub v_mean: Option<i32>,
    pub tracking_over: bool,
    pub slow: Option<SlowReport>,
}

/// What a tick decided, beside the answers it was decided on.
#[derive(Copy, Clone, Debug, PartialEq, Eq, Structural)]
pub struct TickReport {
    pub acknowledged: bool,
    pub window_in: WindowIn,
    pub over: Option<bool>,
    pub stream: Option<TelSample>,
    pub gate: Gate,
    pub medium: Option<MediumReport>,
    pub drive: DrivePlan,
    pub cmd: MotorCmd,
    pub replies: Replies,
}

impl MediumReport {
    /// A fault was raised in this pass, given what the blocks answered.
    pub open spec fn raised(self, m: MediumReplies) -> bool {
        ||| self.stall
        ||| m.sensor_bad
        ||| m.tracking_lost
        ||| self.slow matches Some(s) && (s.over_temp || s.under_volt)
    }
}

impl TickReport {
    /// A fault was raised in this tick.
    pub open spec fn raised(self) -> bool {
        ||| self.replies.oc_tripped
        ||| match (self.medium, self.replies.medium) {
            (Some(r), Some(m)) => r.raised(m),
            _ => false,
        }
    }
}

/// What a shown latch holds over a tick: it starts from what was latched before,
/// or from nothing where the tick acknowledges, and whatever the tick raises
/// stands from there on. Each reading of the mask is of that latch, the last
/// one of what the tick leaves.
pub open spec fn latch_over(before: Option<u8>, r: TickReport, after: Option<u8>) -> bool {
    match before {
        None => after is None,
        Some(m) => {
            let start = if r.acknowledged {
                0
            } else {
                m
            };
            &&& after == Some(r.replies.flags_at_drive)
            &&& r.replies.flags_at_gate == 0 <==> start == 0 && !r.replies.oc_tripped
            &&& r.replies.flags_at_drive == 0 <==> start == 0 && !r.raised()
            &&& r.replies.medium matches Some(q) ==> q.fault_flags == r.replies.flags_at_drive
        },
    }
}

/// The terminal differential of a valid drive window.
pub open spec fn differential(w: Window) -> Option<i32> {
    match w.vdrive {
        Some(d) => Some(d.diff),
        None => None,
    }
}

/// The mean winding voltage of a valid drive window.
pub open spec fn window_mean(w: Window, recip_arr_q24: u32) -> Option<i32> {
    match w.vdrive {
        Some(d) => Some(mean_voltage(w.ticks, d.diff, recip_arr_q24) as i32),
        None => None,
    }
}

/// Whether a valid current sample is past the trip level.
pub open spec fn over_verdict(i_meas: Option<i32>, oc_trip_counts: u16) -> Option<bool> {
    match i_meas {
        Some(i) => Some(abs(i as int) > oc_trip_counts),
        None => None,
    }
}

/// What the window of this frame is judged by.
pub open spec fn window_query(s: KernelState, timing: KernelTiming, t: ControlTable) -> WindowIn {
    WindowIn {
        duty_q15: s.duty_q15,
        decay: s.decay,
        pwm_arr: timing.pwm_arr,
        i_window_min_ticks: t.calib.sense.i_window_min_ticks,
        v_window_min_ticks: t.calib.sense.v_window_min_ticks,
        bias_counts: t.telemetry.sensors.current_bias_counts,
    }
}

/// The state once the tick is open and the window has been heard.
pub open spec fn heard(s: KernelState, frame: SensorFrame, t: ControlTable, w: Window) -> KernelState {
    s.begun(t.control.lifecycle.torque_enable, frame.pos).measured(w.i_meas, differential(w))
}

/// The telemetry every tick writes: the frame, and a finished aggregate.
pub open spec fn sensed(
    frame: SensorFrame,
    vcal_lpf: u16,
    aggregate: Option<TelemetryIdent>,
    old_regs: TelemetryRegs,
) -> TelemetryRegs {
    TelemetryRegs {
        sensors: TelemetrySensors {
            pos: frame.pos,
            current: frame.current,
            vcal: frame.vcal,
            vcal_lpf,
            vmotor_a: frame.vmotor_a,
            vmotor_b: frame.vmotor_b,
            current_trough: frame.current_trough,
            ..old_regs.sensors
        },
        ident: match aggregate {
            Some(a) => a,
            None => old_regs.ident,
        },
        ..old_regs
    }
}

/// The state after the fast front half: boot, measurements, run gate, count.
pub open spec fn fronted(s: KernelState, frame: SensorFrame, t: ControlTable, rep: Replies) -> KernelState {
    let life = t.control.lifecycle;
    heard(s, frame, t, rep.window).gated(life.torque_enable && rep.flags_at_gate == 0, life.mode, frame.pos).counted()
}

/// The state before the medium pass decides the current command.
pub open spec fn limited(
    s: KernelState,
    run: bool,
    timing: KernelTiming,
    frame: SensorFrame,
    t: ControlTable,
    i_meas: Option<i32>,
    bemf_prev_cps: i32,
    band: IBand,
) -> KernelState {
    let e = s.estimated(
        i_meas,
        frame.pos,
        bemf_prev_cps,
        timing.dt_med_q32,
        t.calib.motor,
        t.config.fusion,
    );
    let p = e.profiled(
        run,
        t.control.lifecycle,
        t.config.loop_position,
        t.config.pos_limits,
        timing.dt_med_q32,
    );
    KernelState { i_band: band, ..p }
}

/// The state with the current command of a plan, given the velocity loop's.
pub open spec fn referenced(b: KernelState, plan: CurrentPlan, i_ref: i32) -> KernelState {
    KernelState {
        i_ref_cc: match plan {
            CurrentPlan::Keep => b.i_ref_cc,
            CurrentPlan::Zero | CurrentPlan::Park => 0,
            CurrentPlan::Step(_) => i_ref,
        },
        ..b
    }
}

/// The state after the medium pass, slow pass included where it is due.
#[verifier::opaque]
pub open spec fn mediumed(
    s: KernelState,
    run: bool,
    timing: KernelTiming,
    frame: SensorFrame,
    t: ControlTable,
    i_meas: Option<i32>,
    m: MediumReplies,
) -> KernelState {
    let b = limited(s, run, timing, frame, t, i_meas, m.bemf_prev_cps, m.band);
    let plan = b.current_planned(
        run,
        t.control.lifecycle.mode,
        t.config.loop_velocity,
        t.calib.motor,
    );
    let c = referenced(b, plan, m.i_ref);
    if c.slow_due() {
        c.slow_counted().retimed(
            t.config.limits.stall_time_ms,
            t.config.fault_cfg.pos_error_time_ms,
            timing.med_ticks_per_ms_q16,
            t.calib.winding.r0_q12,
        )
    } else {
        c.slow_counted()
    }
}

/// What the medium pass decides.
#[verifier::opaque]
pub open spec fn medium_report(
    s: KernelState,
    run: bool,
    timing: KernelTiming,
    frame: SensorFrame,
    t: ControlTable,
    w: Window,
    m: MediumReplies,
) -> MediumReport {
    let b = limited(s, run, timing, frame, t, w.i_meas, m.bemf_prev_cps, m.band);
    let vm = window_mean(w, timing.recip_arr_q24);
    MediumReport {
        fold: b.folding(m.i_lim_prev, t.config.limits, t.config.thermal, t.config.pos_limits),
        stall: run && m.stall_pending,
        plan: b.current_planned(
            run,
            t.control.lifecycle.mode,
            t.config.loop_velocity,
            t.calib.motor,
        ),
        v_mean: vm,
        tracking_over: b.tracking_over(
            run,
            t.control.lifecycle.mode,
            t.config.fault_cfg.pos_error_counts,
        ),
        slow: match m.slow {
            Some(q) => Some(
                SlowReport {
                    therm: b.thermal_in(vm, w.i_meas, t.config.thermal, t.calib.winding),
                    reseed_thermometer: t.calib.winding.r0_q12 != b.therm_r0,
                    over_temp: q.t_cc >= t.config.thermal.cutoff_cc,
                    under_volt: q.vbus_fresh && q.vbus < t.config.thermal.v_undervolt_counts,
                },
            ),
            None => None,
        },
    }
}

/// The state when the bridge is decided.
pub open spec fn settled(
    s: KernelState,
    timing: KernelTiming,
    frame: SensorFrame,
    t: ControlTable,
    rep: Replies,
) -> KernelState {
    let f = fronted(s, frame, t, rep);
    let run = t.control.lifecycle.torque_enable && rep.flags_at_gate == 0;
    match rep.medium {
        Some(m) => mediumed(f, run, timing, frame, t, rep.window.i_meas, m),
        None => f,
    }
}

/// What the bridge is told: a fault raised within the tick disables this very
/// tick's drive.
pub open spec fn drive_decided(
    s: KernelState,
    timing: KernelTiming,
    frame: SensorFrame,
    t: ControlTable,
    rep: Replies,
) -> DrivePlan {
    settled(s, timing, frame, t, rep).drive_planned(
        t.control.lifecycle.torque_enable && rep.flags_at_gate == 0 && rep.flags_at_drive == 0,
        t.control.lifecycle,
        t.config.loop_current,
        t.config.limits,
        t.calib.motor.ke_vpc_q,
        rep.window.i_meas,
        rep.vbus_drive,
        t.config.thermal.v_undervolt_counts,
        rep.recip_drive,
    )
}

/// The command of a plan, given the current loop's duty. Closed-loop drive
/// decays slowly.
pub open spec fn commanded(plan: DrivePlan, duty: i16) -> MotorCmd {
    match plan {
        DrivePlan::Write(c) => c,
        DrivePlan::ResetThenWrite(c) => c,
        DrivePlan::Step(_) => MotorCmd::Drive { duty: Effort(duty), decay: DecayMode::Slow },
    }
}

/// The state after a whole tick.
pub open spec fn ticked(
    s: KernelState,
    timing: KernelTiming,
    frame: SensorFrame,
    t: ControlTable,
    rep: Replies,
) -> KernelState {
    let life = t.control.lifecycle;
    settled(s, timing, frame, t, rep).drive_noted(
        life.torque_enable && rep.flags_at_gate == 0 && rep.flags_at_drive == 0,
        life.mode,
        life.goal_current,
    ).driven(commanded(drive_decided(s, timing, frame, t, rep), rep.duty))
}

/// What a tick decides.
pub open spec fn report(
    s: KernelState,
    timing: KernelTiming,
    frame: SensorFrame,
    t: ControlTable,
    rep: Replies,
) -> TickReport {
    let life = t.control.lifecycle;
    let run = life.torque_enable && rep.flags_at_gate == 0;
    let m = heard(s, frame, t, rep.window);
    TickReport {
        acknowledged: s.acknowledges(life.torque_enable),
        window_in: window_query(s, timing, t),
        over: over_verdict(rep.window.i_meas, t.config.limits.oc_trip_counts),
        stream: m.streamed(
            frame,
            life.tel_enable,
            life.tel_mask,
            rep.vbus_stream,
            rep.window.i_meas is Some,
        ),
        gate: Gate { run, reset_loops: run != s.run_prev },
        medium: match rep.medium {
            Some(q) => Some(
                medium_report(fronted(s, frame, t, rep), run, timing, frame, t, rep.window, q),
            ),
            None => None,
        },
        drive: drive_decided(s, timing, frame, t, rep),
        cmd: commanded(drive_decided(s, timing, frame, t, rep), rep.duty),
        replies: rep,
    }
}

/// The telemetry after a whole tick: the frame every tick, the aggregates at
/// their window boundary, the estimates and the fault state at the medium
/// boundary.
pub open spec fn published(
    s: KernelState,
    timing: KernelTiming,
    frame: SensorFrame,
    t: ControlTable,
    rep: Replies,
) -> TelemetryRegs {
    let tele = sensed(frame, rep.vcal_lpf, rep.aggregate, t.telemetry);
    match rep.medium {
        None => tele,
        Some(m) => {
            let c = settled(s, timing, frame, t, rep);
            TelemetryRegs {
                estimates: TelemetryEstimates {
                    theta_hat_q16: c.fusion.theta_q16,
                    omega_hat_cps: c.fusion.omega_q16,
                    tau_d_counts: (c.fusion@.tau_d / 65_536) as i16,
                    i_lim_counts: m.i_lim,
                    t_winding_cc: m.t_winding_cc,
                    vbus_counts: m.vbus,
                    duty_applied_q15: s.duty_q15,
                    omega_bemf_cps: m.omega_bemf_cps,
                    r_hat_q12: m.r_hat_q12,
                    i_hat_counts: c.i_meas_last,
                },
                mode: TelemetryMode {
                    mode_active: t.control.lifecycle.mode.byte(),
                    fault_code: m.fault_code,
                },
                common: TelemetryCommon { fault_flags: m.fault_flags },
                ..tele
            }
        },
    }
}

/// The table after a whole tick: the telemetry is written, and every other
/// section is as it was.
pub open spec fn written_table(
    s: KernelState,
    timing: KernelTiming,
    frame: SensorFrame,
    t: ControlTable,
    rep: Replies,
) -> ControlTable {
    ControlTable { telemetry: published(s, timing, frame, t, rep), ..t }
}

/// The rail reading of a valid drive window.
pub open spec fn rail_of(w: Window) -> Option<u16> {
    match w.vdrive {
        Some(d) => Some(d.rail),
        None => None,
    }
}

/// A trace with a fault raised where one is due.
pub open spec fn raising(trace: Trace<Call>, due: bool, fault: Fault) -> Trace<Call> {
    if due {
        trace.push(Call::Raise { fault })
    } else {
        trace
    }
}

/// What the blocks are asked in the front half of the fast pass, and in which
/// order: filter the reference, acknowledge, judge the window, screen the
/// current, accumulate, and start the loops over at an edge.
#[verifier::opaque]
pub open spec fn front_trace(
    trace: Trace<Call>,
    m: KernelState,
    frame: SensorFrame,
    t: ControlTable,
    acknowledged: bool,
    window_in: WindowIn,
    over: Option<bool>,
    reset_loops: bool,
    rep: Replies,
) -> Trace<Call> {
    let a = trace.push(Call::FilterVcal { raw: frame.vcal, out: rep.vcal_lpf });
    let b = if acknowledged {
        a.push(Call::Acknowledge)
    } else {
        a
    };
    let c = b.push(Call::Window { frame, q: window_in, out: rep.window });
    let d = c.push(
        Call::OverCurrent {
            over,
            trip_ticks: t.config.limits.oc_trip_ticks,
            out: rep.oc_tripped,
        },
    );
    let e = raising(d, rep.oc_tripped, Fault::OverCurrent);
    let f = e.push(Call::RailCounts { out: rep.vbus_stream });
    let g = f.push(
        Call::Aggregate {
            i: m.i_meas_last,
            vdiff: m.vdiff_last,
            duty_q15: m.duty_q15,
            out: rep.aggregate,
        },
    );
    let h = g.push(Call::FaultFlags { out: rep.flags_at_gate });
    if reset_loops {
        h.push(Call::ResetCurrent).push(Call::ResetVelocity)
    } else {
        h
    }
}

/// What the blocks are asked in the slow pass: seed the thermometer where its
/// anchor moved, step it, derate, and screen temperature and rail.
#[verifier::opaque]
pub open spec fn slow_trace(
    trace: Trace<Call>,
    r0_q12: u16,
    cfg: LimitCfg,
    r: SlowReport,
    q: SlowReplies,
) -> Trace<Call> {
    let a = if r.reseed_thermometer {
        trace.push(Call::SeedThermometer { r0_q12 })
    } else {
        trace
    };
    let b = a.push(Call::StepThermometer { q: r.therm, out: q.t_cc });
    let c = b.push(Call::Derate { t_cc: q.t_cc, cfg });
    let d = raising(c, r.over_temp, Fault::OverTemp);
    let e = d.push(Call::RailCounts { out: q.vbus });
    let f = e.push(Call::TakeRailFresh { out: q.vbus_fresh });
    raising(f, r.under_volt, Fault::UnderVolt)
}

/// What the blocks are asked for the current command: the limits fold, the stall
/// it may have found, the velocity loop as planned.
#[verifier::opaque]
pub open spec fn command_trace(
    trace: Trace<Call>,
    bemf_prev_cps: i32,
    i_lim_prev: u16,
    fold: FoldIn,
    band: IBand,
    stall_pending: bool,
    stall: bool,
    plan: CurrentPlan,
    i_ref: i32,
) -> Trace<Call> {
    let a = trace.push(Call::BemfCps { out: bemf_prev_cps }).push(
        Call::CurrentLimit { out: i_lim_prev },
    ).push(Call::FoldLimits { q: fold, out: band }).push(Call::StallPending { out: stall_pending });
    let b = raising(a, stall, Fault::Stall);
    match plan {
        CurrentPlan::Keep | CurrentPlan::Zero => b,
        CurrentPlan::Park => b.push(Call::ResetVelocity),
        CurrentPlan::Step(q) => b.push(Call::StepVelocity { q, out: i_ref }),
    }
}

/// What the blocks are asked in the medium pass: the current command, the rail
/// and back-emf estimates, the screens, the slow pass where it is due, and what
/// is published.
#[verifier::opaque]
pub open spec fn medium_trace(
    trace: Trace<Call>,
    pos_error_time_ticks: u32,
    frame: SensorFrame,
    t: ControlTable,
    w: Window,
    r: MediumReport,
    m: MediumReplies,
) -> Trace<Call> {
    let a = command_trace(
        trace,
        m.bemf_prev_cps,
        m.i_lim_prev,
        r.fold,
        m.band,
        m.stall_pending,
        r.stall,
        r.plan,
        m.i_ref,
    );
    let d = a.push(
        Call::StepRail { v: rail_of(w), floor: t.config.thermal.v_undervolt_counts },
    ).push(
        Call::StepBemf {
            q: BemfIn {
                v_mean: r.v_mean,
                i_meas: w.i_meas,
                r_q12: t.calib.motor.r_q12,
                recip_ke_q: t.calib.motor.recip_ke_q,
            },
            out: m.omega_bemf_cps,
        },
    ).push(
        Call::SensorBad {
            pos: frame.pos,
            delta_max: t.config.fault_cfg.sensor_delta_max,
            bad_count: t.config.fault_cfg.sensor_bad_count,
            out: m.sensor_bad,
        },
    );
    let e = raising(d, m.sensor_bad, Fault::Sensor);
    let f = e.push(
        Call::TrackingLost {
            over: r.tracking_over,
            ticks: pos_error_time_ticks,
            out: m.tracking_lost,
        },
    );
    let g = raising(f, m.tracking_lost, Fault::PositionError);
    let h = match (r.slow, m.slow) {
        (Some(sr), Some(q)) => slow_trace(g, t.calib.winding.r0_q12, r.fold.cfg, sr, q),
        _ => g,
    };
    h.push(Call::CurrentLimit { out: m.i_lim }).push(
        Call::WindingTemp { out: m.t_winding_cc },
    ).push(Call::RailCounts { out: m.vbus }).push(Call::WindingRes { out: m.r_hat_q12 }).push(
        Call::FaultCode { out: m.fault_code },
    ).push(Call::FaultFlags { out: m.fault_flags })
}

/// What the blocks are asked over a whole tick, with every answer the tick was
/// decided on.
pub open spec fn tick_trace(
    trace: Trace<Call>,
    s: KernelState,
    frame: SensorFrame,
    t: ControlTable,
    r: TickReport,
) -> Trace<Call> {
    let rep = r.replies;
    let a = front_trace(
        trace,
        heard(s, frame, t, rep.window),
        frame,
        t,
        r.acknowledged,
        r.window_in,
        r.over,
        r.gate.reset_loops,
        rep,
    );
    let b = match (r.medium, rep.medium) {
        (Some(mr), Some(m)) => medium_trace(
            a,
            s.pos_error_time_ticks,
            frame,
            t,
            rep.window,
            mr,
            m,
        ),
        _ => a,
    };
    let c = b.push(Call::FaultFlags { out: rep.flags_at_drive }).push(
        Call::RailCounts { out: rep.vbus_drive },
    ).push(Call::RailRecip { out: rep.recip_drive });
    match r.drive {
        DrivePlan::Write(_) => c,
        DrivePlan::ResetThenWrite(_) => c.push(Call::ResetCurrent),
        DrivePlan::Step(q) => c.push(Call::StepCurrent { q, out: rep.duty }),
    }
}

/// What a live stream is sent: the mask and the sample, where one is due.
pub open spec fn stream_trace(
    sent: Trace<StreamCall>,
    stream: Option<TelSample>,
    tel_mask: u16,
) -> Trace<StreamCall> {
    match stream {
        Some(sample) => sent.push(StreamCall::Configure { enabled: true, mask: tel_mask }).push(
            StreamCall::Sample { sample },
        ),
        None => sent,
    }
}

/// The medium pass reads the table's sections other than telemetry alone.
proof fn lemma_medium_reads(
    s: KernelState,
    run: bool,
    timing: KernelTiming,
    frame: SensorFrame,
    t1: ControlTable,
    t2: ControlTable,
    w: Window,
    m: MediumReplies,
)
    requires
        t1.config == t2.config,
        t1.calib == t2.calib,
        t1.control == t2.control,
    ensures
        mediumed(s, run, timing, frame, t1, w.i_meas, m) == mediumed(
            s,
            run,
            timing,
            frame,
            t2,
            w.i_meas,
            m,
        ),
        medium_report(s, run, timing, frame, t1, w, m) == medium_report(
            s,
            run,
            timing,
            frame,
            t2,
            w,
            m,
        ),
        forall|trace: Trace<Call>, ticks: u32, r: MediumReport|
            #[trigger] medium_trace(trace, ticks, frame, t1, w, r, m) == medium_trace(
                trace,
                ticks,
                frame,
                t2,
                w,
                r,
                m,
            ),
{
    reveal(mediumed);
    reveal(medium_report);
    reveal(medium_trace);
}

/// What the front half of the fast pass leaves behind.
#[derive(Copy, Clone, Debug, PartialEq, Eq, Structural)]
struct Front {
    acknowledged: bool,
    window_in: WindowIn,
    vcal_lpf: u16,
    window: Window,
    over: Option<bool>,
    oc_tripped: bool,
    vbus_stream: u16,
    stream: Option<TelSample>,
    aggregate: Option<TelemetryIdent>,
    flags_at_gate: u8,
    gate: Gate,
}

/// What the current command was decided on.
#[derive(Copy, Clone, Debug, PartialEq, Eq, Structural)]
struct Commanded {
    bemf_prev_cps: i32,
    i_lim_prev: u16,
    fold: FoldIn,
    band: IBand,
    stall_pending: bool,
    stall: bool,
    plan: CurrentPlan,
    i_ref: i32,
}

impl Front {
    /// The answers of the front half are those of the tick.
    spec fn answers(self, rep: Replies) -> bool {
        &&& rep.vcal_lpf == self.vcal_lpf
        &&& rep.window == self.window
        &&& rep.oc_tripped == self.oc_tripped
        &&& rep.vbus_stream == self.vbus_stream
        &&& rep.aggregate == self.aggregate
        &&& rep.flags_at_gate == self.flags_at_gate
    }
}

/// The kernel: its state, its timing, the bridge and the stream.
pub struct Kernel<I: ControlIo, T: TelStream> {
    pub io: I,
    pub tel: T,
    pub timing: KernelTiming,
    pub state: KernelState,
}

impl<I: ControlIo> Kernel<I, ()> {
    pub fn new(io: I, timing: KernelTiming) -> (r: Self)
        ensures
            r.io == io,
            r.timing == timing,
            r.state == KernelState::initial(),
            r.state.wf(),
    {
        Self::with_tel(io, (), timing)
    }
}

impl<I: ControlIo, T: TelStream> Kernel<I, T> {
    pub fn with_tel(io: I, tel: T, timing: KernelTiming) -> (r: Self)
        ensures
            r.io == io,
            r.tel == tel,
            r.timing == timing,
            r.state == KernelState::initial(),
            r.state.wf(),
    {
        Kernel { io, tel, timing, state: KernelState::new() }
    }

    /// One PWM period: sample, decide, write the bridge. The table's telemetry
    /// is the kernel's to write; every other section is only read.
    pub fn on_tick<B: Blocks>(&mut self, frame: SensorFrame, table: &mut ControlTable, blocks: &mut B) -> (r:
        TickReport)
        requires
            old(self).state.wf(),
            old(self).state.medium_due() ==> frame.pos <= POS_READING_MAX,
        ensures
            r == report(old(self).state, old(self).timing, frame, *old(table), r.replies),
            r.replies.medium is Some <==> old(self).state.medium_due(),
            r.replies.medium is Some ==> (r.replies.medium->0.slow is Some <==> old(
                self,
            ).state.slow_due()),
            final(self).state == ticked(
                old(self).state,
                old(self).timing,
                frame,
                *old(table),
                r.replies,
            ),
            final(self).state.wf(),
            final(self).timing == old(self).timing,
            final(self).io.written() == old(self).io.written().push(r.cmd),
            final(blocks).trace() == tick_trace(
                old(blocks).trace(),
                old(self).state,
                frame,
                *old(table),
                r,
            ),
            latch_over(old(blocks).latch(), r, final(blocks).latch()),
            old(blocks).latch() is Some ==> (r.cmd == MotorCmd::Disabled <==> !old(
                table,
            ).control.lifecycle.torque_enable || final(blocks).latch() != Some(0u8)),
            r.stream is None ==> final(self).tel == old(self).tel,
            final(self).tel.sent() == stream_trace(
                old(self).tel.sent(),
                r.stream,
                old(table).control.lifecycle.tel_mask,
            ),
            *final(table) == written_table(
                old(self).state,
                old(self).timing,
                frame,
                *old(table),
                r.replies,
            ),
    {
        let timing: KernelTiming = self.timing;
        let life: ControlLifecycle = table.control.lifecycle;
        let lim: ConfigLimits = table.config.limits;
        let f: Front = self.front(&frame, table, blocks);
        let medium_due: bool = self.state.count_fast();
        let mut medium: Option<MediumReplies> = None;
        let mut medium_rep: Option<MediumReport> = None;
        let ghost counted = self.state;
        let ghost mid = *table;
        if medium_due {
            let (m, mr): (MediumReplies, MediumReport) = self.medium(
                f.gate.run,
                &frame,
                table,
                &f.window,
                blocks,
            );
            proof {
                lemma_medium_reads(
                    counted,
                    f.gate.run,
                    timing,
                    frame,
                    mid,
                    *old(table),
                    f.window,
                    m,
                );
            }
            medium = Some(m);
            medium_rep = Some(mr);
        }
        let flags_at_drive: u8 = blocks.fault_flags();
        let vbus_drive: u16 = blocks.rail_counts();
        let recip_drive: u32 = blocks.rail_recip_q15();
        let run: bool = f.gate.run && flags_at_drive == 0;
        let drive: DrivePlan = self.state.plan_drive(
            run,
            &life,
            &table.config.loop_current,
            &lim,
            table.calib.motor.ke_vpc_q,
            f.window.i_meas,
            vbus_drive,
            table.config.thermal.v_undervolt_counts,
            recip_drive,
        );
        let mut duty: i16 = 0;
        let cmd: MotorCmd = match drive {
            DrivePlan::Write(c) => c,
            DrivePlan::ResetThenWrite(c) => {
                blocks.reset_current();
                c
            },
            DrivePlan::Step(cq) => {
                duty = blocks.step_current(&cq);
                MotorCmd::Drive { duty: Effort(duty), decay: DecayMode::Slow }
            },
        };
        self.state.note_drive(cmd);
        self.io.write(cmd);
        let replies = Replies {
            vcal_lpf: f.vcal_lpf,
            window: f.window,
            oc_tripped: f.oc_tripped,
            vbus_stream: f.vbus_stream,
            aggregate: f.aggregate,
            flags_at_gate: f.flags_at_gate,
            medium,
            flags_at_drive,
            vbus_drive,
            recip_drive,
            duty,
        };
        TickReport {
            acknowledged: f.acknowledged,
            window_in: f.window_in,
            over: f.over,
            stream: f.stream,
            gate: f.gate,
            medium: medium_rep,
            drive,
            cmd,
            replies,
        }
    }

    /// The front half of the fast pass: publish the frame, judge its window, run
    /// the enable gate.
    fn front<B: Blocks>(&mut self, frame: &SensorFrame, table: &mut ControlTable, blocks: &mut B) -> (r: Front)
        requires
            old(self).state.wf(),
        ensures
            r.acknowledged == old(self).state.acknowledges(
                old(table).control.lifecycle.torque_enable,
            ),
            r.window_in == window_query(old(self).state, old(self).timing, *old(table)),
            r.over == over_verdict(r.window.i_meas, old(table).config.limits.oc_trip_counts),
            r.stream == heard(old(self).state, *frame, *old(table), r.window).streamed(
                *frame,
                old(table).control.lifecycle.tel_enable,
                old(table).control.lifecycle.tel_mask,
                r.vbus_stream,
                r.window.i_meas is Some,
            ),
            r.gate.run == (old(table).control.lifecycle.torque_enable && r.flags_at_gate == 0),
            r.gate.reset_loops == (r.gate.run != old(self).state.run_prev),
            final(self).state == heard(old(self).state, *frame, *old(table), r.window).gated(
                r.gate.run,
                old(table).control.lifecycle.mode,
                frame.pos,
            ),
            final(self).state.wf(),
            final(self).timing == old(self).timing,
            final(self).io == old(self).io,
            forall|rep: Replies|
                r.answers(rep) ==> final(blocks).trace() == #[trigger] front_trace(
                    old(blocks).trace(),
                    heard(old(self).state, *frame, *old(table), r.window),
                    *frame,
                    *old(table),
                    r.acknowledged,
                    r.window_in,
                    r.over,
                    r.gate.reset_loops,
                    rep,
                ),
            held(
                if r.acknowledged {
                    cleared(old(blocks).latch())
                } else {
                    old(blocks).latch()
                },
                r.oc_tripped,
                final(blocks).latch(),
            ),
            final(blocks).latch() matches Some(mask) ==> r.flags_at_gate == mask,
            r.stream is None ==> final(self).tel == old(self).tel,
            final(self).tel.sent() == stream_trace(
                old(self).tel.sent(),
                r.stream,
                old(table).control.lifecycle.tel_mask,
            ),
            *final(table) == (ControlTable {
                telemetry: sensed(*frame, r.vcal_lpf, r.aggregate, old(table).telemetry),
                ..*old(table)
            }),
    {
        let timing: KernelTiming = self.timing;
        let life: ControlLifecycle = table.control.lifecycle;
        let lim: ConfigLimits = table.config.limits;
        let sense: CalibSense = table.calib.sense;
        let acknowledged: bool = self.state.begin(life.torque_enable, frame.pos);
        let vcal_lpf: u16 = blocks.filter_vcal(frame.vcal);
        table.telemetry.sensors.pos = frame.pos;
        table.telemetry.sensors.current = frame.current;
        table.telemetry.sensors.vcal = frame.vcal;
        table.telemetry.sensors.vcal_lpf = vcal_lpf;
        table.telemetry.sensors.vmotor_a = frame.vmotor_a;
        table.telemetry.sensors.vmotor_b = frame.vmotor_b;
        table.telemetry.sensors.current_trough = frame.current_trough;
        if acknowledged {
            blocks.acknowledge();
        }
        let q = WindowIn {
            duty_q15: self.state.duty_q15,
            decay: self.state.decay,
            pwm_arr: timing.pwm_arr,
            i_window_min_ticks: sense.i_window_min_ticks,
            v_window_min_ticks: sense.v_window_min_ticks,
            bias_counts: table.telemetry.sensors.current_bias_counts,
        };
        let window: Window = blocks.window(frame, &q);
        let vdiff: Option<i32> = match window.vdrive {
            Some(d) => Some(d.diff),
            None => None,
        };
        let over: Option<bool> = self.state.measure(window.i_meas, vdiff, lim.oc_trip_counts);
        let oc_tripped: bool = blocks.over_current(over, lim.oc_trip_ticks);
        if oc_tripped {
            blocks.raise(Fault::OverCurrent);
        }
        let vbus_stream: u16 = blocks.rail_counts();
        let stream: Option<TelSample> = self.state.stream(
            frame,
            life.tel_enable,
            life.tel_mask,
            vbus_stream,
            window.i_meas.is_some(),
        );
        if let Some(sample) = stream {
            self.tel.configure(true, life.tel_mask);
            self.tel.on_tick(&sample);
        }
        let aggregate: Option<TelemetryIdent> = blocks.aggregate(
            self.state.i_meas_last,
            self.state.vdiff_last,
            self.state.duty_q15,
        );
        if let Some(a) = aggregate {
            table.telemetry.ident = a;
        }
        let flags_at_gate: u8 = blocks.fault_flags();
        let gate: Gate = self.state.gate(
            life.torque_enable,
            flags_at_gate == 0,
            life.mode,
            frame.pos,
        );
        if gate.reset_loops {
            blocks.reset_current();
            blocks.reset_velocity();
        }
        proof {
            reveal(front_trace);
        }
        Front {
            acknowledged,
            window_in: q,
            vcal_lpf,
            window,
            over,
            oc_tripped,
            vbus_stream,
            stream,
            aggregate,
            flags_at_gate,
            gate,
        }
    }

    /// The medium pass, slow pass included where it is due.
    fn medium<B: Blocks>(
        &mut self,
        run: bool,
        frame: &SensorFrame,
        table: &mut ControlTable,
        window: &Window,
        blocks: &mut B,
    ) -> (r: (MediumReplies, MediumReport))
        requires
            old(self).state.wf(),
            frame.pos <= POS_READING_MAX,
        ensures
            r.1 == medium_report(
                old(self).state,
                run,
                old(self).timing,
                *frame,
                *old(table),
                *window,
                r.0,
            ),
            r.0.slow is Some <==> old(self).state.slow_due(),
            final(self).state == mediumed(
                old(self).state,
                run,
                old(self).timing,
                *frame,
                *old(table),
                window.i_meas,
                r.0,
            ),
            final(self).state.wf(),
            final(self).timing == old(self).timing,
            final(self).io == old(self).io,
            final(self).tel == old(self).tel,
            final(blocks).trace() == medium_trace(
                old(blocks).trace(),
                old(self).state.pos_error_time_ticks,
                *frame,
                *old(table),
                *window,
                r.1,
                r.0,
            ),
            held(old(blocks).latch(), r.1.raised(r.0), final(blocks).latch()),
            final(blocks).latch() matches Some(mask) ==> r.0.fault_flags == mask,
            *final(table) == (ControlTable {
                telemetry: TelemetryRegs {
                    estimates: TelemetryEstimates {
                        theta_hat_q16: final(self).state.fusion.theta_q16,
                        omega_hat_cps: final(self).state.fusion.omega_q16,
                        tau_d_counts: (final(self).state.fusion@.tau_d / 65_536) as i16,
                        i_lim_counts: r.0.i_lim,
                        t_winding_cc: r.0.t_winding_cc,
                        vbus_counts: r.0.vbus,
                        duty_applied_q15: old(self).state.duty_q15,
                        omega_bemf_cps: r.0.omega_bemf_cps,
                        r_hat_q12: r.0.r_hat_q12,
                        i_hat_counts: final(self).state.i_meas_last,
                    },
                    mode: TelemetryMode {
                        mode_active: old(table).control.lifecycle.mode.byte(),
                        fault_code: r.0.fault_code,
                    },
                    common: TelemetryCommon { fault_flags: r.0.fault_flags },
                    ..old(table).telemetry
                },
                ..*old(table)
            }),
    {
        let timing: KernelTiming = self.timing;
        let life: ControlLifecycle = table.control.lifecycle;
        let cfg: ConfigRegs = table.config;
        let motor: CalibMotor = table.calib.motor;
        let winding: CalibWinding = table.calib.winding;

        proof {
            reveal(mediumed);
            reveal(medium_report);
        }
        let c: Commanded = self.command(run, frame, table, window.i_meas, blocks);
        let (rail, vm): (Option<u16>, Option<i32>) = match window.vdrive {
            Some(d) => (Some(d.rail), Some(v_mean(window.ticks, d.diff, timing.recip_arr_q24))),
            None => (None, None),
        };
        blocks.step_rail(rail, cfg.thermal.v_undervolt_counts);
        let bemf_in = BemfIn {
            v_mean: vm,
            i_meas: window.i_meas,
            r_q12: motor.r_q12,
            recip_ke_q: motor.recip_ke_q,
        };
        let omega_bemf_cps: i16 = blocks.step_bemf(&bemf_in);
        let sensor_bad: bool = blocks.sensor_bad(
            frame.pos,
            cfg.fault_cfg.sensor_delta_max,
            cfg.fault_cfg.sensor_bad_count,
        );
        if sensor_bad {
            blocks.raise(Fault::Sensor);
        }
        let tracking_over: bool = self.state.tracking_error(
            run,
            life.mode,
            cfg.fault_cfg.pos_error_counts,
        );
        let tracking_lost: bool = blocks.tracking_lost(
            tracking_over,
            self.state.pos_error_time_ticks,
        );
        if tracking_lost {
            blocks.raise(Fault::PositionError);
        }
        let therm: ThermIn = self.state.therm_in(vm, window.i_meas, &cfg.thermal, &winding);
        let (slow, slow_rep): (Option<SlowReplies>, Option<SlowReport>) = if self.state.count_medium() {
            let (q, r): (SlowReplies, SlowReport) = self.slow(
                &cfg,
                &winding,
                therm,
                &c.fold.cfg,
                blocks,
            );
            (Some(q), Some(r))
        } else {
            (None, None)
        };
        let m = MediumReplies {
            bemf_prev_cps: c.bemf_prev_cps,
            i_lim_prev: c.i_lim_prev,
            band: c.band,
            stall_pending: c.stall_pending,
            i_ref: c.i_ref,
            omega_bemf_cps,
            sensor_bad,
            tracking_lost,
            slow,
            i_lim: blocks.current_limit(),
            t_winding_cc: blocks.winding_t_cc(),
            vbus: blocks.rail_counts(),
            r_hat_q12: blocks.winding_r_q12(),
            fault_code: blocks.fault_code(),
            fault_flags: blocks.fault_flags(),
        };
        table.telemetry.estimates =
        TelemetryEstimates {
            theta_hat_q16: self.state.fusion.theta_q16(),
            omega_hat_cps: self.state.fusion.omega_q16(),
            tau_d_counts: self.state.fusion.tau_d_counts(),
            i_lim_counts: m.i_lim,
            t_winding_cc: m.t_winding_cc,
            vbus_counts: m.vbus,
            duty_applied_q15: self.state.duty_q15,
            omega_bemf_cps,
            r_hat_q12: m.r_hat_q12,
            i_hat_counts: self.state.i_meas_last,
        };
        table.telemetry.mode =
        TelemetryMode { mode_active: life.mode.as_byte(), fault_code: m.fault_code };
        table.telemetry.common.fault_flags = m.fault_flags;
        proof {
            reveal(medium_trace);
        }
        (
            m,
            MediumReport {
                fold: c.fold,
                stall: c.stall,
                plan: c.plan,
                v_mean: vm,
                tracking_over,
                slow: slow_rep,
            },
        )
    }

    /// The current command of the medium pass: observer, profile, limits, and the
    /// velocity loop where it is due.
    fn command<B: Blocks>(
        &mut self,
        run: bool,
        frame: &SensorFrame,
        table: &ControlTable,
        i_meas: Option<i32>,
        blocks: &mut B,
    ) -> (r: Commanded)
        requires
            old(self).state.wf(),
            frame.pos <= POS_READING_MAX,
        ensures
            ({
                let b = limited(
                    old(self).state,
                    run,
                    old(self).timing,
                    *frame,
                    *table,
                    i_meas,
                    r.bemf_prev_cps,
                    r.band,
                );
                &&& r.fold == b.folding(
                    r.i_lim_prev,
                    table.config.limits,
                    table.config.thermal,
                    table.config.pos_limits,
                )
                &&& r.plan == b.current_planned(
                    run,
                    table.control.lifecycle.mode,
                    table.config.loop_velocity,
                    table.calib.motor,
                )
                &&& final(self).state == referenced(b, r.plan, r.i_ref)
            }),
            r.stall == (run && r.stall_pending),
            final(self).state.wf(),
            final(self).timing == old(self).timing,
            final(self).io == old(self).io,
            final(self).tel == old(self).tel,
            final(blocks).trace() == command_trace(
                old(blocks).trace(),
                r.bemf_prev_cps,
                r.i_lim_prev,
                r.fold,
                r.band,
                r.stall_pending,
                r.stall,
                r.plan,
                r.i_ref,
            ),
            held(old(blocks).latch(), r.stall, final(blocks).latch()),
    {
        let bemf_prev_cps: i32 = blocks.bemf_cps();
        self.state.estimate(
            i_meas,
            frame.pos,
            bemf_prev_cps,
            self.timing.dt_med_q32,
            &table.calib.motor,
            &table.config.fusion,
        );
        self.state.profile(run, &table.control.lifecycle, &table.config.loop_position, &table.config.pos_limits, self.timing.dt_med_q32);
        let i_lim_prev: u16 = blocks.current_limit();
        let fold: FoldIn = self.state.fold_in(
            i_lim_prev,
            &table.config.limits,
            &table.config.thermal,
            &table.config.pos_limits,
        );
        let band: IBand = blocks.fold_limits(&fold);
        self.state.i_band = band;
        let stall_pending: bool = blocks.stall_pending();
        let stall: bool = run && stall_pending;
        if stall {
            blocks.raise(Fault::Stall);
        }
        let plan: CurrentPlan = self.state.plan_current(run, table.control.lifecycle.mode, &table.config.loop_velocity, &table.calib.motor);
        let mut i_ref: i32 = 0;
        match plan {
            CurrentPlan::Keep => {},
            CurrentPlan::Zero => {
                self.state.i_ref_cc = 0;
            },
            CurrentPlan::Park => {
                self.state.i_ref_cc = 0;
                blocks.reset_velocity();
            },
            CurrentPlan::Step(q) => {
                i_ref = blocks.step_velocity(&q);
                self.state.i_ref_cc = i_ref;
            },
        }
        proof {
            reveal(command_trace);
        }
        Commanded { bemf_prev_cps, i_lim_prev, fold, band, stall_pending, stall, plan, i_ref }
    }

    /// The slow pass: detector windows, thermometer, derate, rail.
    fn slow<B: Blocks>(
        &mut self,
        cfg: &ConfigRegs,
        winding: &CalibWinding,
        therm: ThermIn,
        limit_cfg: &LimitCfg,
        blocks: &mut B,
    ) -> (r: (SlowReplies, SlowReport))
        requires
            old(self).state.wf(),
        ensures
            r.1 == (SlowReport {
                therm,
                reseed_thermometer: winding.r0_q12 != old(self).state.therm_r0,
                over_temp: r.0.t_cc >= cfg.thermal.cutoff_cc,
                under_volt: r.0.vbus_fresh && r.0.vbus < cfg.thermal.v_undervolt_counts,
            }),
            final(self).state == old(self).state.retimed(
                cfg.limits.stall_time_ms,
                cfg.fault_cfg.pos_error_time_ms,
                old(self).timing.med_ticks_per_ms_q16,
                winding.r0_q12,
            ),
            final(self).state.wf(),
            final(self).timing == old(self).timing,
            final(self).io == old(self).io,
            final(self).tel == old(self).tel,
            final(blocks).trace() == slow_trace(
                old(blocks).trace(),
                winding.r0_q12,
                *limit_cfg,
                r.1,
                r.0,
            ),
            held(old(blocks).latch(), r.1.over_temp || r.1.under_volt, final(blocks).latch()),
    {
        let reseed: bool = self.state.retime(
            cfg.limits.stall_time_ms,
            cfg.fault_cfg.pos_error_time_ms,
            self.timing.med_ticks_per_ms_q16,
            winding.r0_q12,
        );
        if reseed {
            blocks.seed_thermometer(winding.r0_q12);
        }
        let t_cc: i16 = blocks.step_thermometer(&therm);
        blocks.derate(t_cc, limit_cfg);
        let over_temp: bool = t_cc >= cfg.thermal.cutoff_cc;
        if over_temp {
            blocks.raise(Fault::OverTemp);
        }
        let vb: u16 = blocks.rail_counts();
        let fresh: bool = blocks.take_rail_fresh();
        let under_volt: bool = fresh && vb < cfg.thermal.v_undervolt_counts;
        if under_volt {
            blocks.raise(Fault::UnderVolt);
        }
        proof {
            reveal(slow_trace);
        }
        (
            SlowReplies { t_cc, vbus: vb, vbus_fresh: fresh },
            SlowReport { therm, reseed_thermometer: reseed, over_temp, under_volt },
        )
    }
}

} // verus!
