//! The kernel's own state and the decisions it takes within a tick. Each method
//! is one stage of the tick: it takes what the signal blocks measured as plain
//! values and says what they are asked next.

use super::io::{DecayMode, Effort, MotorCmd, SensorFrame, TelSample};
use super::position::{step, PosOut, PositionCfg};
use super::trajectory::{guarded, position_tick, velocity_tick, Profile, TrajCfg, TrajGen};
use crate::estimator::fusion::{fused, law_accepts_pot_range, Fused, FusionGains, FusionObs};
use crate::math::{
    abs, bound, clamp32, clamp_i16, count_q16, greatest, least, lemma_q_scales, magnitude, min_u16,
    q_mul, q_mul_u, q_product, reinterpret, sat16, sat32, sat_sub, wrap32, wrap_mul,
};
use crate::regions::calib::{CalibMotor, CalibWinding};
use crate::regions::config::{
    ConfigFusion, ConfigLimits, ConfigLoopCurrent, ConfigLoopPosition, ConfigLoopVelocity,
    ConfigPosLimits, ConfigThermal, DecaySelect, StallResponse,
};
use crate::regions::control::{ControlLifecycle, Mode};
use vstd::prelude::*;

verus! {

/// FAST to MEDIUM decimation.
pub const DECIM_MED: u8 = 10;

/// MEDIUM to SLOW decimation.
pub const DECIM_SLOW: u8 = 32;

/// Shift of the duty-fraction reciprocal.
pub const RECIP_ARR_SHIFT: u32 = 24;

/// Widest pot reading whose innovation is exact whatever the observer holds.
pub const POS_READING_MAX: u16 = 24_575;

/// Allowed current, directional: an endstop closes one side only.
#[derive(Copy, Clone, Debug, PartialEq, Eq, Structural)]
pub struct IBand {
    pub lo: i32,
    pub hi: i32,
}

impl IBand {
    pub open spec fn limit(self, i: int) -> int {
        bound(i, self.lo as int, self.hi as int)
    }

    pub fn clamp(&self, i: i32) -> (r: i32)
        ensures
            r == self.limit(i as int),
    {
        if i < self.lo {
            self.lo
        } else if i > self.hi {
            self.hi
        } else {
            i
        }
    }
}

/// What the limits fold reads beside the estimates.
#[derive(Copy, Clone, Debug, PartialEq, Eq, Structural)]
pub struct LimitCfg {
    pub current_limit_counts: u16,
    pub stall_response: StallResponse,
    pub drive_polarity: bool,
    pub stall_omega_max_cps: u16,
    pub stall_time_ticks: u32,
    pub stall_yield_counts: u16,
    pub stall_release_counts: u16,
    pub stall_tau_trip_counts: u16,
    pub derate_start_cc: i16,
    pub cutoff_cc: i16,
    pub pos_min_soft_counts: i32,
    pub pos_max_soft_counts: i32,
}

/// One limits fold.
#[derive(Copy, Clone, Debug, PartialEq, Eq, Structural)]
pub struct FoldIn {
    /// The last command sat at a nonzero ceiling.
    pub pinned: bool,
    pub omega_abs_cps: u32,
    pub tau_d_abs_counts: u16,
    pub pos_counts: i32,
    pub cfg: LimitCfg,
}

/// One velocity-loop step.
#[derive(Copy, Clone, Debug, PartialEq, Eq, Structural)]
pub struct VelIn {
    pub omega_ref_q16: i32,
    pub omega_hat_q16: i32,
    pub alpha_star_q16: i32,
    pub omega_star_q16: i32,
    pub band: IBand,
    pub gains: ConfigLoopVelocity,
    pub fric_fc_counts: u16,
    pub fric_fv_q016: u16,
}

/// One current-loop step.
#[derive(Copy, Clone, Debug, PartialEq, Eq, Structural)]
pub struct CurIn {
    pub i_ref_cc: i32,
    /// The measurement, or zero below the sampling floor.
    pub i_loop: i32,
    pub omega_q16: i32,
    /// Rail estimate, floored at the undervolt threshold.
    pub vbus_eff: u16,
    /// The reciprocal that belongs to it, Q15.
    pub recip_q15: u32,
    pub gains: ConfigLoopCurrent,
    pub ke_q412: u16,
}

/// One thermometer step.
#[derive(Copy, Clone, Debug, PartialEq, Eq, Structural)]
pub struct ThermIn {
    pub v_mean: i32,
    /// Absent unless both window paths were valid.
    pub i_meas: Option<i32>,
    pub omega_abs_cps: u32,
    pub i_min_counts: u16,
    pub omega_max_cps: u16,
    pub anchor: CalibWinding,
}

/// What the medium rate does with the current command.
#[derive(Copy, Clone, Debug, PartialEq, Eq, Structural)]
pub enum CurrentPlan {
    /// Leave it: torque off, or the fast rate sets it.
    Keep,
    /// No command.
    Zero,
    /// No command, and drain the velocity loop.
    Park,
    /// Step the velocity loop for it.
    Step(VelIn),
}

/// What the fast rate does with the bridge.
#[derive(Copy, Clone, Debug, PartialEq, Eq, Structural)]
pub enum DrivePlan {
    /// This command, as it stands.
    Write(MotorCmd),
    /// Drain the current loop, then this command.
    ResetThenWrite(MotorCmd),
    /// Step the current loop for the duty.
    Step(CurIn),
}

/// What the run gate did this tick.
#[derive(Copy, Clone, Debug, PartialEq, Eq, Structural)]
pub struct Gate {
    pub run: bool,
    /// An edge of the enable gate: both loops start over.
    pub reset_loops: bool,
}

/// Everything the kernel itself remembers between ticks.
#[derive(Copy, Clone, Debug, PartialEq, Eq, Structural)]
pub struct KernelState {
    pub decim_med: u8,
    pub decim_slow: u8,
    pub traj: TrajGen,
    pub fusion: FusionObs,
    pub i_band: IBand,
    pub booted: bool,
    pub te_prev: bool,
    pub run_prev: bool,
    pub mode_prev: Mode,
    /// The medium rate's current command, consumed by the fast current loop.
    pub i_ref_cc: i32,
    /// Position loop output, held for the velocity step.
    pub omega_ref_q16: i32,
    /// Anti-hunt hold from the position loop.
    pub hold: bool,
    /// The duty commanded this tick, after clamp and gate: 0 while coasting or
    /// disabled. Selects the next tick's window.
    pub duty_q15: i16,
    pub decay: DecayMode,
    /// Last window-valid current.
    pub i_meas_last: i16,
    /// Last valid drive-window differential, saturated.
    pub vdiff_last: i16,
    /// Detector windows in medium ticks, recomputed each slow pass.
    pub stall_time_ticks: u32,
    pub pos_error_time_ticks: u32,
    /// Last anchor seeded into the thermometer.
    pub therm_r0: u16,
}

/// The observer holding these states.
pub open spec fn observer(f: Fused) -> FusionObs {
    FusionObs { theta_q16: f.theta as i32, omega_q16: f.omega as i32, tau_d_q16: f.tau_d as i32 }
}

/// The generator holding these references.
pub open spec fn generator(p: Profile) -> TrajGen {
    TrajGen {
        theta_ref_q16: p.theta as i32,
        omega_ref_q16: p.omega as i32,
        alpha_last_q16: p.alpha as i32,
    }
}

/// The observer at a reading, at rest.
pub open spec fn observer_at(pos: u16) -> FusionObs {
    observer(Fused { theta: count_q16(pos), omega: 0, tau_d: 0 })
}

/// The generator at an estimate, at rest.
pub open spec fn generator_at(theta_hat: int) -> TrajGen {
    generator(Profile { theta: guarded(theta_hat), omega: 0, alpha: 0 })
}

/// Observer gains out of the motor calibration and the config.
pub open spec fn fusion_gains(motor: CalibMotor, fus: ConfigFusion) -> FusionGains {
    FusionGains {
        b_i_q313: motor.b_i_q313,
        l1_q016: fus.l1_q016,
        l2_q88: fus.l2_q88,
        l3_q88: fus.l3_q88,
        l_bemf_q016: fus.l_bemf_q016,
        fric_fc_counts: motor.fric_fc_counts,
    }
}

/// Profile limits out of the config.
pub open spec fn traj_cfg(lp: ConfigLoopPosition, pl: ConfigPosLimits, dt_med_q32: u32) -> TrajCfg {
    TrajCfg {
        vel_limit_cps: lp.velocity_limit_cps,
        accel_limit_q88: lp.accel_limit_q88,
        pos_min_soft_counts: pl.pos_min_soft_counts,
        pos_max_soft_counts: pl.pos_max_soft_counts,
        dt_med_q32,
    }
}

pub open spec fn position_cfg(lp: ConfigLoopPosition) -> PositionCfg {
    PositionCfg {
        kp_q88: lp.p_kp_q88,
        pos_deadband_counts: lp.pos_deadband_counts,
        vel_limit_cps: lp.velocity_limit_cps,
    }
}

pub open spec fn limit_cfg(
    lim: ConfigLimits,
    therm: ConfigThermal,
    pl: ConfigPosLimits,
    stall_time_ticks: u32,
) -> LimitCfg {
    LimitCfg {
        current_limit_counts: lim.current_limit_counts,
        stall_response: lim.stall_response,
        drive_polarity: lim.drive_polarity,
        stall_omega_max_cps: lim.stall_omega_max_cps,
        stall_time_ticks,
        stall_yield_counts: lim.stall_yield_counts,
        stall_release_counts: lim.stall_release_counts,
        stall_tau_trip_counts: lim.stall_tau_trip_counts,
        derate_start_cc: therm.derate_start_cc,
        cutoff_cc: therm.cutoff_cc,
        pos_min_soft_counts: pl.pos_min_soft_counts,
        pos_max_soft_counts: pl.pos_max_soft_counts,
    }
}

/// Milliseconds in medium ticks.
pub open spec fn ms_to_ticks(ms: u16, med_ticks_per_ms_q16: u32) -> u32 {
    ((ms * med_ticks_per_ms_q16) / 65_536) as u32
}

impl KernelState {
    /// The counters in range, the references inside their guards.
    pub open spec fn wf(self) -> bool {
        &&& self.decim_med < DECIM_MED
        &&& self.decim_slow < DECIM_SLOW
        &&& self.traj@.in_bounds()
    }

    /// Primed so that the first tick runs the whole medium and slow chain, with
    /// the detector windows at never until that pass computes them.
    pub open spec fn initial() -> KernelState {
        KernelState {
            decim_med: 9,
            decim_slow: 31,
            traj: generator(Profile { theta: 0, omega: 0, alpha: 0 }),
            fusion: observer(Fused { theta: 0, omega: 0, tau_d: 0 }),
            i_band: IBand { lo: 0, hi: 0 },
            booted: false,
            te_prev: false,
            run_prev: false,
            mode_prev: Mode::OpenLoop,
            i_ref_cc: 0,
            omega_ref_q16: 0,
            hold: false,
            duty_q15: 0,
            decay: DecayMode::Slow,
            i_meas_last: 0,
            vdiff_last: 0,
            stall_time_ticks: u32::MAX,
            pos_error_time_ticks: u32::MAX,
            therm_r0: 0,
        }
    }

    pub fn new() -> (r: Self)
        ensures
            r == KernelState::initial(),
            r.wf(),
    {
        KernelState {
            decim_med: DECIM_MED - 1,
            decim_slow: DECIM_SLOW - 1,
            traj: TrajGen::new(),
            fusion: FusionObs::new(),
            i_band: IBand { lo: 0, hi: 0 },
            booted: false,
            te_prev: false,
            run_prev: false,
            mode_prev: Mode::OpenLoop,
            i_ref_cc: 0,
            omega_ref_q16: 0,
            hold: false,
            duty_q15: 0,
            decay: DecayMode::Slow,
            i_meas_last: 0,
            vdiff_last: 0,
            stall_time_ticks: u32::MAX,
            pos_error_time_ticks: u32::MAX,
            therm_r0: 0,
        }
    }

    /// A rising torque enable acknowledges the faults.
    pub open spec fn acknowledges(self, torque_enable: bool) -> bool {
        torque_enable && !self.te_prev
    }

    /// The first tick seeds the observer at the measurement.
    pub open spec fn begun(self, torque_enable: bool, pos: u16) -> KernelState {
        KernelState {
            booted: true,
            fusion: if self.booted {
                self.fusion
            } else {
                observer_at(pos)
            },
            te_prev: torque_enable,
            ..self
        }
    }

    /// Open the tick: boot seed and the fault-acknowledge edge.
    pub fn begin(&mut self, torque_enable: bool, pos: u16) -> (ack: bool)
        requires
            old(self).wf(),
        ensures
            ack == old(self).acknowledges(torque_enable),
            *final(self) == old(self).begun(torque_enable, pos),
            final(self).wf(),
    {
        if !self.booted {
            self.booted = true;
            self.fusion.seed(pos);
        }
        let ack: bool = torque_enable && !self.te_prev;
        self.te_prev = torque_enable;
        ack
    }

    /// The last valid measurements, saturated, kept through invalid windows.
    pub open spec fn measured(self, i_meas: Option<i32>, vdiff: Option<i32>) -> KernelState {
        KernelState {
            i_meas_last: match i_meas {
                Some(i) => sat16(i as int) as i16,
                None => self.i_meas_last,
            },
            vdiff_last: match vdiff {
                Some(v) => sat16(v as int) as i16,
                None => self.vdiff_last,
            },
            ..self
        }
    }

    /// Take the window's measurements; the result is the overcurrent reading
    /// on a valid one.
    pub fn measure(&mut self, i_meas: Option<i32>, vdiff: Option<i32>, oc_trip_counts: u16) -> (over: Option<
        bool,
    >)
        requires
            old(self).wf(),
        ensures
            *final(self) == old(self).measured(i_meas, vdiff),
            final(self).wf(),
            over == match i_meas {
                Some(i) => Some(abs(i as int) > oc_trip_counts),
                None => None,
            },
    {
        if let Some(v) = vdiff {
            self.vdiff_last = clamp_i16(v);
        }
        match i_meas {
            Some(i) => {
                self.i_meas_last = clamp_i16(i);
                Some(magnitude(i) > oc_trip_counts as u32)
            },
            None => None,
        }
    }

    /// The stream sample of this tick, when the stream runs.
    pub open spec fn streamed(
        self,
        frame: SensorFrame,
        tel_enable: bool,
        tel_mask: u16,
        vbus: u16,
        window_valid: bool,
    ) -> Option<TelSample> {
        if tel_enable && tel_mask != 0 {
            Some(
                TelSample {
                    pos: frame.pos,
                    current: self.i_meas_last,
                    current_trough: frame.current_trough,
                    duty_q15: self.duty_q15,
                    vdiff: self.vdiff_last,
                    vbus,
                    window_valid,
                },
            )
        } else {
            None
        }
    }

    pub fn stream(
        &self,
        frame: &SensorFrame,
        tel_enable: bool,
        tel_mask: u16,
        vbus: u16,
        window_valid: bool,
    ) -> (r: Option<TelSample>)
        ensures
            r == self.streamed(*frame, tel_enable, tel_mask, vbus, window_valid),
    {
        if tel_enable && tel_mask != 0 {
            Some(
                TelSample {
                    pos: frame.pos,
                    current: self.i_meas_last,
                    current_trough: frame.current_trough,
                    duty_q15: self.duty_q15,
                    vdiff: self.vdiff_last,
                    vbus,
                    window_valid,
                },
            )
        } else {
            None
        }
    }

    /// Both edges of the enable gate zero the command chain. The enable edge also
    /// reseeds the observer at the measurement, so a disturbance built up while
    /// a hand moved the shaft never reaches the detectors, and the profile at
    /// that estimate. A mode change while running restarts the profile at the
    /// estimate, at rest.
    pub open spec fn gated(self, run: bool, mode: Mode, pos: u16) -> KernelState {
        let edge = run != self.run_prev;
        let enable = run && edge;
        let fusion = if enable {
            observer_at(pos)
        } else {
            self.fusion
        };
        let changed = run && mode != self.mode_prev;
        KernelState {
            fusion,
            traj: if enable || changed {
                generator_at(fusion.theta_q16 as int)
            } else {
                self.traj
            },
            i_ref_cc: if edge {
                0
            } else {
                self.i_ref_cc
            },
            omega_ref_q16: if edge {
                0
            } else {
                self.omega_ref_q16
            },
            hold: self.hold && !edge && !changed,
            run_prev: run,
            mode_prev: mode,
            ..self
        }
    }

    pub fn gate(&mut self, torque_enable: bool, faults_clear: bool, mode: Mode, pos: u16) -> (r: Gate)
        requires
            old(self).wf(),
        ensures
            r.run == (torque_enable && faults_clear),
            r.reset_loops == (r.run != old(self).run_prev),
            *final(self) == old(self).gated(torque_enable && faults_clear, mode, pos),
            final(self).wf(),
    {
        let run: bool = torque_enable && faults_clear;
        let edge: bool = run != self.run_prev;
        if edge {
            if run {
                self.fusion.seed(pos);
                self.traj.reseed(self.fusion.theta_q16());
            }
            self.i_ref_cc = 0;
            self.omega_ref_q16 = 0;
            self.hold = false;
            self.run_prev = run;
        }
        if run && mode != self.mode_prev {
            self.traj.reseed(self.fusion.theta_q16());
            self.hold = false;
        }
        self.mode_prev = mode;
        Gate { run, reset_loops: edge }
    }

    pub open spec fn medium_due(self) -> bool {
        self.decim_med == 9
    }

    pub open spec fn counted(self) -> KernelState {
        KernelState {
            decim_med: if self.medium_due() {
                0
            } else {
                (self.decim_med + 1) as u8
            },
            ..self
        }
    }

    /// Count one fast tick; every tenth runs the medium chain.
    pub fn count_fast(&mut self) -> (due: bool)
        requires
            old(self).wf(),
        ensures
            due == old(self).medium_due(),
            *final(self) == old(self).counted(),
            final(self).wf(),
    {
        self.decim_med = self.decim_med + 1;
        if self.decim_med >= DECIM_MED {
            self.decim_med = 0;
            true
        } else {
            false
        }
    }

    /// The observer stepped on the current to believe: the measurement when
    /// the window was valid, else the standing command.
    pub open spec fn estimated(
        self,
        i_meas: Option<i32>,
        pos: u16,
        bemf_cps: i32,
        dt_med_q32: u32,
        motor: CalibMotor,
        fus: ConfigFusion,
    ) -> KernelState {
        let i_use = match i_meas {
            Some(i) => i,
            None => self.i_ref_cc,
        };
        let w = (bound(bemf_cps as int, -32_767, 32_767) * 65_536) as i32;
        KernelState {
            fusion: observer(
                fused(
                    self.fusion@,
                    i_use as int,
                    pos,
                    Some(w),
                    wrap32(dt_med_q32 as int),
                    fusion_gains(motor, fus),
                ),
            ),
            ..self
        }
    }

    pub fn estimate(
        &mut self,
        i_meas: Option<i32>,
        pos: u16,
        bemf_cps: i32,
        dt_med_q32: u32,
        motor: &CalibMotor,
        fus: &ConfigFusion,
    )
        requires
            old(self).wf(),
            pos <= POS_READING_MAX,
        ensures
            *final(self) == old(self).estimated(i_meas, pos, bemf_cps, dt_med_q32, *motor, *fus),
            final(self).wf(),
            final(self).fusion.in_bounds(),
    {
        let i_use: i32 = match i_meas {
            Some(i) => i,
            None => self.i_ref_cc,
        };
        let gains = FusionGains {
            b_i_q313: motor.b_i_q313,
            l1_q016: fus.l1_q016,
            l2_q88: fus.l2_q88,
            l3_q88: fus.l3_q88,
            l_bemf_q016: fus.l_bemf_q016,
            fric_fc_counts: motor.fric_fc_counts,
        };
        let w: i32 = clamp32(bemf_cps, -32_767, 32_767) * 65_536;
        proof {
            law_accepts_pot_range(self.fusion, i_use, pos, dt_med_q32, gains);
        }
        self.fusion.step(i_use, pos, Some(w), dt_med_q32, &gains);
    }

    /// The references advanced by one medium tick: position mode steps the
    /// profile and the position loop, velocity mode the profile alone, and the
    /// other modes only drop the hold.
    pub open spec fn profiled(
        self,
        run: bool,
        life: ControlLifecycle,
        lp: ConfigLoopPosition,
        pl: ConfigPosLimits,
        dt_med_q32: u32,
    ) -> KernelState {
        let tc = traj_cfg(lp, pl, dt_med_q32);
        if !run {
            self
        } else {
            match life.mode {
                Mode::Position => {
                    let p = position_tick(self.traj@, life.goal_position as int, tc);
                    let pc = position_cfg(lp);
                    KernelState {
                        traj: generator(p),
                        omega_ref_q16: pc.command(p.theta - self.fusion.theta_q16, p.omega) as i32,
                        hold: pc.holds(sat32(p.theta - self.fusion.theta_q16), p.omega),
                        ..self
                    }
                },
                Mode::Velocity => {
                    let p = velocity_tick(
                        self.traj@,
                        life.goal_velocity as int,
                        self.fusion.theta_q16 as int,
                        tc,
                    );
                    KernelState {
                        traj: generator(p),
                        omega_ref_q16: p.omega as i32,
                        hold: false,
                        ..self
                    }
                },
                Mode::Current | Mode::OpenLoop => KernelState { hold: false, ..self },
            }
        }
    }

    pub fn profile(
        &mut self,
        run: bool,
        life: &ControlLifecycle,
        lp: &ConfigLoopPosition,
        pl: &ConfigPosLimits,
        dt_med_q32: u32,
    )
        requires
            old(self).wf(),
        ensures
            *final(self) == old(self).profiled(run, *life, *lp, *pl, dt_med_q32),
            final(self).wf(),
    {
        if !run {
            return ;
        }
        let tc = TrajCfg {
            vel_limit_cps: lp.velocity_limit_cps,
            accel_limit_q88: lp.accel_limit_q88,
            pos_min_soft_counts: pl.pos_min_soft_counts,
            pos_max_soft_counts: pl.pos_max_soft_counts,
            dt_med_q32,
        };
        let theta_hat: i32 = self.fusion.theta_q16();
        match life.mode {
            Mode::Position => {
                self.traj.step_position(life.goal_position, &tc);
                let pc = PositionCfg {
                    kp_q88: lp.p_kp_q88,
                    pos_deadband_counts: lp.pos_deadband_counts,
                    vel_limit_cps: lp.velocity_limit_cps,
                };
                let out: PosOut = step(
                    self.traj.theta_star_q16(),
                    self.traj.omega_star_q16(),
                    theta_hat,
                    &pc,
                );
                self.omega_ref_q16 = out.omega_ref_q16;
                self.hold = out.hold;
            },
            Mode::Velocity => {
                self.traj.step_velocity(life.goal_velocity, theta_hat, &tc);
                self.omega_ref_q16 = self.traj.omega_star_q16();
                self.hold = false;
            },
            Mode::Current | Mode::OpenLoop => {
                self.hold = false;
            },
        }
    }

    /// What the limits fold is asked this medium tick.
    pub open spec fn folding(
        self,
        i_lim_prev: u16,
        lim: ConfigLimits,
        therm: ConfigThermal,
        pl: ConfigPosLimits,
    ) -> FoldIn {
        FoldIn {
            pinned: i_lim_prev != 0 && abs(self.i_ref_cc as int) >= i_lim_prev,
            omega_abs_cps: (abs(self.fusion.omega_q16 as int) / 65_536) as u32,
            tau_d_abs_counts: abs(self.fusion@.tau_d / 65_536) as u16,
            pos_counts: (self.fusion@.theta / 65_536) as i32,
            cfg: limit_cfg(lim, therm, pl, self.stall_time_ticks),
        }
    }

    pub fn fold_in(
        &self,
        i_lim_prev: u16,
        lim: &ConfigLimits,
        therm: &ConfigThermal,
        pl: &ConfigPosLimits,
    ) -> (r: FoldIn)
        ensures
            r == self.folding(i_lim_prev, *lim, *therm, *pl),
    {
        let tau: i16 = self.fusion.tau_d_counts();
        FoldIn {
            pinned: i_lim_prev != 0 && magnitude(self.i_ref_cc) >= i_lim_prev as u32,
            omega_abs_cps: magnitude(self.fusion.omega_q16()) / 65_536,
            tau_d_abs_counts: magnitude(tau as i32) as u16,
            pos_counts: crate::math::whole_q16(self.fusion.theta_q16()),
            cfg: LimitCfg {
                current_limit_counts: lim.current_limit_counts,
                stall_response: lim.stall_response,
                drive_polarity: lim.drive_polarity,
                stall_omega_max_cps: lim.stall_omega_max_cps,
                stall_time_ticks: self.stall_time_ticks,
                stall_yield_counts: lim.stall_yield_counts,
                stall_release_counts: lim.stall_release_counts,
                stall_tau_trip_counts: lim.stall_tau_trip_counts,
                derate_start_cc: therm.derate_start_cc,
                cutoff_cc: therm.cutoff_cc,
                pos_min_soft_counts: pl.pos_min_soft_counts,
                pos_max_soft_counts: pl.pos_max_soft_counts,
            },
        }
    }

    /// What becomes of the current command at the medium rate. A parked shaft
    /// coasts, so the velocity loop stops with it: left running it would
    /// integrate pot noise into the current limit.
    pub open spec fn current_planned(
        self,
        run: bool,
        mode: Mode,
        lv: ConfigLoopVelocity,
        motor: CalibMotor,
    ) -> CurrentPlan {
        if !run {
            CurrentPlan::Keep
        } else {
            match mode {
                Mode::Position if self.hold => CurrentPlan::Park,
                Mode::Velocity | Mode::Position => CurrentPlan::Step(
                    VelIn {
                        omega_ref_q16: self.omega_ref_q16,
                        omega_hat_q16: self.fusion.omega_q16,
                        alpha_star_q16: self.traj.alpha_last_q16,
                        omega_star_q16: self.traj.omega_ref_q16,
                        band: self.i_band,
                        gains: lv,
                        fric_fc_counts: motor.fric_fc_counts,
                        fric_fv_q016: motor.fric_fv_q016,
                    },
                ),
                Mode::Current => CurrentPlan::Keep,
                Mode::OpenLoop => CurrentPlan::Zero,
            }
        }
    }

    pub fn plan_current(&self, run: bool, mode: Mode, lv: &ConfigLoopVelocity, motor: &CalibMotor) -> (r:
        CurrentPlan)
        ensures
            r == self.current_planned(run, mode, *lv, *motor),
    {
        if !run {
            return CurrentPlan::Keep;
        }
        match mode {
            Mode::Current => CurrentPlan::Keep,
            Mode::OpenLoop => CurrentPlan::Zero,
            Mode::Velocity | Mode::Position => {
                if mode == Mode::Position && self.hold {
                    CurrentPlan::Park
                } else {
                    CurrentPlan::Step(
                        VelIn {
                            omega_ref_q16: self.omega_ref_q16,
                            omega_hat_q16: self.fusion.omega_q16(),
                            alpha_star_q16: self.traj.alpha_star_q16(),
                            omega_star_q16: self.traj.omega_star_q16(),
                            band: self.i_band,
                            gains: *lv,
                            fric_fc_counts: motor.fric_fc_counts,
                            fric_fv_q016: motor.fric_fv_q016,
                        },
                    )
                }
            },
        }
    }

    /// Tracking error past the threshold, with a live position profile.
    pub open spec fn tracking_over(self, run: bool, mode: Mode, pos_error_counts: u16) -> bool {
        &&& run
        &&& mode == Mode::Position
        &&& abs(sat32(self.traj.theta_ref_q16 - self.fusion.theta_q16)) > pos_error_counts * 65_536
    }

    pub fn tracking_error(&self, run: bool, mode: Mode, pos_error_counts: u16) -> (r: bool)
        ensures
            r == self.tracking_over(run, mode, pos_error_counts),
    {
        run && mode == Mode::Position && magnitude(
            sat_sub(self.traj.theta_star_q16(), self.fusion.theta_q16()),
        ) > pos_error_counts as u32 * 65_536
    }

    pub open spec fn slow_due(self) -> bool {
        self.decim_slow == 31
    }

    pub open spec fn slow_counted(self) -> KernelState {
        KernelState {
            decim_slow: if self.slow_due() {
                0
            } else {
                (self.decim_slow + 1) as u8
            },
            ..self
        }
    }

    /// Count one medium tick; every thirty-second runs the slow chain.
    pub fn count_medium(&mut self) -> (due: bool)
        requires
            old(self).wf(),
        ensures
            due == old(self).slow_due(),
            *final(self) == old(self).slow_counted(),
            final(self).wf(),
    {
        self.decim_slow = self.decim_slow + 1;
        if self.decim_slow >= DECIM_SLOW {
            self.decim_slow = 0;
            true
        } else {
            false
        }
    }

    pub open spec fn retimed(
        self,
        stall_time_ms: u16,
        pos_error_time_ms: u16,
        med_ticks_per_ms_q16: u32,
        r0_q12: u16,
    ) -> KernelState {
        KernelState {
            stall_time_ticks: ms_to_ticks(stall_time_ms, med_ticks_per_ms_q16),
            pos_error_time_ticks: ms_to_ticks(pos_error_time_ms, med_ticks_per_ms_q16),
            therm_r0: r0_q12,
            ..self
        }
    }

    /// Slow housekeeping: detector windows off the live table values, and the
    /// thermometer anchor. The result says whether the anchor moved.
    pub fn retime(
        &mut self,
        stall_time_ms: u16,
        pos_error_time_ms: u16,
        med_ticks_per_ms_q16: u32,
        r0_q12: u16,
    ) -> (reseed: bool)
        requires
            old(self).wf(),
        ensures
            reseed == (r0_q12 != old(self).therm_r0),
            *final(self) == old(self).retimed(
                stall_time_ms,
                pos_error_time_ms,
                med_ticks_per_ms_q16,
                r0_q12,
            ),
            final(self).wf(),
    {
        proof {
            lemma_q_scales();
            assert(0 <= stall_time_ms * med_ticks_per_ms_q16 <= 65_535 * 0xffff_ffff) by (nonlinear_arith)
                requires
                    0 <= stall_time_ms <= 65_535,
                    0 <= med_ticks_per_ms_q16 <= 0xffff_ffff,
            ;
            assert(0 <= pos_error_time_ms * med_ticks_per_ms_q16 <= 65_535 * 0xffff_ffff) by (nonlinear_arith)
                requires
                    0 <= pos_error_time_ms <= 65_535,
                    0 <= med_ticks_per_ms_q16 <= 0xffff_ffff,
            ;
        }
        self.stall_time_ticks = q_mul_u(stall_time_ms as u32, med_ticks_per_ms_q16, 16);
        self.pos_error_time_ticks = q_mul_u(pos_error_time_ms as u32, med_ticks_per_ms_q16, 16);
        let moved: bool = r0_q12 != self.therm_r0;
        self.therm_r0 = r0_q12;
        moved
    }

    /// What the thermometer is asked this slow tick.
    pub open spec fn thermal_in(
        self,
        v_mean: Option<i32>,
        i_meas: Option<i32>,
        therm: ConfigThermal,
        winding: CalibWinding,
    ) -> ThermIn {
        let both = v_mean is Some && i_meas is Some;
        ThermIn {
            v_mean: if both {
                v_mean->0
            } else {
                0
            },
            i_meas: if both {
                i_meas
            } else {
                None
            },
            omega_abs_cps: (abs(self.fusion.omega_q16 as int) / 65_536) as u32,
            i_min_counts: therm.rtherm_i_min_counts,
            omega_max_cps: therm.rtherm_omega_max_cps,
            anchor: winding,
        }
    }

    pub fn therm_in(
        &self,
        v_mean: Option<i32>,
        i_meas: Option<i32>,
        therm: &ConfigThermal,
        winding: &CalibWinding,
    ) -> (r: ThermIn)
        ensures
            r == self.thermal_in(v_mean, i_meas, *therm, *winding),
    {
        let (vm, ti): (i32, Option<i32>) = match (v_mean, i_meas) {
            (Some(v), Some(i)) => (v, Some(i)),
            _ => (0, None),
        };
        ThermIn {
            v_mean: vm,
            i_meas: ti,
            omega_abs_cps: magnitude(self.fusion.omega_q16()) / 65_536,
            i_min_counts: therm.rtherm_i_min_counts,
            omega_max_cps: therm.rtherm_omega_max_cps,
            anchor: *winding,
        }
    }

    /// Open-loop duty: the goal, inside the duty ceiling.
    pub open spec fn openloop_duty(goal_duty: i16, duty_max_q15: u16) -> int {
        let max = least(duty_max_q15 as int, i16::MAX as int);
        bound(goal_duty as int, -max, max)
    }

    /// The current command at the fast rate: current mode takes its goal inside
    /// the band, fresh each tick; the other modes keep the medium rate's.
    pub open spec fn fast_current(self, mode: Mode, goal_current: i16) -> int {
        if mode == Mode::Current {
            self.i_band.limit(goal_current as int)
        } else {
            self.i_ref_cc as int
        }
    }

    /// What the bridge is told, once the enable gate has been judged again.
    pub open spec fn drive_planned(
        self,
        run: bool,
        life: ControlLifecycle,
        lc: ConfigLoopCurrent,
        lim: ConfigLimits,
        ke_q412: u16,
        i_meas: Option<i32>,
        vbus: u16,
        vbus_floor: u16,
        recip_q15: u32,
    ) -> DrivePlan {
        if !run {
            DrivePlan::Write(MotorCmd::Disabled)
        } else if life.mode == Mode::OpenLoop {
            DrivePlan::Write(
                MotorCmd::Drive {
                    duty: Effort(Self::openloop_duty(life.goal_duty, lc.duty_max_q15) as i16),
                    decay: match lim.openloop_decay {
                        DecaySelect::Slow => DecayMode::Slow,
                        DecaySelect::Fast => DecayMode::Fast,
                    },
                },
            )
        } else if self.hold {
            DrivePlan::Write(MotorCmd::Coast)
        } else if self.fast_current(life.mode, life.goal_current) == 0 && i_meas is None {
            DrivePlan::ResetThenWrite(MotorCmd::Drive { duty: Effort(0), decay: DecayMode::Slow })
        } else {
            DrivePlan::Step(
                CurIn {
                    i_ref_cc: self.fast_current(life.mode, life.goal_current) as i32,
                    i_loop: match i_meas {
                        Some(i) => i,
                        None => 0,
                    },
                    omega_q16: self.fusion.omega_q16,
                    vbus_eff: greatest(vbus as int, vbus_floor as int) as u16,
                    recip_q15,
                    gains: lc,
                    ke_q412,
                },
            )
        }
    }

    /// The state once a plan has been drawn up: the current-mode command is
    /// stored even where the bridge parks.
    pub open spec fn drive_noted(self, run: bool, mode: Mode, goal_current: i16) -> KernelState {
        KernelState {
            i_ref_cc: if run && mode == Mode::Current {
                self.fast_current(mode, goal_current) as i32
            } else {
                self.i_ref_cc
            },
            ..self
        }
    }

    pub fn plan_drive(
        &mut self,
        run: bool,
        life: &ControlLifecycle,
        lc: &ConfigLoopCurrent,
        lim: &ConfigLimits,
        ke_q412: u16,
        i_meas: Option<i32>,
        vbus: u16,
        vbus_floor: u16,
        recip_q15: u32,
    ) -> (r: DrivePlan)
        requires
            old(self).wf(),
        ensures
            r == old(self).drive_planned(
                run,
                *life,
                *lc,
                *lim,
                ke_q412,
                i_meas,
                vbus,
                vbus_floor,
                recip_q15,
            ),
            *final(self) == old(self).drive_noted(run, life.mode, life.goal_current),
            final(self).wf(),
    {
        if !run {
            return DrivePlan::Write(MotorCmd::Disabled);
        }
        if life.mode == Mode::OpenLoop {
            let max: i32 = min_u16(lc.duty_max_q15, 32_767) as i32;
            let duty: i16 = clamp32(life.goal_duty as i32, -max, max) as i16;
            let decay: DecayMode = match lim.openloop_decay {
                DecaySelect::Slow => DecayMode::Slow,
                DecaySelect::Fast => DecayMode::Fast,
            };
            return DrivePlan::Write(MotorCmd::Drive { duty: Effort(duty), decay });
        }
        if life.mode == Mode::Current {
            self.i_ref_cc = self.i_band.clamp(life.goal_current as i32);
        }
        if self.hold {
            DrivePlan::Write(MotorCmd::Coast)
        } else if self.i_ref_cc == 0 && i_meas.is_none() {
            DrivePlan::ResetThenWrite(MotorCmd::Drive { duty: Effort(0), decay: DecayMode::Slow })
        } else {
            let i_loop: i32 = match i_meas {
                Some(i) => i,
                None => 0,
            };
            DrivePlan::Step(
                CurIn {
                    i_ref_cc: self.i_ref_cc,
                    i_loop,
                    omega_q16: self.fusion.omega_q16(),
                    vbus_eff: if vbus >= vbus_floor {
                        vbus
                    } else {
                        vbus_floor
                    },
                    recip_q15,
                    gains: *lc,
                    ke_q412,
                },
            )
        }
    }

    /// The command and the window it opens, remembered for the next tick.
    pub open spec fn driven(self, cmd: MotorCmd) -> KernelState {
        match cmd {
            MotorCmd::Drive { duty, decay } => KernelState { duty_q15: duty.0, decay, ..self },
            _ => KernelState { duty_q15: 0, ..self },
        }
    }

    pub fn note_drive(&mut self, cmd: MotorCmd)
        requires
            old(self).wf(),
        ensures
            *final(self) == old(self).driven(cmd),
            final(self).wf(),
    {
        match cmd {
            MotorCmd::Drive { duty, decay } => {
                self.duty_q15 = duty.0;
                self.decay = decay;
            },
            _ => {
                self.duty_q15 = 0;
            },
        }
    }
}

/// Mean winding voltage over the period: the drive window's differential, as
/// wide as it was read, scaled by the duty fraction. The area under the window
/// is a 32-bit product, exact for every differential that fits 16 bits.
pub open spec fn mean_voltage(ticks: u16, vdiff: i32, recip_arr_q24: u32) -> int {
    wrap32(q_product(wrap32(ticks * vdiff), wrap32(recip_arr_q24 as int), 24))
}

pub fn v_mean(ticks: u16, vdiff: i32, recip_arr_q24: u32) -> (r: i32)
    ensures
        r == mean_voltage(ticks, vdiff, recip_arr_q24),
{
    let area: i32 = wrap_mul(ticks as i32, vdiff);
    q_mul(area, reinterpret(recip_arr_q24), RECIP_ARR_SHIFT)
}

} // verus!
