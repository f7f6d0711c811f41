//! What one tick does, read off its inputs, the blocks' answers and its results:
//! which measurement is believed, what the observer and the profile are stepped
//! with, what each screen is told, what the loops are handed, what is published.

use super::blocks::{BemfIn, Call, Fault, Window, WindowIn};
use super::io::{MotorCmd, SensorFrame, Trace};
use super::state::{CurIn, CurrentPlan, DrivePlan, KernelState, LimitCfg};
use super::trajectory::{position_tick, velocity_tick, TrajCfg};
use super::{
    command_trace, front_trace, medium_report, medium_trace, mediumed, published, rail_of, raising,
    report, slow_trace, tick_trace, ticked, KernelTiming, MediumReplies, MediumReport, Replies,
    SlowReplies, SlowReport, TickReport,
};
use crate::estimator::fusion::{fused, Fused, FusionGains};
use crate::math::lemma_q_scales;
use crate::regions::control::Mode;
use crate::regions::telemetry::TelemetryRegs;
use crate::regions::ControlTable;
use vstd::prelude::*;

verus! {

/// One tick: the state it starts from, what it is given and what was answered.
pub struct Tick {
    pub s: KernelState,
    pub timing: KernelTiming,
    pub frame: SensorFrame,
    pub t: ControlTable,
    pub rep: Replies,
}

impl Tick {
    pub open spec fn report(self) -> TickReport {
        report(self.s, self.timing, self.frame, self.t, self.rep)
    }

    /// The state it leaves.
    pub open spec fn end(self) -> KernelState {
        ticked(self.s, self.timing, self.frame, self.t, self.rep)
    }

    pub open spec fn publishes(self) -> TelemetryRegs {
        published(self.s, self.timing, self.frame, self.t, self.rep)
    }

    /// Torque on and no fault when the loops start.
    pub open spec fn runs(self) -> bool {
        self.t.control.lifecycle.torque_enable && self.rep.flags_at_gate == 0
    }

    /// It starts to run, or stops.
    pub open spec fn edge(self) -> bool {
        self.runs() != self.s.run_prev
    }

    pub open spec fn mode(self) -> Mode {
        self.t.control.lifecycle.mode
    }

    /// The current command the tick starts its loops from: none across an edge.
    pub open spec fn i_ref_in(self) -> int {
        if self.edge() {
            0
        } else {
            self.s.i_ref_cc as int
        }
    }

    /// What the observer holds when it is stepped: the reading, at rest, on the
    /// first tick and where the tick starts to run.
    pub open spec fn observed_in(self) -> Fused {
        if !self.s.booted || (self.runs() && !self.s.run_prev) {
            Fused { theta: 65_536 * self.frame.pos, omega: 0, tau_d: 0 }
        } else {
            Fused {
                theta: self.s.fusion.theta_q16 as int,
                omega: self.s.fusion.omega_q16 as int,
                tau_d: self.s.fusion.tau_d_q16 as int,
            }
        }
    }

    /// The profile limits of the table.
    pub open spec fn limits(self) -> TrajCfg {
        TrajCfg {
            vel_limit_cps: self.t.config.loop_position.velocity_limit_cps,
            accel_limit_q88: self.t.config.loop_position.accel_limit_q88,
            pos_min_soft_counts: self.t.config.pos_limits.pos_min_soft_counts,
            pos_max_soft_counts: self.t.config.pos_limits.pos_max_soft_counts,
            dt_med_q32: self.timing.dt_med_q32,
        }
    }
}

/// The enable: the loops run exactly with torque on and no fault, start over at
/// each edge, and a rising torque bit acknowledges the faults.
pub proof fn law_enable(k: Tick)
    ensures
        k.report().gate.run <==> k.t.control.lifecycle.torque_enable && k.rep.flags_at_gate == 0,
        k.report().gate.reset_loops <==> k.report().gate.run != k.s.run_prev,
        k.report().acknowledged <==> k.t.control.lifecycle.torque_enable && !k.s.te_prev,
{
}

/// The window is judged by the command that drove it: the duty and decay of the
/// tick before, the sense floors and the bias of the table, the timer's period.
pub proof fn law_window_question(k: Tick)
    ensures
        k.report().window_in.duty_q15 == k.s.duty_q15,
        k.report().window_in.decay == k.s.decay,
        k.report().window_in.pwm_arr == k.timing.pwm_arr,
        k.report().window_in.i_window_min_ticks == k.t.calib.sense.i_window_min_ticks,
        k.report().window_in.v_window_min_ticks == k.t.calib.sense.v_window_min_ticks,
        k.report().window_in.bias_counts == k.t.telemetry.sensors.current_bias_counts,
{
}

/// The overcurrent screen hears of valid samples alone, and is told over exactly
/// past the trip level, in either direction.
pub proof fn law_overcurrent_is_two_sided(k: Tick)
    ensures
        k.report().over is Some <==> k.rep.window.i_meas is Some,
        k.rep.window.i_meas matches Some(i) ==> (k.report().over == Some(true) <==> i
            > k.t.config.limits.oc_trip_counts || -i > k.t.config.limits.oc_trip_counts),
{
}

/// The last valid current and differential are kept, saturated to 16 bits, and
/// stand through invalid windows.
pub proof fn law_measurements_are_held(k: Tick)
    ensures
        k.rep.window.i_meas matches Some(i) ==> {
            &&& -32_768 <= i <= 32_767 ==> k.end().i_meas_last == i
            &&& i > 32_767 ==> k.end().i_meas_last == 32_767
            &&& i < -32_768 ==> k.end().i_meas_last == -32_768
        },
        k.rep.window.i_meas is None ==> k.end().i_meas_last == k.s.i_meas_last,
        k.rep.window.vdrive matches Some(d) ==> {
            &&& -32_768 <= d.diff <= 32_767 ==> k.end().vdiff_last == d.diff
            &&& d.diff > 32_767 ==> k.end().vdiff_last == 32_767
            &&& d.diff < -32_768 ==> k.end().vdiff_last == -32_768
        },
        k.rep.window.vdrive is None ==> k.end().vdiff_last == k.s.vdiff_last,
{
    reveal(mediumed);
}

/// A stream sample carries the held measurements, the rail as it was answered and
/// whether this window was valid.
pub proof fn law_stream_sample(k: Tick)
    ensures
        k.report().stream is Some <==> k.t.control.lifecycle.tel_enable
            && k.t.control.lifecycle.tel_mask != 0,
        k.report().stream matches Some(x) ==> {
            &&& x.pos == k.frame.pos
            &&& x.current == k.end().i_meas_last
            &&& x.current_trough == k.frame.current_trough
            &&& x.duty_q15 == k.s.duty_q15
            &&& x.vdiff == k.end().vdiff_last
            &&& x.vbus == k.rep.vbus_stream
            &&& x.window_valid <==> k.rep.window.i_meas is Some
        },
{
    reveal(mediumed);
}

/// The observer: left alone off the medium rate but for a reseed; stepped at the
/// medium rate on the measured current, or on the standing command where the
/// window was invalid, on this frame's pot and on the back-EMF within 32767 c/s.
pub proof fn law_observer_step(k: Tick)
    requires
        k.frame.pos < 32_768,
    ensures
        k.rep.medium is None ==> {
            &&& k.end().fusion.theta_q16 == k.observed_in().theta
            &&& k.end().fusion.omega_q16 == k.observed_in().omega
            &&& k.end().fusion.tau_d_q16 == k.observed_in().tau_d
        },
        k.rep.medium matches Some(m) ==> {
            let i = match k.rep.window.i_meas {
                Some(i) => i as int,
                None => k.i_ref_in(),
            };
            let w = if m.bemf_prev_cps > 32_767 {
                2_147_418_112
            } else if m.bemf_prev_cps < -32_767 {
                -2_147_418_112
            } else {
                65_536 * m.bemf_prev_cps
            };
            let g = FusionGains {
                b_i_q313: k.t.calib.motor.b_i_q313,
                l1_q016: k.t.config.fusion.l1_q016,
                l2_q88: k.t.config.fusion.l2_q88,
                l3_q88: k.t.config.fusion.l3_q88,
                l_bemf_q016: k.t.config.fusion.l_bemf_q016,
                fric_fc_counts: k.t.calib.motor.fric_fc_counts,
            };
            k.timing.dt_med_q32 < 0x8000_0000 ==> k.end().fusion@ == fused(
                k.observed_in(),
                i,
                k.frame.pos,
                Some(w as i32),
                k.timing.dt_med_q32 as int,
                g,
            )
        },
{
    reveal(mediumed);
    if k.rep.medium is Some {
        let s = super::fronted(k.s, k.frame, k.t, k.rep);
        assert(s.fusion@ == k.observed_in());
        let m = k.rep.medium->0;
        let i = match k.rep.window.i_meas {
            Some(i) => i,
            None => s.i_ref_cc,
        };
        let w = (crate::math::bound(m.bemf_prev_cps as int, -32_767, 32_767) * 65_536) as i32;
        lemma_fused_fits(
            s.fusion@,
            i as int,
            k.frame.pos,
            Some(w),
            crate::math::wrap32(k.timing.dt_med_q32 as int),
            super::state::fusion_gains(k.t.calib.motor, k.t.config.fusion),
        );
    }
}

proof fn lemma_fused_fits(
    s: Fused,
    i: int,
    pos: u16,
    bemf: Option<i32>,
    dt: int,
    g: FusionGains,
)
    ensures
        super::state::observer(fused(s, i, pos, bemf, dt, g))@ == fused(s, i, pos, bemf, dt, g),
{
}

/// The profile: at rest at the estimate where the tick starts to run or changes
/// mode, stepped toward the position goal or the velocity goal of the table in
/// those modes at the medium rate, and left alone otherwise.
pub proof fn law_profile_step(k: Tick)
    requires
        k.s.traj@.in_bounds(),
    ensures
        ({
            let fresh = k.runs() && (!k.s.run_prev || k.mode() != k.s.mode_prev);
            let at = k.observed_in().theta;
            let from = if fresh {
                super::trajectory::Profile {
                    theta: if at > 536_870_912 {
                        536_870_912
                    } else if at < -536_870_912 {
                        -536_870_912
                    } else {
                        at
                    },
                    omega: 0,
                    alpha: 0,
                }
            } else {
                k.s.traj@
            };
            let n = k.end().traj@;
            k.frame.pos < 32_768 ==> {
                &&& k.rep.medium is None || !k.runs() ==> n == from
                &&& k.rep.medium is Some && k.runs() ==> match k.mode() {
                    Mode::Position => n == position_tick(
                        from,
                        k.t.control.lifecycle.goal_position as int,
                        k.limits(),
                    ),
                    Mode::Velocity => n == velocity_tick(
                        from,
                        k.t.control.lifecycle.goal_velocity as int,
                        k.end().fusion.theta_q16 as int,
                        k.limits(),
                    ),
                    Mode::Current | Mode::OpenLoop => n == from,
                }
            }
        }),
{
    reveal(mediumed);
    let s = super::fronted(k.s, k.frame, k.t, k.rep);
    assert(s.traj@.in_bounds());
    lemma_profile_fits(s.traj@, k.t.control.lifecycle.goal_position as int, 0, k.limits());
    lemma_profile_fits(
        s.traj@,
        k.t.control.lifecycle.goal_velocity as int,
        k.end().fusion.theta_q16 as int,
        k.limits(),
    );
}

proof fn lemma_profile_fits(p: super::trajectory::Profile, goal: int, hat: int, cfg: TrajCfg)
    requires
        p.in_bounds(),
    ensures
        super::state::generator(position_tick(p, goal, cfg))@ == position_tick(p, goal, cfg),
        super::state::generator(velocity_tick(p, goal, hat, cfg))@ == velocity_tick(p, goal, hat, cfg),
{
}

/// The park, and the velocity reference. At the medium rate of a running tick:
/// position mode parks exactly where a deadband is set, the profile is at rest
/// and the shaft is inside the deadband of the reference, on either side; every
/// other mode drops the hold. Off it a hold stands until an edge or a mode change.
pub proof fn law_park(k: Tick)
    requires
        k.s.traj@.in_bounds(),
        k.end().fusion.in_bounds(),
    ensures
        k.rep.medium is Some && k.runs() && k.mode() == Mode::Position ==> {
            let off = k.end().traj.theta_ref_q16 - k.end().fusion.theta_q16;
            let db = 65_536 * k.t.config.loop_position.pos_deadband_counts;
            k.end().hold <==> db > 0 && k.end().traj.omega_ref_q16 == 0 && off <= db && -off <= db
        },
        k.rep.medium is Some && k.runs() && k.mode() != Mode::Position ==> !k.end().hold,
        k.rep.medium is None || !k.runs() ==> (k.end().hold <==> k.s.hold && !k.edge() && !(k.runs()
            && k.mode() != k.s.mode_prev)),
        k.rep.medium is Some && k.runs() && k.mode() == Mode::Velocity ==> k.end().omega_ref_q16
            == k.end().traj.omega_ref_q16,
        k.rep.medium is Some && k.runs() && k.mode() == Mode::Position ==> {
            let off = k.end().traj.theta_ref_q16 - k.end().fusion.theta_q16;
            let e = if off > 8_388_608 {
                8_388_608
            } else if off < -8_388_608 {
                -8_388_608
            } else {
                off
            };
            let top = if k.t.config.loop_position.velocity_limit_cps > 32_767 {
                2_147_418_112
            } else {
                65_536 * k.t.config.loop_position.velocity_limit_cps
            };
            let c = (k.t.config.loop_position.p_kp_q88 * e) / 256 + k.end().traj.omega_ref_q16;
            k.end().omega_ref_q16 == (if c > top {
                top
            } else if c < -top {
                -top
            } else {
                c
            })
        },
{
    reveal(mediumed);
    lemma_q_scales();
    let s = super::fronted(k.s, k.frame, k.t, k.rep);
    assert(s.traj@.in_bounds());
    lemma_profile_fits(s.traj@, k.t.control.lifecycle.goal_position as int, 0, k.limits());
    lemma_profile_fits(
        s.traj@,
        k.t.control.lifecycle.goal_velocity as int,
        k.end().fusion.theta_q16 as int,
        k.limits(),
    );
}

/// The tracking screen is told over exactly in a running position mode with the
/// reference and the estimate further apart than the threshold, whichever of the
/// two is ahead.
pub proof fn law_tracking_is_two_sided(k: Tick)
    requires
        k.end().traj@.in_bounds(),
        k.end().fusion.in_bounds(),
    ensures
        k.report().medium matches Some(m) ==> {
            let n = 65_536 * k.t.config.fault_cfg.pos_error_counts;
            let (a, b) = (k.end().traj.theta_ref_q16, k.end().fusion.theta_q16);
            m.tracking_over <==> k.runs() && k.mode() == Mode::Position && (a - b > n || b - a > n)
        },
{
    reveal(mediumed);
    reveal(medium_report);
}

/// The same of the screen by itself: exchanging the reference and the estimate
/// changes nothing, and the distance alone counts.
pub proof fn law_tracking_error(s: KernelState, x: KernelState, run: bool, mode: Mode, counts: u16)
    requires
        counts < 32_768,
        x.traj.theta_ref_q16 == s.fusion.theta_q16,
        x.fusion.theta_q16 == s.traj.theta_ref_q16,
    ensures
        s.tracking_over(run, mode, counts) <==> run && mode == Mode::Position && (
        s.traj.theta_ref_q16 - s.fusion.theta_q16 > 65_536 * counts || s.fusion.theta_q16
            - s.traj.theta_ref_q16 > 65_536 * counts),
        s.tracking_over(run, mode, counts) == x.tracking_over(run, mode, counts),
{
}

/// What the limits fold is told: whether the standing command sat at a ceiling,
/// in either direction; the size of velocity and disturbance in whole units; the
/// position; and the table's limits, with the stall time of the last slow pass.
pub proof fn law_fold_question(k: Tick)
    requires
        k.end().fusion.in_bounds(),
    ensures
        k.report().medium matches Some(r) ==> {
            let q = r.fold;
            let prev = k.rep.medium->0.i_lim_prev;
            let f = k.end().fusion;
            &&& q.pinned <==> prev > 0 && (k.i_ref_in() >= prev || -k.i_ref_in() >= prev)
            &&& f.omega_q16 >= 0 ==> q.omega_abs_cps == f.omega_q16 as int / 65_536
            &&& f.omega_q16 <= 0 ==> q.omega_abs_cps == (-f.omega_q16) / 65_536
            &&& f.tau_d_q16 >= 0 ==> q.tau_d_abs_counts == f.tau_d_q16 as int / 65_536
            &&& f.tau_d_q16 < 0 ==> q.tau_d_abs_counts == -(f.tau_d_q16 as int / 65_536)
            &&& q.pos_counts == f.theta_q16 as int / 65_536
            &&& q.cfg.current_limit_counts == k.t.config.limits.current_limit_counts
            &&& q.cfg.stall_response == k.t.config.limits.stall_response
            &&& q.cfg.drive_polarity == k.t.config.limits.drive_polarity
            &&& q.cfg.stall_omega_max_cps == k.t.config.limits.stall_omega_max_cps
            &&& q.cfg.stall_time_ticks == k.s.stall_time_ticks
            &&& q.cfg.stall_yield_counts == k.t.config.limits.stall_yield_counts
            &&& q.cfg.stall_release_counts == k.t.config.limits.stall_release_counts
            &&& q.cfg.stall_tau_trip_counts == k.t.config.limits.stall_tau_trip_counts
            &&& q.cfg.derate_start_cc == k.t.config.thermal.derate_start_cc
            &&& q.cfg.cutoff_cc == k.t.config.thermal.cutoff_cc
            &&& q.cfg.pos_min_soft_counts == k.t.config.pos_limits.pos_min_soft_counts
            &&& q.cfg.pos_max_soft_counts == k.t.config.pos_limits.pos_max_soft_counts
        },
{
    reveal(mediumed);
    reveal(medium_report);
}

/// Who sets the current command at the medium rate: the velocity loop in velocity
/// and position mode, which is drained and silent while parked; nobody in open
/// loop; the fast rate in current mode. The velocity loop is handed the reference,
/// the estimate, the profile's feedforwards, the band just folded and the table's
/// gains and friction.
pub proof fn law_velocity_loop(k: Tick)
    ensures
        k.report().medium matches Some(r) ==> {
            let m = k.rep.medium->0;
            let e = k.end();
            &&& !k.runs() ==> r.plan == CurrentPlan::Keep
            &&& k.runs() && k.mode() == Mode::OpenLoop ==> r.plan == CurrentPlan::Zero
            &&& k.runs() && k.mode() == Mode::Current ==> r.plan == CurrentPlan::Keep
            &&& k.runs() && k.mode() == Mode::Position && e.hold ==> r.plan == CurrentPlan::Park
            &&& k.runs() && (k.mode() == Mode::Velocity || k.mode() == Mode::Position && !e.hold) ==> (
            r.plan matches CurrentPlan::Step(q) && {
                &&& q.omega_ref_q16 == e.omega_ref_q16
                &&& q.omega_hat_q16 == e.fusion.omega_q16
                &&& q.alpha_star_q16 == e.traj.alpha_last_q16
                &&& q.omega_star_q16 == e.traj.omega_ref_q16
                &&& q.band == m.band
                &&& q.gains == k.t.config.loop_velocity
                &&& q.fric_fc_counts == k.t.calib.motor.fric_fc_counts
                &&& q.fric_fv_q016 == k.t.calib.motor.fric_fv_q016
            })
            &&& e.i_band == m.band
            &&& r.stall <==> k.runs() && m.stall_pending
        },
        k.rep.medium is None ==> k.end().i_band == k.s.i_band,
{
    reveal(mediumed);
    reveal(medium_report);
}

/// The current command a tick leaves. Current mode, running to the end: its goal
/// inside the band. Velocity and position mode at the medium rate: what the
/// velocity loop gave, and none while parked. Open loop at the medium rate: none.
/// Otherwise the one it started from, which is none across an edge.
pub proof fn law_current_command(k: Tick)
    ensures
        ({
            let e = k.end();
            let goal = k.t.control.lifecycle.goal_current;
            let medium = k.rep.medium is Some && k.runs();
            if k.runs() && k.rep.flags_at_drive == 0 && k.mode() == Mode::Current {
                e.i_ref_cc == (if goal < e.i_band.lo {
                    e.i_band.lo as int
                } else if goal > e.i_band.hi {
                    e.i_band.hi as int
                } else {
                    goal as int
                })
            } else if medium && k.mode() == Mode::OpenLoop {
                e.i_ref_cc == 0
            } else if medium && k.mode() == Mode::Position && e.hold {
                e.i_ref_cc == 0
            } else if medium && (k.mode() == Mode::Velocity || k.mode() == Mode::Position) {
                e.i_ref_cc == k.rep.medium->0.i_ref
            } else {
                e.i_ref_cc == k.i_ref_in()
            }
        }),
{
    reveal(mediumed);
}

/// The bridge in closed loop. Parked: coast. No command and no measurement: the
/// current loop is drained and the duty is zero. Otherwise the current loop is
/// handed the command, the measurement or zero, the estimated velocity, the rail
/// floored at the undervolt threshold with its reciprocal, the table's gains and
/// the motor constant, and its duty goes to the bridge.
pub proof fn law_current_loop(k: Tick)
    requires
        k.runs(),
        k.rep.flags_at_drive == 0,
        k.mode() != Mode::OpenLoop,
    ensures
        ({
            let e = k.end();
            let r = k.report();
            let floor = k.t.config.thermal.v_undervolt_counts;
            if e.hold {
                r.drive == DrivePlan::Write(MotorCmd::Coast)
            } else if e.i_ref_cc == 0 && k.rep.window.i_meas is None {
                r.drive is ResetThenWrite && (r.cmd matches MotorCmd::Drive { duty, decay } && duty.0
                    == 0)
            } else {
                &&& r.drive matches DrivePlan::Step(q) && {
                    &&& q.i_ref_cc == e.i_ref_cc
                    &&& q.i_loop == (match k.rep.window.i_meas {
                        Some(i) => i,
                        None => 0,
                    })
                    &&& q.omega_q16 == e.fusion.omega_q16
                    &&& q.vbus_eff >= floor && q.vbus_eff >= k.rep.vbus_drive && (q.vbus_eff == floor
                        || q.vbus_eff == k.rep.vbus_drive)
                    &&& q.recip_q15 == k.rep.recip_drive
                    &&& q.gains == k.t.config.loop_current
                    &&& q.ke_q412 == k.t.calib.motor.ke_vpc_q
                }
                &&& r.cmd matches MotorCmd::Drive { duty, decay } && duty.0 == k.rep.duty
            }
        }),
{
    reveal(mediumed);
}

/// What the next tick's window is judged by: the duty that went out, 0 where the
/// bridge coasts or is disabled, and the decay of the last drive.
pub proof fn law_command_remembered(k: Tick)
    ensures
        k.report().cmd matches MotorCmd::Drive { duty, decay } ==> k.end().duty_q15 == duty.0
            && k.end().decay == decay,
        !(k.report().cmd is Drive) ==> k.end().duty_q15 == 0 && k.end().decay == k.s.decay,
{
    reveal(mediumed);
}

/// The slow screens: overtemperature at the cutoff and past it, undervolt below
/// its threshold and on fresh evidence alone, and the thermometer seeded where
/// its anchor moved.
pub proof fn law_slow_screens(k: Tick)
    requires
        k.rep.medium is Some,
        k.rep.medium->0.slow is Some,
    ensures
        k.report().medium matches Some(r) && (r.slow matches Some(x) && {
            let q = k.rep.medium->0.slow->0;
            &&& x.over_temp <==> q.t_cc >= k.t.config.thermal.cutoff_cc
            &&& x.under_volt <==> q.vbus_fresh && q.vbus < k.t.config.thermal.v_undervolt_counts
            &&& x.reseed_thermometer <==> k.t.calib.winding.r0_q12 != k.s.therm_r0
        }),
{
    reveal(mediumed);
    reveal(medium_report);
}

/// What the thermometer is told: the mean voltage and the current where both
/// windows were valid, and neither otherwise; the size of the velocity in whole
/// c/s; the table's floors and anchor.
pub proof fn law_thermometer_question(k: Tick)
    requires
        k.rep.medium is Some,
        k.rep.medium->0.slow is Some,
        k.end().fusion.in_bounds(),
    ensures
        ({
            let r = k.report().medium->0;
            let x = r.slow->0.therm;
            let w = k.end().fusion.omega_q16;
            &&& r.v_mean is Some <==> k.rep.window.vdrive is Some
            &&& r.v_mean is Some && k.rep.window.i_meas is Some ==> x.v_mean == r.v_mean->0 && x.i_meas
                == k.rep.window.i_meas
            &&& r.v_mean is None || k.rep.window.i_meas is None ==> x.v_mean == 0 && x.i_meas is None
            &&& w >= 0 ==> x.omega_abs_cps == w as int / 65_536
            &&& w <= 0 ==> x.omega_abs_cps == (-w) / 65_536
            &&& x.i_min_counts == k.t.config.thermal.rtherm_i_min_counts
            &&& x.omega_max_cps == k.t.config.thermal.rtherm_omega_max_cps
            &&& x.anchor == k.t.calib.winding
        }),
{
    reveal(mediumed);
    reveal(medium_report);
}

/// The mean winding voltage: the differential times the share of the period that
/// the window took, where the product fits.
pub proof fn law_mean_voltage(k: Tick)
    requires
        k.rep.medium is Some,
        k.timing.recip_arr_q24 < 0x8000_0000,
    ensures
        k.rep.window.vdrive matches Some(d) ==> {
            let area = k.rep.window.ticks * d.diff;
            let mean = (area * k.timing.recip_arr_q24) / 0x100_0000;
            -0x8000_0000 <= area < 0x8000_0000 && -0x8000_0000 <= mean < 0x8000_0000
                ==> k.report().medium->0.v_mean == Some(mean as i32)
        },
{
    reveal(medium_report);
    assert(vstd::arithmetic::power2::pow2(24) == 0x100_0000) by {
        vstd::arithmetic::power2::lemma2_to64();
    }
}

/// The detector windows a slow pass leaves: the table's milliseconds in medium
/// ticks, rounded down; and the thermometer's anchor.
pub proof fn law_detector_windows(k: Tick)
    requires
        k.rep.medium is Some,
        k.s.slow_due(),
    ensures
        ({
            let q = k.timing.med_ticks_per_ms_q16;
            &&& k.end().stall_time_ticks == ((k.t.config.limits.stall_time_ms * q) / 65_536) as u32
            &&& k.end().pos_error_time_ticks == ((k.t.config.fault_cfg.pos_error_time_ms * q)
                / 65_536) as u32
            &&& k.end().therm_r0 == k.t.calib.winding.r0_q12
        }),
{
    reveal(mediumed);
}

/// Off the slow pass the detector windows and the anchor stand.
pub proof fn law_detector_windows_stand(k: Tick)
    requires
        k.rep.medium is None || !k.s.slow_due(),
    ensures
        k.end().stall_time_ticks == k.s.stall_time_ticks,
        k.end().pos_error_time_ticks == k.s.pos_error_time_ticks,
        k.end().therm_r0 == k.s.therm_r0,
{
    reveal(mediumed);
}

/// What a medium tick publishes: the estimates it just made, what the blocks
/// answered, the duty of the period this frame sampled, the mode and the faults.
pub proof fn law_publishes_what_it_knows(k: Tick)
    requires
        k.rep.medium is Some,
        k.end().fusion.in_bounds(),
    ensures
        ({
            let p = k.publishes();
            let m = k.rep.medium->0;
            let e = k.end();
            &&& p.estimates.theta_hat_q16 == e.fusion.theta_q16
            &&& p.estimates.omega_hat_cps == e.fusion.omega_q16
            &&& p.estimates.tau_d_counts == e.fusion.tau_d_q16 as int / 65_536
            &&& p.estimates.i_lim_counts == m.i_lim
            &&& p.estimates.t_winding_cc == m.t_winding_cc
            &&& p.estimates.vbus_counts == m.vbus
            &&& p.estimates.duty_applied_q15 == k.s.duty_q15
            &&& p.estimates.omega_bemf_cps == m.omega_bemf_cps
            &&& p.estimates.r_hat_q12 == m.r_hat_q12
            &&& p.estimates.i_hat_counts == e.i_meas_last
            &&& p.mode.mode_active == k.mode().byte()
            &&& p.mode.fault_code == m.fault_code
            &&& p.common.fault_flags == m.fault_flags
        }),
{
    reveal(mediumed);
}

/// What every tick publishes: the frame, the filtered reference, and the
/// identification aggregate once a window of it is full.
pub proof fn law_publishes_the_frame(k: Tick)
    ensures
        ({
            let p = k.publishes();
            &&& p.sensors.pos == k.frame.pos
            &&& p.sensors.current == k.frame.current
            &&& p.sensors.vcal == k.frame.vcal
            &&& p.sensors.vcal_lpf == k.rep.vcal_lpf
            &&& p.sensors.vmotor_a == k.frame.vmotor_a
            &&& p.sensors.vmotor_b == k.frame.vmotor_b
            &&& p.sensors.current_trough == k.frame.current_trough
            &&& p.sensors.current_bias_counts == k.t.telemetry.sensors.current_bias_counts
            &&& p.ident == (match k.rep.aggregate {
                Some(a) => a,
                None => k.t.telemetry.ident,
            })
            &&& k.rep.medium is None ==> p.estimates == k.t.telemetry.estimates && p.mode
                == k.t.telemetry.mode && p.common == k.t.telemetry.common
        }),
{
}

/// The mode byte: open loop 0, current 1, velocity 2, position 3.
pub proof fn law_mode_byte(m: Mode)
    ensures
        m.byte() == 0 <==> m == Mode::OpenLoop,
        m.byte() == 1 <==> m == Mode::Current,
        m.byte() == 2 <==> m == Mode::Velocity,
        m.byte() == 3 <==> m == Mode::Position,
{
}

/// A call is among those told.
pub open spec fn tells(trace: Trace<Call>, call: Call) -> bool {
    trace.calls matches Some(c) && c.contains(call)
}

impl Tick {
    /// What the blocks are told over this tick.
    pub open spec fn told(self) -> Trace<Call> {
        tick_trace(Trace { calls: Some(Seq::empty()) }, self.s, self.frame, self.t, self.report())
    }

    /// The slow pass ran.
    pub open spec fn slow(self) -> bool {
        self.rep.medium is Some && self.rep.medium->0.slow is Some
    }
}

proof fn lemma_tells_push(trace: Trace<Call>, c: Call, x: Call)
    ensures
        tells(trace.push(c), x) <==> trace.calls is Some && (tells(trace, x) || c == x),
        trace.push(c).calls is Some <==> trace.calls is Some,
{
    if trace.calls is Some {
        let q = trace.calls->0;
        if q.contains(x) {
            let j = choose|j: int| 0 <= j < q.len() && q[j] == x;
            assert(q.push(c)[j] == x);
        }
        if c == x {
            assert(q.push(c)[q.len() as int] == x);
        }
        if q.push(c).contains(x) && c != x {
            let j = choose|j: int| 0 <= j < q.push(c).len() && q.push(c)[j] == x;
            assert(q[j] == x);
        }
    }
}

proof fn lemma_tells_raising(trace: Trace<Call>, due: bool, f: Fault, x: Call)
    ensures
        trace.calls is Some ==> (tells(raising(trace, due, f), x) <==> tells(trace, x) || (due && x
            == Call::Raise { fault: f })),
        raising(trace, due, f).calls is Some <==> trace.calls is Some,
{
    lemma_tells_push(trace, Call::Raise { fault: f }, x);
}

proof fn lemma_front(
    trace: Trace<Call>,
    m: KernelState,
    frame: SensorFrame,
    t: ControlTable,
    acknowledged: bool,
    window_in: WindowIn,
    over: Option<bool>,
    reset_loops: bool,
    rep: Replies,
    x: Call,
)
    requires
        trace.calls is Some,
    ensures
        ({
            let end = front_trace(
                trace,
                m,
                frame,
                t,
                acknowledged,
                window_in,
                over,
                reset_loops,
                rep,
            );
            &&& end.calls is Some
            &&& tells(end, x) <==> {
                ||| tells(trace, x)
                ||| x == Call::FilterVcal { raw: frame.vcal, out: rep.vcal_lpf }
                ||| acknowledged && x == Call::Acknowledge
                ||| x == Call::Window { frame, q: window_in, out: rep.window }
                ||| x == Call::OverCurrent {
                    over,
                    trip_ticks: t.config.limits.oc_trip_ticks,
                    out: rep.oc_tripped,
                }
                ||| rep.oc_tripped && x == Call::Raise { fault: Fault::OverCurrent }
                ||| x == Call::RailCounts { out: rep.vbus_stream }
                ||| x == Call::Aggregate {
                    i: m.i_meas_last,
                    vdiff: m.vdiff_last,
                    duty_q15: m.duty_q15,
                    out: rep.aggregate,
                }
                ||| x == Call::FaultFlags { out: rep.flags_at_gate }
                ||| reset_loops && (x == Call::ResetCurrent || x == Call::ResetVelocity)
            }
        }),
{
    reveal(front_trace);
    let ca = Call::FilterVcal { raw: frame.vcal, out: rep.vcal_lpf };
    let a = trace.push(ca);
    let b = if acknowledged {
        a.push(Call::Acknowledge)
    } else {
        a
    };
    let cc = Call::Window { frame, q: window_in, out: rep.window };
    let c = b.push(cc);
    let cd = Call::OverCurrent {
        over,
        trip_ticks: t.config.limits.oc_trip_ticks,
        out: rep.oc_tripped,
    };
    let d = c.push(cd);
    let e = raising(d, rep.oc_tripped, Fault::OverCurrent);
    let cf = Call::RailCounts { out: rep.vbus_stream };
    let f = e.push(cf);
    let cg = Call::Aggregate {
        i: m.i_meas_last,
        vdiff: m.vdiff_last,
        duty_q15: m.duty_q15,
        out: rep.aggregate,
    };
    let g = f.push(cg);
    let ch = Call::FaultFlags { out: rep.flags_at_gate };
    let h = g.push(ch);
    lemma_tells_push(trace, ca, x);
    lemma_tells_push(a, Call::Acknowledge, x);
    lemma_tells_push(b, cc, x);
    lemma_tells_push(c, cd, x);
    lemma_tells_raising(d, rep.oc_tripped, Fault::OverCurrent, x);
    lemma_tells_push(e, cf, x);
    lemma_tells_push(f, cg, x);
    lemma_tells_push(g, ch, x);
    lemma_tells_push(h, Call::ResetCurrent, x);
    lemma_tells_push(h.push(Call::ResetCurrent), Call::ResetVelocity, x);
}

proof fn lemma_slow(
    trace: Trace<Call>,
    r0_q12: u16,
    cfg: LimitCfg,
    r: SlowReport,
    q: SlowReplies,
    x: Call,
)
    requires
        trace.calls is Some,
    ensures
        ({
            let end = slow_trace(trace, r0_q12, cfg, r, q);
            &&& end.calls is Some
            &&& tells(end, x) <==> {
                ||| tells(trace, x)
                ||| r.reseed_thermometer && x == Call::SeedThermometer { r0_q12 }
                ||| x == Call::StepThermometer { q: r.therm, out: q.t_cc }
                ||| x == Call::Derate { t_cc: q.t_cc, cfg }
                ||| r.over_temp && x == Call::Raise { fault: Fault::OverTemp }
                ||| x == Call::RailCounts { out: q.vbus }
                ||| x == Call::TakeRailFresh { out: q.vbus_fresh }
                ||| r.under_volt && x == Call::Raise { fault: Fault::UnderVolt }
            }
        }),
{
    reveal(slow_trace);
    let ca = Call::SeedThermometer { r0_q12 };
    let a = if r.reseed_thermometer {
        trace.push(ca)
    } else {
        trace
    };
    let cb = Call::StepThermometer { q: r.therm, out: q.t_cc };
    let b = a.push(cb);
    let cc = Call::Derate { t_cc: q.t_cc, cfg };
    let c = b.push(cc);
    let d = raising(c, r.over_temp, Fault::OverTemp);
    let ce = Call::RailCounts { out: q.vbus };
    let e = d.push(ce);
    let cf = Call::TakeRailFresh { out: q.vbus_fresh };
    let f = e.push(cf);
    lemma_tells_push(trace, ca, x);
    lemma_tells_push(a, cb, x);
    lemma_tells_push(b, cc, x);
    lemma_tells_raising(c, r.over_temp, Fault::OverTemp, x);
    lemma_tells_push(d, ce, x);
    lemma_tells_push(e, cf, x);
    lemma_tells_raising(f, r.under_volt, Fault::UnderVolt, x);
}

/// The calls of a medium pass before its slow pass.
spec fn medium_calls(
    pos_error_time_ticks: u32,
    frame: SensorFrame,
    t: ControlTable,
    w: Window,
    r: MediumReport,
    m: MediumReplies,
    x: Call,
) -> bool {
    ||| x == Call::BemfCps { out: m.bemf_prev_cps }
    ||| x == Call::CurrentLimit { out: m.i_lim_prev }
    ||| x == Call::FoldLimits { q: r.fold, out: m.band }
    ||| x == Call::StallPending { out: m.stall_pending }
    ||| r.stall && x == Call::Raise { fault: Fault::Stall }
    ||| r.plan == CurrentPlan::Park && x == Call::ResetVelocity
    ||| r.plan matches CurrentPlan::Step(q) && x == Call::StepVelocity { q, out: m.i_ref }
    ||| x == Call::StepRail { v: rail_of(w), floor: t.config.thermal.v_undervolt_counts }
    ||| x == Call::StepBemf {
        q: BemfIn {
            v_mean: r.v_mean,
            i_meas: w.i_meas,
            r_q12: t.calib.motor.r_q12,
            recip_ke_q: t.calib.motor.recip_ke_q,
        },
        out: m.omega_bemf_cps,
    }
    ||| x == Call::SensorBad {
        pos: frame.pos,
        delta_max: t.config.fault_cfg.sensor_delta_max,
        bad_count: t.config.fault_cfg.sensor_bad_count,
        out: m.sensor_bad,
    }
    ||| m.sensor_bad && x == Call::Raise { fault: Fault::Sensor }
    ||| x == Call::TrackingLost {
        over: r.tracking_over,
        ticks: pos_error_time_ticks,
        out: m.tracking_lost,
    }
    ||| m.tracking_lost && x == Call::Raise { fault: Fault::PositionError }
    ||| x == Call::CurrentLimit { out: m.i_lim }
    ||| x == Call::WindingTemp { out: m.t_winding_cc }
    ||| x == Call::RailCounts { out: m.vbus }
    ||| x == Call::WindingRes { out: m.r_hat_q12 }
    ||| x == Call::FaultCode { out: m.fault_code }
    ||| x == Call::FaultFlags { out: m.fault_flags }
}

/// The calls of a slow pass.
spec fn slow_calls(r0_q12: u16, cfg: LimitCfg, r: SlowReport, q: SlowReplies, x: Call) -> bool {
    ||| r.reseed_thermometer && x == Call::SeedThermometer { r0_q12 }
    ||| x == Call::StepThermometer { q: r.therm, out: q.t_cc }
    ||| x == Call::Derate { t_cc: q.t_cc, cfg }
    ||| r.over_temp && x == Call::Raise { fault: Fault::OverTemp }
    ||| x == Call::RailCounts { out: q.vbus }
    ||| x == Call::TakeRailFresh { out: q.vbus_fresh }
    ||| r.under_volt && x == Call::Raise { fault: Fault::UnderVolt }
}

proof fn lemma_medium(
    trace: Trace<Call>,
    pos_error_time_ticks: u32,
    frame: SensorFrame,
    t: ControlTable,
    w: Window,
    r: MediumReport,
    m: MediumReplies,
    x: Call,
)
    requires
        trace.calls is Some,
        r.slow is Some <==> m.slow is Some,
    ensures
        ({
            let end = medium_trace(trace, pos_error_time_ticks, frame, t, w, r, m);
            &&& end.calls is Some
            &&& tells(end, x) <==> {
                ||| tells(trace, x)
                ||| medium_calls(pos_error_time_ticks, frame, t, w, r, m, x)
                ||| r.slow is Some && slow_calls(
                    t.calib.winding.r0_q12,
                    r.fold.cfg,
                    r.slow->0,
                    m.slow->0,
                    x,
                )
            }
        }),
{
    reveal(medium_trace);
    reveal(command_trace);
    let c1 = Call::BemfCps { out: m.bemf_prev_cps };
    let c2 = Call::CurrentLimit { out: m.i_lim_prev };
    let c3 = Call::FoldLimits { q: r.fold, out: m.band };
    let c4 = Call::StallPending { out: m.stall_pending };
    let t1 = trace.push(c1);
    let t2 = t1.push(c2);
    let t3 = t2.push(c3);
    let t4 = t3.push(c4);
    let t5 = raising(t4, r.stall, Fault::Stall);
    lemma_tells_push(trace, c1, x);
    lemma_tells_push(t1, c2, x);
    lemma_tells_push(t2, c3, x);
    lemma_tells_push(t3, c4, x);
    lemma_tells_raising(t4, r.stall, Fault::Stall, x);
    let t6 = match r.plan {
        CurrentPlan::Keep | CurrentPlan::Zero => t5,
        CurrentPlan::Park => t5.push(Call::ResetVelocity),
        CurrentPlan::Step(q) => t5.push(Call::StepVelocity { q, out: m.i_ref }),
    };
    lemma_tells_push(t5, Call::ResetVelocity, x);
    if let CurrentPlan::Step(q) = r.plan {
        lemma_tells_push(t5, Call::StepVelocity { q, out: m.i_ref }, x);
    }
    let c7 = Call::StepRail { v: rail_of(w), floor: t.config.thermal.v_undervolt_counts };
    let c8 = Call::StepBemf {
        q: BemfIn {
            v_mean: r.v_mean,
            i_meas: w.i_meas,
            r_q12: t.calib.motor.r_q12,
            recip_ke_q: t.calib.motor.recip_ke_q,
        },
        out: m.omega_bemf_cps,
    };
    let c9 = Call::SensorBad {
        pos: frame.pos,
        delta_max: t.config.fault_cfg.sensor_delta_max,
        bad_count: t.config.fault_cfg.sensor_bad_count,
        out: m.sensor_bad,
    };
    let t7 = t6.push(c7);
    let t8 = t7.push(c8);
    let t9 = t8.push(c9);
    let ta = raising(t9, m.sensor_bad, Fault::Sensor);
    lemma_tells_push(t6, c7, x);
    lemma_tells_push(t7, c8, x);
    lemma_tells_push(t8, c9, x);
    lemma_tells_raising(t9, m.sensor_bad, Fault::Sensor, x);
    let cb = Call::TrackingLost {
        over: r.tracking_over,
        ticks: pos_error_time_ticks,
        out: m.tracking_lost,
    };
    let tb = ta.push(cb);
    let tc = raising(tb, m.tracking_lost, Fault::PositionError);
    lemma_tells_push(ta, cb, x);
    lemma_tells_raising(tb, m.tracking_lost, Fault::PositionError, x);
    let th = if r.slow is Some {
        slow_trace(tc, t.calib.winding.r0_q12, r.fold.cfg, r.slow->0, m.slow->0)
    } else {
        tc
    };
    if r.slow is Some {
        lemma_slow(tc, t.calib.winding.r0_q12, r.fold.cfg, r.slow->0, m.slow->0, x);
    }
    let e1 = Call::CurrentLimit { out: m.i_lim };
    let e2 = Call::WindingTemp { out: m.t_winding_cc };
    let e3 = Call::RailCounts { out: m.vbus };
    let e4 = Call::WindingRes { out: m.r_hat_q12 };
    let e5 = Call::FaultCode { out: m.fault_code };
    let e6 = Call::FaultFlags { out: m.fault_flags };
    let u1 = th.push(e1);
    let u2 = u1.push(e2);
    let u3 = u2.push(e3);
    let u4 = u3.push(e4);
    let u5 = u4.push(e5);
    lemma_tells_push(th, e1, x);
    lemma_tells_push(u1, e2, x);
    lemma_tells_push(u2, e3, x);
    lemma_tells_push(u3, e4, x);
    lemma_tells_push(u4, e5, x);
    lemma_tells_push(u5, e6, x);
    assert(medium_trace(trace, pos_error_time_ticks, frame, t, w, r, m) == u5.push(e6));
}

/// The calls of a tick outside its medium pass.
spec fn fast_calls(k: Tick, x: Call) -> bool {
    let m = super::heard(k.s, k.frame, k.t, k.rep.window);
    ||| x == Call::FilterVcal { raw: k.frame.vcal, out: k.rep.vcal_lpf }
    ||| k.report().acknowledged && x == Call::Acknowledge
    ||| x == Call::Window { frame: k.frame, q: k.report().window_in, out: k.rep.window }
    ||| x == Call::OverCurrent {
        over: k.report().over,
        trip_ticks: k.t.config.limits.oc_trip_ticks,
        out: k.rep.oc_tripped,
    }
    ||| k.rep.oc_tripped && x == Call::Raise { fault: Fault::OverCurrent }
    ||| x == Call::RailCounts { out: k.rep.vbus_stream }
    ||| x == Call::Aggregate {
        i: m.i_meas_last,
        vdiff: m.vdiff_last,
        duty_q15: m.duty_q15,
        out: k.rep.aggregate,
    }
    ||| x == Call::FaultFlags { out: k.rep.flags_at_gate }
    ||| k.report().gate.reset_loops && (x == Call::ResetCurrent || x == Call::ResetVelocity)
    ||| x == Call::FaultFlags { out: k.rep.flags_at_drive }
    ||| x == Call::RailCounts { out: k.rep.vbus_drive }
    ||| x == Call::RailRecip { out: k.rep.recip_drive }
    ||| k.report().drive is ResetThenWrite && x == Call::ResetCurrent
    ||| k.report().drive matches DrivePlan::Step(q) && x == Call::StepCurrent { q, out: k.rep.duty }
}

proof fn lemma_told(k: Tick, x: Call)
    ensures
        tells(k.told(), x) <==> {
            ||| fast_calls(k, x)
            ||| k.rep.medium is Some && medium_calls(
                k.s.pos_error_time_ticks,
                k.frame,
                k.t,
                k.rep.window,
                k.report().medium->0,
                k.rep.medium->0,
                x,
            )
            ||| k.slow() && slow_calls(
                k.t.calib.winding.r0_q12,
                k.report().medium->0.fold.cfg,
                k.report().medium->0.slow->0,
                k.rep.medium->0.slow->0,
                x,
            )
        },
{
    let none = Trace { calls: Some(Seq::<Call>::empty()) };
    let r = k.report();
    let m = super::heard(k.s, k.frame, k.t, k.rep.window);
    assert(!tells(none, x));
    let a = front_trace(
        none,
        m,
        k.frame,
        k.t,
        r.acknowledged,
        r.window_in,
        r.over,
        r.gate.reset_loops,
        k.rep,
    );
    lemma_front(
        none,
        m,
        k.frame,
        k.t,
        r.acknowledged,
        r.window_in,
        r.over,
        r.gate.reset_loops,
        k.rep,
        x,
    );
    let b = match (r.medium, k.rep.medium) {
        (Some(mr), Some(mm)) => medium_trace(
            a,
            k.s.pos_error_time_ticks,
            k.frame,
            k.t,
            k.rep.window,
            mr,
            mm,
        ),
        _ => a,
    };
    if k.rep.medium is Some {
        assert(r.medium is Some && (r.medium->0.slow is Some <==> k.rep.medium->0.slow is Some)) by {
            reveal(medium_report);
        }
        lemma_medium(
            a,
            k.s.pos_error_time_ticks,
            k.frame,
            k.t,
            k.rep.window,
            r.medium->0,
            k.rep.medium->0,
            x,
        );
    }
    let c1 = Call::FaultFlags { out: k.rep.flags_at_drive };
    let c2 = Call::RailCounts { out: k.rep.vbus_drive };
    let c3 = Call::RailRecip { out: k.rep.recip_drive };
    lemma_tells_push(b, c1, x);
    lemma_tells_push(b.push(c1), c2, x);
    lemma_tells_push(b.push(c1).push(c2), c3, x);
    let c = b.push(c1).push(c2).push(c3);
    lemma_tells_push(c, Call::ResetCurrent, x);
    if let DrivePlan::Step(q) = r.drive {
        lemma_tells_push(c, Call::StepCurrent { q, out: k.rep.duty }, x);
    }
}

/// Each fault is raised exactly where its own screen asks for it.
pub proof fn law_raises(k: Tick)
    requires
        k.rep.medium is Some ==> (k.rep.medium->0.slow is Some <==> k.s.slow_due()),
    ensures
        tells(k.told(), Call::Raise { fault: Fault::OverCurrent }) <==> k.rep.oc_tripped,
        tells(k.told(), Call::Raise { fault: Fault::Stall }) <==> k.rep.medium is Some && k.runs()
            && k.rep.medium->0.stall_pending,
        tells(k.told(), Call::Raise { fault: Fault::Sensor }) <==> k.rep.medium is Some
            && k.rep.medium->0.sensor_bad,
        tells(k.told(), Call::Raise { fault: Fault::PositionError }) <==> k.rep.medium is Some
            && k.rep.medium->0.tracking_lost,
        tells(k.told(), Call::Raise { fault: Fault::OverTemp }) <==> k.slow()
            && k.rep.medium->0.slow->0.t_cc >= k.t.config.thermal.cutoff_cc,
        tells(k.told(), Call::Raise { fault: Fault::UnderVolt }) <==> k.slow()
            && k.rep.medium->0.slow->0.vbus_fresh && k.rep.medium->0.slow->0.vbus
            < k.t.config.thermal.v_undervolt_counts,
{
    assert(k.rep.medium is Some ==> k.report().medium is Some);
    lemma_told(k, Call::Raise { fault: Fault::OverCurrent });
    lemma_told(k, Call::Raise { fault: Fault::Stall });
    lemma_told(k, Call::Raise { fault: Fault::Sensor });
    lemma_told(k, Call::Raise { fault: Fault::PositionError });
    lemma_told(k, Call::Raise { fault: Fault::OverTemp });
    lemma_told(k, Call::Raise { fault: Fault::UnderVolt });
    reveal(medium_report);
}

/// What the blocks are told on every tick, and what starts the loops over: both
/// at an edge, the current loop also where there is neither a command nor a
/// measurement, the velocity loop also while parked.
pub proof fn law_told_each_tick(k: Tick)
    ensures
        tells(k.told(), Call::FilterVcal { raw: k.frame.vcal, out: k.rep.vcal_lpf }),
        tells(k.told(), Call::Acknowledge) <==> k.t.control.lifecycle.torque_enable && !k.s.te_prev,
        tells(
            k.told(),
            Call::Window { frame: k.frame, q: k.report().window_in, out: k.rep.window },
        ),
        tells(
            k.told(),
            Call::OverCurrent {
                over: k.report().over,
                trip_ticks: k.t.config.limits.oc_trip_ticks,
                out: k.rep.oc_tripped,
            },
        ),
        tells(
            k.told(),
            Call::Aggregate {
                i: k.end().i_meas_last,
                vdiff: k.end().vdiff_last,
                duty_q15: k.s.duty_q15,
                out: k.rep.aggregate,
            },
        ),
        tells(k.told(), Call::ResetCurrent) <==> k.edge() || k.report().drive is ResetThenWrite,
        tells(k.told(), Call::ResetVelocity) <==> k.edge() || (k.report().medium matches Some(r)
            && r.plan == CurrentPlan::Park),
        k.report().drive matches DrivePlan::Step(q) ==> tells(
            k.told(),
            Call::StepCurrent { q, out: k.rep.duty },
        ),
        !(k.report().drive is Step) ==> forall|q: CurIn, out: i16|
            !#[trigger] tells(k.told(), Call::StepCurrent { q, out }),
{
    let r = k.report();
    reveal(mediumed);
    lemma_told(k, Call::FilterVcal { raw: k.frame.vcal, out: k.rep.vcal_lpf });
    lemma_told(k, Call::Acknowledge);
    lemma_told(k, Call::Window { frame: k.frame, q: r.window_in, out: k.rep.window });
    lemma_told(
        k,
        Call::OverCurrent {
            over: r.over,
            trip_ticks: k.t.config.limits.oc_trip_ticks,
            out: k.rep.oc_tripped,
        },
    );
    lemma_told(
        k,
        Call::Aggregate {
            i: k.end().i_meas_last,
            vdiff: k.end().vdiff_last,
            duty_q15: k.s.duty_q15,
            out: k.rep.aggregate,
        },
    );
    lemma_told(k, Call::ResetCurrent);
    lemma_told(k, Call::ResetVelocity);
    if let DrivePlan::Step(q) = r.drive {
        lemma_told(k, Call::StepCurrent { q, out: k.rep.duty });
    }
    assert forall|q: CurIn, out: i16| !(r.drive is Step) implies !#[trigger] tells(
        k.told(),
        Call::StepCurrent { q, out },
    ) by {
        lemma_told(k, Call::StepCurrent { q, out });
    }
}

/// What the blocks are told at the medium rate: the fold, the rail with its
/// floor, the back-EMF's voltage and current with the motor's constants, the pot
/// and its screens' settings, and the tracking screen's time as the last slow pass
/// left it.
pub proof fn law_told_each_medium_tick(k: Tick)
    requires
        k.rep.medium is Some,
    ensures
        ({
            let m = k.rep.medium->0;
            let r = k.report().medium->0;
            &&& tells(k.told(), Call::FoldLimits { q: r.fold, out: m.band })
            &&& tells(
                k.told(),
                Call::StepRail {
                    v: match k.rep.window.vdrive {
                        Some(d) => Some(d.rail),
                        None => None,
                    },
                    floor: k.t.config.thermal.v_undervolt_counts,
                },
            )
            &&& tells(
                k.told(),
                Call::StepBemf {
                    q: BemfIn {
                        v_mean: r.v_mean,
                        i_meas: k.rep.window.i_meas,
                        r_q12: k.t.calib.motor.r_q12,
                        recip_ke_q: k.t.calib.motor.recip_ke_q,
                    },
                    out: m.omega_bemf_cps,
                },
            )
            &&& tells(
                k.told(),
                Call::SensorBad {
                    pos: k.frame.pos,
                    delta_max: k.t.config.fault_cfg.sensor_delta_max,
                    bad_count: k.t.config.fault_cfg.sensor_bad_count,
                    out: m.sensor_bad,
                },
            )
            &&& tells(
                k.told(),
                Call::TrackingLost {
                    over: r.tracking_over,
                    ticks: k.s.pos_error_time_ticks,
                    out: m.tracking_lost,
                },
            )
            &&& r.plan matches CurrentPlan::Step(q) ==> tells(
                k.told(),
                Call::StepVelocity { q, out: m.i_ref },
            )
        }),
{
    let m = k.rep.medium->0;
    let r = k.report().medium->0;
    lemma_told(k, Call::FoldLimits { q: r.fold, out: m.band });
    lemma_told(
        k,
        Call::StepRail {
            v: match k.rep.window.vdrive {
                Some(d) => Some(d.rail),
                None => None,
            },
            floor: k.t.config.thermal.v_undervolt_counts,
        },
    );
    lemma_told(
        k,
        Call::StepBemf {
            q: BemfIn {
                v_mean: r.v_mean,
                i_meas: k.rep.window.i_meas,
                r_q12: k.t.calib.motor.r_q12,
                recip_ke_q: k.t.calib.motor.recip_ke_q,
            },
            out: m.omega_bemf_cps,
        },
    );
    lemma_told(
        k,
        Call::SensorBad {
            pos: k.frame.pos,
            delta_max: k.t.config.fault_cfg.sensor_delta_max,
            bad_count: k.t.config.fault_cfg.sensor_bad_count,
            out: m.sensor_bad,
        },
    );
    lemma_told(
        k,
        Call::TrackingLost {
            over: r.tracking_over,
            ticks: k.s.pos_error_time_ticks,
            out: m.tracking_lost,
        },
    );
    if let CurrentPlan::Step(q) = r.plan {
        lemma_told(k, Call::StepVelocity { q, out: m.i_ref });
    }
}

/// What the blocks are told at the slow rate: the thermometer's question, the
/// temperature it gave for the derate beside the fold's limits, and the new anchor
/// exactly where it moved.
pub proof fn law_told_each_slow_tick(k: Tick)
    requires
        k.slow(),
    ensures
        ({
            let r = k.report().medium->0;
            let q = k.rep.medium->0.slow->0;
            &&& tells(k.told(), Call::StepThermometer { q: r.slow->0.therm, out: q.t_cc })
            &&& tells(k.told(), Call::Derate { t_cc: q.t_cc, cfg: r.fold.cfg })
            &&& tells(k.told(), Call::SeedThermometer { r0_q12: k.t.calib.winding.r0_q12 })
                <==> k.t.calib.winding.r0_q12 != k.s.therm_r0
        }),
{
    let r = k.report().medium->0;
    let q = k.rep.medium->0.slow->0;
    lemma_told(k, Call::StepThermometer { q: r.slow->0.therm, out: q.t_cc });
    lemma_told(k, Call::Derate { t_cc: q.t_cc, cfg: r.fold.cfg });
    lemma_told(k, Call::SeedThermometer { r0_q12: k.t.calib.winding.r0_q12 });
    reveal(medium_report);
}

/// A kernel starts at rest: references and estimate at zero, nothing commanded,
/// no edge remembered, not booted, both cadences at their last count so that the
/// first tick runs everything, and the detector windows at never.
pub proof fn law_starts_at_rest()
    ensures
        ({
            let k = KernelState::initial();
            &&& k.traj.theta_ref_q16 == 0 && k.traj.omega_ref_q16 == 0 && k.traj.alpha_last_q16 == 0
            &&& k.fusion.theta_q16 == 0 && k.fusion.omega_q16 == 0 && k.fusion.tau_d_q16 == 0
            &&& !k.booted && !k.te_prev && !k.run_prev && !k.hold
            &&& k.mode_prev == Mode::OpenLoop
            &&& k.i_band.lo == 0 && k.i_band.hi == 0
            &&& k.i_ref_cc == 0 && k.omega_ref_q16 == 0 && k.duty_q15 == 0
            &&& k.i_meas_last == 0 && k.vdiff_last == 0 && k.therm_r0 == 0
            &&& k.decim_med + 1 == 10 && k.decim_slow + 1 == 32
            &&& k.stall_time_ticks == 0xffff_ffff && k.pos_error_time_ticks == 0xffff_ffff
        }),
{
}

/// What the fault latch shows over a tick: acknowledged, it starts from nothing;
/// the first reading is clear where it started clear and nothing tripped on
/// current; the last is clear where besides no stall, sensor, tracking,
/// temperature or rail fault came up; and what the tick leaves is the mask that
/// the drive was decided on.
pub proof fn law_latch_over_a_tick(before: u8, r: TickReport, after: Option<u8>)
    requires
        super::latch_over(Some(before), r, after),
        r.medium is Some <==> r.replies.medium is Some,
    ensures
        after is Some,
        ({
            let n = after->0;
            let clear = r.acknowledged || before == 0;
            let late = r.medium is Some && (r.medium->0.stall || r.replies.medium->0.sensor_bad
                || r.replies.medium->0.tracking_lost || (r.medium->0.slow is Some && (
            r.medium->0.slow->0.over_temp || r.medium->0.slow->0.under_volt)));
            &&& n == r.replies.flags_at_drive
            &&& r.replies.flags_at_gate == 0 <==> clear && !r.replies.oc_tripped
            &&& n == 0 <==> clear && !r.replies.oc_tripped && !late
            &&& r.replies.medium is Some ==> r.replies.medium->0.fault_flags == n
        }),
{
}

} // verus!
