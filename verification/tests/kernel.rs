//! Kernel-level orchestration plus a closed-loop plant. A bench set of signal
//! blocks stands behind the kernel; these tests pin the wiring: gate,
//! acknowledge, dispatch shapes, publishes, and qualitative closed-loop behavior
//! against a crude integer plant.

use osc_servo::kernel::blocks::{BemfIn, Blocks, Call, CallLog, Fault, VDrive, Window, WindowIn};
use osc_servo::kernel::io::{
    CmdLog, DecayMode, MotorCmd, SensorFrame, StreamCall, StreamLog, TelSample, TelStream,
};
use osc_servo::kernel::state::{
    v_mean, CurIn, DrivePlan, FoldIn, IBand, KernelState, LimitCfg, ThermIn, VelIn, RECIP_ARR_SHIFT,
};
use osc_servo::kernel::{Kernel, KernelTiming};
use osc_servo::math::{q_mul, whole_q16};
use osc_servo::regions::config::{DecaySelect, StallResponse};
use osc_servo::regions::control::Mode;
use osc_servo::regions::telemetry::TelemetryIdent;
use osc_servo::regions::{ControlTable, ControlTableCell};

const BIAS: u16 = 2048;
const ARR: u16 = 1200;

/// A 20 kHz FAST rate (MED 2 kHz).
const TIMING: KernelTiming = KernelTiming {
    pwm_arr: ARR,
    recip_arr_q24: (1 << RECIP_ARR_SHIFT) / ARR as u32,
    tick_hz: 20_000,
    dt_med_q32: ((1u64 << 32) / 2000) as u32,
    med_ticks_per_ms_q16: 2 << 16,
};

const BIT_OVER_CURRENT: u8 = 1;
const BIT_STALL: u8 = 2;
const BIT_SENSOR: u8 = 4;
const BIT_POSITION_ERROR: u8 = 8;
const BIT_OVER_TEMP: u8 = 16;
const BIT_UNDER_VOLT: u8 = 32;
const CODE_NONE: u8 = 0;
const CODE_OVER_CURRENT: u8 = 1;
const CODE_STALL: u8 = 2;

// --- bench blocks -----------------------------------------------------------

/// The identification window: sixteen fast ticks.
#[derive(Default)]
struct Agg {
    n: u32,
    i: i32,
    vdiff: i32,
    duty: i32,
    i_min: i16,
    i_max: i16,
    seq: u16,
}

struct Bench {
    mask: u8,
    code: u8,
    oc_run: u8,
    pos_last: Option<u16>,
    bad_run: u8,
    err_run: u32,
    agg: Agg,
    cur_integ: i32,
    vel_integ: i32,
    i_lim: u16,
    yielding: bool,
    stall_run: u32,
    stall_pending: bool,
    vbus: u16,
    vbus_fresh: bool,
    recip: u32,
    bemf: i32,
    r_q12: u16,
}

impl Bench {
    fn new() -> Self {
        Bench {
            mask: 0,
            code: CODE_NONE,
            oc_run: 0,
            pos_last: None,
            bad_run: 0,
            err_run: 0,
            agg: Agg::default(),
            cur_integ: 0,
            vel_integ: 0,
            i_lim: 0,
            yielding: false,
            stall_run: 0,
            stall_pending: false,
            vbus: 0,
            vbus_fresh: false,
            recip: 0,
            bemf: 0,
            r_q12: 0,
        }
    }
}

impl Blocks for Bench {
    fn filter_vcal(&mut self, raw: u16) -> u16 {
        raw
    }

    fn acknowledge(&mut self) {
        self.mask = 0;
        self.code = CODE_NONE;
        self.oc_run = 0;
        self.bad_run = 0;
        self.err_run = 0;
        self.stall_run = 0;
        self.stall_pending = false;
        self.yielding = false;
    }

    fn window(&mut self, f: &SensorFrame, q: &WindowIn) -> Window {
        let ticks = ((q.duty_q15.unsigned_abs() as u32 * q.pwm_arr as u32) >> 15) as u16;
        let fwd = q.duty_q15 >= 0;
        let mag = f.current as i32 - q.bias_counts as i32;
        let i_meas = (ticks >= q.i_window_min_ticks).then(|| if fwd { mag } else { -mag });
        let rail = if fwd { f.vmotor_a } else { f.vmotor_b };
        let diff = f.vmotor_a as i32 - f.vmotor_b as i32;
        let vdrive = (ticks >= q.v_window_min_ticks).then(|| VDrive { rail, diff });
        Window {
            ticks,
            i_meas,
            vdrive,
        }
    }

    fn over_current(&mut self, over: Option<bool>, trip_ticks: u8) -> bool {
        self.oc_run = if over == Some(true) {
            self.oc_run.saturating_add(1)
        } else {
            0
        };
        self.oc_run >= trip_ticks
    }

    fn sensor_bad(&mut self, pos: u16, delta_max: u16, bad_count: u8) -> bool {
        let bad = matches!(self.pos_last, Some(p) if p.abs_diff(pos) > delta_max);
        self.pos_last = Some(pos);
        self.bad_run = if bad {
            self.bad_run.saturating_add(1)
        } else {
            0
        };
        self.bad_run >= bad_count
    }

    fn tracking_lost(&mut self, over: bool, ticks: u32) -> bool {
        self.err_run = if over {
            self.err_run.saturating_add(1)
        } else {
            0
        };
        over && self.err_run >= ticks
    }

    fn raise(&mut self, fault: Fault) {
        let (bit, code) = match fault {
            Fault::OverCurrent => (BIT_OVER_CURRENT, CODE_OVER_CURRENT),
            Fault::Stall => (BIT_STALL, CODE_STALL),
            Fault::Sensor => (BIT_SENSOR, 3),
            Fault::PositionError => (BIT_POSITION_ERROR, 4),
            Fault::OverTemp => (BIT_OVER_TEMP, 5),
            Fault::UnderVolt => (BIT_UNDER_VOLT, 6),
        };
        if self.mask == 0 {
            self.code = code;
        }
        self.mask |= bit;
    }

    fn fault_flags(&mut self) -> u8 {
        self.mask
    }

    fn fault_code(&mut self) -> u8 {
        self.code
    }

    fn aggregate(&mut self, i: i16, vdiff: i16, duty_q15: i16) -> Option<TelemetryIdent> {
        let a = &mut self.agg;
        if a.n == 0 {
            (a.i_min, a.i_max) = (i, i);
        }
        a.n += 1;
        a.i += i as i32;
        a.vdiff += vdiff as i32;
        a.duty += duty_q15 as i32;
        a.i_min = a.i_min.min(i);
        a.i_max = a.i_max.max(i);
        if a.n < 16 {
            return None;
        }
        let seq = a.seq.wrapping_add(1);
        let out = TelemetryIdent {
            i_mean_counts: (a.i >> 4) as i16,
            i_min_counts: a.i_min,
            i_max_counts: a.i_max,
            vdiff_mean: (a.vdiff >> 4) as i16,
            duty_mean_q15: (a.duty >> 4) as i16,
            agg_seq: seq,
        };
        *a = Agg {
            seq,
            ..Agg::default()
        };
        Some(out)
    }

    fn reset_current(&mut self) {
        self.cur_integ = 0;
    }

    fn reset_velocity(&mut self) {
        self.vel_integ = 0;
    }

    fn step_current(&mut self, q: &CurIn) -> i16 {
        let g = &q.gains;
        let e = q.i_ref_cc.saturating_sub(q.i_loop).clamp(-8192, 8192);
        let ff = q_mul(g_ke(q), whole_q16(q.omega_q16), 12);
        let u = q_mul(g.i_kp_q88 as i32, e, 8)
            .saturating_add(self.cur_integ >> 16)
            .saturating_add(ff);
        let v_max = q_mul(g.duty_max_q15 as i32, q.vbus_eff as i32, 15);
        let u_cl = u.clamp(-v_max, v_max);
        let aw = u_cl.saturating_sub(u).clamp(-8192, 8192);
        let ki = q_mul(g.i_ki_q412 as i32, e, 0).saturating_mul(1 << 4);
        let kaw = q_mul(g.i_kaw_q412 as i32, aw, 0).saturating_mul(1 << 4);
        let lim = v_max.saturating_mul(1 << 16);
        self.cur_integ = self
            .cur_integ
            .saturating_add(ki)
            .saturating_add(kaw)
            .clamp(-lim, lim);
        let recip = q.recip_q15.min(i32::MAX as u32) as i32;
        q_mul(u_cl, recip, 15).clamp(-32767, 32767) as i16
    }

    fn step_velocity(&mut self, q: &VelIn) -> i32 {
        let g = &q.gains;
        let e_lim = 16384 << 16;
        let e = q
            .omega_ref_q16
            .saturating_sub(q.omega_hat_q16)
            .clamp(-e_lim, e_lim);
        let i_raw = q_mul(g.v_kp_q88 as i32, e, 24).saturating_add(self.vel_integ >> 16);
        let i_ref = q.band.clamp(i_raw);
        let aw = i_ref.saturating_sub(i_raw).clamp(-8192, 8192);
        let ki = q_mul(g.v_ki_q412 as i32, e, 16).saturating_mul(1 << 4);
        let kaw = q_mul(g.v_kaw_q412 as i32, aw, 0).saturating_mul(1 << 4);
        let (lo, hi) = (
            q.band.lo.saturating_mul(1 << 16),
            q.band.hi.saturating_mul(1 << 16),
        );
        self.vel_integ = self
            .vel_integ
            .saturating_add(ki)
            .saturating_add(kaw)
            .clamp(lo, hi);
        i_ref
    }

    fn current_limit(&mut self) -> u16 {
        self.i_lim
    }

    /// Full limit, or the yield limit while a stall is being yielded to; the
    /// soft walls close the inward side.
    fn fold_limits(&mut self, q: &FoldIn) -> IBand {
        let c = &q.cfg;
        let slow = q.omega_abs_cps <= c.stall_omega_max_cps as u32;
        self.stall_run = if q.pinned && slow {
            self.stall_run.saturating_add(1)
        } else {
            0
        };
        let stalled =
            self.stall_run >= c.stall_time_ticks || q.tau_d_abs_counts >= c.stall_tau_trip_counts;
        if stalled {
            match c.stall_response {
                StallResponse::Fault => self.stall_pending = true,
                StallResponse::Yield => self.yielding = true,
            }
        }
        if self.yielding && q.tau_d_abs_counts < c.stall_release_counts {
            self.yielding = false;
        }
        self.i_lim = if self.yielding {
            c.stall_yield_counts.min(c.current_limit_counts)
        } else {
            c.current_limit_counts
        };
        let lim = self.i_lim as i32;
        let (mut lo, mut hi) = (-lim, lim);
        if q.pos_counts >= c.pos_max_soft_counts {
            hi = 0;
        }
        if q.pos_counts <= c.pos_min_soft_counts {
            lo = 0;
        }
        IBand { lo, hi }
    }

    fn stall_pending(&mut self) -> bool {
        self.stall_pending
    }

    fn derate(&mut self, _: i16, _: &LimitCfg) {}

    fn step_rail(&mut self, v: Option<u16>, floor: u16) {
        if let Some(v) = v {
            self.vbus = if self.vbus == 0 {
                v
            } else {
                (self.vbus as i32 + ((v as i32 - self.vbus as i32) >> 3)) as u16
            };
            self.vbus_fresh = true;
        }
        self.recip = ((32767u64 << 15) / (self.vbus.max(floor).max(1) as u64)) as u32;
    }

    fn rail_recip_q15(&mut self) -> u32 {
        self.recip
    }

    fn rail_counts(&mut self) -> u16 {
        self.vbus
    }

    fn take_rail_fresh(&mut self) -> bool {
        std::mem::replace(&mut self.vbus_fresh, false)
    }

    fn bemf_cps(&mut self) -> i32 {
        self.bemf
    }

    fn step_bemf(&mut self, q: &BemfIn) -> i16 {
        if let (Some(v), Some(i)) = (q.v_mean, q.i_meas) {
            let e = v - q_mul(q.r_q12 as i32, i, 12);
            self.bemf = q_mul(e, q.recip_ke_q as i32, 10);
        }
        self.bemf.clamp(i16::MIN as i32, i16::MAX as i32) as i16
    }

    fn seed_thermometer(&mut self, r0_q12: u16) {
        self.r_q12 = r0_q12;
    }

    fn step_thermometer(&mut self, _: &ThermIn) -> i16 {
        2500
    }

    fn winding_t_cc(&mut self) -> i16 {
        2500
    }

    fn winding_r_q12(&mut self) -> u16 {
        self.r_q12
    }
}

fn g_ke(q: &CurIn) -> i32 {
    q.ke_q412 as i32
}

// --- harness ----------------------------------------------------------------

struct Rig<T: TelStream> {
    k: Kernel<CmdLog, T>,
    t: ControlTable,
    b: Bench,
}

impl<T: TelStream> Rig<T> {
    fn tick(&mut self, f: SensorFrame) {
        self.k.on_tick(f, &mut self.t, &mut self.b);
    }

    fn ticks(&mut self, f: SensorFrame, n: u32) {
        for _ in 0..n {
            self.tick(f);
        }
    }

    fn last(&self) -> MotorCmd {
        *self.k.io.cmds.last().expect("a motor write happened")
    }

    fn mask(&self) -> u8 {
        self.b.mask
    }
}

/// Hand-stable rig baseline; tests override per case.
fn seed(t: &mut ControlTable) {
    let c = &mut t.config;
    c.pos_limits.pos_min_soft_counts = 0;
    c.pos_limits.pos_max_soft_counts = 4095;
    c.loop_current.i_kp_q88 = 256;
    c.loop_current.i_ki_q412 = 200;
    c.loop_current.i_kaw_q412 = 2048;
    c.loop_current.duty_max_q15 = 32767;
    c.loop_velocity.v_kp_q88 = 64;
    c.loop_velocity.v_ki_q412 = 40;
    c.loop_velocity.v_kaw_q412 = 2048;
    c.loop_velocity.j_ff_q88 = 0;
    c.loop_position.p_kp_q88 = 256;
    c.loop_position.pos_deadband_counts = 8;
    c.loop_position.velocity_limit_cps = 3000;
    c.loop_position.accel_limit_q88 = 50 << 8;
    c.limits.current_limit_counts = 1200;
    c.limits.stall_response = StallResponse::Yield;
    c.limits.drive_polarity = true;
    c.limits.stall_omega_max_cps = 500;
    c.limits.stall_time_ms = 50;
    c.limits.stall_yield_counts = 300;
    c.limits.stall_release_counts = 150;
    c.limits.stall_tau_trip_counts = 1200;
    c.limits.oc_trip_counts = 2400;
    c.limits.oc_trip_ticks = 4;
    c.limits.openloop_decay = DecaySelect::Slow;
    c.thermal.derate_start_cc = 8000;
    c.thermal.cutoff_cc = 10000;
    c.thermal.recover_cc = 9000;
    c.thermal.v_undervolt_counts = 2200;
    c.thermal.rtherm_i_min_counts = 300;
    c.thermal.rtherm_omega_max_cps = 400;
    c.fusion.l1_q016 = 16384;
    c.fusion.l2_q88 = 1024;
    // l3 * B is the tau_d loop gain: at the b_i-encoded B (1.0 below) 0.5 cc per
    // count is stable, 2.0 rails the filter
    c.fusion.l3_q88 = 128;
    c.fusion.l_bemf_q016 = 0;
    c.fault_cfg.pos_error_counts = 400;
    c.fault_cfg.pos_error_time_ms = 500;
    c.fault_cfg.sensor_delta_max = 256;
    c.fault_cfg.sensor_bad_count = 4;
    let cal = &mut t.calib;
    cal.sense.i_window_min_ticks = 100;
    cal.sense.v_window_min_ticks = 100;
    cal.motor.ke_vpc_q = 256; // 0.0625 vcounts per c/s
    cal.motor.r_q12 = 8192; // 2.0 vcounts/ccount
    cal.motor.recip_ke_q = 16 << 10; // 16 c/s per vcount
    // plant B ~= 1.33 c/s per ccount per medium tick (200/1500 x 10), encoded
    // 1.0; correction gains absorb the gap
    cal.motor.b_i_q313 = 8192;
    t.telemetry.sensors.current_bias_counts = BIAS;
    t.control.lifecycle.torque_enable = false;
    t.control.lifecycle.mode = Mode::Position;
}

fn rig() -> Rig<()> {
    let mut t = ControlTableCell::new().table;
    seed(&mut t);
    Rig {
        k: Kernel::new(CmdLog::new(), TIMING),
        t,
        b: Bench::new(),
    }
}

fn frame(pos: u16, current: u16) -> SensorFrame {
    SensorFrame {
        pos,
        current,
        current_trough: current,
        vmotor_a: 3000,
        vmotor_a_trough: 3000,
        vmotor_b: 40,
        vmotor_b_trough: 40,
        vcal: 1200,
        tick: 0,
    }
}

// --- gate / acknowledge / dispatch --------------------------------------------

#[test]
fn torque_off_disables_and_estimators_still_track() {
    let mut r = rig();
    r.ticks(frame(2500, BIAS), 40);
    assert!(matches!(r.last(), MotorCmd::Disabled));
    // boot seeded the fusion at the first measurement
    assert_eq!(r.k.state.fusion.theta_q16(), 2500 << 16);
    // the pot moves while disabled: the observer follows it anyway (the live
    // b_i bleed at the plant's saturated B settles the 1500-count step in ~920
    // medium ticks)
    r.ticks(frame(1000, BIAS), 12000);
    assert!(matches!(r.last(), MotorCmd::Disabled));
    let theta = r.k.state.fusion.theta_q16();
    assert!((theta - (1000 << 16)).abs() < 5 << 16, "theta_hat={theta}");
    // published while disabled
    assert_eq!(r.t.telemetry.estimates.theta_hat_q16, theta);
}

#[test]
fn enable_edge_reseeds_without_transient() {
    let mut r = rig();
    r.ticks(frame(2000, BIAS), 2000);
    r.t.control.lifecycle.torque_enable = true;
    r.t.control.lifecycle.goal_position = 2000;
    // at-goal enable: every command in the first stretch is at rest or a
    // bounded nudge - no integrator kick, no profile teleport
    for _ in 0..50 {
        r.tick(frame(2000, BIAS));
        match r.last() {
            MotorCmd::Coast | MotorCmd::Disabled => {}
            MotorCmd::Drive { duty, .. } => {
                assert!(duty.0.unsigned_abs() < 2000, "duty={}", duty.0)
            }
            MotorCmd::Brake => panic!("brake is never commanded"),
        }
    }
    assert_eq!(r.k.state.traj.theta_star_q16(), 2000 << 16);
}

#[test]
fn enable_edge_clears_hand_era_tau_d() {
    let mut r = rig();
    // torque off, shaft hand-swept then snapped back: with the b_i bleed live,
    // steady-rate motion is model-explained and leaves tau_d near zero - only
    // the snap transient (e pinned at the clamp) pumps it
    for i in 0..4000u32 {
        r.tick(frame(1000 + ((i / 4) % 2000) as u16, BIAS));
    }
    r.ticks(frame(1000, BIAS), 150);
    let tau = r.k.state.fusion.tau_d_counts();
    assert!(
        tau.unsigned_abs() > 200,
        "precondition: hand motion railed tau_d, got {tau}"
    );
    // enable at rest: fusion reseeds, so the collision check never sees the
    // stale disturbance and STALL must not latch
    r.t.control.lifecycle.torque_enable = true;
    r.t.control.lifecycle.mode = Mode::Current;
    r.t.control.lifecycle.goal_current = 0;
    r.ticks(frame(1500, BIAS), 200);
    assert_eq!(r.mask(), 0, "stale tau_d re-latched STALL");
    assert!(r.k.state.fusion.tau_d_counts().unsigned_abs() < 50);
}

#[test]
fn endstop_allows_retreat_from_the_wall() {
    let mut r = rig();
    r.t.control.lifecycle.torque_enable = true;
    r.t.control.lifecycle.mode = Mode::Current;
    r.t.control.lifecycle.goal_current = 120;
    // parked hard against the top wall
    r.ticks(frame(4095, BIAS), 400);
    // inward goal is banded to zero: no drive into the wall
    match r.last() {
        MotorCmd::Drive { duty, .. } => assert_eq!(duty.0, 0),
        MotorCmd::Coast | MotorCmd::Disabled => {}
        MotorCmd::Brake => panic!("brake is never commanded"),
    }
    // the door back out must be open: a retreat goal drives immediately.
    // Reverse drive samples the OTHER terminal, so the frame carries the rail
    // on vmotor_b - a forward-shaped frame would read the low leg as a
    // collapsed rail and latch UNDER_VOLT.
    r.t.control.lifecycle.goal_current = -120;
    let mut rev = frame(4095, BIAS);
    (rev.vmotor_a, rev.vmotor_a_trough) = (40, 40);
    (rev.vmotor_b, rev.vmotor_b_trough) = (3000, 3000);
    let mut drove = false;
    for _ in 0..400 {
        r.tick(rev);
        if let MotorCmd::Drive { duty, .. } = r.last() {
            drove |= duty.0 < 0;
        }
    }
    assert!(drove, "retreat from the wall never drove");
    assert_eq!(r.mask(), 0);
}

#[test]
fn undervolt_needs_fresh_evidence_no_stale_relatch() {
    let mut r = rig();
    r.t.control.lifecycle.torque_enable = true;
    r.t.control.lifecycle.mode = Mode::OpenLoop;
    r.t.control.lifecycle.goal_duty = 8192;
    // sagged rail: valid drive windows carry va under the undervolt floor
    let mut sagged = frame(2000, BIAS);
    sagged.vmotor_a = 1000;
    sagged.vmotor_a_trough = 1000;
    r.ticks(sagged, 400);
    assert_eq!(r.mask(), BIT_UNDER_VOLT, "sag latches");
    assert!(matches!(r.last(), MotorCmd::Disabled));
    // bridge off -> no window -> vbus estimate frozen at the sag; the ack must
    // stick because there is no fresh evidence
    r.t.control.lifecycle.torque_enable = false;
    r.ticks(sagged, 400);
    r.t.control.lifecycle.torque_enable = true;
    // recovered rail from here on
    r.ticks(frame(2000, BIAS), 2000);
    assert_eq!(r.mask(), 0, "stale sag re-latched undervolt");
    assert!(matches!(r.last(), MotorCmd::Drive { .. }));
    // a genuinely low rail re-latches through the same retry probe
    r.ticks(sagged, 2000);
    assert_eq!(r.mask(), BIT_UNDER_VOLT);
}

fn open_loop(duty: i16) -> Rig<()> {
    let mut r = rig();
    r.t.control.lifecycle.torque_enable = true;
    r.t.control.lifecycle.mode = Mode::OpenLoop;
    r.t.control.lifecycle.goal_duty = duty;
    r
}

#[test]
fn oc_latch_forces_disabled_despite_torque_enable() {
    let mut r = open_loop(16000);
    // tick 1 drives (windows still invalid: previous duty was 0)
    r.tick(frame(2000, BIAS + 3000));
    assert!(matches!(r.last(), MotorCmd::Drive { .. }));
    // 4 consecutive valid over-trip samples latch on the 4th
    for _ in 0..3 {
        r.tick(frame(2000, BIAS + 3000));
        assert_eq!(r.mask(), 0);
    }
    r.tick(frame(2000, BIAS + 3000));
    assert_eq!(r.mask(), BIT_OVER_CURRENT);
    assert!(matches!(r.last(), MotorCmd::Disabled));
    // torque_enable still set: stays disabled, publish lands at medium
    for _ in 0..10 {
        r.tick(frame(2000, BIAS + 3000));
        assert!(matches!(r.last(), MotorCmd::Disabled));
    }
    assert_eq!(r.t.telemetry.common.fault_flags, BIT_OVER_CURRENT);
    assert_eq!(r.t.telemetry.mode.fault_code, CODE_OVER_CURRENT);
    assert_eq!(r.t.telemetry.mode.mode_active, Mode::OpenLoop.as_byte());
}

#[test]
fn ack_clears_then_relatches_while_condition_persists() {
    let mut r = open_loop(16000);
    r.ticks(frame(2000, BIAS + 3000), 8);
    assert_eq!(r.mask(), BIT_OVER_CURRENT);
    // ack: drop then raise torque_enable
    r.t.control.lifecycle.torque_enable = false;
    r.tick(frame(2000, BIAS + 3000));
    r.t.control.lifecycle.torque_enable = true;
    r.tick(frame(2000, BIAS + 3000));
    assert_eq!(r.mask(), 0);
    assert!(matches!(r.last(), MotorCmd::Drive { .. }));
    // the overcurrent persists: a fresh window re-latches
    r.ticks(frame(2000, BIAS + 3000), 5);
    assert_eq!(r.mask(), BIT_OVER_CURRENT);
    assert!(matches!(r.last(), MotorCmd::Disabled));
}

#[test]
fn oc_gap_rearms_the_window() {
    let mut r = open_loop(16000);
    r.tick(frame(2000, BIAS + 3000)); // warmup: invalid window
    r.ticks(frame(2000, BIAS + 3000), 3);
    // one clean sample re-arms; three more over-samples do not latch
    r.tick(frame(2000, BIAS + 100));
    r.ticks(frame(2000, BIAS + 3000), 3);
    assert_eq!(r.mask(), 0);
    // the 4th consecutive does
    r.tick(frame(2000, BIAS + 3000));
    assert_eq!(r.mask(), BIT_OVER_CURRENT);
}

#[test]
fn openloop_duty_passthrough_clamped_with_decay() {
    let mut r = open_loop(8000);
    r.t.config.limits.openloop_decay = DecaySelect::Fast;
    r.tick(frame(2000, BIAS));
    match r.last() {
        MotorCmd::Drive { duty, decay } => {
            assert_eq!(duty.0, 8000);
            assert!(matches!(decay, DecayMode::Fast));
        }
        other => panic!("expected Drive, got {other:?}"),
    }
    // duty_max clamps the passthrough
    r.t.config.loop_current.duty_max_q15 = 5000;
    r.t.control.lifecycle.goal_duty = 8000;
    r.tick(frame(2000, BIAS));
    match r.last() {
        MotorCmd::Drive { duty, .. } => assert_eq!(duty.0, 5000),
        other => panic!("expected Drive, got {other:?}"),
    }
}

#[test]
fn current_mode_clamps_goal_to_i_lim() {
    let mut r = rig();
    r.t.control.lifecycle.torque_enable = true;
    r.t.control.lifecycle.mode = Mode::Current;
    r.t.control.lifecycle.goal_current = 5000;
    r.tick(frame(2000, BIAS));
    assert_eq!(r.k.state.i_ref_cc, 1200);
    assert!(matches!(
        r.last(),
        MotorCmd::Drive {
            decay: DecayMode::Slow,
            ..
        }
    ));
    r.t.control.lifecycle.goal_current = -5000;
    r.tick(frame(2000, BIAS));
    assert_eq!(r.k.state.i_ref_cc, -1200);
}

#[test]
fn position_error_latches_after_persistence() {
    let mut r = rig();
    r.t.control.lifecycle.torque_enable = true;
    r.t.control.lifecycle.goal_position = 3500;
    r.t.config.fault_cfg.pos_error_counts = 100;
    r.t.config.fault_cfg.pos_error_time_ms = 10; // 20 medium ticks
    // keep the stall path out of this test
    r.t.config.limits.stall_time_ms = 60000;
    // pot frozen at 500 while the profile marches away
    for _ in 0..4000 {
        r.tick(frame(500, BIAS));
        if r.mask() != 0 {
            break;
        }
    }
    assert_eq!(r.mask(), BIT_POSITION_ERROR);
    assert!(matches!(r.last(), MotorCmd::Disabled));
}

#[test]
fn publishes_land_in_the_table() {
    let mut r = rig();
    r.ticks(frame(1234, 2100), 20);
    let t = &r.t.telemetry;
    assert_eq!(t.sensors.pos, 1234);
    assert_eq!(t.sensors.current, 2100);
    assert_eq!(t.sensors.vmotor_a, 3000);
    assert_eq!(t.estimates.theta_hat_q16, r.k.state.fusion.theta_q16());
    assert_eq!(t.estimates.omega_hat_cps, r.k.state.fusion.omega_q16());
    assert_eq!(t.estimates.i_lim_counts, 1200);
    assert_eq!(t.estimates.duty_applied_q15, 0);
    assert_eq!(t.estimates.vbus_counts, 0); // never driven
    assert_eq!(t.mode.mode_active, Mode::Position.as_byte());
    assert_eq!(t.mode.fault_code, CODE_NONE);
    assert_eq!(t.common.fault_flags, 0);
}

// --- identification aggregates ------------------------------------------------

/// drive ticks at duty 8000 clear the 100-tick floors: windows valid from tick 2
/// on (tick 1 measures the boot duty of 0)
fn ident_rig() -> Rig<()> {
    open_loop(8000)
}

#[test]
fn ident_window_pins_aggregates() {
    let mut r = ident_rig();
    // window 1 (ticks 1-16) is boot-mixed; spend it
    r.ticks(frame(2000, BIAS + 100), 16);
    assert_eq!(r.t.telemetry.ident.agg_seq, 1);
    // window 2: 8 ticks at +100, 4 at +300, 4 at -60, all windows valid
    r.ticks(frame(2000, BIAS + 100), 8);
    // seq holds mid-window: publish only at the /16 boundary
    assert_eq!(r.t.telemetry.ident.agg_seq, 1);
    r.ticks(frame(2000, BIAS + 300), 4);
    r.ticks(frame(2000, BIAS - 60), 4);
    let d = &r.t.telemetry.ident;
    // (8*100 + 4*300 + 4*-60) >> 4 = 1760/16 = 110
    assert_eq!(d.i_mean_counts, 110);
    assert_eq!(d.i_min_counts, -60);
    assert_eq!(d.i_max_counts, 300);
    assert_eq!(d.vdiff_mean, 2960); // va 3000 - vb 40, every tick
    assert_eq!(d.duty_mean_q15, 8000);
    assert_eq!(d.agg_seq, 2);
}

#[test]
fn wide_differential_saturates_in_the_aggregate_alone() {
    let mut s = KernelState::new();
    s.measure(None, Some(65_535), 100);
    assert_eq!(s.vdiff_last, i16::MAX);
    s.measure(None, Some(-40_000), 100);
    assert_eq!(s.vdiff_last, i16::MIN);
    s.measure(None, Some(-5), 100);
    assert_eq!(s.vdiff_last, -5);
    s.measure(None, None, 100);
    assert_eq!(s.vdiff_last, -5);
    // a quarter of the period at 40000 counts: the mean is of the wide value
    assert_eq!(v_mean(ARR / 4, 40_000, TIMING.recip_arr_q24), 9_999);
    assert_eq!(v_mean(ARR / 4, i16::MAX as i32, TIMING.recip_arr_q24), 8_191);

    let mut r = ident_rig();
    let f = SensorFrame {
        vmotor_a: 50_000,
        vmotor_b: 0,
        ..frame(2000, BIAS)
    };
    r.ticks(f, 32);
    assert_eq!(r.t.telemetry.ident.vdiff_mean, i16::MAX);
}

#[test]
fn ident_invalid_ticks_hold_last_valid() {
    let mut r = ident_rig();
    r.ticks(frame(2000, BIAS + 200), 32);
    // disable: windows go invalid one tick later (tick 33 still measures the
    // period tick 32's command drove)
    r.t.control.lifecycle.torque_enable = false;
    r.ticks(frame(2000, BIAS + 200), 16);
    let d = &r.t.telemetry.ident;
    // 15 invalid ticks held the last valid i/vdiff: means stay put
    assert_eq!(d.i_mean_counts, 200);
    assert_eq!(d.i_min_counts, 200);
    assert_eq!(d.i_max_counts, 200);
    assert_eq!(d.vdiff_mean, 2960);
    // duty is per-tick truth: 8000 on tick 33 only -> 8000>>4 = 500
    assert_eq!(d.duty_mean_q15, 500);
    assert_eq!(d.agg_seq, 3);
}

#[test]
fn ident_accumulators_reset_between_windows() {
    let mut r = ident_rig();
    // windows 1 (boot-mixed) and 2 at a big current
    r.ticks(frame(2000, BIAS + 1000), 32);
    assert_eq!(r.t.telemetry.ident.i_max_counts, 1000);
    // window 3: 15 ticks at 0, one at -5; window 2's 1000 must not leak
    r.ticks(frame(2000, BIAS), 15);
    r.tick(frame(2000, BIAS - 5));
    let d = &r.t.telemetry.ident;
    assert_eq!(d.i_max_counts, 0);
    assert_eq!(d.i_min_counts, -5);
    // sum -5 >> 4: arithmetic shift floors to -1
    assert_eq!(d.i_mean_counts, -1);
    assert_eq!(d.agg_seq, 3);
}

// --- closed-loop plant ---------------------------------------------------------

/// Crude integer plant in the identification-model shape:
/// `omega[k+1] = a*omega[k] + b*duty - coulomb`, theta integrates, pot = theta >>
/// 16 clamped 0..4095, `i = (duty*vbus>>15 - ke*omega)/R`. Units loose on purpose
/// - qualitative closed-loop behavior, not fidelity.
struct Plant {
    theta_q16: i64,
    omega_cps: i32,
    vbus: u16,
    frozen: bool,
}

impl Plant {
    fn new(pos: u16) -> Self {
        Self {
            theta_q16: (pos as i64) << 16,
            omega_cps: 0,
            vbus: 3000,
            frozen: false,
        }
    }

    /// One FAST tick: a = 1 - 1/64, b*duty = duty*200>>15, coulomb 8 c/s toward
    /// zero; frozen = hard wall (theta pinned, omega 0).
    fn step(&mut self, duty: i16) -> SensorFrame {
        if self.frozen {
            self.omega_cps = 0;
        } else {
            self.omega_cps += ((duty as i32 * 200) >> 15) - (self.omega_cps >> 6);
            if self.omega_cps > 0 {
                self.omega_cps = (self.omega_cps - 8).max(0);
            } else {
                self.omega_cps = (self.omega_cps + 8).min(0);
            }
            self.theta_q16 += ((self.omega_cps as i64) << 16) / 20_000;
        }
        let pos = (self.theta_q16 >> 16).clamp(0, 4095) as u16;
        // ke = 1/16 vcounts per c/s, R = 2 vcounts/ccount
        let v = (duty as i32 * self.vbus as i32) >> 15;
        let i = (v - (self.omega_cps >> 4)) >> 1;
        let mag = if duty >= 0 { i } else { -i };
        let sample = (BIAS as i32 + mag).clamp(0, 4095) as u16;
        let (va, vb) = if duty >= 0 {
            (self.vbus, 40)
        } else {
            (40, self.vbus)
        };
        SensorFrame {
            pos,
            current: sample,
            current_trough: sample,
            vmotor_a: va,
            vmotor_a_trough: va,
            vmotor_b: vb,
            vmotor_b_trough: vb,
            vcal: 1200,
            tick: 0,
        }
    }

    fn pos(&self) -> i32 {
        (self.theta_q16 >> 16) as i32
    }
}

fn run_plant(r: &mut Rig<()>, plant: &mut Plant, ticks: u32) {
    for _ in 0..ticks {
        let f = plant.step(r.k.state.duty_q15);
        r.tick(f);
    }
}

fn position_rig(goal: i32) -> Rig<()> {
    let mut r = rig();
    r.t.control.lifecycle.torque_enable = true;
    r.t.control.lifecycle.goal_position = goal;
    // the plant/gain pair is qualitative; keep the tracking screen out
    r.t.config.fault_cfg.pos_error_counts = u16::MAX;
    r
}

#[test]
fn position_step_settles_without_limit_cycle() {
    let mut r = position_rig(3000);
    // this plant accelerates far beyond what the (deliberately degenerate) b_i
    // predict explains, so a large l3 rails tau_d into the collision trip on
    // every ramp; keep it gentle here
    r.t.config.fusion.l3_q88 = 256;
    // tighter position loop so the post-profile residual closes inside the run
    // instead of creeping on a 1 s time constant
    r.t.config.loop_position.p_kp_q88 = 1024;
    let mut plant = Plant::new(1000);
    run_plant(&mut r, &mut plant, 40_000); // 2 s
    assert_eq!(r.mask(), 0);
    assert!(
        (plant.pos() - 3000).abs() <= 16,
        "settled at {}",
        plant.pos()
    );
    assert_eq!(
        r.k.state.traj.theta_star_q16(),
        3000 << 16,
        "profile landed"
    );
    // trailing window: position parked, motor overwhelmingly coasting
    let (mut lo, mut hi, mut coast) = (i32::MAX, i32::MIN, 0u32);
    for _ in 0..2000 {
        run_plant(&mut r, &mut plant, 1);
        lo = lo.min(plant.pos());
        hi = hi.max(plant.pos());
        if matches!(r.last(), MotorCmd::Coast) {
            coast += 1;
        }
    }
    assert!(hi - lo <= 2, "limit cycle: spread {}", hi - lo);
    assert!(coast >= 1500, "coast ticks {coast}");
}

#[test]
fn velocity_mode_tracks_a_ramp() {
    let mut r = rig();
    r.t.control.lifecycle.torque_enable = true;
    r.t.control.lifecycle.mode = Mode::Velocity;
    // plenty of travel so the pot never rails
    r.t.config.pos_limits.pos_max_soft_counts = 1_000_000;
    let mut plant = Plant::new(100);
    for seg in 1..=4i32 {
        r.t.control.lifecycle.goal_velocity = 500 * seg;
        run_plant(&mut r, &mut plant, 4000); // 200 ms per segment
    }
    assert_eq!(r.mask(), 0);
    let omega_hat = r.k.state.fusion.omega_q16() >> 16;
    assert!((omega_hat - 2000).abs() <= 300, "omega_hat={omega_hat}");
    assert!(
        (plant.omega_cps - 2000).abs() <= 300,
        "plant omega={}",
        plant.omega_cps
    );
}

#[test]
fn hard_wall_stall_yields() {
    let mut r = position_rig(3500);
    let mut plant = Plant::new(500);
    plant.frozen = true;
    // The live observer first books the wall current as tau_d, so the wind-up is
    // integrator-paced; the stall then folds i_lim to yield, the weaker drive
    // lets tau_d bleed below release, and the fold opens into another probe.
    // That probe-the-wall cycle makes any single-phase pin flaky - assert the
    // cycle's invariants across a run instead.
    let mut saw_full = false;
    let mut saw_fold = false;
    for _ in 0..24_000 {
        run_plant(&mut r, &mut plant, 1);
        if r.k.state.i_ref_cc == 1200 {
            saw_full = true;
        }
        if r.t.telemetry.estimates.i_lim_counts == 300 {
            saw_fold = true;
        }
    }
    assert!(saw_full, "wind-up reached i_lim");
    assert!(saw_fold, "stall folded to yield");
    assert_eq!(r.mask(), 0, "Yield never latches");
}

#[test]
fn hard_wall_stall_faults() {
    let mut r = position_rig(3500);
    r.t.config.limits.stall_response = StallResponse::Fault;
    let mut plant = Plant::new(500);
    plant.frozen = true;
    run_plant(&mut r, &mut plant, 20_000);
    assert_eq!(r.mask(), BIT_STALL);
    assert!(matches!(r.last(), MotorCmd::Disabled));
    assert_eq!(r.t.telemetry.mode.fault_code, CODE_STALL);
}

fn parked_rig() -> (Rig<()>, Plant) {
    let mut r = position_rig(2000);
    r.t.config.fusion.l3_q88 = 256;
    r.t.config.loop_position.p_kp_q88 = 1024;
    let mut plant = Plant::new(1990);
    run_plant(&mut r, &mut plant, 20_000);
    assert!(matches!(r.last(), MotorCmd::Coast), "never parked");
    (r, plant)
}

#[test]
fn only_position_mode_coasts() {
    for mode in [Mode::OpenLoop, Mode::Current, Mode::Velocity] {
        let (mut r, mut plant) = parked_rig();
        r.t.control.lifecycle.mode = mode;
        for _ in 0..40 {
            run_plant(&mut r, &mut plant, 1);
            assert!(matches!(r.last(), MotorCmd::Drive { .. }), "{mode:?}");
        }
    }
    // a disable drops the hold with the drive: the next enable drives first
    let (mut r, mut plant) = parked_rig();
    r.t.control.lifecycle.torque_enable = false;
    run_plant(&mut r, &mut plant, 1);
    assert!(matches!(r.last(), MotorCmd::Disabled));
    assert!(!r.k.state.hold);
}

#[test]
fn hold_parks_releases_and_reparks() {
    let (mut r, mut plant) = parked_rig();
    assert_eq!(r.mask(), 0);
    // a goal write releases the park (omega_star != 0 drops hold); the whole
    // commanded move must run without a single Coast, then it re-parks once the
    // profile lands inside the deadband
    r.t.control.lifecycle.goal_position = 2100;
    let mut saw_move = false;
    let mut reparked = false;
    for _ in 0..20_000u32 {
        run_plant(&mut r, &mut plant, 1);
        let moving = r.k.state.traj.omega_star_q16() != 0;
        if moving {
            saw_move = true;
            assert!(!matches!(r.last(), MotorCmd::Coast), "coast mid-move");
        }
        if saw_move && !moving && matches!(r.last(), MotorCmd::Coast) {
            reparked = true;
        }
    }
    assert!(saw_move, "goal write never started the profile");
    assert!(reparked, "never re-parked after the move");
    assert_eq!(r.mask(), 0);
    // an external push out of the deadband wakes the park, then it re-parks
    plant.theta_q16 -= 60i64 << 16;
    let mut woke = false;
    for _ in 0..2000 {
        run_plant(&mut r, &mut plant, 1);
        woke |= !matches!(r.last(), MotorCmd::Coast);
    }
    assert!(woke, "push never woke the hold");
    let mut coast = 0u32;
    for _ in 0..30_000 {
        run_plant(&mut r, &mut plant, 1);
        if matches!(r.last(), MotorCmd::Coast) {
            coast += 1;
        }
    }
    assert!(
        coast > 15_000,
        "never re-parked after the push: coast {coast}"
    );
    assert_eq!(r.mask(), 0);
    assert!((plant.pos() - 2100).abs() <= 16, "rest {}", plant.pos());
}

#[test]
fn hold_stays_parked_under_pot_noise() {
    let (mut r, mut plant) = parked_rig();
    // parked hold under +-3 counts of pot noise: gating on position rest (not
    // the noisy omega_hat) keeps the park engaged
    let mut rng: u32 = 0xdead_beef;
    let (mut coast, mut lo, mut hi) = (0u32, i32::MAX, i32::MIN);
    for _ in 0..40_000 {
        let mut f = plant.step(r.k.state.duty_q15);
        rng = rng.wrapping_mul(1_664_525).wrapping_add(1_013_904_223);
        let n = ((rng >> 24) as i32 % 7) - 3;
        f.pos = (f.pos as i32 + n).clamp(0, 4095) as u16;
        r.tick(f);
        if matches!(r.last(), MotorCmd::Coast) {
            coast += 1;
        }
        lo = lo.min(plant.pos());
        hi = hi.max(plant.pos());
    }
    assert_eq!(r.mask(), 0);
    assert!(hi - lo <= 4, "hold limit cycle: spread {}", hi - lo);
    assert!(coast >= 36_000, "coast ticks {coast} of 40000");
}

#[test]
fn current_mode_endstop_unwinds_duty_to_zero() {
    let mut r = rig();
    r.t.control.lifecycle.torque_enable = true;
    r.t.control.lifecycle.mode = Mode::Current;
    r.t.control.lifecycle.goal_current = 300;
    r.t.config.pos_limits.pos_max_soft_counts = 3000;
    r.t.config.fault_cfg.pos_error_counts = u16::MAX;
    r.t.config.limits.stall_tau_trip_counts = u16::MAX;
    let mut plant = Plant::new(1000);
    // free flight into the soft wall with a wound-up loop
    run_plant(&mut r, &mut plant, 20_000);
    assert_eq!(r.mask(), 0);
    assert!(
        plant.pos() >= 3000,
        "never reached the wall: {}",
        plant.pos()
    );
    // past the wall the endstop zeroes i_ref; the loop must unwind ALL the way
    // to zero, not freeze at the sub-floor duty the honest-zero feed leaves
    // behind
    assert_eq!(r.k.state.duty_q15, 0, "duty froze above zero at the wall");
    let mut zero = 0u32;
    for _ in 0..2000 {
        run_plant(&mut r, &mut plant, 1);
        if r.k.state.duty_q15 == 0 {
            zero += 1;
        }
    }
    assert!(zero >= 1990, "duty kept firing at the wall: {zero} of 2000");
}

#[test]
fn velocity_mode_brakes_at_the_soft_wall() {
    let mut r = rig();
    r.t.control.lifecycle.torque_enable = true;
    r.t.control.lifecycle.mode = Mode::Velocity;
    r.t.control.lifecycle.goal_velocity = 2000;
    r.t.config.pos_limits.pos_max_soft_counts = 3000;
    r.t.config.fault_cfg.pos_error_counts = u16::MAX;
    r.t.config.limits.stall_tau_trip_counts = u16::MAX;
    let mut plant = Plant::new(1000);
    run_plant(&mut r, &mut plant, 30_000);
    assert_eq!(r.mask(), 0);
    // the wall ramp shrinks the inward goal with distance: the profile
    // decelerates INTO the wall instead of leaving momentum to coast on an
    // open-loop current cut, and parks without a flip-flop limit cycle
    assert!(
        plant.pos() >= 2950 && plant.pos() <= 3020,
        "rest pos {}",
        plant.pos()
    );
    let (mut lo, mut hi) = (i32::MAX, i32::MIN);
    let mut star_max = 0i32;
    for _ in 0..4000 {
        run_plant(&mut r, &mut plant, 1);
        lo = lo.min(plant.pos());
        hi = hi.max(plant.pos());
        star_max = star_max.max(r.k.state.traj.omega_star_q16());
    }
    assert!(hi - lo <= 4, "limit cycle at the wall: spread {}", hi - lo);
    assert!(
        star_max <= 64 << 16,
        "profile still commands inward speed: {}",
        star_max >> 16
    );
    // the door back out stays open
    r.t.control.lifecycle.goal_velocity = -500;
    run_plant(&mut r, &mut plant, 20_000);
    assert!(
        plant.pos() < 2900,
        "retreat from the wall failed: {}",
        plant.pos()
    );
}

#[test]
fn position_step_survives_tick_deletion() {
    let mut r = position_rig(3000);
    r.t.config.fusion.l3_q88 = 256;
    r.t.config.loop_position.p_kp_q88 = 1024;
    let mut plant = Plant::new(1000);
    // ~10% of ticks vanish; the plant keeps running on the stale duty
    // (tick-indexed: dilation, never compensation)
    let mut rng: u32 = 0x1357_9bdf;
    for _ in 0..40_000 {
        let f = plant.step(r.k.state.duty_q15);
        rng = rng.wrapping_mul(1_664_525).wrapping_add(1_013_904_223);
        if rng % 10 != 0 {
            r.tick(f);
        }
    }
    assert_eq!(r.mask(), 0);
    assert!(
        (plant.pos() - 3000).abs() <= 24,
        "settled at {}",
        plant.pos()
    );
    // still parks: trailing spread stays flat
    let (mut lo, mut hi) = (i32::MAX, i32::MIN);
    for _ in 0..2000 {
        run_plant(&mut r, &mut plant, 1);
        lo = lo.min(plant.pos());
        hi = hi.max(plant.pos());
    }
    assert!(hi - lo <= 4, "limit cycle: spread {}", hi - lo);
}

// --- telemetry stream -----------------------------------------------------------

/// Every mask bit of the stream.
const MASK_ALL: u16 = 0x3f;

#[test]
fn tel_stream_gated_by_enable_and_mask() {
    let mut t = ControlTableCell::new().table;
    seed(&mut t);
    let mut r = Rig {
        k: Kernel::with_tel(CmdLog::new(), StreamLog::new(), TIMING),
        t,
        b: Bench::new(),
    };
    // enable/mask both zero, then each alone: no emission
    r.ticks(frame(2000, BIAS), 10);
    r.t.control.lifecycle.tel_enable = true;
    r.ticks(frame(2000, BIAS), 10);
    r.t.control.lifecycle.tel_enable = false;
    r.t.control.lifecycle.tel_mask = MASK_ALL;
    r.ticks(frame(2000, BIAS), 10);
    assert!(r.k.tel.calls.is_empty());

    // both set: one sample per tick, table mask forwarded
    r.t.control.lifecycle.tel_enable = true;
    r.t.control.lifecycle.torque_enable = true;
    r.t.control.lifecycle.mode = Mode::OpenLoop;
    r.t.control.lifecycle.goal_duty = 8000;
    r.ticks(frame(2100, BIAS + 40), 20);
    let samples: Vec<TelSample> = r
        .k
        .tel
        .calls
        .iter()
        .filter_map(|c| match c {
            StreamCall::Sample { sample } => Some(*sample),
            StreamCall::Configure { enabled, mask } => {
                assert!(*enabled);
                assert_eq!(*mask, MASK_ALL);
                None
            }
        })
        .collect();
    assert_eq!(samples.len(), 20);
    assert_eq!(r.k.tel.calls.len(), 40);
    let s = samples.last().unwrap();
    assert_eq!(s.pos, 2100);
    assert_eq!(s.current_trough, BIAS + 40);
    // previous-tick alignment: the sampled duty is the command whose window this
    // frame measured
    assert_eq!(s.duty_q15, 8000);
    // duty 8000/32767 of ARR is far above the 100-tick window floors
    assert!(s.window_valid);
    assert_eq!(s.current, 40);
}

#[test]
fn stream_duty_is_the_last_command() {
    let mut t = ControlTableCell::new().table;
    seed(&mut t);
    let mut r = Rig {
        k: Kernel::with_tel(CmdLog::new(), StreamLog::new(), TIMING),
        t,
        b: Bench::new(),
    };
    let life = &mut r.t.control.lifecycle;
    life.tel_enable = true;
    life.tel_mask = 1;
    life.torque_enable = true;
    life.mode = Mode::OpenLoop;
    life.goal_duty = 5000;
    r.tick(frame(2000, BIAS));
    r.t.control.lifecycle.goal_duty = -6000;
    r.tick(frame(2001, BIAS + 1));
    r.t.control.lifecycle.torque_enable = false;
    r.tick(frame(2002, BIAS + 2));
    r.tick(frame(2003, BIAS + 3));
    r.t.control.lifecycle.tel_mask = 0;
    r.tick(frame(2004, BIAS + 4));
    let seen: Vec<(u16, u16, i16)> = r
        .k
        .tel
        .calls
        .iter()
        .filter_map(|c| match c {
            StreamCall::Sample { sample } => {
                Some((sample.pos, sample.current_trough, sample.duty_q15))
            }
            StreamCall::Configure { .. } => None,
        })
        .collect();
    assert_eq!(
        seen,
        [
            (2000, BIAS, 0),
            (2001, BIAS + 1, 5000),
            (2002, BIAS + 2, -6000),
            (2003, BIAS + 3, 0)
        ]
    );
    assert_eq!(r.k.tel.calls.len(), 8);
    // one bridge write per tick, whatever the tick decided
    assert_eq!(r.k.io.cmds.len(), 5);
}

#[test]
fn kernel_writes_telemetry_alone() {
    let (mut r, mut plant) = parked_rig();
    r.t.telemetry.sensors.current_bias_counts = BIAS;
    let before = r.t;
    run_plant(&mut r, &mut plant, 700);
    let f = SensorFrame {
        pos: 2011,
        current: BIAS + 7,
        vcal: 1234,
        vmotor_a: 3001,
        vmotor_b: 41,
        current_trough: BIAS + 3,
        ..frame(2011, BIAS + 7)
    };
    r.tick(f);
    let s = &r.t.telemetry.sensors;
    assert_eq!(s.current_bias_counts, BIAS);
    assert_eq!((s.pos, s.current, s.vcal), (2011, BIAS + 7, 1234));
    assert_eq!((s.vmotor_a, s.vmotor_b), (3001, 41));
    assert_eq!(s.current_trough, BIAS + 3);
    let (now, then) = (&r.t.control.lifecycle, &before.control.lifecycle);
    assert_eq!(now.torque_enable, then.torque_enable);
    assert_eq!(now.mode, then.mode);
    assert_eq!(now.goal_duty, then.goal_duty);
    assert_eq!(now.goal_position, then.goal_position);
    assert_eq!(now.goal_velocity, then.goal_velocity);
    assert_eq!(now.goal_current, then.goal_current);
    assert_eq!(r.t.config.limits, before.config.limits);
    assert_eq!(r.t.config.loop_position, before.config.loop_position);
    assert_eq!(r.t.calib.motor, before.calib.motor);
    assert_eq!(r.t.calib.sense, before.calib.sense);
    assert_eq!(r.t.profile.words, before.profile.words);
}

// --- what the blocks are asked ---------------------------------------------------

#[test]
fn first_tick_runs_every_rate_in_order() {
    let mut t = ControlTableCell::new().table;
    seed(&mut t);
    let mut k = Kernel::new(CmdLog::new(), TIMING);
    let mut log = CallLog::new();
    k.on_tick(frame(2000, BIAS), &mut t, &mut log);
    let names: Vec<&str> = log
        .calls
        .iter()
        .map(|c| match c {
            Call::FilterVcal { .. } => "vcal",
            Call::Window { .. } => "window",
            Call::OverCurrent { .. } => "oc",
            Call::RailCounts { .. } => "rail",
            Call::Aggregate { .. } => "aggregate",
            Call::FaultFlags { .. } => "flags",
            Call::BemfCps { .. } => "bemf",
            Call::CurrentLimit { .. } => "limit",
            Call::FoldLimits { .. } => "fold",
            Call::StallPending { .. } => "stall",
            Call::StepRail { .. } => "step rail",
            Call::StepBemf { .. } => "step bemf",
            Call::SensorBad { .. } => "sensor",
            Call::TrackingLost { .. } => "tracking",
            Call::StepThermometer { .. } => "thermometer",
            Call::Derate { .. } => "derate",
            Call::TakeRailFresh { .. } => "fresh",
            Call::WindingTemp { .. } => "temp",
            Call::WindingRes { .. } => "res",
            Call::RailRecip { .. } => "recip",
            Call::FaultCode { .. } => "code",
            _ => "other",
        })
        .collect();
    assert_eq!(
        names,
        [
            "vcal",
            "window",
            "oc",
            "rail",
            "aggregate",
            "flags",
            "bemf",
            "limit",
            "fold",
            "stall",
            "step rail",
            "step bemf",
            "sensor",
            "tracking",
            "thermometer",
            "derate",
            "rail",
            "fresh",
            "limit",
            "temp",
            "rail",
            "res",
            "code",
            "flags",
            "flags",
            "rail",
            "recip"
        ]
    );
    // the second tick is a fast tick only
    let n = log.calls.len();
    k.on_tick(frame(2000, BIAS), &mut t, &mut log);
    assert_eq!(log.calls.len() - n, 9);
    assert_eq!(k.io.cmds, [MotorCmd::Disabled, MotorCmd::Disabled]);
}

#[test]
fn raised_fault_disables_the_same_tick_until_acknowledged() {
    let mut t = ControlTableCell::new().table;
    seed(&mut t);
    // the log's winding reads 0 cc: at or past this cutoff
    t.config.thermal.cutoff_cc = 0;
    t.control.lifecycle.torque_enable = true;
    t.control.lifecycle.mode = Mode::OpenLoop;
    t.control.lifecycle.goal_duty = 4000;
    let mut k = Kernel::new(CmdLog::new(), TIMING);
    let mut log = CallLog::new();
    let r = k.on_tick(frame(2000, BIAS), &mut t, &mut log);
    // no flag stood at the enable; the slow pass raised it, and the drive is off
    assert_eq!(r.replies.flags_at_gate, 0);
    assert!(log.calls.contains(&Call::Raise {
        fault: Fault::OverTemp
    }));
    assert_ne!(r.replies.flags_at_drive, 0);
    assert_eq!(r.replies.flags_at_drive, log.mask);
    assert_eq!(r.cmd, MotorCmd::Disabled);
    assert_eq!(t.telemetry.common.fault_flags, log.mask);
    // latched: the cause gone, the drive stays off
    t.config.thermal.cutoff_cc = 8000;
    for _ in 0..3 {
        assert_eq!(
            k.on_tick(frame(2000, BIAS), &mut t, &mut log).cmd,
            MotorCmd::Disabled
        );
    }
    // a fresh enable acknowledges it
    t.control.lifecycle.torque_enable = false;
    k.on_tick(frame(2000, BIAS), &mut t, &mut log);
    t.control.lifecycle.torque_enable = true;
    let r = k.on_tick(frame(2000, BIAS), &mut t, &mut log);
    assert!(r.acknowledged);
    assert_eq!(log.mask, 0);
    assert!(matches!(r.cmd, MotorCmd::Drive { duty, .. } if duty.0 == 4000));
}

#[test]
fn current_loop_is_handed_the_rail_pair() {
    let mut t = ControlTableCell::new().table;
    seed(&mut t);
    t.config.thermal.v_undervolt_counts = 700;
    let mut s = KernelState::new();
    s.i_ref_cc = 5;
    t.control.lifecycle.mode = Mode::Velocity;
    let plan = |vbus: u16| {
        s.clone().plan_drive(
            true,
            &t.control.lifecycle,
            &t.config.loop_current,
            &t.config.limits,
            9,
            Some(3),
            vbus,
            t.config.thermal.v_undervolt_counts,
            123_456,
        )
    };
    for (vbus, eff) in [(650, 700), (1700, 1700)] {
        match plan(vbus) {
            DrivePlan::Step(q) => assert_eq!((q.vbus_eff, q.recip_q15), (eff, 123_456)),
            p => panic!("{p:?}"),
        }
    }
}

#[test]
fn zero_reference_without_a_window_drains_the_current_loop() {
    let mut t = ControlTableCell::new().table;
    seed(&mut t);
    t.control.lifecycle.torque_enable = true;
    t.control.lifecycle.mode = Mode::Current;
    let mut k = Kernel::new(CmdLog::new(), TIMING);
    let mut log = CallLog::new();
    k.on_tick(frame(2000, BIAS), &mut t, &mut log);
    assert!(log.calls.contains(&Call::Acknowledge));
    assert_eq!(log.calls.last(), Some(&Call::ResetCurrent));
    assert!(matches!(
        k.io.cmds[0],
        MotorCmd::Drive { duty, decay: DecayMode::Slow } if duty.0 == 0
    ));
}
