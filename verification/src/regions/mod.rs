//! Host-visible register state. Sections carve contiguous byte ranges out of a
//! flat map:
//!
//!   CONFIG    0x000..0x080  persistent via SAVE
//!   CALIB     0x080..0x180
//!   CONTROL   0x180..0x200  volatile
//!   TELEMETRY 0x200..0x280  read-only from the host
//!   PROFILE   0x280..0x2C0  read-profile span words

use vstd::prelude::*;

pub mod calib;
pub mod config;
pub mod control;
pub mod telemetry;

use calib::{CalibRegs, CalibSense};
use config::{
    BaudRate, ConfigCommon, ConfigDefaults, ConfigRegs, DEFAULT_ACCEL_LIMIT_Q88,
    DEFAULT_CURRENT_LIMIT_COUNTS, DEFAULT_CUTOFF_CC, DEFAULT_DERATE_START_CC,
    DEFAULT_DRIVE_POLARITY, DEFAULT_DUTY_MAX_Q15, DEFAULT_OC_TRIP_COUNTS, DEFAULT_OC_TRIP_TICKS,
    DEFAULT_POS_DEADBAND_COUNTS, DEFAULT_POS_ERROR_COUNTS, DEFAULT_POS_ERROR_TIME_MS,
    DEFAULT_RECOVER_CC, DEFAULT_RTHERM_I_MIN_COUNTS, DEFAULT_RTHERM_OMEGA_MAX_CPS,
    DEFAULT_SENSOR_BAD_COUNT, DEFAULT_SENSOR_DELTA_MAX, DEFAULT_STALL_OMEGA_MAX_CPS,
    DEFAULT_STALL_RELEASE_COUNTS, DEFAULT_STALL_TAU_TRIP_COUNTS, DEFAULT_STALL_TIME_MS,
    DEFAULT_STALL_YIELD_COUNTS, DEFAULT_VELOCITY_LIMIT_CPS, DEFAULT_V_UNDERVOLT_COUNTS,
};
use control::ControlRegs;
use telemetry::{TelemetryRegs, TelemetrySensors};

verus! {

/// Firmware version stamped into the identity block: a table-layout counter;
/// 0 is reserved for an unversioned build.
pub const FIRMWARE_VERSION: u8 = 1;

pub const CONFIG_REGION_SIZE: u16 = 128;

pub const CALIB_REGION_SIZE: u16 = 256;

pub const CONTROL_REGION_SIZE: u16 = 128;

pub const TELEMETRY_REGION_SIZE: u16 = 128;

pub const PROFILE_REGION_SIZE: u16 = 64;

pub const CONFIG_BASE_ADDR: u16 = 0x000;

pub const CALIB_BASE_ADDR: u16 = 0x080;

pub const CONTROL_BASE_ADDR: u16 = 0x180;

pub const TELEMETRY_BASE_ADDR: u16 = 0x200;

pub const PROFILE_BASE_ADDR: u16 = 0x280;

/// Read-profile span words.
#[derive(Copy, Clone)]
pub struct ProfileRegs {
    pub words: [u16; 32],
}

#[derive(Copy, Clone)]
pub struct ControlTable {
    pub config: ConfigRegs,
    pub calib: CalibRegs,
    pub control: ControlRegs,
    pub telemetry: TelemetryRegs,
    pub profile: ProfileRegs,
}

/// The table and its install-time writers.
pub struct ControlTableCell {
    pub table: ControlTable,
}

impl ControlTableCell {
    /// The all-zero table.
    pub fn new() -> (r: Self)
        ensures
            r.table.config.is_zero(),
            r.table.calib.is_zero(),
            r.table.control.is_zero(),
            r.table.telemetry == TelemetryRegs::zero(),
            forall|i: int| 0 <= i < 32 ==> r.table.profile.words@[i] == 0,
    {
        ControlTableCell {
            table: ControlTable {
                config: ConfigRegs::zeroed(),
                calib: CalibRegs::zeroed(),
                control: ControlRegs::zeroed(),
                telemetry: TelemetryRegs::zeroed(),
                profile: ProfileRegs { words: [0; 32] },
            },
        }
    }

    /// Stamp the boot defaults. Soft limits start at the physical limits; the
    /// gains keep their seed, so every loop boots inert.
    pub fn seed_config_defaults(&mut self, defaults: &ConfigDefaults)
        ensures
            final(self).table == (ControlTable {
                config: old(self).table.config.seeded(*defaults),
                ..old(self).table
            }),
    {
        let mut cfg: ConfigRegs = self.table.config;
        cfg.pos_limits.pos_min_phys_counts = defaults.pos_min_phys_counts;
        cfg.pos_limits.pos_max_phys_counts = defaults.pos_max_phys_counts;
        cfg.pos_limits.pos_min_soft_counts = defaults.pos_min_phys_counts;
        cfg.pos_limits.pos_max_soft_counts = defaults.pos_max_phys_counts;
        cfg.common.id = defaults.id;
        cfg.common.baud_rate_idx = defaults.baud.as_idx();
        cfg.common.response_deadline_us = defaults.response_deadline_us;
        cfg.loop_current.duty_max_q15 = DEFAULT_DUTY_MAX_Q15;
        cfg.loop_position.velocity_limit_cps = DEFAULT_VELOCITY_LIMIT_CPS;
        cfg.loop_position.accel_limit_q88 = DEFAULT_ACCEL_LIMIT_Q88;
        cfg.loop_position.pos_deadband_counts = DEFAULT_POS_DEADBAND_COUNTS;
        cfg.limits.current_limit_counts = DEFAULT_CURRENT_LIMIT_COUNTS;
        cfg.limits.drive_polarity = DEFAULT_DRIVE_POLARITY;
        cfg.limits.stall_omega_max_cps = DEFAULT_STALL_OMEGA_MAX_CPS;
        cfg.limits.stall_time_ms = DEFAULT_STALL_TIME_MS;
        cfg.limits.stall_yield_counts = DEFAULT_STALL_YIELD_COUNTS;
        cfg.limits.stall_release_counts = DEFAULT_STALL_RELEASE_COUNTS;
        cfg.limits.stall_tau_trip_counts = DEFAULT_STALL_TAU_TRIP_COUNTS;
        cfg.limits.oc_trip_counts = DEFAULT_OC_TRIP_COUNTS;
        cfg.limits.oc_trip_ticks = DEFAULT_OC_TRIP_TICKS;
        cfg.thermal.derate_start_cc = DEFAULT_DERATE_START_CC;
        cfg.thermal.cutoff_cc = DEFAULT_CUTOFF_CC;
        cfg.thermal.recover_cc = DEFAULT_RECOVER_CC;
        cfg.thermal.v_undervolt_counts = DEFAULT_V_UNDERVOLT_COUNTS;
        cfg.thermal.rtherm_i_min_counts = DEFAULT_RTHERM_I_MIN_COUNTS;
        cfg.thermal.rtherm_omega_max_cps = DEFAULT_RTHERM_OMEGA_MAX_CPS;
        cfg.fault_cfg.pos_error_counts = DEFAULT_POS_ERROR_COUNTS;
        cfg.fault_cfg.pos_error_time_ms = DEFAULT_POS_ERROR_TIME_MS;
        cfg.fault_cfg.sensor_delta_max = DEFAULT_SENSOR_DELTA_MAX;
        cfg.fault_cfg.sensor_bad_count = DEFAULT_SENSOR_BAD_COUNT;
        self.table.config = cfg;
    }

    /// Stamp the read-only identity block. The firmware version is no argument:
    /// a board cannot claim a version it is not running.
    pub fn seed_identity(&mut self, model: u16, hw_rev: u8)
        ensures
            final(self).table == (ControlTable {
                config: ConfigRegs {
                    common: ConfigCommon {
                        model_number: model,
                        hardware_revision: hw_rev,
                        firmware_version: FIRMWARE_VERSION,
                        ..old(self).table.config.common
                    },
                    ..old(self).table.config
                },
                ..old(self).table
            }),
    {
        self.table.config.common.model_number = model;
        self.table.config.common.hardware_revision = hw_rev;
        self.table.config.common.firmware_version = FIRMWARE_VERSION;
    }

    /// Stamp the read-only sense primitives: board facts, not host-writable
    /// state.
    pub fn seed_calib_sense(&mut self, sense: &CalibSense)
        ensures
            final(self).table == (ControlTable {
                calib: CalibRegs { sense: *sense, ..old(self).table.calib },
                ..old(self).table
            }),
    {
        self.table.calib.sense = *sense;
    }

    /// Stamp the boot-measured zero-current output of the sense chain, the
    /// offset every current reading is relative to.
    pub fn seed_current_bias(&mut self, counts: u16)
        ensures
            final(self).table == (ControlTable {
                telemetry: TelemetryRegs {
                    sensors: TelemetrySensors {
                        current_bias_counts: counts,
                        ..old(self).table.telemetry.sensors
                    },
                    ..old(self).table.telemetry
                },
                ..old(self).table
            }),
    {
        self.table.telemetry.sensors.current_bias_counts = counts;
    }
}

/// The boot seed leaves every gain alone, puts the soft limits on the physical
/// ones, and is stable: seeding again changes nothing.
pub proof fn law_seed_is_stable(c: ConfigRegs, d: ConfigDefaults)
    ensures
        c.seeded(d).seeded(d) == c.seeded(d),
        c.seeded(d).pos_limits.pos_min_soft_counts == c.seeded(d).pos_limits.pos_min_phys_counts,
        c.seeded(d).pos_limits.pos_max_soft_counts == c.seeded(d).pos_limits.pos_max_phys_counts,
        c.seeded(d).loop_velocity == c.loop_velocity,
        c.seeded(d).fusion == c.fusion,
        c.seeded(d).loop_current.i_kp_q88 == c.loop_current.i_kp_q88,
        c.seeded(d).loop_current.i_ki_q412 == c.loop_current.i_ki_q412,
        c.seeded(d).loop_current.i_kaw_q412 == c.loop_current.i_kaw_q412,
        c.seeded(d).loop_position.p_kp_q88 == c.loop_position.p_kp_q88,
{
}

/// The sections tile the map in order, without gap or overlap.
pub proof fn law_sections_tile()
    ensures
        CONFIG_BASE_ADDR == 0,
        CONFIG_BASE_ADDR + CONFIG_REGION_SIZE == CALIB_BASE_ADDR,
        CALIB_BASE_ADDR + CALIB_REGION_SIZE == CONTROL_BASE_ADDR,
        CONTROL_BASE_ADDR + CONTROL_REGION_SIZE == TELEMETRY_BASE_ADDR,
        TELEMETRY_BASE_ADDR + TELEMETRY_REGION_SIZE == PROFILE_BASE_ADDR,
        PROFILE_BASE_ADDR + PROFILE_REGION_SIZE <= 1024,
{
}

/// What the boot seed writes: the limits it is given, soft limits on the
/// physical ones, the bus address and rate, and working values for everything
/// that would hold the drive still or leave it unguarded at zero.
pub proof fn law_seed_values(c: ConfigRegs, d: ConfigDefaults)
    ensures
        ({
            let s = c.seeded(d);
            &&& s.common.id == d.id
            &&& s.common.response_deadline_us == d.response_deadline_us
            &&& s.common.baud_rate_idx == d.baud.idx()
            &&& s.pos_limits.pos_min_phys_counts == d.pos_min_phys_counts
            &&& s.pos_limits.pos_max_phys_counts == d.pos_max_phys_counts
            &&& s.loop_current.duty_max_q15 == 0x7fff
            &&& s.loop_position.velocity_limit_cps == 1500
            &&& s.loop_position.accel_limit_q88 == 15 * 256
            &&& s.loop_position.pos_deadband_counts == 12
            &&& s.limits.current_limit_counts == 1200
            &&& s.limits.drive_polarity
            &&& s.limits.stall_omega_max_cps == 500
            &&& s.limits.stall_time_ms == 500
            &&& s.limits.stall_yield_counts == 300
            &&& s.limits.stall_release_counts == 150
            &&& s.limits.stall_tau_trip_counts == 1200
            &&& s.limits.oc_trip_counts == 2400
            &&& s.limits.oc_trip_ticks == 8
            &&& s.thermal.derate_start_cc == 8000
            &&& s.thermal.cutoff_cc == 10000
            &&& s.thermal.recover_cc == 9000
            &&& s.thermal.v_undervolt_counts == 2200
            &&& s.thermal.rtherm_i_min_counts == 300
            &&& s.thermal.rtherm_omega_max_cps == 400
            &&& s.fault_cfg.pos_error_counts == 400
            &&& s.fault_cfg.pos_error_time_ms == 500
            &&& s.fault_cfg.sensor_delta_max == 256
            &&& s.fault_cfg.sensor_bad_count == 4
            &&& s.common.model_number == c.common.model_number
            &&& s.common.firmware_version == c.common.firmware_version
            &&& s.common.hardware_revision == c.common.hardware_revision
            &&& s.limits.stall_response == c.limits.stall_response
            &&& s.limits.openloop_decay == c.limits.openloop_decay
        }),
{
}

/// The index of a rate counts the rates from the slowest up.
pub proof fn law_rate_index(a: BaudRate, b: BaudRate)
    ensures
        0 <= a.idx() <= 3,
        a.idx() < b.idx() <==> a.hz() < b.hz(),
        a.idx() == 0 <==> a.hz() == 500_000,
        a.idx() == 3 <==> a.hz() == 3_000_000,
{
}

/// A zero table holds the servo off: no torque, no stream, open loop, no goal,
/// no gain and no limit.
pub proof fn law_zero_table_is_off(t: ControlTable)
    requires
        t.config.is_zero(),
        t.calib.is_zero(),
        t.control.is_zero(),
    ensures
        !t.control.lifecycle.torque_enable,
        !t.control.lifecycle.tel_enable,
        t.control.lifecycle.tel_mask == 0,
        t.control.lifecycle.mode.byte() == 0,
        t.control.lifecycle.goal_duty == 0,
        t.control.lifecycle.goal_current == 0,
        t.control.lifecycle.goal_velocity == 0,
        t.control.lifecycle.goal_position == 0,
        t.config.loop_current.i_kp_q88 == 0,
        t.config.loop_current.i_ki_q412 == 0,
        t.config.loop_current.duty_max_q15 == 0,
        t.config.loop_velocity.v_kp_q88 == 0,
        t.config.loop_velocity.v_ki_q412 == 0,
        t.config.loop_velocity.j_ff_q88 == 0,
        t.config.loop_position.p_kp_q88 == 0,
        t.config.loop_position.velocity_limit_cps == 0,
        t.config.limits.current_limit_counts == 0,
        t.config.limits.oc_trip_counts == 0,
        t.config.fusion.l1_q016 == 0,
        t.config.fusion.l2_q88 == 0,
        t.config.fusion.l3_q88 == 0,
        t.config.fusion.l_bemf_q016 == 0,
        t.config.common.id == 0,
        t.config.common.model_number == 0,
        t.calib.motor.b_i_q313 == 0,
        t.calib.motor.r_q12 == 0,
        t.calib.winding.r0_q12 == 0,
        t.calib.sense.tick_hz == 0,
        t.calib.pot_lut.raw_min == 0,
        t.calib.pot_lut.raw_max == 0,
        TelemetryRegs::zero().common.fault_flags == 0,
        TelemetryRegs::zero().sensors.current_bias_counts == 0,
        TelemetryRegs::zero().estimates.theta_hat_q16 == 0,
        TelemetryRegs::zero().ident.agg_seq == 0,
{
}

} // verus!
