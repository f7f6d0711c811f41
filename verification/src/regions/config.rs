//! Config section: identity, limits, gains and fault thresholds.

use vstd::prelude::*;

verus! {

/// Bus rate.
#[derive(Copy, Clone, Debug, PartialEq, Eq, Structural)]
pub enum BaudRate {
    B500000,
    B1000000,
    B2000000,
    B3000000,
}

impl BaudRate {
    pub open spec fn hz(self) -> u32 {
        match self {
            BaudRate::B500000 => 500_000,
            BaudRate::B1000000 => 1_000_000,
            BaudRate::B2000000 => 2_000_000,
            BaudRate::B3000000 => 3_000_000,
        }
    }

    pub open spec fn idx(self) -> u8 {
        match self {
            BaudRate::B500000 => 0,
            BaudRate::B1000000 => 1,
            BaudRate::B2000000 => 2,
            BaudRate::B3000000 => 3,
        }
    }

    pub fn as_hz(self) -> (r: u32)
        ensures
            r == self.hz(),
    {
        match self {
            BaudRate::B500000 => 500_000,
            BaudRate::B1000000 => 1_000_000,
            BaudRate::B2000000 => 2_000_000,
            BaudRate::B3000000 => 3_000_000,
        }
    }

    /// The register index of a rate.
    pub fn as_idx(self) -> (r: u8)
        ensures
            r == self.idx(),
    {
        match self {
            BaudRate::B500000 => 0,
            BaudRate::B1000000 => 1,
            BaudRate::B2000000 => 2,
            BaudRate::B3000000 => 3,
        }
    }
}

/// Stall policy: Fault latches the stall; Yield folds the current limit.
#[derive(Copy, Clone, Debug, PartialEq, Eq, Structural)]
pub enum StallResponse {
    Fault,
    Yield,
}

/// Off-window decay for open-loop drive; closed-loop modes force Slow.
#[derive(Copy, Clone, Debug, PartialEq, Eq, Structural)]
pub enum DecaySelect {
    Slow,
    Fast,
}

impl Default for StallResponse {
    fn default() -> (r: Self)
        ensures
            r == StallResponse::Fault,
    {
        StallResponse::Fault
    }
}

impl Default for DecaySelect {
    fn default() -> (r: Self)
        ensures
            r == DecaySelect::Slow,
    {
        DecaySelect::Slow
    }
}

/// Identity at the region front, comms behind it, reserved bytes between.
#[derive(Copy, Clone)]
pub struct ConfigCommon {
    pub model_number: u16,
    pub firmware_version: u8,
    pub hardware_revision: u8,
    pub capability_flags: u32,
    pub _rsvd_identity: [u8; 8],
    pub id: u8,
    pub baud_rate_idx: u8,
    pub response_deadline_us: u16,
    pub _rsvd_tail: [u8; 12],
}

#[derive(Copy, Clone, Debug, PartialEq, Eq, Structural)]
pub struct ConfigPosLimits {
    pub pos_min_phys_counts: i32,
    pub pos_max_phys_counts: i32,
    pub pos_min_soft_counts: i32,
    pub pos_max_soft_counts: i32,
}

/// Current PI gains, voltage-domain clamp and back-calculation anti-windup.
#[derive(Copy, Clone, Debug, PartialEq, Eq, Structural)]
pub struct ConfigLoopCurrent {
    pub i_kp_q88: u16,
    pub i_ki_q412: u16,
    pub i_kaw_q412: u16,
    pub duty_max_q15: u16,
}

/// Full-scale duty; the gains stay zero so the loop boots inert.
pub const DEFAULT_DUTY_MAX_Q15: u16 = 32_767;

/// Velocity PI gains and inertia feedforward.
#[derive(Copy, Clone, Debug, PartialEq, Eq, Structural)]
pub struct ConfigLoopVelocity {
    pub v_kp_q88: u16,
    pub v_ki_q412: u16,
    pub v_kaw_q412: u16,
    pub j_ff_q88: u16,
}

/// Position P gain, anti-hunt hold deadband, trajectory limits.
#[derive(Copy, Clone, Debug, PartialEq, Eq, Structural)]
pub struct ConfigLoopPosition {
    pub p_kp_q88: u16,
    /// 0 disables hold.
    pub pos_deadband_counts: u16,
    pub velocity_limit_cps: u16,
    /// c/s per medium tick.
    pub accel_limit_q88: u16,
}

/// Trajectory limits are clamps, not gains: at 0 the profile would pin the
/// reference to 0 even with live gains, so they get working defaults.
pub const DEFAULT_VELOCITY_LIMIT_CPS: u16 = 1_500;

pub const DEFAULT_ACCEL_LIMIT_Q88: u16 = 3_840;

/// Pot-noise-scale park; at 0 it would never engage.
pub const DEFAULT_POS_DEADBAND_COUNTS: u16 = 12;

/// Current ceiling, stall policy, overcurrent trip window.
#[derive(Copy, Clone, Debug, PartialEq, Eq, Structural)]
pub struct ConfigLimits {
    pub current_limit_counts: u16,
    pub stall_response: StallResponse,
    /// true: positive duty increases position counts.
    pub drive_polarity: bool,
    pub stall_omega_max_cps: u16,
    pub stall_time_ms: u16,
    pub stall_yield_counts: u16,
    pub stall_release_counts: u16,
    /// Collision trip: a disturbance above this is torque no model explains.
    pub stall_tau_trip_counts: u16,
    pub oc_trip_counts: u16,
    pub oc_trip_ticks: u8,
    pub openloop_decay: DecaySelect,
}

pub const DEFAULT_CURRENT_LIMIT_COUNTS: u16 = 1_200;

pub const DEFAULT_DRIVE_POLARITY: bool = true;

pub const DEFAULT_STALL_OMEGA_MAX_CPS: u16 = 500;

pub const DEFAULT_STALL_TIME_MS: u16 = 500;

pub const DEFAULT_STALL_YIELD_COUNTS: u16 = 300;

pub const DEFAULT_STALL_RELEASE_COUNTS: u16 = 150;

pub const DEFAULT_STALL_TAU_TRIP_COUNTS: u16 = 1_200;

pub const DEFAULT_OC_TRIP_COUNTS: u16 = 2_400;

pub const DEFAULT_OC_TRIP_TICKS: u8 = 8;

/// Thermal derate and cutoff, undervolt floor, winding estimator gates.
#[derive(Copy, Clone, Debug, PartialEq, Eq, Structural)]
pub struct ConfigThermal {
    pub derate_start_cc: i16,
    pub cutoff_cc: i16,
    pub recover_cc: i16,
    pub v_undervolt_counts: u16,
    pub rtherm_i_min_counts: u16,
    pub rtherm_omega_max_cps: u16,
}

pub const DEFAULT_DERATE_START_CC: i16 = 8_000;

pub const DEFAULT_CUTOFF_CC: i16 = 10_000;

pub const DEFAULT_RECOVER_CC: i16 = 9_000;

pub const DEFAULT_V_UNDERVOLT_COUNTS: u16 = 2_200;

pub const DEFAULT_RTHERM_I_MIN_COUNTS: u16 = 300;

pub const DEFAULT_RTHERM_OMEGA_MAX_CPS: u16 = 400;

/// Observer correction gains; `l_bemf_q016` 0 turns the back-EMF blend off.
#[derive(Copy, Clone, Debug, PartialEq, Eq, Structural)]
pub struct ConfigFusion {
    pub l1_q016: u16,
    pub l2_q88: u16,
    pub l3_q88: u16,
    pub l_bemf_q016: u16,
}

/// Fault thresholds: position-error window, sensor-delta screen.
#[derive(Copy, Clone, Debug, PartialEq, Eq, Structural)]
pub struct ConfigFaultCfg {
    pub pos_error_counts: u16,
    pub pos_error_time_ms: u16,
    pub sensor_delta_max: u16,
    pub sensor_bad_count: u8,
    pub _rsvd_align: u8,
}

pub const DEFAULT_POS_ERROR_COUNTS: u16 = 400;

pub const DEFAULT_POS_ERROR_TIME_MS: u16 = 500;

pub const DEFAULT_SENSOR_DELTA_MAX: u16 = 256;

pub const DEFAULT_SENSOR_BAD_COUNT: u8 = 4;

/// Config section: always writable, volatile until a SAVE persists it.
#[derive(Copy, Clone)]
pub struct ConfigRegs {
    pub common: ConfigCommon,
    pub pos_limits: ConfigPosLimits,
    pub loop_current: ConfigLoopCurrent,
    pub loop_velocity: ConfigLoopVelocity,
    pub loop_position: ConfigLoopPosition,
    pub limits: ConfigLimits,
    pub thermal: ConfigThermal,
    pub fusion: ConfigFusion,
    pub fault_cfg: ConfigFaultCfg,
    pub _rsvd_tail: [u8; 10],
}

/// Boot-time seed of the config section; stamped once, then host-owned.
#[derive(Copy, Clone, Debug, PartialEq, Eq, Structural)]
pub struct ConfigDefaults {
    pub pos_min_phys_counts: i32,
    pub pos_max_phys_counts: i32,
    pub id: u8,
    pub baud: BaudRate,
    pub response_deadline_us: u16,
}

impl ConfigRegs {
    /// The section after the boot seed: soft limits at the physical ones, the
    /// safe defaults in place, every gain as it was.
    pub open spec fn seeded(self, d: ConfigDefaults) -> ConfigRegs {
        ConfigRegs {
            common: ConfigCommon {
                id: d.id,
                baud_rate_idx: d.baud.idx(),
                response_deadline_us: d.response_deadline_us,
                ..self.common
            },
            pos_limits: ConfigPosLimits {
                pos_min_phys_counts: d.pos_min_phys_counts,
                pos_max_phys_counts: d.pos_max_phys_counts,
                pos_min_soft_counts: d.pos_min_phys_counts,
                pos_max_soft_counts: d.pos_max_phys_counts,
            },
            loop_current: ConfigLoopCurrent {
                duty_max_q15: DEFAULT_DUTY_MAX_Q15,
                ..self.loop_current
            },
            loop_position: ConfigLoopPosition {
                velocity_limit_cps: DEFAULT_VELOCITY_LIMIT_CPS,
                accel_limit_q88: DEFAULT_ACCEL_LIMIT_Q88,
                pos_deadband_counts: DEFAULT_POS_DEADBAND_COUNTS,
                ..self.loop_position
            },
            limits: ConfigLimits {
                current_limit_counts: DEFAULT_CURRENT_LIMIT_COUNTS,
                drive_polarity: DEFAULT_DRIVE_POLARITY,
                stall_omega_max_cps: DEFAULT_STALL_OMEGA_MAX_CPS,
                stall_time_ms: DEFAULT_STALL_TIME_MS,
                stall_yield_counts: DEFAULT_STALL_YIELD_COUNTS,
                stall_release_counts: DEFAULT_STALL_RELEASE_COUNTS,
                stall_tau_trip_counts: DEFAULT_STALL_TAU_TRIP_COUNTS,
                oc_trip_counts: DEFAULT_OC_TRIP_COUNTS,
                oc_trip_ticks: DEFAULT_OC_TRIP_TICKS,
                ..self.limits
            },
            thermal: ConfigThermal {
                derate_start_cc: DEFAULT_DERATE_START_CC,
                cutoff_cc: DEFAULT_CUTOFF_CC,
                recover_cc: DEFAULT_RECOVER_CC,
                v_undervolt_counts: DEFAULT_V_UNDERVOLT_COUNTS,
                rtherm_i_min_counts: DEFAULT_RTHERM_I_MIN_COUNTS,
                rtherm_omega_max_cps: DEFAULT_RTHERM_OMEGA_MAX_CPS,
            },
            fault_cfg: ConfigFaultCfg {
                pos_error_counts: DEFAULT_POS_ERROR_COUNTS,
                pos_error_time_ms: DEFAULT_POS_ERROR_TIME_MS,
                sensor_delta_max: DEFAULT_SENSOR_DELTA_MAX,
                sensor_bad_count: DEFAULT_SENSOR_BAD_COUNT,
                ..self.fault_cfg
            },
            ..self
        }
    }

    /// Every register at zero.
    pub open spec fn is_zero(self) -> bool {
        &&& self.common.model_number == 0
        &&& self.common.firmware_version == 0
        &&& self.common.hardware_revision == 0
        &&& self.common.capability_flags == 0
        &&& forall|i: int| 0 <= i < 8 ==> self.common._rsvd_identity@[i] == 0
        &&& self.common.id == 0
        &&& self.common.baud_rate_idx == 0
        &&& self.common.response_deadline_us == 0
        &&& forall|i: int| 0 <= i < 12 ==> self.common._rsvd_tail@[i] == 0
        &&& self.pos_limits == (ConfigPosLimits {
            pos_min_phys_counts: 0,
            pos_max_phys_counts: 0,
            pos_min_soft_counts: 0,
            pos_max_soft_counts: 0,
        })
        &&& self.loop_current == (ConfigLoopCurrent {
            i_kp_q88: 0,
            i_ki_q412: 0,
            i_kaw_q412: 0,
            duty_max_q15: 0,
        })
        &&& self.loop_velocity == (ConfigLoopVelocity {
            v_kp_q88: 0,
            v_ki_q412: 0,
            v_kaw_q412: 0,
            j_ff_q88: 0,
        })
        &&& self.loop_position == (ConfigLoopPosition {
            p_kp_q88: 0,
            pos_deadband_counts: 0,
            velocity_limit_cps: 0,
            accel_limit_q88: 0,
        })
        &&& self.limits == (ConfigLimits {
            current_limit_counts: 0,
            stall_response: StallResponse::Fault,
            drive_polarity: false,
            stall_omega_max_cps: 0,
            stall_time_ms: 0,
            stall_yield_counts: 0,
            stall_release_counts: 0,
            stall_tau_trip_counts: 0,
            oc_trip_counts: 0,
            oc_trip_ticks: 0,
            openloop_decay: DecaySelect::Slow,
        })
        &&& self.thermal == (ConfigThermal {
            derate_start_cc: 0,
            cutoff_cc: 0,
            recover_cc: 0,
            v_undervolt_counts: 0,
            rtherm_i_min_counts: 0,
            rtherm_omega_max_cps: 0,
        })
        &&& self.fusion == (ConfigFusion { l1_q016: 0, l2_q88: 0, l3_q88: 0, l_bemf_q016: 0 })
        &&& self.fault_cfg == (ConfigFaultCfg {
            pos_error_counts: 0,
            pos_error_time_ms: 0,
            sensor_delta_max: 0,
            sensor_bad_count: 0,
            _rsvd_align: 0,
        })
        &&& forall|i: int| 0 <= i < 10 ==> self._rsvd_tail@[i] == 0
    }

    /// The all-zero section.
    pub fn zeroed() -> (r: Self)
        ensures
            r.is_zero(),
    {
        ConfigRegs {
            common: ConfigCommon {
                model_number: 0,
                firmware_version: 0,
                hardware_revision: 0,
                capability_flags: 0,
                _rsvd_identity: [0; 8],
                id: 0,
                baud_rate_idx: 0,
                response_deadline_us: 0,
                _rsvd_tail: [0; 12],
            },
            pos_limits: ConfigPosLimits {
                pos_min_phys_counts: 0,
                pos_max_phys_counts: 0,
                pos_min_soft_counts: 0,
                pos_max_soft_counts: 0,
            },
            loop_current: ConfigLoopCurrent {
                i_kp_q88: 0,
                i_ki_q412: 0,
                i_kaw_q412: 0,
                duty_max_q15: 0,
            },
            loop_velocity: ConfigLoopVelocity {
                v_kp_q88: 0,
                v_ki_q412: 0,
                v_kaw_q412: 0,
                j_ff_q88: 0,
            },
            loop_position: ConfigLoopPosition {
                p_kp_q88: 0,
                pos_deadband_counts: 0,
                velocity_limit_cps: 0,
                accel_limit_q88: 0,
            },
            limits: ConfigLimits {
                current_limit_counts: 0,
                stall_response: StallResponse::Fault,
                drive_polarity: false,
                stall_omega_max_cps: 0,
                stall_time_ms: 0,
                stall_yield_counts: 0,
                stall_release_counts: 0,
                stall_tau_trip_counts: 0,
                oc_trip_counts: 0,
                oc_trip_ticks: 0,
                openloop_decay: DecaySelect::Slow,
            },
            thermal: ConfigThermal {
                derate_start_cc: 0,
                cutoff_cc: 0,
                recover_cc: 0,
                v_undervolt_counts: 0,
                rtherm_i_min_counts: 0,
                rtherm_omega_max_cps: 0,
            },
            fusion: ConfigFusion { l1_q016: 0, l2_q88: 0, l3_q88: 0, l_bemf_q016: 0 },
            fault_cfg: ConfigFaultCfg {
                pos_error_counts: 0,
                pos_error_time_ms: 0,
                sensor_delta_max: 0,
                sensor_bad_count: 0,
                _rsvd_align: 0,
            },
            _rsvd_tail: [0; 10],
        }
    }
}

} // verus!
