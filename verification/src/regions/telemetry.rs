//! Telemetry section: what the kernel publishes for the host to read.

use vstd::prelude::*;

verus! {

/// Fault byte, first in the section.
#[derive(Copy, Clone, Debug, PartialEq, Eq, Structural)]
pub struct TelemetryCommon {
    pub fault_flags: u8,
}

#[derive(Copy, Clone, Debug, PartialEq, Eq, Structural)]
pub struct TelemetryMode {
    pub mode_active: u8,
    pub fault_code: u8,
}

/// Raw samples of the last tick, plus the zero-current offset measured at
/// boot.
#[derive(Copy, Clone, Debug, PartialEq, Eq, Structural)]
pub struct TelemetrySensors {
    pub pos: u16,
    pub current: u16,
    pub vcal: u16,
    pub vcal_lpf: u16,
    pub vmotor_a: u16,
    pub vmotor_b: u16,
    pub current_trough: u16,
    pub current_bias_counts: u16,
}

/// Estimates, published at the medium boundary.
#[derive(Copy, Clone, Debug, PartialEq, Eq, Structural)]
pub struct TelemetryEstimates {
    pub theta_hat_q16: i32,
    pub omega_hat_cps: i32,
    pub tau_d_counts: i16,
    pub i_lim_counts: u16,
    pub t_winding_cc: i16,
    pub vbus_counts: u16,
    pub duty_applied_q15: i16,
    pub omega_bemf_cps: i16,
    pub r_hat_q12: u16,
    pub i_hat_counts: i16,
}

/// Identification aggregates over one window; `agg_seq` lands last.
#[derive(Copy, Clone, Debug, PartialEq, Eq, Structural)]
pub struct TelemetryIdent {
    pub i_mean_counts: i16,
    pub i_min_counts: i16,
    pub i_max_counts: i16,
    pub vdiff_mean: i16,
    pub duty_mean_q15: i16,
    pub agg_seq: u16,
}

#[derive(Copy, Clone, Debug, PartialEq, Eq, Structural)]
pub struct TelemetryRegs {
    pub common: TelemetryCommon,
    pub mode: TelemetryMode,
    pub estimates: TelemetryEstimates,
    pub sensors: TelemetrySensors,
    pub ident: TelemetryIdent,
}

impl TelemetryRegs {
    pub open spec fn zero() -> TelemetryRegs {
        TelemetryRegs {
            common: TelemetryCommon { fault_flags: 0 },
            mode: TelemetryMode { mode_active: 0, fault_code: 0 },
            estimates: TelemetryEstimates {
                theta_hat_q16: 0,
                omega_hat_cps: 0,
                tau_d_counts: 0,
                i_lim_counts: 0,
                t_winding_cc: 0,
                vbus_counts: 0,
                duty_applied_q15: 0,
                omega_bemf_cps: 0,
                r_hat_q12: 0,
                i_hat_counts: 0,
            },
            sensors: TelemetrySensors {
                pos: 0,
                current: 0,
                vcal: 0,
                vcal_lpf: 0,
                vmotor_a: 0,
                vmotor_b: 0,
                current_trough: 0,
                current_bias_counts: 0,
            },
            ident: TelemetryIdent {
                i_mean_counts: 0,
                i_min_counts: 0,
                i_max_counts: 0,
                vdiff_mean: 0,
                duty_mean_q15: 0,
                agg_seq: 0,
            },
        }
    }

    /// The all-zero section.
    pub fn zeroed() -> (r: Self)
        ensures
            r == TelemetryRegs::zero(),
    {
        TelemetryRegs {
            common: TelemetryCommon { fault_flags: 0 },
            mode: TelemetryMode { mode_active: 0, fault_code: 0 },
            estimates: TelemetryEstimates {
                theta_hat_q16: 0,
                omega_hat_cps: 0,
                tau_d_counts: 0,
                i_lim_counts: 0,
                t_winding_cc: 0,
                vbus_counts: 0,
                duty_applied_q15: 0,
                omega_bemf_cps: 0,
                r_hat_q12: 0,
                i_hat_counts: 0,
            },
            sensors: TelemetrySensors {
                pos: 0,
                current: 0,
                vcal: 0,
                vcal_lpf: 0,
                vmotor_a: 0,
                vmotor_b: 0,
                current_trough: 0,
                current_bias_counts: 0,
            },
            ident: TelemetryIdent {
                i_mean_counts: 0,
                i_min_counts: 0,
                i_max_counts: 0,
                vdiff_mean: 0,
                duty_mean_q15: 0,
                agg_seq: 0,
            },
        }
    }
}

} // verus!
