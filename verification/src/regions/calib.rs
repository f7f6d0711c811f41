//! Calibration section: host-written facts about the board, the winding and
//! the motor.

use vstd::prelude::*;

verus! {

/// Knots of the pot linearization table.
pub const LUT_KNOTS: usize = 55;

#[derive(Copy, Clone)]
pub struct PotLutBlock {
    pub raw_min: u16,
    pub raw_max: u16,
    /// Corrections against the identity ramp `raw_min..raw_max`; all-zero is
    /// the identity.
    pub lut_corr: [i16; 55],
}

/// Sense-chain primitives the host converts raw counts with: divider legs in
/// ohms, amplifier gain x1000. `vdd_mv` is the host-measured supply at the chip
/// pin. `tick_hz` is stamped at install; the window floors are board data in
/// timer ticks.
#[derive(Copy, Clone, Debug, PartialEq, Eq, Structural)]
pub struct CalibSense {
    pub shunt_r_mohm: u16,
    pub gain_milli: u16,
    pub vmotor_div_top: u16,
    pub vmotor_div_bot: u16,
    pub vdd_mv: u16,
    pub tick_hz: u16,
    pub i_window_min_ticks: u16,
    pub v_window_min_ticks: u16,
}

/// Winding-resistance thermometry anchor: `r0_q12` is the cold winding
/// resistance in vcounts per ccount, `t0_cc` the ambient it was measured at
/// (centi-degC), `k_r2t_q88` the resistance-to-temperature slope, `mu_q016`
/// the adaptation step.
#[derive(Copy, Clone, Debug, PartialEq, Eq, Structural)]
pub struct CalibWinding {
    pub r0_q12: u16,
    pub t0_cc: i16,
    pub k_r2t_q88: u16,
    pub mu_q016: u16,
}

/// Motor identification: `ke_uvs_per_rad` is the host-facing record; the rest
/// are shaped for the loops. Forward and reciprocal Ke are both host-written:
/// the chip has no divide to derive one from the other.
#[derive(Copy, Clone, Debug, PartialEq, Eq, Structural)]
pub struct CalibMotor {
    pub ke_uvs_per_rad: u16,
    pub r_q12: u16,
    pub recip_ke_q: u16,
    pub b_i_q313: u16,
    pub fric_fc_counts: u16,
    pub fric_fv_q016: u16,
    pub fric_breakaway_counts: u16,
    pub ke_vpc_q: u16,
}

/// Count-to-angle scale and gearing, host-facing metadata: angles are
/// centi-degrees at the pot endpoints, `gear_ratio_centi` is motor revs per
/// output rev x100. All-zero is unset.
#[derive(Copy, Clone, Debug, PartialEq, Eq, Structural)]
pub struct CalibKinematics {
    pub angle_min_cdeg: i16,
    pub angle_max_cdeg: i16,
    pub gear_ratio_centi: u16,
}

/// Calibration section: always writable, volatile until persisted.
#[derive(Copy, Clone)]
pub struct CalibRegs {
    pub pot_lut: PotLutBlock,
    pub sense: CalibSense,
    pub winding: CalibWinding,
    pub motor: CalibMotor,
    pub kinematics: CalibKinematics,
    pub _rsvd_tail: [u8; 96],
}

impl CalibRegs {
    /// Every register at zero.
    pub open spec fn is_zero(self) -> bool {
        &&& self.pot_lut.raw_min == 0
        &&& self.pot_lut.raw_max == 0
        &&& forall|i: int| 0 <= i < 55 ==> self.pot_lut.lut_corr@[i] == 0
        &&& self.sense == (CalibSense {
            shunt_r_mohm: 0,
            gain_milli: 0,
            vmotor_div_top: 0,
            vmotor_div_bot: 0,
            vdd_mv: 0,
            tick_hz: 0,
            i_window_min_ticks: 0,
            v_window_min_ticks: 0,
        })
        &&& self.winding == (CalibWinding { r0_q12: 0, t0_cc: 0, k_r2t_q88: 0, mu_q016: 0 })
        &&& self.motor == (CalibMotor {
            ke_uvs_per_rad: 0,
            r_q12: 0,
            recip_ke_q: 0,
            b_i_q313: 0,
            fric_fc_counts: 0,
            fric_fv_q016: 0,
            fric_breakaway_counts: 0,
            ke_vpc_q: 0,
        })
        &&& self.kinematics == (CalibKinematics {
            angle_min_cdeg: 0,
            angle_max_cdeg: 0,
            gear_ratio_centi: 0,
        })
        &&& forall|i: int| 0 <= i < 96 ==> self._rsvd_tail@[i] == 0
    }

    /// The all-zero section.
    pub fn zeroed() -> (r: Self)
        ensures
            r.is_zero(),
    {
        CalibRegs {
            pot_lut: PotLutBlock { raw_min: 0, raw_max: 0, lut_corr: [0; 55] },
            sense: CalibSense {
                shunt_r_mohm: 0,
                gain_milli: 0,
                vmotor_div_top: 0,
                vmotor_div_bot: 0,
                vdd_mv: 0,
                tick_hz: 0,
                i_window_min_ticks: 0,
                v_window_min_ticks: 0,
            },
            winding: CalibWinding { r0_q12: 0, t0_cc: 0, k_r2t_q88: 0, mu_q016: 0 },
            motor: CalibMotor {
                ke_uvs_per_rad: 0,
                r_q12: 0,
                recip_ke_q: 0,
                b_i_q313: 0,
                fric_fc_counts: 0,
                fric_fv_q016: 0,
                fric_breakaway_counts: 0,
                ke_vpc_q: 0,
            },
            kinematics: CalibKinematics {
                angle_min_cdeg: 0,
                angle_max_cdeg: 0,
                gear_ratio_centi: 0,
            },
            _rsvd_tail: [0; 96],
        }
    }
}

} // verus!
