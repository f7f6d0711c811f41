//! Calibration section registers. The knot block `pot_lut_corr` is one
//! 110-byte field, written as a blob.

use super::Reg;
use vstd::prelude::*;

verus! {

#[verifier::allow_in_spec]
pub fn pot_lut_raw_min() -> Reg
    returns
        (Reg { addr: 0x0080, width: 2 }),
{
    Reg { addr: 0x0080, width: 2 }
}

#[verifier::allow_in_spec]
pub fn pot_lut_raw_max() -> Reg
    returns
        (Reg { addr: 0x0082, width: 2 }),
{
    Reg { addr: 0x0082, width: 2 }
}

#[verifier::allow_in_spec]
pub fn pot_lut_corr() -> Reg
    returns
        (Reg { addr: 0x0084, width: 110 }),
{
    Reg { addr: 0x0084, width: 110 }
}

#[verifier::allow_in_spec]
pub fn shunt_r_mohm() -> Reg
    returns
        (Reg { addr: 0x00f2, width: 2 }),
{
    Reg { addr: 0x00f2, width: 2 }
}

#[verifier::allow_in_spec]
pub fn gain_milli() -> Reg
    returns
        (Reg { addr: 0x00f4, width: 2 }),
{
    Reg { addr: 0x00f4, width: 2 }
}

#[verifier::allow_in_spec]
pub fn vmotor_div_top() -> Reg
    returns
        (Reg { addr: 0x00f6, width: 2 }),
{
    Reg { addr: 0x00f6, width: 2 }
}

#[verifier::allow_in_spec]
pub fn vmotor_div_bot() -> Reg
    returns
        (Reg { addr: 0x00f8, width: 2 }),
{
    Reg { addr: 0x00f8, width: 2 }
}

#[verifier::allow_in_spec]
pub fn vdd_mv() -> Reg
    returns
        (Reg { addr: 0x00fa, width: 2 }),
{
    Reg { addr: 0x00fa, width: 2 }
}

#[verifier::allow_in_spec]
pub fn tick_hz() -> Reg
    returns
        (Reg { addr: 0x00fc, width: 2 }),
{
    Reg { addr: 0x00fc, width: 2 }
}

#[verifier::allow_in_spec]
pub fn i_window_min_ticks() -> Reg
    returns
        (Reg { addr: 0x00fe, width: 2 }),
{
    Reg { addr: 0x00fe, width: 2 }
}

#[verifier::allow_in_spec]
pub fn v_window_min_ticks() -> Reg
    returns
        (Reg { addr: 0x0100, width: 2 }),
{
    Reg { addr: 0x0100, width: 2 }
}

#[verifier::allow_in_spec]
pub fn r0_q12() -> Reg
    returns
        (Reg { addr: 0x0102, width: 2 }),
{
    Reg { addr: 0x0102, width: 2 }
}

#[verifier::allow_in_spec]
pub fn t0_cc() -> Reg
    returns
        (Reg { addr: 0x0104, width: 2 }),
{
    Reg { addr: 0x0104, width: 2 }
}

#[verifier::allow_in_spec]
pub fn r_q12() -> Reg
    returns
        (Reg { addr: 0x010c, width: 2 }),
{
    Reg { addr: 0x010c, width: 2 }
}

#[verifier::allow_in_spec]
pub fn recip_ke_q() -> Reg
    returns
        (Reg { addr: 0x010e, width: 2 }),
{
    Reg { addr: 0x010e, width: 2 }
}

#[verifier::allow_in_spec]
pub fn b_i_q313() -> Reg
    returns
        (Reg { addr: 0x0110, width: 2 }),
{
    Reg { addr: 0x0110, width: 2 }
}

#[verifier::allow_in_spec]
pub fn fric_fc_counts() -> Reg
    returns
        (Reg { addr: 0x0112, width: 2 }),
{
    Reg { addr: 0x0112, width: 2 }
}

#[verifier::allow_in_spec]
pub fn fric_fv_q016() -> Reg
    returns
        (Reg { addr: 0x0114, width: 2 }),
{
    Reg { addr: 0x0114, width: 2 }
}

#[verifier::allow_in_spec]
pub fn fric_breakaway_counts() -> Reg
    returns
        (Reg { addr: 0x0116, width: 2 }),
{
    Reg { addr: 0x0116, width: 2 }
}

#[verifier::allow_in_spec]
pub fn ke_vpc_q() -> Reg
    returns
        (Reg { addr: 0x0118, width: 2 }),
{
    Reg { addr: 0x0118, width: 2 }
}

#[verifier::allow_in_spec]
pub fn angle_min_cdeg() -> Reg
    returns
        (Reg { addr: 0x011a, width: 2 }),
{
    Reg { addr: 0x011a, width: 2 }
}

#[verifier::allow_in_spec]
pub fn angle_max_cdeg() -> Reg
    returns
        (Reg { addr: 0x011c, width: 2 }),
{
    Reg { addr: 0x011c, width: 2 }
}

#[verifier::allow_in_spec]
pub fn gear_ratio_centi() -> Reg
    returns
        (Reg { addr: 0x011e, width: 2 }),
{
    Reg { addr: 0x011e, width: 2 }
}

} // verus!
