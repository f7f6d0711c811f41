//! Config section registers.

use super::Reg;
use vstd::prelude::*;

verus! {

#[verifier::allow_in_spec]
pub fn pos_min_phys_counts() -> Reg
    returns
        (Reg { addr: 0x0020, width: 4 }),
{
    Reg { addr: 0x0020, width: 4 }
}

#[verifier::allow_in_spec]
pub fn pos_max_phys_counts() -> Reg
    returns
        (Reg { addr: 0x0024, width: 4 }),
{
    Reg { addr: 0x0024, width: 4 }
}

#[verifier::allow_in_spec]
pub fn pos_min_soft_counts() -> Reg
    returns
        (Reg { addr: 0x0028, width: 4 }),
{
    Reg { addr: 0x0028, width: 4 }
}

#[verifier::allow_in_spec]
pub fn pos_max_soft_counts() -> Reg
    returns
        (Reg { addr: 0x002c, width: 4 }),
{
    Reg { addr: 0x002c, width: 4 }
}

#[verifier::allow_in_spec]
pub fn i_kp_q88() -> Reg
    returns
        (Reg { addr: 0x0030, width: 2 }),
{
    Reg { addr: 0x0030, width: 2 }
}

#[verifier::allow_in_spec]
pub fn i_ki_q412() -> Reg
    returns
        (Reg { addr: 0x0032, width: 2 }),
{
    Reg { addr: 0x0032, width: 2 }
}

#[verifier::allow_in_spec]
pub fn i_kaw_q412() -> Reg
    returns
        (Reg { addr: 0x0034, width: 2 }),
{
    Reg { addr: 0x0034, width: 2 }
}

#[verifier::allow_in_spec]
pub fn duty_max_q15() -> Reg
    returns
        (Reg { addr: 0x0036, width: 2 }),
{
    Reg { addr: 0x0036, width: 2 }
}

#[verifier::allow_in_spec]
pub fn v_kp_q88() -> Reg
    returns
        (Reg { addr: 0x0038, width: 2 }),
{
    Reg { addr: 0x0038, width: 2 }
}

#[verifier::allow_in_spec]
pub fn v_ki_q412() -> Reg
    returns
        (Reg { addr: 0x003a, width: 2 }),
{
    Reg { addr: 0x003a, width: 2 }
}

#[verifier::allow_in_spec]
pub fn v_kaw_q412() -> Reg
    returns
        (Reg { addr: 0x003c, width: 2 }),
{
    Reg { addr: 0x003c, width: 2 }
}

#[verifier::allow_in_spec]
pub fn j_ff_q88() -> Reg
    returns
        (Reg { addr: 0x003e, width: 2 }),
{
    Reg { addr: 0x003e, width: 2 }
}

#[verifier::allow_in_spec]
pub fn p_kp_q88() -> Reg
    returns
        (Reg { addr: 0x0040, width: 2 }),
{
    Reg { addr: 0x0040, width: 2 }
}

#[verifier::allow_in_spec]
pub fn pos_deadband_counts() -> Reg
    returns
        (Reg { addr: 0x0042, width: 2 }),
{
    Reg { addr: 0x0042, width: 2 }
}

#[verifier::allow_in_spec]
pub fn current_limit_counts() -> Reg
    returns
        (Reg { addr: 0x0048, width: 2 }),
{
    Reg { addr: 0x0048, width: 2 }
}

#[verifier::allow_in_spec]
pub fn drive_polarity() -> Reg
    returns
        (Reg { addr: 0x004b, width: 1 }),
{
    Reg { addr: 0x004b, width: 1 }
}

#[verifier::allow_in_spec]
pub fn v_undervolt_counts() -> Reg
    returns
        (Reg { addr: 0x0060, width: 2 }),
{
    Reg { addr: 0x0060, width: 2 }
}

#[verifier::allow_in_spec]
pub fn l1_q016() -> Reg
    returns
        (Reg { addr: 0x0066, width: 2 }),
{
    Reg { addr: 0x0066, width: 2 }
}

#[verifier::allow_in_spec]
pub fn l2_q88() -> Reg
    returns
        (Reg { addr: 0x0068, width: 2 }),
{
    Reg { addr: 0x0068, width: 2 }
}

#[verifier::allow_in_spec]
pub fn l3_q88() -> Reg
    returns
        (Reg { addr: 0x006a, width: 2 }),
{
    Reg { addr: 0x006a, width: 2 }
}

#[verifier::allow_in_spec]
pub fn l_bemf_q016() -> Reg
    returns
        (Reg { addr: 0x006c, width: 2 }),
{
    Reg { addr: 0x006c, width: 2 }
}

} // verus!
