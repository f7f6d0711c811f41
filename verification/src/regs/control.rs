//! Control section registers.

use super::Reg;
use vstd::prelude::*;

verus! {

#[verifier::allow_in_spec]
pub fn torque_enable() -> Reg
    returns
        (Reg { addr: 0x0180, width: 1 }),
{
    Reg { addr: 0x0180, width: 1 }
}

#[verifier::allow_in_spec]
pub fn tel_enable() -> Reg
    returns
        (Reg { addr: 0x0181, width: 1 }),
{
    Reg { addr: 0x0181, width: 1 }
}

#[verifier::allow_in_spec]
pub fn tel_mask() -> Reg
    returns
        (Reg { addr: 0x0182, width: 2 }),
{
    Reg { addr: 0x0182, width: 2 }
}

#[verifier::allow_in_spec]
pub fn mode() -> Reg
    returns
        (Reg { addr: 0x0184, width: 1 }),
{
    Reg { addr: 0x0184, width: 1 }
}

#[verifier::allow_in_spec]
pub fn goal_duty() -> Reg
    returns
        (Reg { addr: 0x0186, width: 2 }),
{
    Reg { addr: 0x0186, width: 2 }
}

#[verifier::allow_in_spec]
pub fn goal_position() -> Reg
    returns
        (Reg { addr: 0x0188, width: 4 }),
{
    Reg { addr: 0x0188, width: 4 }
}

#[verifier::allow_in_spec]
pub fn goal_velocity() -> Reg
    returns
        (Reg { addr: 0x018c, width: 4 }),
{
    Reg { addr: 0x018c, width: 4 }
}

#[verifier::allow_in_spec]
pub fn goal_current() -> Reg
    returns
        (Reg { addr: 0x0190, width: 2 }),
{
    Reg { addr: 0x0190, width: 2 }
}

} // verus!
