//! Telemetry section registers.

use super::Reg;
use vstd::prelude::*;

verus! {

#[verifier::allow_in_spec]
pub fn fault_flags() -> Reg
    returns
        (Reg { addr: 0x0200, width: 1 }),
{
    Reg { addr: 0x0200, width: 1 }
}

#[verifier::allow_in_spec]
pub fn status_flags() -> Reg
    returns
        (Reg { addr: 0x0201, width: 1 }),
{
    Reg { addr: 0x0201, width: 1 }
}

#[verifier::allow_in_spec]
pub fn mode_active() -> Reg
    returns
        (Reg { addr: 0x0220, width: 1 }),
{
    Reg { addr: 0x0220, width: 1 }
}

#[verifier::allow_in_spec]
pub fn fault_code() -> Reg
    returns
        (Reg { addr: 0x0221, width: 1 }),
{
    Reg { addr: 0x0221, width: 1 }
}

#[verifier::allow_in_spec]
pub fn theta_hat_q16() -> Reg
    returns
        (Reg { addr: 0x0224, width: 4 }),
{
    Reg { addr: 0x0224, width: 4 }
}

#[verifier::allow_in_spec]
pub fn omega_hat_cps() -> Reg
    returns
        (Reg { addr: 0x0228, width: 4 }),
{
    Reg { addr: 0x0228, width: 4 }
}

#[verifier::allow_in_spec]
pub fn tau_d_counts() -> Reg
    returns
        (Reg { addr: 0x022c, width: 2 }),
{
    Reg { addr: 0x022c, width: 2 }
}

#[verifier::allow_in_spec]
pub fn i_lim_counts() -> Reg
    returns
        (Reg { addr: 0x022e, width: 2 }),
{
    Reg { addr: 0x022e, width: 2 }
}

#[verifier::allow_in_spec]
pub fn t_winding_cc() -> Reg
    returns
        (Reg { addr: 0x0230, width: 2 }),
{
    Reg { addr: 0x0230, width: 2 }
}

#[verifier::allow_in_spec]
pub fn vbus_counts() -> Reg
    returns
        (Reg { addr: 0x0232, width: 2 }),
{
    Reg { addr: 0x0232, width: 2 }
}

#[verifier::allow_in_spec]
pub fn duty_applied_q15() -> Reg
    returns
        (Reg { addr: 0x0234, width: 2 }),
{
    Reg { addr: 0x0234, width: 2 }
}

#[verifier::allow_in_spec]
pub fn omega_bemf_cps() -> Reg
    returns
        (Reg { addr: 0x0236, width: 2 }),
{
    Reg { addr: 0x0236, width: 2 }
}

#[verifier::allow_in_spec]
pub fn r_hat_q12() -> Reg
    returns
        (Reg { addr: 0x0238, width: 2 }),
{
    Reg { addr: 0x0238, width: 2 }
}

#[verifier::allow_in_spec]
pub fn i_hat_counts() -> Reg
    returns
        (Reg { addr: 0x023a, width: 2 }),
{
    Reg { addr: 0x023a, width: 2 }
}

#[verifier::allow_in_spec]
pub fn sample_tick() -> Reg
    returns
        (Reg { addr: 0x023c, width: 4 }),
{
    Reg { addr: 0x023c, width: 4 }
}

#[verifier::allow_in_spec]
pub fn pos() -> Reg
    returns
        (Reg { addr: 0x0240, width: 2 }),
{
    Reg { addr: 0x0240, width: 2 }
}

#[verifier::allow_in_spec]
pub fn current() -> Reg
    returns
        (Reg { addr: 0x0242, width: 2 }),
{
    Reg { addr: 0x0242, width: 2 }
}

#[verifier::allow_in_spec]
pub fn current_trough() -> Reg
    returns
        (Reg { addr: 0x0250, width: 2 }),
{
    Reg { addr: 0x0250, width: 2 }
}

#[verifier::allow_in_spec]
pub fn current_bias_counts() -> Reg
    returns
        (Reg { addr: 0x0252, width: 2 }),
{
    Reg { addr: 0x0252, width: 2 }
}

#[verifier::allow_in_spec]
pub fn i_mean_counts() -> Reg
    returns
        (Reg { addr: 0x0254, width: 2 }),
{
    Reg { addr: 0x0254, width: 2 }
}

#[verifier::allow_in_spec]
pub fn i_min_counts() -> Reg
    returns
        (Reg { addr: 0x0256, width: 2 }),
{
    Reg { addr: 0x0256, width: 2 }
}

#[verifier::allow_in_spec]
pub fn i_max_counts() -> Reg
    returns
        (Reg { addr: 0x0258, width: 2 }),
{
    Reg { addr: 0x0258, width: 2 }
}

#[verifier::allow_in_spec]
pub fn vdiff_mean() -> Reg
    returns
        (Reg { addr: 0x025a, width: 2 }),
{
    Reg { addr: 0x025a, width: 2 }
}

#[verifier::allow_in_spec]
pub fn duty_mean_q15() -> Reg
    returns
        (Reg { addr: 0x025c, width: 2 }),
{
    Reg { addr: 0x025c, width: 2 }
}

#[verifier::allow_in_spec]
pub fn agg_seq() -> Reg
    returns
        (Reg { addr: 0x025e, width: 2 }),
{
    Reg { addr: 0x025e, width: 2 }
}

} // verus!
