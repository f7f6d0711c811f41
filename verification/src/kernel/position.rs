//! Position P loop: error times gain gives a velocity command, plus the omega*
//! feedforward, clamped to the velocity limit. There is no integrator: a
//! position integrator over Coulomb friction limit-cycles. The anti-hunt hold
//! tells the kernel to coast inside the deadband instead of dithering against
//! friction.
//!
//! Hold gates on position rest alone, never on the estimated velocity: that is
//! pot-noise driven at rest, and a gate on it could not re-catch once the loop
//! is shaking.

use super::trajectory::VEL_CAP_CPS;
use crate::math::{
    abs, bound, clamp32, least, lemma_q_scales, lemma_wrap32_fits, magnitude, min_u16, q_mul,
    q_product, sat32, sat_add, sat_sub,
};
use vstd::prelude::*;

verus! {

/// P error clamp, 128 counts: keeps the gain product exact for any gain. The
/// hold predicate compares the raw error, never this clamp.
pub const E_LIM_CQ16: i32 = 8_388_608;

/// Loop gain and hold fields, loaded fresh each step.
#[derive(Copy, Clone, Debug, PartialEq, Eq, Structural)]
pub struct PositionCfg {
    pub kp_q88: u16,
    /// 0 disables the hold predicate entirely.
    pub pos_deadband_counts: u16,
    pub vel_limit_cps: u16,
}

/// omega_ref for the velocity loop plus the anti-hunt flag.
#[derive(Copy, Clone, Debug, PartialEq, Eq, Structural)]
pub struct PosOut {
    pub omega_ref_q16: i32,
    pub hold: bool,
}

impl PositionCfg {
    /// Speed limit, csQ16.
    pub open spec fn speed(self) -> int {
        least(self.vel_limit_cps as int, VEL_CAP_CPS as int) * 65_536
    }

    /// The velocity command for an error and a feedforward.
    pub open spec fn command(self, error: int, omega_star: int) -> int {
        bound(
            q_product(self.kp_q88 as int, bound(error, -E_LIM_CQ16 as int, E_LIM_CQ16 as int), 8)
                + omega_star,
            -self.speed(),
            self.speed(),
        )
    }

    /// Parked: a deadband is set, the error is inside it and the profile is at
    /// rest.
    pub open spec fn holds(self, error: int, omega_star: int) -> bool {
        &&& self.pos_deadband_counts != 0
        &&& abs(error) <= self.pos_deadband_counts * 65_536
        &&& omega_star == 0
    }
}

/// One medium-tick update; stateless. theta* and omega* come from the
/// trajectory generator, theta_hat from the observer.
pub fn step(theta_star_q16: i32, omega_star_q16: i32, theta_hat_q16: i32, cfg: &PositionCfg) -> (r: PosOut)
    ensures
        r.omega_ref_q16 == cfg.command(theta_star_q16 - theta_hat_q16, omega_star_q16 as int),
        r.hold == cfg.holds(sat32(theta_star_q16 - theta_hat_q16), omega_star_q16 as int),
{
    let e_raw: i32 = sat_sub(theta_star_q16, theta_hat_q16);
    let e: i32 = clamp32(e_raw, -E_LIM_CQ16, E_LIM_CQ16);
    let v_lim: i32 = min_u16(cfg.vel_limit_cps, VEL_CAP_CPS) as i32 * 65_536;
    proof {
        lemma_q_scales();
        let p = cfg.kp_q88 as int * e as int;
        assert(-549_747_425_280 <= p <= 549_747_425_280) by (nonlinear_arith)
            requires
                p == cfg.kp_q88 as int * e as int,
                0 <= cfg.kp_q88 <= 65_535,
                -8_388_608 <= e <= 8_388_608,
        ;
        lemma_wrap32_fits(q_product(cfg.kp_q88 as int, e as int, 8));
    }
    let omega_ref: i32 = clamp32(
        sat_add(q_mul(cfg.kp_q88 as i32, e, 8), omega_star_q16),
        -v_lim,
        v_lim,
    );
    let hold: bool = cfg.pos_deadband_counts != 0 && magnitude(e_raw)
        <= cfg.pos_deadband_counts as u32 * 65_536 && omega_star_q16 == 0;
    PosOut { omega_ref_q16: omega_ref, hold }
}

/// The command stays inside the speed limit, whatever the error and the
/// feedforward.
pub proof fn law_command_limited(cfg: PositionCfg, error: int, omega_star: int)
    ensures
        -cfg.speed() <= cfg.command(error, omega_star) <= cfg.speed(),
{
}

/// With no error the command is the feedforward alone, and it opposes the
/// error otherwise: a larger error never commands a smaller velocity.
pub proof fn law_command_monotone(cfg: PositionCfg, e1: int, e2: int, omega_star: int)
    requires
        e1 <= e2,
    ensures
        cfg.command(e1, omega_star) <= cfg.command(e2, omega_star),
        cfg.command(0, omega_star) == bound(omega_star, -cfg.speed(), cfg.speed()),
{
    lemma_q_scales();
    let b1 = bound(e1, -E_LIM_CQ16 as int, E_LIM_CQ16 as int);
    let b2 = bound(e2, -E_LIM_CQ16 as int, E_LIM_CQ16 as int);
    assert(cfg.kp_q88 * b1 <= cfg.kp_q88 * b2) by (nonlinear_arith)
        requires
            b1 <= b2,
            0 <= cfg.kp_q88,
    ;
    assert(cfg.kp_q88 * 0 == 0);
}

/// Hold judges the raw error: an error past the command clamp still holds
/// inside a deadband wide enough for it, and a zero deadband never holds.
pub proof fn law_hold_is_raw(cfg: PositionCfg, error: int, omega_star: int)
    ensures
        cfg.pos_deadband_counts == 0 ==> !cfg.holds(error, omega_star),
        omega_star != 0 ==> !cfg.holds(error, omega_star),
        cfg.holds(error, omega_star) ==> cfg.holds(-error, omega_star),
        cfg.pos_deadband_counts != 0 && omega_star == 0 ==> (cfg.holds(error, omega_star) <==> abs(
            error,
        ) <= cfg.pos_deadband_counts * 65_536),
{
}

} // verus!
