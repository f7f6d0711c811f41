//! Fixed-gain three-state observer. Predict pushes position and velocity
//! through the mechanical model; correct nudges all three states against the
//! measured pot position. The third state is the disturbance torque the model
//! cannot explain, in current counts; it feeds stall and collision detection.
//! Gains are host-synthesized constants.

use crate::math::{
    bound, clamp32, clamp_i16, count_q16, fits32, from_count, lemma_q_scales, lemma_wrap32_fits,
    q_mul, q_product, reinterpret, sat32, sat_add, sat_mul, sat_sub, whole_q16, wrap32,
};
use vstd::prelude::*;

verus! {

/// Predict skips the Coulomb term below 1 c/s: at rest omega dithers around
/// zero by sub-count amounts, and a chattering sign would inject a phantom
/// friction drive into every predict.
pub const FRIC_OMEGA_EPS_CSQ16: i32 = 65_536;

/// Arithmetic guard on theta, 2^29. Theta is not clamped to the pot span: it
/// tracks the measurement freely so the innovation stays honest past the ends.
pub const THETA_LIM_CQ16: i32 = 536_870_912;

/// Innovation clamp, 128 counts.
pub const E_LIM_CQ16: i32 = 8_388_608;

/// `i16` c/s full scale in csQ16.
pub const OMEGA_LIM_CSQ16: i32 = 2_147_418_112;

/// Full shunt scale in ccQ16.
pub const TAU_D_LIM_CCQ16: i32 = 268_369_920;

/// Model-input clamp, twice the shunt full scale.
pub const ACCEL_LIM_CC: i32 = 8_192;

/// Motor model and correction gains, loaded fresh each step.
#[derive(Copy, Clone, Debug, PartialEq, Eq, Structural)]
pub struct FusionGains {
    pub b_i_q313: u16,
    pub l1_q016: u16,
    pub l2_q88: u16,
    pub l3_q88: u16,
    pub l_bemf_q016: u16,
    pub fric_fc_counts: u16,
}

/// States: theta cQ16 (pot counts), omega csQ16, tau_d ccQ16.
#[derive(Copy, Clone, Debug, PartialEq, Eq, Structural)]
pub struct FusionObs {
    pub theta_q16: i32,
    pub omega_q16: i32,
    pub tau_d_q16: i32,
}

/// The observer's states as plain integers.
pub struct Fused {
    pub theta: int,
    pub omega: int,
    pub tau_d: int,
}

/// `x` limited to plus or minus `lim`.
pub open spec fn within(x: int, lim: int) -> int {
    bound(x, -lim, lim)
}

/// Coulomb friction opposing the motion, nothing inside the dead band.
pub open spec fn friction(omega: int, fc: int) -> int {
    if omega > FRIC_OMEGA_EPS_CSQ16 {
        fc
    } else if omega < -FRIC_OMEGA_EPS_CSQ16 {
        -fc
    } else {
        0
    }
}

/// The model pushed one tick ahead, before any measurement: current that
/// neither friction nor the disturbance absorbs accelerates the shaft, and the
/// new velocity moves it for `dt / 2^32` seconds.
pub open spec fn predicted(s: Fused, i: int, dt: int, g: FusionGains) -> Fused {
    let accel = within(i - friction(s.omega, g.fric_fc_counts as int) - s.tau_d / 65_536, ACCEL_LIM_CC as int);
    let omega = within(s.omega + sat32(8 * (g.b_i_q313 * accel)), OMEGA_LIM_CSQ16 as int);
    let theta = within(s.theta + q_product(omega, dt, 32), THETA_LIM_CQ16 as int);
    Fused { theta, omega, tau_d: s.tau_d }
}

/// `p` corrected against the measurement by the innovation `e`.
pub open spec fn corrected(p: Fused, e: int, g: FusionGains) -> Fused {
    Fused {
        theta: within(p.theta + q_product(g.l1_q016 as int, e, 16), THETA_LIM_CQ16 as int),
        omega: within(p.omega + q_product(g.l2_q88 as int, e, 8), OMEGA_LIM_CSQ16 as int),
        tau_d: within(p.tau_d - q_product(g.l3_q88 as int, e, 8), TAU_D_LIM_CCQ16 as int),
    }
}

/// `c` with its velocity pulled toward the back-EMF estimate, where there is
/// one and the blend is on.
pub open spec fn blended(c: Fused, bemf: Option<i32>, g: FusionGains) -> Fused {
    match bemf {
        Some(w) if g.l_bemf_q016 > 0 => Fused {
            omega: within(
                c.omega + q_product(g.l_bemf_q016 as int, sat32(w - c.omega), 16),
                OMEGA_LIM_CSQ16 as int,
            ),
            ..c
        },
        _ => c,
    }
}

/// One whole predict-correct-blend step.
pub open spec fn fused(s: Fused, i: int, pos: u16, bemf: Option<i32>, dt: int, g: FusionGains) -> Fused {
    let p = predicted(s, i, dt, g);
    blended(corrected(p, within(count_q16(pos) - p.theta, E_LIM_CQ16 as int), g), bemf, g)
}

fn fric_c(omega_q16: i32, fric_fc_counts: u16) -> (r: i32)
    ensures
        r == friction(omega_q16 as int, fric_fc_counts as int),
        -65_535 <= r <= 65_535,
{
    if omega_q16 > FRIC_OMEGA_EPS_CSQ16 {
        fric_fc_counts as i32
    } else if omega_q16 < -FRIC_OMEGA_EPS_CSQ16 {
        -(fric_fc_counts as i32)
    } else {
        0
    }
}

/// The scaled product of a 16-bit gain and a value below `lim` in magnitude is
/// below `lim * 65535 / scale`.
proof fn lemma_gain_range(gain: u16, e: int, lim: int, k: nat, scale: int)
    requires
        -lim <= e <= lim,
        0 < scale,
        vstd::arithmetic::power2::pow2(k) == scale,
        65_535 * lim <= scale * 0x7fff_ffff,
    ensures
        fits32(q_product(gain as int, e, k)),
{
    let p = gain as int * e;
    assert(-65_535 * lim <= p <= 65_535 * lim) by (nonlinear_arith)
        requires
            p == gain as int * e,
            0 <= gain <= 65_535,
            -lim <= e <= lim,
    ;
    vstd::arithmetic::div_mod::lemma_fundamental_div_mod(p, scale);
    let q = p / scale;
    assert(-0x7fff_ffff - 1 <= q <= 0x7fff_ffff) by (nonlinear_arith)
        requires
            p == scale * q + p % scale,
            0 <= p % scale < scale,
            0 < scale,
            -scale * 0x7fff_ffff <= p <= scale * 0x7fff_ffff,
    ;
}

proof fn lemma_travel_range(omega: int, dt: int)
    requires
        fits32(omega),
        fits32(dt),
    ensures
        -0x4000_0000 <= q_product(omega, dt, 32) <= 0x4000_0000,
{
    lemma_q_scales();
    let p = omega * dt;
    assert(-0x4000_0000_0000_0000 <= p <= 0x4000_0000_0000_0000) by (nonlinear_arith)
        requires
            p == omega * dt,
            -0x8000_0000 <= omega <= 0x7fff_ffff,
            -0x8000_0000 <= dt <= 0x7fff_ffff,
    ;
}

impl FusionObs {
    pub open spec fn view(self) -> Fused {
        Fused { theta: self.theta_q16 as int, omega: self.omega_q16 as int, tau_d: self.tau_d_q16 as int }
    }

    /// Every state inside its clamp.
    pub open spec fn in_bounds(self) -> bool {
        &&& -THETA_LIM_CQ16 <= self.theta_q16 <= THETA_LIM_CQ16
        &&& -OMEGA_LIM_CSQ16 <= self.omega_q16 <= OMEGA_LIM_CSQ16
        &&& -TAU_D_LIM_CCQ16 <= self.tau_d_q16 <= TAU_D_LIM_CCQ16
    }

    /// The innovation of this step is an `i32`; any pot reading up to 24575
    /// counts qualifies, whatever the state.
    pub open spec fn accepts(self, i_counts: i32, pos_meas: u16, dt_med_q32: u32, gains: FusionGains) -> bool {
        fits32(count_q16(pos_meas) - predicted(self@, i_counts as int, wrap32(dt_med_q32 as int), gains).theta)
    }

    pub fn new() -> (r: Self)
        ensures
            r@ == (Fused { theta: 0, omega: 0, tau_d: 0 }),
            r.in_bounds(),
    {
        FusionObs { theta_q16: 0, omega_q16: 0, tau_d_q16: 0 }
    }

    /// Reset to the measurement: at rest, undisturbed, at the pot reading, so
    /// stale states never kick a fresh enable.
    pub fn seed(&mut self, pos_meas: u16)
        ensures
            final(self)@ == (Fused { theta: count_q16(pos_meas), omega: 0, tau_d: 0 }),
            pos_meas < 32_768 ==> final(self).theta_q16 == 65_536 * pos_meas,
            final(self).omega_q16 == 0 && final(self).tau_d_q16 == 0,
            pos_meas <= 8_192 ==> final(self).in_bounds(),
    {
        self.theta_q16 = from_count(pos_meas);
        self.omega_q16 = 0;
        self.tau_d_q16 = 0;
    }

    /// One medium-tick predict and correct. `i_counts` is the current to
    /// believe, already resolved by the caller: the measurement when the shunt
    /// window is valid, else the command. `dt_med_q32` is the tick in seconds
    /// over 2^32, below 2^31 for any medium rate of at least 2 Hz.
    pub fn step(
        &mut self,
        i_counts: i32,
        pos_meas: u16,
        omega_bemf_cps_q16: Option<i32>,
        dt_med_q32: u32,
        gains: &FusionGains,
    )
        requires
            old(self).accepts(i_counts, pos_meas, dt_med_q32, *gains),
        ensures
            final(self)@ == fused(
                old(self)@,
                i_counts as int,
                pos_meas,
                omega_bemf_cps_q16,
                wrap32(dt_med_q32 as int),
                *gains,
            ),
            final(self).in_bounds(),
    {
        let ghost s = self@;
        let dt: i32 = reinterpret(dt_med_q32);
        let fric: i32 = fric_c(self.omega_q16, gains.fric_fc_counts);
        let accel: i32 = clamp32(
            sat_sub(sat_sub(i_counts, fric), whole_q16(self.tau_d_q16)),
            -ACCEL_LIM_CC,
            ACCEL_LIM_CC,
        );
        proof {
            lemma_q_scales();
            let p = gains.b_i_q313 as int * accel as int;
            assert(-536_870_912 <= p <= 536_870_912) by (nonlinear_arith)
                requires
                    p == gains.b_i_q313 as int * accel as int,
                    0 <= gains.b_i_q313 <= 65_535,
                    -8_192 <= accel <= 8_192,
            ;
            lemma_wrap32_fits(p);
        }
        let push: i32 = sat_mul(q_mul(gains.b_i_q313 as i32, accel, 0), 8);
        self.omega_q16 = clamp32(sat_add(self.omega_q16, push), -OMEGA_LIM_CSQ16, OMEGA_LIM_CSQ16);
        proof {
            lemma_travel_range(self.omega_q16 as int, dt as int);
            lemma_wrap32_fits(q_product(self.omega_q16 as int, dt as int, 32));
        }
        self.theta_q16 = clamp32(
            sat_add(self.theta_q16, q_mul(self.omega_q16, dt, 32)),
            -THETA_LIM_CQ16,
            THETA_LIM_CQ16,
        );
        assert(self@ == predicted(s, i_counts as int, dt as int, *gains));

        let e: i32 = clamp32(from_count(pos_meas) - self.theta_q16, -E_LIM_CQ16, E_LIM_CQ16);
        proof {
            lemma_gain_range(gains.l1_q016, e as int, E_LIM_CQ16 as int, 16, 65_536);
            lemma_gain_range(gains.l2_q88, e as int, E_LIM_CQ16 as int, 8, 256);
            lemma_gain_range(gains.l3_q88, e as int, E_LIM_CQ16 as int, 8, 256);
        }
        self.theta_q16 = clamp32(
            sat_add(self.theta_q16, q_mul(gains.l1_q016 as i32, e, 16)),
            -THETA_LIM_CQ16,
            THETA_LIM_CQ16,
        );
        self.omega_q16 = clamp32(
            sat_add(self.omega_q16, q_mul(gains.l2_q88 as i32, e, 8)),
            -OMEGA_LIM_CSQ16,
            OMEGA_LIM_CSQ16,
        );
        self.tau_d_q16 = clamp32(
            sat_sub(self.tau_d_q16, q_mul(gains.l3_q88 as i32, e, 8)),
            -TAU_D_LIM_CCQ16,
            TAU_D_LIM_CCQ16,
        );
        assert(self@ == corrected(predicted(s, i_counts as int, dt as int, *gains), e as int, *gains));

        if gains.l_bemf_q016 > 0 {
            if let Some(w) = omega_bemf_cps_q16 {
                let e_w: i32 = sat_sub(w, self.omega_q16);
                proof {
                    lemma_gain_range(gains.l_bemf_q016, e_w as int, 0x8000_0000, 16, 65_536);
                }
                self.omega_q16 = clamp32(
                    sat_add(self.omega_q16, q_mul(gains.l_bemf_q016 as i32, e_w, 16)),
                    -OMEGA_LIM_CSQ16,
                    OMEGA_LIM_CSQ16,
                );
            }
        }
    }

    pub fn theta_q16(&self) -> (r: i32)
        ensures
            r == self.theta_q16,
    {
        self.theta_q16
    }

    pub fn omega_q16(&self) -> (r: i32)
        ensures
            r == self.omega_q16,
    {
        self.omega_q16
    }

    /// Whole current counts of the disturbance.
    pub fn tau_d_counts(&self) -> (r: i16)
        ensures
            r == self@.tau_d / 65_536,
            self.in_bounds() ==> -4_095 <= r <= 4_095,
    {
        clamp_i16(whole_q16(self.tau_d_q16))
    }
}

impl Default for FusionObs {
    fn default() -> (r: Self)
        ensures
            r@ == (Fused { theta: 0, omega: 0, tau_d: 0 }),
    {
        FusionObs::new()
    }
}

/// Readings a 12-bit converter can give are always accepted, and so is any
/// other up to 24575 counts, whatever the state, the current and the gains.
pub proof fn law_accepts_pot_range(s: FusionObs, i_counts: i32, pos_meas: u16, dt_med_q32: u32, gains: FusionGains)
    requires
        pos_meas <= 24_575,
    ensures
        s.accepts(i_counts, pos_meas, dt_med_q32, gains),
{
}

/// An observer at rest on the measurement stays there: with no current, no
/// disturbance and no velocity, nothing moves, however large the Coulomb term
/// and whatever the gains.
pub proof fn law_rest_is_fixed(s: Fused, pos: u16, dt: int, g: FusionGains)
    requires
        s.theta == count_q16(pos),
        -THETA_LIM_CQ16 <= s.theta <= THETA_LIM_CQ16,
        s.omega == 0,
        s.tau_d == 0,
    ensures
        fused(s, 0, pos, None, dt, g) == s,
{
    lemma_q_scales();
    assert(g.b_i_q313 * 0 == 0);
    assert(0 * dt == 0);
    assert(g.l1_q016 * 0 == 0 && g.l2_q88 * 0 == 0 && g.l3_q88 * 0 == 0);
}

/// Seeding puts the observer at the reading and keeps it there while the
/// reading stands, for every reading inside the theta guard.
pub proof fn law_seed_holds(pos: u16, dt: int, g: FusionGains)
    requires
        pos <= 8_192,
    ensures
        fused(Fused { theta: count_q16(pos), omega: 0, tau_d: 0 }, 0, pos, None, dt, g) == (Fused {
            theta: pos * 65_536,
            omega: 0,
            tau_d: 0,
        }),
{
    law_rest_is_fixed(Fused { theta: count_q16(pos), omega: 0, tau_d: 0 }, pos, dt, g);
}

/// With the blend gain at zero the back-EMF estimate has no influence.
pub proof fn law_blend_off(s: Fused, i: int, pos: u16, w: Option<i32>, dt: int, g: FusionGains)
    requires
        g.l_bemf_q016 == 0,
    ensures
        fused(s, i, pos, w, dt, g) == fused(s, i, pos, None, dt, g),
{
}

/// The blend never carries the velocity past the estimate it pulls toward.
pub proof fn law_blend_pulls_toward(c: Fused, w: i32, g: FusionGains)
    requires
        -OMEGA_LIM_CSQ16 <= c.omega <= OMEGA_LIM_CSQ16,
        -OMEGA_LIM_CSQ16 <= w <= OMEGA_LIM_CSQ16,
    ensures
        c.omega <= w ==> c.omega <= blended(c, Some(w), g).omega <= w,
        w <= c.omega ==> w <= blended(c, Some(w), g).omega <= c.omega,
        blended(c, Some(w), g).theta == c.theta,
        blended(c, Some(w), g).tau_d == c.tau_d,
{
    lemma_q_scales();
    let e = sat32(w - c.omega);
    let p = g.l_bemf_q016 as int * e;
    if c.omega <= w {
        assert(0 <= p <= 65_535 * e) by (nonlinear_arith)
            requires
                p == g.l_bemf_q016 as int * e,
                0 <= g.l_bemf_q016 <= 65_535,
                0 <= e,
        ;
    } else {
        assert(65_535 * e <= p <= 0) by (nonlinear_arith)
            requires
                p == g.l_bemf_q016 as int * e,
                0 <= g.l_bemf_q016 <= 65_535,
                e <= 0,
        ;
    }
}

} // verus!
