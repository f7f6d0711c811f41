//! Trapezoid trajectory generator: shapes goal steps into accel- and
//! velocity-limited profiles and emits the references theta*, omega* and the
//! feedforward alpha*. alpha* is the delta-omega actually applied each tick,
//! clamps and terminal snap included. The decel decision is a discrete
//! per-tick test done multiply-only (a widened cross-compare, no divide).

use crate::estimator::fusion::THETA_LIM_CQ16;
use crate::math::{
    abs, bound, clamp32, greatest, least, lemma_q_scales, magnitude, max32, min32, min_u16, q_mul,
    q_product, raw_bits, reinterpret, sat_neg, sat_sub, whole_q16, wide_ge, wrap32,
};
use vstd::prelude::*;

verus! {

/// Whole-count goal bound implied by the theta guard.
pub const GOAL_LIM_COUNTS: i32 = 8_192;

/// omega_ref cap in c/s: `i16` full scale. Shared with the position loop,
/// which clamps its output against the same config field.
pub const VEL_CAP_CPS: u16 = 32_767;

/// `VEL_CAP_CPS` in csQ16.
pub const VEL_CAP_CSQ16: i32 = 2_147_418_112;

/// Terminal snap floor: below one accel step of omega and within one whole
/// count, land exactly instead of creeping forever.
pub const SNAP_D_CQ16: u32 = 65_536;

/// Velocity-mode wall ramp: c/s of inward allowance per count of distance to a
/// soft limit.
pub const WALL_RAMP_CPS: i32 = 16;

/// Distance from which the wall ramp no longer binds: the least whole count
/// whose allowance covers `VEL_CAP_CPS`.
pub const WALL_RAMP_REACH: i32 = 2_048;

/// Profile limits and soft limits, loaded fresh each step. `dt_med_q32` is the
/// medium tick in seconds over 2^32; a medium rate above 2 Hz keeps it below
/// 2^31.
#[derive(Copy, Clone, Debug, PartialEq, Eq, Structural)]
pub struct TrajCfg {
    pub vel_limit_cps: u16,
    /// c/s of omega change per medium tick, Q8.8.
    pub accel_limit_q88: u16,
    pub pos_min_soft_counts: i32,
    pub pos_max_soft_counts: i32,
    pub dt_med_q32: u32,
}

/// State: theta_ref cQ16, omega_ref csQ16, alpha_last csQ16 per tick.
#[derive(Copy, Clone, Debug, PartialEq, Eq, Structural)]
pub struct TrajGen {
    pub theta_ref_q16: i32,
    pub omega_ref_q16: i32,
    pub alpha_last_q16: i32,
}

/// The references as plain integers.
pub struct Profile {
    pub theta: int,
    pub omega: int,
    pub alpha: int,
}

impl Profile {
    /// Inside the arithmetic guards.
    pub open spec fn in_bounds(self) -> bool {
        &&& -THETA_LIM_CQ16 <= self.theta <= THETA_LIM_CQ16
        &&& -VEL_CAP_CSQ16 <= self.omega <= VEL_CAP_CSQ16
    }
}

impl TrajCfg {
    /// Omega change per tick, csQ16.
    pub open spec fn accel(self) -> int {
        self.accel_limit_q88 * 256
    }

    /// Speed limit, c/s.
    pub open spec fn speed_cps(self) -> int {
        least(self.vel_limit_cps as int, VEL_CAP_CPS as int)
    }

    /// Speed limit, csQ16.
    pub open spec fn speed(self) -> int {
        self.speed_cps() * 65_536
    }

    pub open spec fn soft_lo(self) -> int {
        least(self.pos_min_soft_counts as int, self.pos_max_soft_counts as int)
    }

    pub open spec fn soft_hi(self) -> int {
        greatest(self.pos_min_soft_counts as int, self.pos_max_soft_counts as int)
    }

    /// Where a goal in counts leads: clamped to the soft limits, cQ16.
    pub open spec fn target(self, goal_counts: int) -> int {
        bound(
            bound(goal_counts, self.soft_lo(), self.soft_hi()),
            -GOAL_LIM_COUNTS as int,
            GOAL_LIM_COUNTS as int,
        ) * 65_536
    }

    /// Distance covered in one tick at a speed, cQ16.
    pub open spec fn reach(self, speed: int) -> int {
        q_product(speed, wrap32(self.dt_med_q32 as int), 32)
    }

    /// Cruising one more tick at `speed` and then shedding one accel step per
    /// tick would need more than `distance`: `speed * (speed + a) * dt / (2a)`,
    /// compared without a quotient.
    pub open spec fn must_brake(self, speed: int, distance: int) -> bool {
        (speed + self.accel()) * (self.reach(speed) % 0x1_0000_0000) >= 2 * self.accel() * distance
    }

    /// The next speed along the direction of the goal, from the present one
    /// (negative while moving away) and the distance left. Moving away, slew
    /// back through zero; otherwise approach the speed limit unless it is time
    /// to brake.
    pub open spec fn next_speed(self, v: int, distance: int) -> int {
        let a = self.accel();
        if v < 0 {
            least(v + a, self.speed())
        } else {
            let up = v + bound(self.speed() - v, -a, a);
            if self.must_brake(up, distance) {
                greatest(v - a, 0)
            } else {
                up
            }
        }
    }

    /// At speed `v` along the goal direction, `distance` away, this tick ends
    /// on the goal: one tick of travel covers the rest, or what is left is
    /// below a count and a single accel step.
    pub open spec fn lands(self, v: int, distance: int) -> bool {
        ||| (v >= 0 || distance == 0) && self.reach(abs(v)) % 0x1_0000_0000 >= distance
        ||| abs(v) <= self.accel() && distance < SNAP_D_CQ16
    }

    /// c/s that the upper wall still allows at a position in counts.
    pub open spec fn allow_up(self, th: int) -> int {
        bound(self.soft_hi() - th, 0, WALL_RAMP_REACH as int) * WALL_RAMP_CPS
    }

    /// c/s that the lower wall still allows at a position in counts.
    pub open spec fn allow_down(self, th: int) -> int {
        bound(th - self.soft_lo(), 0, WALL_RAMP_REACH as int) * WALL_RAMP_CPS
    }

    /// Where a velocity goal leads at a position in counts: clamped to the
    /// speed limit, then to the wall ramps, csQ16.
    pub open spec fn velocity_target(self, goal_cps: int, th: int) -> int {
        bound(
            bound(goal_cps, -self.speed_cps(), self.speed_cps()),
            -self.allow_down(th),
            self.allow_up(th),
        ) * 65_536
    }
}

/// `x` read along the direction of `d`.
pub open spec fn along(d: int, x: int) -> int {
    if d >= 0 {
        x
    } else {
        -x
    }
}

/// Signed travel of one tick at `omega`.
pub open spec fn travel(omega: int, cfg: TrajCfg) -> int {
    along(omega, cfg.reach(abs(omega)))
}

/// `theta` inside the arithmetic guard.
pub open spec fn guarded(theta: int) -> int {
    bound(theta, -THETA_LIM_CQ16 as int, THETA_LIM_CQ16 as int)
}

/// One position-mode tick toward `goal_counts`. alpha is the change of omega.
pub open spec fn position_tick(s: Profile, goal_counts: int, cfg: TrajCfg) -> Profile {
    let goal = cfg.target(goal_counts);
    let d = goal - s.theta;
    let v = cfg.next_speed(along(d, s.omega), abs(d));
    if cfg.lands(v, abs(d)) {
        Profile { theta: goal, omega: 0, alpha: -s.omega }
    } else {
        let omega = along(d, v);
        Profile { theta: guarded(s.theta + travel(omega, cfg)), omega, alpha: omega - s.omega }
    }
}

/// One velocity-mode tick at the estimated position `theta_hat` (cQ16): omega
/// slews toward the target by at most one accel step.
pub open spec fn velocity_tick(s: Profile, goal_cps: int, theta_hat: int, cfg: TrajCfg) -> Profile {
    let goal = cfg.velocity_target(goal_cps, theta_hat / 65_536);
    let omega = s.omega + bound(goal - s.omega, -cfg.accel(), cfg.accel());
    Profile { theta: guarded(s.theta + travel(omega, cfg)), omega, alpha: omega - s.omega }
}

/// At rest on the goal.
pub open spec fn landed(s: Profile, goal_counts: int, cfg: TrajCfg) -> bool {
    s.theta == cfg.target(goal_counts) && s.omega == 0
}

proof fn lemma_reach_range(cfg: TrajCfg, v: int)
    requires
        0 <= v <= VEL_CAP_CSQ16,
    ensures
        -0x4000_0000 <= cfg.reach(v) <= 0x4000_0000,
        wrap32(cfg.reach(v)) == cfg.reach(v),
        cfg.dt_med_q32 < 0x8000_0000 ==> 0 <= cfg.reach(v),
{
    lemma_q_scales();
    let dt = wrap32(cfg.dt_med_q32 as int);
    let p = v * dt;
    assert(-0x4000_0000_0000_0000 <= p <= 0x4000_0000_0000_0000) by (nonlinear_arith)
        requires
            p == v * dt,
            0 <= v <= 0x7fff_ffff,
            -0x8000_0000 <= dt <= 0x7fff_ffff,
    ;
    assert(dt >= 0 ==> p >= 0) by (nonlinear_arith)
        requires
            p == v * dt,
            0 <= v,
    ;
}

impl TrajGen {
    pub open spec fn view(self) -> Profile {
        Profile {
            theta: self.theta_ref_q16 as int,
            omega: self.omega_ref_q16 as int,
            alpha: self.alpha_last_q16 as int,
        }
    }

    pub fn new() -> (r: Self)
        ensures
            r@ == (Profile { theta: 0, omega: 0, alpha: 0 }),
            r@.in_bounds(),
    {
        TrajGen { theta_ref_q16: 0, omega_ref_q16: 0, alpha_last_q16: 0 }
    }

    /// Enable edge or mode change: reference at the estimate, at rest.
    pub fn reseed(&mut self, theta_hat_q16: i32)
        ensures
            final(self)@ == (Profile { theta: guarded(theta_hat_q16 as int), omega: 0, alpha: 0 }),
            final(self)@.in_bounds(),
            -536_870_912 <= theta_hat_q16 <= 536_870_912 ==> final(self).theta_ref_q16
                == theta_hat_q16,
            theta_hat_q16 > 536_870_912 ==> final(self).theta_ref_q16 == 536_870_912,
            theta_hat_q16 < -536_870_912 ==> final(self).theta_ref_q16 == -536_870_912,
            final(self).omega_ref_q16 == 0,
            final(self).alpha_last_q16 == 0,
    {
        self.theta_ref_q16 = clamp32(theta_hat_q16, -THETA_LIM_CQ16, THETA_LIM_CQ16);
        self.omega_ref_q16 = 0;
        self.alpha_last_q16 = 0;
    }

    /// One medium-tick trapezoid step toward `goal_counts`, clamped to the
    /// soft limits. A decel chain shedding `a` per tick from `v` travels
    /// `(v^2 - a*v) * dt / (2a)`, so one more tick at `v` and then the chain
    /// need `v * (v + a) * dt / (2a)`: braking starts when that no longer fits.
    pub fn step_position(&mut self, goal_counts: i32, cfg: &TrajCfg)
        requires
            old(self)@.in_bounds(),
        ensures
            final(self)@ == position_tick(old(self)@, goal_counts as int, *cfg),
            final(self)@.in_bounds(),
    {
        let a: i32 = cfg.accel_limit_q88 as i32 * 256;
        let v_lim: i32 = min_u16(cfg.vel_limit_cps, VEL_CAP_CPS) as i32 * 65_536;
        let lo: i32 = min32(cfg.pos_min_soft_counts, cfg.pos_max_soft_counts);
        let hi: i32 = max32(cfg.pos_max_soft_counts, cfg.pos_min_soft_counts);
        let goal: i32 = clamp32(
            clamp32(goal_counts, lo, hi),
            -GOAL_LIM_COUNTS,
            GOAL_LIM_COUNTS,
        ) * 65_536;
        let dt: i32 = reinterpret(cfg.dt_med_q32);
        let d: i32 = goal - self.theta_ref_q16;
        let d_abs: u32 = magnitude(d);
        let dir_pos: bool = d >= 0;
        let prev: i32 = self.omega_ref_q16;
        let v: i32 = if dir_pos { prev } else { -prev };
        let v_next: i32 = if v < 0 {
            min32(v + a, v_lim)
        } else {
            let v_up: i32 = v + clamp32(v_lim - v, -a, a);
            proof {
                lemma_reach_range(*cfg, v_up as int);
            }
            let vt: u32 = raw_bits(q_mul(v_up, dt, 32));
            if wide_ge(v_up as u32 + a as u32, vt, 2 * (a as u32), d_abs) {
                max32(v - a, 0)
            } else {
                v_up
            }
        };
        assert(v_next == cfg.next_speed(v as int, d_abs as int));
        let omega: i32 = if dir_pos { v_next } else { -v_next };
        let speed: i32 = if omega < 0 { -omega } else { omega };
        proof {
            lemma_reach_range(*cfg, speed as int);
        }
        let step_mag: i32 = q_mul(speed, dt, 32);
        let toward: bool = if omega > 0 {
            d >= 0
        } else if omega < 0 {
            d <= 0
        } else {
            true
        };
        let land: bool = (toward && raw_bits(step_mag) >= d_abs) || (magnitude(omega) <= a as u32 && d_abs
            < SNAP_D_CQ16);
        assert(land == cfg.lands(v_next as int, d_abs as int));
        if land {
            self.theta_ref_q16 = goal;
            self.omega_ref_q16 = 0;
            self.alpha_last_q16 = sat_neg(prev);
        } else {
            let travel: i32 = if omega >= 0 { step_mag } else { -step_mag };
            self.theta_ref_q16 = clamp32(
                self.theta_ref_q16 + travel,
                -THETA_LIM_CQ16,
                THETA_LIM_CQ16,
            );
            self.omega_ref_q16 = omega;
            self.alpha_last_q16 = sat_sub(omega, prev);
        }
    }

    /// Velocity-mode entry: slew omega_ref toward the clamped goal. theta_ref
    /// keeps integrating, so a switch back to position mode starts from a
    /// consistent pose.
    ///
    /// The goal's component toward a soft limit is capped in proportion to the
    /// distance left, reaching 0 at the wall and staying 0 past it. A linear
    /// ramp converges without the limit cycle that a binary cut at the wall
    /// produces. Retreat is never capped.
    pub fn step_velocity(&mut self, goal_velocity_cps: i32, theta_hat_q16: i32, cfg: &TrajCfg)
        requires
            old(self)@.in_bounds(),
        ensures
            final(self)@ == velocity_tick(
                old(self)@,
                goal_velocity_cps as int,
                theta_hat_q16 as int,
                *cfg,
            ),
            final(self)@.in_bounds(),
    {
        let a: i32 = cfg.accel_limit_q88 as i32 * 256;
        let v_cap: i32 = min_u16(cfg.vel_limit_cps, VEL_CAP_CPS) as i32;
        let th: i32 = whole_q16(theta_hat_q16);
        let lo: i32 = min32(cfg.pos_min_soft_counts, cfg.pos_max_soft_counts);
        let hi: i32 = max32(cfg.pos_max_soft_counts, cfg.pos_min_soft_counts);
        let allow_up: i32 = clamp32(sat_sub(hi, th), 0, WALL_RAMP_REACH) * WALL_RAMP_CPS;
        let allow_dn: i32 = clamp32(sat_sub(th, lo), 0, WALL_RAMP_REACH) * WALL_RAMP_CPS;
        let goal: i32 = clamp32(
            clamp32(goal_velocity_cps, -v_cap, v_cap),
            -allow_dn,
            allow_up,
        ) * 65_536;
        assert(goal == cfg.velocity_target(goal_velocity_cps as int, th as int));
        let prev: i32 = self.omega_ref_q16;
        let omega: i32 = prev + clamp32(sat_sub(goal, prev), -a, a);
        let speed: i32 = if omega < 0 { -omega } else { omega };
        proof {
            lemma_reach_range(*cfg, speed as int);
        }
        let step_mag: i32 = q_mul(speed, reinterpret(cfg.dt_med_q32), 32);
        let travel: i32 = if omega >= 0 { step_mag } else { -step_mag };
        self.theta_ref_q16 = clamp32(
            self.theta_ref_q16 + travel,
            -THETA_LIM_CQ16,
            THETA_LIM_CQ16,
        );
        self.omega_ref_q16 = omega;
        self.alpha_last_q16 = omega - prev;
    }

    pub fn theta_star_q16(&self) -> (r: i32)
        ensures
            r == self@.theta,
            r == self.theta_ref_q16,
    {
        self.theta_ref_q16
    }

    pub fn omega_star_q16(&self) -> (r: i32)
        ensures
            r == self@.omega,
            r == self.omega_ref_q16,
    {
        self.omega_ref_q16
    }

    pub fn alpha_star_q16(&self) -> (r: i32)
        ensures
            r == self@.alpha,
            r == self.alpha_last_q16,
    {
        self.alpha_last_q16
    }
}

impl Default for TrajGen {
    fn default() -> (r: Self)
        ensures
            r@ == (Profile { theta: 0, omega: 0, alpha: 0 }),
    {
        TrajGen::new()
    }
}

/// `n` position-mode ticks toward one goal.
pub open spec fn position_ticks(s: Profile, goal_counts: int, cfg: TrajCfg, n: nat) -> Profile
    decreases n,
{
    if n == 0 {
        s
    } else {
        position_ticks(position_tick(s, goal_counts, cfg), goal_counts, cfg, (n - 1) as nat)
    }
}

proof fn lemma_reach_monotone(cfg: TrajCfg, u: int, v: int)
    requires
        0 <= u <= v,
        cfg.dt_med_q32 < 0x8000_0000,
    ensures
        cfg.reach(u) <= cfg.reach(v),
{
    lemma_q_scales();
    let dt = cfg.dt_med_q32 as int;
    assert(u * dt <= v * dt) by (nonlinear_arith)
        requires
            u <= v,
            0 <= dt,
    ;
}

proof fn lemma_reach_rest(cfg: TrajCfg)
    ensures
        cfg.reach(0) == 0,
{
    lemma_q_scales();
    assert(0 * wrap32(cfg.dt_med_q32 as int) == 0);
}

/// alpha* is the change of omega this tick, in both modes and on the landing
/// tick too. Off the landing tick it stays within one accel step.
pub proof fn law_alpha_is_applied(s: Profile, goal: int, theta_hat: int, cfg: TrajCfg)
    requires
        s.in_bounds(),
    ensures
        position_tick(s, goal, cfg).alpha == position_tick(s, goal, cfg).omega - s.omega,
        velocity_tick(s, goal, theta_hat, cfg).alpha == velocity_tick(s, goal, theta_hat, cfg).omega
            - s.omega,
        abs(velocity_tick(s, goal, theta_hat, cfg).alpha) <= cfg.accel(),
        landed(position_tick(s, goal, cfg), goal, cfg) || abs(position_tick(s, goal, cfg).alpha)
            <= cfg.accel(),
{
}

/// A position-mode tick never carries theta* past the goal, from either side
/// and at any speed; while the profile moves toward the goal theta* is
/// monotone.
pub proof fn law_no_overshoot(s: Profile, goal_counts: int, cfg: TrajCfg)
    requires
        s.in_bounds(),
        cfg.dt_med_q32 < 0x8000_0000,
    ensures
        s.theta <= cfg.target(goal_counts) ==> position_tick(s, goal_counts, cfg).theta <= cfg.target(
            goal_counts,
        ),
        s.theta >= cfg.target(goal_counts) ==> position_tick(s, goal_counts, cfg).theta >= cfg.target(
            goal_counts,
        ),
        s.theta <= cfg.target(goal_counts) && s.omega >= 0 ==> s.theta <= position_tick(
            s,
            goal_counts,
            cfg,
        ).theta,
        s.theta >= cfg.target(goal_counts) && s.omega <= 0 ==> s.theta >= position_tick(
            s,
            goal_counts,
            cfg,
        ).theta,
{
    let d = cfg.target(goal_counts) - s.theta;
    let v = cfg.next_speed(along(d, s.omega), abs(d));
    lemma_reach_range(cfg, abs(v));
    lemma_reach_rest(cfg);
}

/// A landed profile stays landed, with alpha* back at zero.
pub proof fn law_landed_is_fixed(s: Profile, goal_counts: int, cfg: TrajCfg)
    requires
        landed(s, goal_counts, cfg),
        cfg.dt_med_q32 < 0x8000_0000,
    ensures
        position_tick(s, goal_counts, cfg) == (Profile { theta: s.theta, omega: 0, alpha: 0 }),
{
    let v = cfg.next_speed(0, 0);
    lemma_reach_range(cfg, v);
}

/// A profile inside the speed limit stays inside it, in both modes.
pub proof fn law_speed_limited(s: Profile, goal: int, theta_hat: int, cfg: TrajCfg)
    requires
        s.in_bounds(),
        abs(s.omega) <= cfg.speed(),
    ensures
        abs(position_tick(s, goal, cfg).omega) <= cfg.speed(),
        abs(velocity_tick(s, goal, theta_hat, cfg).omega) <= cfg.speed(),
{
}

/// The target of a position goal lies inside the soft limits, in whichever
/// order they are given, wherever they meet the arithmetic guard.
pub proof fn law_target_inside_soft_limits(goal_counts: int, cfg: TrajCfg)
    requires
        cfg.soft_lo() <= GOAL_LIM_COUNTS,
        cfg.soft_hi() >= -GOAL_LIM_COUNTS,
    ensures
        cfg.soft_lo() * 65_536 <= cfg.target(goal_counts) <= cfg.soft_hi() * 65_536,
{
}

/// The profile lands: from any state, some number of ticks toward a fixed goal
/// ends at rest exactly on it, provided a tick at the slowest driven speed
/// moves theta* at all and one accel step travels less than a count per tick.
pub proof fn law_lands(s: Profile, goal_counts: int, cfg: TrajCfg)
    requires
        s.in_bounds(),
        cfg.dt_med_q32 < 0x8000_0000,
        cfg.accel() > 0,
        cfg.reach(least(cfg.accel(), cfg.speed())) >= 1,
        cfg.reach(cfg.accel()) < SNAP_D_CQ16,
    ensures
        exists|n: nat| landed(#[trigger] position_ticks(s, goal_counts, cfg, n), goal_counts, cfg),
    decreases
            greatest(0, -along(cfg.target(goal_counts) - s.theta, s.omega)),
            abs(cfg.target(goal_counts) - s.theta),
            abs(s.omega),
{
    let goal = cfg.target(goal_counts);
    let d = goal - s.theta;
    let a = cfg.accel();
    let v = along(d, s.omega);
    let next = position_tick(s, goal_counts, cfg);
    let vn = cfg.next_speed(v, abs(d));
    assert(position_ticks(next, goal_counts, cfg, 0) == next);
    assert(position_ticks(s, goal_counts, cfg, 1) == next) by {
        reveal_with_fuel(position_ticks, 2);
    }
    if !landed(next, goal_counts, cfg) {
        lemma_reach_range(cfg, abs(vn));
        lemma_reach_rest(cfg);
        let dn = goal - next.theta;
        assert(d != 0);
        if vn >= 0 {
            assert(cfg.reach(vn) < abs(d));
            assert(dn == d - along(d, cfg.reach(vn)));
            assert(along(dn, next.omega) == vn);
        } else {
            assert(d > 0 ==> dn >= d);
            assert(d < 0 ==> dn <= d);
            assert(along(dn, next.omega) == vn);
        }
        if v >= 0 {
            let up = v + bound(cfg.speed() - v, -a, a);
            lemma_reach_range(cfg, up);
            lemma_reach_monotone(cfg, least(a, cfg.speed()), up);
            if cfg.must_brake(up, abs(d)) && v == 0 {
                lemma_reach_monotone(cfg, up, a);
                assert(abs(d) <= cfg.reach(up)) by (nonlinear_arith)
                    requires
                        (up + a) * cfg.reach(up) >= 2 * a * abs(d),
                        0 <= up <= a,
                        0 < a,
                        0 <= cfg.reach(up),
                        0 <= abs(d),
                ;
            }
            assert(cfg.must_brake(up, abs(d)) ==> vn < v);
        }
        law_lands(next, goal_counts, cfg);
        let n = choose|n: nat| landed(#[trigger] position_ticks(next, goal_counts, cfg, n), goal_counts, cfg);
        assert(position_ticks(s, goal_counts, cfg, n + 1) == position_ticks(next, goal_counts, cfg, n));
    }
}

/// A velocity-mode tick closes the gap to the target by one accel step, and
/// stays there once it is reached.
pub proof fn law_velocity_converges(s: Profile, goal_cps: int, theta_hat: int, cfg: TrajCfg)
    ensures
        abs(
            cfg.velocity_target(goal_cps, theta_hat / 65_536) - velocity_tick(
                s,
                goal_cps,
                theta_hat,
                cfg,
            ).omega,
        ) == greatest(
            0,
            abs(cfg.velocity_target(goal_cps, theta_hat / 65_536) - s.omega) - cfg.accel(),
        ),
{
}

/// At a soft limit, and past it, a velocity goal further out is pinned to 0;
/// short of it the allowance grows with the distance. A goal leading back
/// answers to the other wall alone.
pub proof fn law_wall_ramp(goal_cps: int, th: int, cfg: TrajCfg)
    ensures
        th >= cfg.soft_hi() && goal_cps >= 0 ==> cfg.velocity_target(goal_cps, th) == 0,
        th <= cfg.soft_lo() && goal_cps <= 0 ==> cfg.velocity_target(goal_cps, th) == 0,
        th < cfg.soft_hi() && goal_cps >= 0 ==> cfg.velocity_target(goal_cps, th) == 65_536 * least(
            least(goal_cps, cfg.speed_cps()),
            WALL_RAMP_CPS * least(cfg.soft_hi() - th, WALL_RAMP_REACH as int),
        ),
        goal_cps <= 0 && cfg.allow_down(th) >= cfg.speed_cps() ==> cfg.velocity_target(goal_cps, th)
            == 65_536 * greatest(goal_cps, -cfg.speed_cps()),
        goal_cps >= 0 && cfg.allow_up(th) >= cfg.speed_cps() ==> cfg.velocity_target(goal_cps, th)
            == 65_536 * least(goal_cps, cfg.speed_cps()),
{
}

/// Retreat is never capped: at a soft limit, or past it, a goal leading back is
/// bound by the speed limit alone, as long as the other wall is beyond the
/// reach of its own ramp.
pub proof fn law_retreat_uncapped(goal_cps: int, th: int, cfg: TrajCfg)
    ensures
        th >= cfg.soft_hi() && goal_cps <= 0 && th - cfg.soft_lo() >= WALL_RAMP_REACH
            ==> cfg.velocity_target(goal_cps, th) == 65_536 * greatest(
            goal_cps,
            -cfg.speed_cps(),
        ),
        th <= cfg.soft_lo() && goal_cps >= 0 && cfg.soft_hi() - th >= WALL_RAMP_REACH
            ==> cfg.velocity_target(goal_cps, th) == 65_536 * least(goal_cps, cfg.speed_cps()),
{
}

} // verus!
