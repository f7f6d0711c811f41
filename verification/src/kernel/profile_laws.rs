//! What a profile tick does, in the limits it is given: how omega* changes, how
//! far theta* moves, when it brakes and when it lands. The limits are written out
//! from the config: an accel step is `256 * accel_limit_q88`, the speed limit is
//! `65536` times the smaller of `vel_limit_cps` and 32767.

use super::position::PositionCfg;
use super::trajectory::{position_tick, velocity_tick, Profile, TrajCfg};
use crate::math::lemma_q_scales;
use vstd::prelude::*;

verus! {

/// One accel step, csQ16.
pub open spec fn accel_step(cfg: TrajCfg) -> int {
    256 * cfg.accel_limit_q88
}

/// The speed limit, csQ16.
pub open spec fn top_speed(cfg: TrajCfg) -> int {
    if cfg.vel_limit_cps > 32_767 {
        2_147_418_112int
    } else {
        65_536 * cfg.vel_limit_cps
    }
}

/// Counts covered in one tick at a speed, cQ16, rounded down.
pub open spec fn covered(v: int, cfg: TrajCfg) -> int {
    (v * cfg.dt_med_q32) / 0x1_0000_0000
}

/// Where a goal leads, cQ16: the nearest count between the two soft limits, in
/// whichever order they are given, and within 8192 counts of zero.
pub open spec fn aim(goal: int, cfg: TrajCfg) -> int {
    let (x, y) = (cfg.pos_min_soft_counts as int, cfg.pos_max_soft_counts as int);
    let (lo, hi) = if x <= y {
        (x, y)
    } else {
        (y, x)
    };
    let g = if goal < lo {
        lo
    } else if goal > hi {
        hi
    } else {
        goal
    };
    if g > 8_192 {
        536_870_912int
    } else if g < -8_192 {
        -536_870_912int
    } else {
        65_536 * g
    }
}

/// The profile ended on the goal, at rest.
pub open spec fn arrived(n: Profile, goal: int, cfg: TrajCfg) -> bool {
    n.theta == aim(goal, cfg) && n.omega == 0
}

/// The speed toward the goal: negative while moving away from it.
pub open spec fn closing(s: Profile, omega: int, goal: int, cfg: TrajCfg) -> int {
    if aim(goal, cfg) >= s.theta {
        omega
    } else {
        -omega
    }
}

/// How far the goal is.
pub open spec fn apart(s: Profile, goal: int, cfg: TrajCfg) -> int {
    if aim(goal, cfg) >= s.theta {
        aim(goal, cfg) - s.theta
    } else {
        s.theta - aim(goal, cfg)
    }
}

/// A valid profile under a config whose tick is below half a second.
pub open spec fn sane(s: Profile, cfg: TrajCfg) -> bool {
    &&& -536_870_912 <= s.theta <= 536_870_912
    &&& -2_147_418_112 <= s.omega <= 2_147_418_112
    &&& cfg.dt_med_q32 < 0x8000_0000
}

/// Moving away from the goal, and not landing, a tick changes the speed toward it
/// by one whole accel step, bounded by the speed limit alone.
pub proof fn law_turns_back(s: Profile, goal: int, cfg: TrajCfg)
    requires
        sane(s, cfg),
        closing(s, s.omega, goal, cfg) < 0,
        !arrived(position_tick(s, goal, cfg), goal, cfg),
    ensures
        ({
            let v = closing(s, s.omega, goal, cfg);
            let n = closing(s, position_tick(s, goal, cfg).omega, goal, cfg);
            &&& v + accel_step(cfg) <= top_speed(cfg) ==> n == v + accel_step(cfg)
            &&& v + accel_step(cfg) > top_speed(cfg) ==> n == top_speed(cfg)
        }),
{
    lemma_tick(s, goal, cfg);
}

/// Moving toward the goal, and not landing, a tick either slews toward the speed
/// limit, by at most one accel step, or sheds one accel step down to standstill.
/// It sheds exactly where one more tick at the slewed speed, and then one accel
/// step less each tick, would need the whole distance left or more: the sum is
/// `u * (u + a) / 2a` ticks of travel.
pub proof fn law_cruises_or_brakes(s: Profile, goal: int, cfg: TrajCfg)
    requires
        sane(s, cfg),
        closing(s, s.omega, goal, cfg) >= 0,
        !arrived(position_tick(s, goal, cfg), goal, cfg),
    ensures
        ({
            let a = accel_step(cfg);
            let v = closing(s, s.omega, goal, cfg);
            let n = closing(s, position_tick(s, goal, cfg).omega, goal, cfg);
            let u = if v + a <= top_speed(cfg) {
                v + a
            } else if v - a >= top_speed(cfg) {
                v - a
            } else {
                top_speed(cfg)
            };
            if (u + a) * covered(u, cfg) >= 2 * a * apart(s, goal, cfg) {
                n == if v >= a {
                    v - a
                } else {
                    0
                }
            } else {
                n == u
            }
        }),
{
    lemma_tick(s, goal, cfg);
}

/// Off the landing tick theta* moves by what one tick at the new omega* covers,
/// to the side of its sign, inside 8192 counts of zero.
pub proof fn law_travel_follows_omega(s: Profile, goal: int, theta_hat: int, cfg: TrajCfg)
    requires
        sane(s, cfg),
    ensures
        !arrived(position_tick(s, goal, cfg), goal, cfg) ==> moved(
            s,
            position_tick(s, goal, cfg),
            cfg,
        ),
        moved(s, velocity_tick(s, goal, theta_hat, cfg), cfg),
{
    lemma_tick(s, goal, cfg);
    lemma_velocity(s, goal, theta_hat, cfg);
}

/// `n` is `s` carried one tick at the omega* of `n`.
pub open spec fn moved(s: Profile, n: Profile, cfg: TrajCfg) -> bool {
    let to = if n.omega >= 0 {
        s.theta + covered(n.omega, cfg)
    } else {
        s.theta - covered(-n.omega, cfg)
    };
    &&& -536_870_912 <= to <= 536_870_912 ==> n.theta == to
    &&& to > 536_870_912 ==> n.theta == 536_870_912
    &&& to < -536_870_912 ==> n.theta == -536_870_912
    &&& n.alpha == n.omega - s.omega
}

/// A profile lands exactly where one tick of travel toward the goal covers what
/// is left, or where less than a count is left at no more than one accel step of
/// speed. It then stands on the goal at rest, and alpha* is the speed it gave up.
pub proof fn law_lands_where_it_can(s: Profile, goal: int, cfg: TrajCfg)
    requires
        sane(s, cfg),
    ensures
        ({
            let n = position_tick(s, goal, cfg);
            let a = accel_step(cfg);
            let d = apart(s, goal, cfg);
            let w = planned(s, goal, cfg);
            let speed = if w >= 0 {
                w
            } else {
                -w
            };
            let lands = (w >= 0 || d == 0) && covered(speed, cfg) >= d || speed <= a && d < 65_536;
            &&& lands ==> arrived(n, goal, cfg) && n.alpha == -s.omega
            &&& !lands ==> closing(s, n.omega, goal, cfg) == w && moved(s, n, cfg)
            &&& arrived(n, goal, cfg) && d > 0 ==> covered(speed, cfg) >= d || d < 65_536
        }),
{
    lemma_tick(s, goal, cfg);
    lemma_q_scales();
    assert(0 * cfg.dt_med_q32 == 0);
}

/// The speed toward the goal that a tick is about to take.
pub open spec fn planned(s: Profile, goal: int, cfg: TrajCfg) -> int {
    let a = accel_step(cfg);
    let top = top_speed(cfg);
    let v = closing(s, s.omega, goal, cfg);
    if v < 0 {
        if v + a <= top {
            v + a
        } else {
            top
        }
    } else {
        let u = if v + a <= top {
            v + a
        } else if v - a >= top {
            v - a
        } else {
            top
        };
        if (u + a) * covered(u, cfg) < 2 * a * apart(s, goal, cfg) {
            u
        } else if v >= a {
            v - a
        } else {
            0
        }
    }
}

proof fn lemma_covered(v: int, cfg: TrajCfg)
    requires
        0 <= v <= 2_147_418_112,
        cfg.dt_med_q32 < 0x8000_0000,
    ensures
        cfg.reach(v) == covered(v, cfg),
        0 <= covered(v, cfg) <= 0x4000_0000,
{
    lemma_q_scales();
    let dt = cfg.dt_med_q32 as int;
    assert(0 <= v * dt <= 0x4000_0000_0000_0000) by (nonlinear_arith)
        requires
            0 <= v <= 0x7fff_ffff,
            0 <= dt <= 0x7fff_ffff,
    ;
}

proof fn lemma_tick(s: Profile, goal: int, cfg: TrajCfg)
    requires
        sane(s, cfg),
    ensures
        ({
            let n = position_tick(s, goal, cfg);
            let w = planned(s, goal, cfg);
            let d = apart(s, goal, cfg);
            let speed = if w >= 0 {
                w
            } else {
                -w
            };
            let lands = (w >= 0 || d == 0) && covered(speed, cfg) >= d || speed <= accel_step(cfg) && d
                < 65_536;
            &&& lands ==> arrived(n, goal, cfg) && n.alpha == -s.omega
            &&& !lands ==> closing(s, n.omega, goal, cfg) == w && moved(s, n, cfg)
            &&& -2_147_418_112 <= w <= 2_147_418_112
        }),
{
    let a = accel_step(cfg);
    let top = top_speed(cfg);
    let v = closing(s, s.omega, goal, cfg);
    let d = apart(s, goal, cfg);
    let w = planned(s, goal, cfg);
    assert(cfg.target(goal) == aim(goal, cfg));
    assert(cfg.accel() == a);
    assert(cfg.speed() == top);
    let u = if v + a <= top {
        v + a
    } else if v - a >= top {
        v - a
    } else {
        top
    };
    if v >= 0 {
        lemma_covered(u, cfg);
    }
    assert(cfg.next_speed(v, d) == w);
    lemma_covered(
        if w >= 0 {
            w
        } else {
            -w
        },
        cfg,
    );
}

/// Where a velocity goal leads at a position: up to the speed limit, and up to 16
/// c/s per count of what is left to the soft limit ahead, which is 0 at it and
/// past it. Only the limit ahead counts: retreat is never capped.
pub open spec fn permitted(goal: int, th: int, cfg: TrajCfg) -> int {
    let (x, y) = (cfg.pos_min_soft_counts as int, cfg.pos_max_soft_counts as int);
    let (lo, hi) = if x <= y {
        (x, y)
    } else {
        (y, x)
    };
    let left = if goal >= 0 {
        hi - th
    } else {
        th - lo
    };
    let ramp = if left <= 0 {
        0
    } else {
        65_536 * (16 * left)
    };
    let asked = if goal >= 0 {
        65_536 * goal
    } else {
        -65_536 * goal
    };
    let size = if asked <= ramp && asked <= top_speed(cfg) {
        asked
    } else if ramp <= top_speed(cfg) {
        ramp
    } else {
        top_speed(cfg)
    };
    if goal >= 0 {
        size
    } else {
        -size
    }
}

/// A velocity-mode tick takes omega* to where the goal leads at the estimated
/// position, by at most one accel step.
pub proof fn law_velocity_slews(s: Profile, goal: int, theta_hat: int, cfg: TrajCfg)
    requires
        sane(s, cfg),
    ensures
        ({
            let n = velocity_tick(s, goal, theta_hat, cfg).omega;
            let to = permitted(goal, theta_hat / 65_536, cfg);
            let a = accel_step(cfg);
            &&& s.omega - a <= to <= s.omega + a ==> n == to
            &&& to > s.omega + a ==> n == s.omega + a
            &&& to < s.omega - a ==> n == s.omega - a
        }),
{
    lemma_velocity(s, goal, theta_hat, cfg);
}

proof fn lemma_velocity(s: Profile, goal: int, theta_hat: int, cfg: TrajCfg)
    requires
        sane(s, cfg),
    ensures
        ({
            let n = velocity_tick(s, goal, theta_hat, cfg);
            let to = permitted(goal, theta_hat / 65_536, cfg);
            let a = accel_step(cfg);
            &&& s.omega - a <= to <= s.omega + a ==> n.omega == to
            &&& to > s.omega + a ==> n.omega == s.omega + a
            &&& to < s.omega - a ==> n.omega == s.omega - a
            &&& moved(s, n, cfg)
        }),
{
    let n = velocity_tick(s, goal, theta_hat, cfg);
    assert(cfg.velocity_target(goal, theta_hat / 65_536) == permitted(goal, theta_hat / 65_536, cfg));
    lemma_covered(
        if n.omega >= 0 {
            n.omega
        } else {
            -n.omega
        },
        cfg,
    );
}

/// The two directions are one: mirrored through a goal at zero, a position tick
/// is the mirror of the tick.
pub proof fn law_profile_is_symmetric(s: Profile, goal: int, cfg: TrajCfg, back: TrajCfg)
    requires
        sane(s, cfg),
        back.pos_min_soft_counts == -cfg.pos_min_soft_counts,
        back.pos_max_soft_counts == -cfg.pos_max_soft_counts,
        back.vel_limit_cps == cfg.vel_limit_cps,
        back.accel_limit_q88 == cfg.accel_limit_q88,
        back.dt_med_q32 == cfg.dt_med_q32,
        s.theta != aim(goal, cfg),
    ensures
        ({
            let n = position_tick(s, goal, cfg);
            let m = position_tick(
                Profile { theta: -s.theta, omega: -s.omega, alpha: -s.alpha },
                -goal,
                back,
            );
            m.theta == -n.theta && m.omega == -n.omega && m.alpha == -n.alpha
        }),
{
    let r = Profile { theta: -s.theta, omega: -s.omega, alpha: -s.alpha };
    assert(aim(-goal, back) == -aim(goal, cfg));
    lemma_tick(s, goal, cfg);
    lemma_tick(r, -goal, back);
    assert(planned(r, -goal, back) == planned(s, goal, cfg));
}

/// The position loop: a command proportional to the error, `kp_q88 / 256` per
/// unit up to 128 counts of error and no more past it, plus the feedforward,
/// inside the speed limit.
pub proof fn law_position_command(cfg: PositionCfg, error: int, omega_star: int)
    ensures
        ({
            let e = if error > 8_388_608 {
                8_388_608
            } else if error < -8_388_608 {
                -8_388_608
            } else {
                error
            };
            let top = if cfg.vel_limit_cps > 32_767 {
                2_147_418_112int
            } else {
                65_536 * cfg.vel_limit_cps
            };
            let c = (cfg.kp_q88 * e) / 256 + omega_star;
            &&& -top <= c <= top ==> cfg.command(error, omega_star) == c
            &&& c > top ==> cfg.command(error, omega_star) == top
            &&& c < -top ==> cfg.command(error, omega_star) == -top
        }),
{
    lemma_q_scales();
}

/// The command is toward the reference: an error never commands away from it
/// where there is no feedforward.
pub proof fn law_position_command_is_restoring(cfg: PositionCfg, error: int)
    ensures
        error >= 0 ==> cfg.command(error, 0) >= 0,
        error <= 0 ==> cfg.command(error, 0) <= 0,
{
    lemma_q_scales();
    let k = cfg.kp_q88 as int;
    let e = crate::math::bound(error, -8_388_608, 8_388_608);
    assert(e >= 0 ==> k * e >= 0) by (nonlinear_arith)
        requires
            k >= 0,
    ;
    assert(e <= 0 ==> k * e <= 0) by (nonlinear_arith)
        requires
            k >= 0,
    ;
}

/// The shaft is parked exactly where a deadband is set, the profile is at rest
/// and the error lies inside the deadband, on either side.
pub proof fn law_position_holds(cfg: PositionCfg, error: int, omega_star: int)
    ensures
        cfg.holds(error, omega_star) <==> cfg.pos_deadband_counts > 0 && omega_star == 0 && error
            <= 65_536 * cfg.pos_deadband_counts && -error <= 65_536 * cfg.pos_deadband_counts,
{
}

} // verus!
