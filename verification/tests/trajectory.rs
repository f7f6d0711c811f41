//! The profile generator: landing, stopping distance, walls, hostile inputs.

use osc_servo::estimator::fusion::THETA_LIM_CQ16;
use osc_servo::kernel::trajectory::{TrajCfg, TrajGen};
use osc_servo::math::q_mul;

// 2 kHz MEDIUM rate, matching the kernel's DT_MED_Q32 derivation.
const DT: u32 = ((1u64 << 32) / 2000) as u32;
// 50 c/s per tick in csQ16 (= 100000 c/s^2 continuous at 2 kHz)
const A: i32 = 50 << 16;

fn cfg(vel: u16, accel_q88: u16) -> TrajCfg {
    TrajCfg {
        vel_limit_cps: vel,
        accel_limit_q88: accel_q88,
        pos_min_soft_counts: -100_000,
        pos_max_soft_counts: 100_000,
        dt_med_q32: DT,
    }
}

fn run_to_land(t: &mut TrajGen, goal: i32, target_q16: i32, c: &TrajCfg, max: u32) -> u32 {
    for k in 1..=max {
        t.step_position(goal, c);
        if t.omega_star_q16() == 0 && t.theta_star_q16() == target_q16 {
            return k;
        }
    }
    panic!(
        "no landing: theta={} omega={}",
        t.theta_star_q16(),
        t.omega_star_q16()
    );
}

#[test]
fn reseed_bumpless() {
    let c = cfg(1000, 50 << 8);
    let mut t = TrajGen::new();
    for _ in 0..30 {
        t.step_position(500, &c);
    }
    assert_ne!(t.omega_star_q16(), 0);
    t.reseed(123 << 16);
    assert_eq!(t.theta_star_q16(), 123 << 16);
    assert_eq!(t.omega_star_q16(), 0);
    assert_eq!(t.alpha_star_q16(), 0);
    // extreme estimate clamps to the arithmetic guard
    t.reseed(i32::MAX);
    assert_eq!(t.theta_star_q16(), THETA_LIM_CQ16);
}

#[test]
fn full_profile_plateau_and_exact_landing() {
    // 2000-count step at vel 1000 c/s, accel 50 c/s/tick: 20-tick ramp,
    // long plateau, decel, creep, exact landing - and theta_ref is
    // monotone with no overshoot at EVERY tick.
    let c = cfg(1000, 50 << 8);
    let goal_q = 2000 << 16;
    let mut t = TrajGen::new();
    t.reseed(0);
    let mut peak = 0i32;
    let mut plateau = 0u32;
    let mut landed = 0u32;
    let mut prev_o = 0i32;
    let mut prev_th = 0i32;
    for k in 1..=4400u32 {
        t.step_position(2000, &c);
        let o = t.omega_star_q16();
        let th = t.theta_star_q16();
        // alpha* IS the applied delta-omega, snap ticks included
        assert_eq!(t.alpha_star_q16(), o - prev_o);
        // 2a only on the landing tick: the snap zeroes the creep value a
        // plus at most one accel step
        assert!((o - prev_o).abs() <= 2 * A, "tick {k}: alpha past accel");
        assert!((0..=1000 << 16).contains(&o), "tick {k}: omega={o}");
        assert!(th <= goal_q, "tick {k}: overshoot theta={th}");
        assert!(th >= prev_th, "tick {k}: non-monotone theta");
        peak = peak.max(o);
        if o == 1000 << 16 {
            plateau += 1;
        }
        prev_o = o;
        prev_th = th;
        if o == 0 && th == goal_q {
            landed = k;
            break;
        }
    }
    assert!(landed > 0, "never landed");
    assert_eq!(peak, 1000 << 16, "plateau below vel_limit");
    assert!(plateau > 3500, "plateau={plateau}");
    // landed state is a fixed point
    for _ in 0..5 {
        t.step_position(2000, &c);
        assert_eq!(t.theta_star_q16(), goal_q);
        assert_eq!(t.omega_star_q16(), 0);
        assert_eq!(t.alpha_star_q16(), 0);
    }
}

#[test]
fn decel_distance_pinned() {
    // Hand example: v = 1000 c/s, a = 50 c/s per tick at 2 kHz.
    // Continuous stop distance s = v^2*dt/(2a) = 1000*1000*0.0005/100
    // = 5 counts; the discrete decision adds this tick's travel:
    // v*(v + a)*dt/(2a) = 5.25 counts.
    let c = cfg(1000, 50 << 8);
    // per-tick travel at 1000 c/s is half a count = 32768 cQ16, minus 1
    // from the dt_med_q32 floor (2147483 vs 2147483.648)
    let vt = q_mul(1000 << 16, DT as i32, 32);
    assert_eq!(vt, 32767);
    // exact decision boundary: decel iff (1050<<16)*vt >= (100<<16)*d,
    // i.e. d <= floor(10.5 * 32767) = 344053 cQ16; the ideal 5.25
    // counts = 344064 sits 11 cQ16 above, the vt floor times 10.5
    let omega_after = |d_q16: i32| {
        let mut t = TrajGen::new();
        t.theta_ref_q16 = -d_q16;
        t.omega_ref_q16 = 1000 << 16;
        t.step_position(0, &c);
        (t.omega_star_q16(), t.alpha_star_q16())
    };
    // 6 counts out: cruise holds, alpha 0
    assert_eq!(omega_after(6 << 16), (1000 << 16, 0));
    // 5 counts out (= the continuous s): inside the decision distance,
    // shed exactly one accel step
    assert_eq!(omega_after(5 << 16), (950 << 16, -A));
    // the boundary itself, exact to the cQ16
    assert_eq!(omega_after(344054).0, 1000 << 16);
    assert_eq!(omega_after(344053).0, 950 << 16);

    // ride the 5-count case to standstill: never past the goal, lands
    // exactly (decel travel 4.75 counts, creep covers the rest)
    let mut t = TrajGen::new();
    t.theta_ref_q16 = -(5 << 16);
    t.omega_ref_q16 = 1000 << 16;
    for _ in 0..100 {
        t.step_position(0, &c);
        assert!(t.theta_star_q16() <= 0, "overshoot {}", t.theta_star_q16());
        if t.omega_star_q16() == 0 && t.theta_star_q16() == 0 {
            return;
        }
    }
    panic!("no landing");
}

#[test]
fn short_move_triangle() {
    // 4 counts: peak sqrt(2 * 100000 * 2) ~ 632 c/s, under the limit
    let c = cfg(1000, 50 << 8);
    let goal_q = 4 << 16;
    let mut t = TrajGen::new();
    t.reseed(0);
    let mut peak = 0i32;
    for _ in 0..200 {
        t.step_position(4, &c);
        peak = peak.max(t.omega_star_q16());
        assert!(t.theta_star_q16() <= goal_q);
        if t.omega_star_q16() == 0 && t.theta_star_q16() == goal_q {
            assert!(peak > 0 && peak < 1000 << 16, "peak={peak}");
            return;
        }
    }
    panic!("no landing");
}

#[test]
fn goal_clamped_to_soft_limits() {
    let c = TrajCfg {
        pos_min_soft_counts: -300,
        pos_max_soft_counts: 500,
        ..cfg(1000, 50 << 8)
    };
    let mut t = TrajGen::new();
    t.reseed(0);
    run_to_land(&mut t, 100_000, 500 << 16, &c, 2000);
    run_to_land(&mut t, -100_000, -(300 << 16), &c, 4000);
}

#[test]
fn velocity_mode_slews_and_clamps() {
    let c = cfg(1000, 50 << 8);
    let mut t = TrajGen::new();
    t.reseed(0);
    for k in 1..=10i32 {
        t.step_velocity(500, 0, &c);
        assert_eq!(t.omega_star_q16(), (50 * k) << 16);
        assert_eq!(t.alpha_star_q16(), A);
    }
    t.step_velocity(500, 0, &c);
    assert_eq!(t.omega_star_q16(), 500 << 16);
    assert_eq!(t.alpha_star_q16(), 0);
    // goal past vel_limit clamps at the limit
    for _ in 0..100 {
        t.step_velocity(5000, 0, &c);
    }
    assert_eq!(t.omega_star_q16(), 1000 << 16);
    // theta tracked the motion
    assert!(t.theta_star_q16() > 0);
    // reversal: exactly one accel step per tick through zero
    let mut prev = t.omega_star_q16();
    for _ in 0..40 {
        t.step_velocity(-5000, 0, &c);
        assert_eq!(prev - t.omega_star_q16(), A);
        prev = t.omega_star_q16();
    }
    assert_eq!(prev, -(1000 << 16));
}

#[test]
fn velocity_wall_ramp_caps_inward_goal() {
    let c = TrajCfg {
        pos_min_soft_counts: 0,
        pos_max_soft_counts: 1000,
        ..cfg(1000, 50 << 8)
    };
    let run = |theta: i32, goal: i32| {
        let mut t = TrajGen::new();
        for _ in 0..100 {
            t.step_velocity(goal, theta << 16, &c);
        }
        t.omega_star_q16() >> 16
    };
    // far from both walls: the vel limit binds
    assert_eq!(run(500, 5000), 1000);
    // 50 counts out: 50 << WALL_RAMP_SHIFT binds
    assert_eq!(run(950, 5000), 800);
    // at and past the wall: inward goal pinned to 0
    assert_eq!(run(1000, 5000), 0);
    assert_eq!(run(1100, 5000), 0);
    // retreat is never capped, even from past the wall
    assert_eq!(run(1100, -700), -700);
    // mirrored at the min wall
    assert_eq!(run(25, -5000), -400);
    assert_eq!(run(0, -5000), 0);
    assert_eq!(run(500, -5000), -1000);
}

#[test]
fn velocity_far_retreat_reaches_the_speed_cap() {
    let far = TrajCfg {
        vel_limit_cps: 32767,
        accel_limit_q88: 65535,
        pos_min_soft_counts: -100000,
        pos_max_soft_counts: 1000,
        dt_med_q32: 2147483,
    };
    let mut t = TrajGen::new();
    for _ in 0..200 {
        t.step_velocity(-32767, 1100 << 16, &far);
    }
    assert_eq!(t.omega_star_q16(), -(32767 << 16));
    // mirrored past the lower wall
    let up = TrajCfg {
        pos_min_soft_counts: -1000,
        pos_max_soft_counts: 100000,
        ..far
    };
    let mut t = TrajGen::new();
    for _ in 0..200 {
        t.step_velocity(32767, -1100 * 65536, &up);
    }
    assert_eq!(t.omega_star_q16(), 32767 << 16);
    // one count inside the reach of the other wall its ramp binds
    let near = TrajCfg {
        pos_min_soft_counts: 1100 - 2047,
        pos_max_soft_counts: 1000,
        ..far
    };
    let mut t = TrajGen::new();
    for _ in 0..200 {
        t.step_velocity(-32767, 1100 << 16, &near);
    }
    assert_eq!(t.omega_star_q16(), -(32752 << 16));
}

#[test]
fn reversal_decelerates_through_zero() {
    let c = cfg(1000, 50 << 8);
    let mut t = TrajGen::new();
    t.reseed(0);
    for _ in 0..200 {
        t.step_position(2000, &c);
    }
    assert_eq!(t.omega_star_q16(), 1000 << 16);
    // flip the goal mid-cruise: omega walks down by at most a per tick
    // (2a on the one landing tick, where the snap zeroes creep + step)
    // and theta by at most one tick of travel - no teleport anywhere
    let mut prev_o = t.omega_star_q16();
    let mut prev_th = t.theta_star_q16();
    let mut seen_negative = false;
    for _ in 0..6000 {
        t.step_position(-2000, &c);
        let o = t.omega_star_q16();
        let th = t.theta_star_q16();
        assert!(
            (o - prev_o).abs() <= 2 * A,
            "omega jump {} -> {}",
            prev_o,
            o
        );
        assert!(
            (th - prev_th).abs() <= 32767,
            "theta jump {} -> {}",
            prev_th,
            th
        );
        seen_negative |= o < 0;
        prev_o = o;
        prev_th = th;
        if o == 0 && th == -(2000 << 16) {
            assert!(seen_negative);
            return;
        }
    }
    panic!("no landing");
}

#[test]
fn hostile_inputs_no_panic_bounded() {
    // extreme goals/seeds/configs (inverted soft limits included): no
    // panic, omega inside the i16 c/s cap, theta inside the guard
    for accel in [0u16, 1, u16::MAX] {
        for vel in [0u16, 1, u16::MAX] {
            for (lo, hi) in [(i32::MIN, i32::MAX), (100, -100)] {
                let c = TrajCfg {
                    vel_limit_cps: vel,
                    accel_limit_q88: accel,
                    pos_min_soft_counts: lo,
                    pos_max_soft_counts: hi,
                    dt_med_q32: DT,
                };
                for goal in [i32::MIN, -1, 0, 1, i32::MAX] {
                    for seed in [i32::MIN, 0, i32::MAX] {
                        let mut t = TrajGen::new();
                        t.reseed(seed);
                        for _ in 0..50 {
                            t.step_position(goal, &c);
                            assert!(t.omega_star_q16().unsigned_abs() <= 32767u32 << 16);
                            assert!(t.theta_star_q16().unsigned_abs() <= 1 << 29);
                            t.step_velocity(goal, seed, &c);
                            assert!(t.omega_star_q16().unsigned_abs() <= 32767u32 << 16);
                            assert!(t.theta_star_q16().unsigned_abs() <= 1 << 29);
                        }
                    }
                }
            }
        }
    }
}
