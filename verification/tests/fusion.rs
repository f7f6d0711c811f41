//! The state observer against its integer pins.

use osc_servo::estimator::fusion::{
    FusionGains, FusionObs, OMEGA_LIM_CSQ16, TAU_D_LIM_CCQ16, THETA_LIM_CQ16,
};

// 2 kHz MEDIUM rate, matching the kernel's DT_MED_Q32 derivation.
const DT: u32 = ((1u64 << 32) / 2000) as u32;

// Hand-picked stable set for the 2 kHz discrete observer: b_i = 819 =
// Q3.13 of B = 0.1 c/s per tick per ccount (low rig-physical range;
// the rig measures ~3.4), l1 = 0.25, l2 = 4.0 c/s per count, l3 = 8.0
// cc per count. With the coupling live, the e -> tau_d -> omega ->
// theta loop gain scales as l3 * B, so l3 must shrink as b_i grows:
// 64.0 rails the filter at this B (integer-sim verified), 8.0 sits
// inside the stable region with the disturbance step still settling
// exactly. If a convergence test oscillates the fix is smaller gains,
// not more iterations.
const G: FusionGains = FusionGains {
    b_i_q313: 819,
    l1_q016: 16384,
    l2_q88: 1024,
    l3_q88: 2048,
    l_bemf_q016: 0,
    fric_fc_counts: 0,
};

#[test]
fn seed_identity() {
    let mut f = FusionObs::new();
    f.seed(1234);
    assert_eq!(f.theta_q16(), 1234 << 16);
    assert_eq!(f.omega_q16(), 0);
    assert_eq!(f.tau_d_counts(), 0);
}

#[test]
fn static_convergence() {
    // Seed 10 counts below the measurement, zero current: theta locks
    // to the measurement, omega and tau_d bleed back to ~0 (the live
    // b_i bleed path settles by ~10000 ticks; 40000 keeps margin).
    // Residuals below the quantization floors (omega under ~2000 q16
    // moves theta by 0 per tick: q_mul(omega, DT, 32) truncates
    // omega/2000 to zero), pinned exact.
    let mut f = FusionObs::new();
    f.seed(1990);
    for _ in 0..40000 {
        f.step(0, 2000, None, DT, &G);
    }
    assert_eq!(f.theta_q16(), 2000 << 16, "pin");
    assert_eq!(f.omega_q16(), 1964, "pin");
    assert_eq!(f.tau_d_counts(), 0, "pin");
}

#[test]
fn current_couples_at_full_scale() {
    // One step from rest, e = 0 going in: predict alone moves omega by
    // q_mul(b_i, i, 0) << 3 = 819 * 100 * 8 = 655200 q16 (~10 c/s) -
    // the Q3.13 encoding couples whole ccounts into csQ16 through the
    // << 3. The correct step then subtracts l2*e for the 327-q16
    // theta advance: 655200 - (1024 * 327 >> 8) = 653892.
    let mut f = FusionObs::new();
    f.seed(2000);
    f.step(100, 2000, None, DT, &G);
    assert_eq!(f.omega_q16(), 653892, "pin");
}

#[test]
fn constant_velocity_tracking() {
    // pos ramps 1 count/tick = 2000 c/s; omega settles onto the ramp
    // rate (measured residual ~0.25%, assert 1%).
    let mut f = FusionObs::new();
    f.seed(0);
    for n in 1..=3000u16 {
        f.step(0, n, None, DT, &G);
    }
    let target = 2000i32 << 16;
    let err = (f.omega_q16() - target).abs();
    assert!(err <= target / 100, "omega={} err={}", f.omega_q16(), err);
}

#[test]
fn disturbance_step() {
    // Constant drive current with the measurement pinned: predict keeps
    // pushing theta up, e goes negative, so tau_d -= l3*e rises until
    // tau_d ~= i (a load exactly absorbing the drive), while the
    // correct step keeps theta/omega anchored to the measurement.
    let mut f = FusionObs::new();
    f.seed(2000);
    for _ in 0..20000 {
        f.step(500, 2000, None, DT, &G);
    }
    // the live bleed path settles tau_d onto the drive exactly
    assert_eq!(f.tau_d_counts(), 500, "pin");
    let theta_err = (f.theta_q16() - (2000 << 16)).abs();
    assert!(theta_err < 1 << 16, "theta={}", f.theta_q16());
    assert!(f.omega_q16().abs() < 1 << 16, "omega={}", f.omega_q16());
}

#[test]
fn friction_zero_band() {
    // At rest with a large Coulomb term configured, nothing moves:
    // fric_c(0) = 0, e = 0, all deltas exactly zero.
    let g = FusionGains {
        fric_fc_counts: 1000,
        ..G
    };
    let mut f = FusionObs::new();
    f.seed(2048);
    for _ in 0..100 {
        f.step(0, 2048, None, DT, &g);
        assert_eq!(f.theta_q16(), 2048 << 16);
        assert_eq!(f.omega_q16(), 0);
        assert_eq!(f.tau_d_counts(), 0);
    }
}

#[test]
fn bemf_blend_off_at_zero_gain() {
    let mut with = FusionObs::new();
    let mut without = FusionObs::new();
    with.seed(1000);
    without.seed(1000);
    for n in 0..500u16 {
        with.step(200, 1000 + n, Some(5000 << 16), DT, &G);
        without.step(200, 1000 + n, None, DT, &G);
        assert_eq!(with.theta_q16(), without.theta_q16());
        assert_eq!(with.omega_q16(), without.omega_q16());
        assert_eq!(with.tau_d_counts(), without.tau_d_counts());
    }
}

#[test]
fn bemf_blend_pulls_omega() {
    let g = FusionGains {
        l_bemf_q016: 16384,
        ..G
    };
    let mut f = FusionObs::new();
    f.seed(2000);
    f.step(0, 2000, Some(1000 << 16), DT, &g);
    assert!(f.omega_q16() > 0, "omega={}", f.omega_q16());
}

#[test]
fn clamps_under_hostile_gains() {
    // Max-encoded gains, extreme inputs: debug overflow checks are the
    // wrap detector; states must stay inside their clamps.
    let g = FusionGains {
        b_i_q313: u16::MAX,
        l1_q016: u16::MAX,
        l2_q88: u16::MAX,
        l3_q88: u16::MAX,
        l_bemf_q016: u16::MAX,
        fric_fc_counts: u16::MAX,
    };
    let mut f = FusionObs::new();
    for n in 0..2000 {
        let pos = if n & 1 == 0 { 0 } else { 4095 };
        let i = if n & 2 == 0 { i32::MAX } else { i32::MIN };
        let w = Some(if n & 4 == 0 { i32::MAX } else { i32::MIN });
        f.step(i, pos, w, DT, &g);
        assert!(f.theta_q16().abs() <= THETA_LIM_CQ16);
        assert!(f.omega_q16().abs() <= OMEGA_LIM_CSQ16);
        assert!((f.tau_d_q16).abs() <= TAU_D_LIM_CCQ16);
    }
}
