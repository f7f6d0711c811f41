//! The position loop and its anti-hunt hold.

use osc_servo::kernel::position::{step, PositionCfg};

fn c(kp: u16, db: u16, vl: u16) -> PositionCfg {
    PositionCfg {
        kp_q88: kp,
        pos_deadband_counts: db,
        vel_limit_cps: vl,
    }
}

#[test]
fn p_term_sign_and_scale() {
    // kp 1.0 c/s per count: 100 counts of error -> 100 c/s
    let cfg = c(1 << 8, 0, 32767);
    assert_eq!(step(100 << 16, 0, 0, &cfg).omega_ref_q16, 100 << 16);
    assert_eq!(step(0, 0, 100 << 16, &cfg).omega_ref_q16, -(100 << 16));
    // kp 1/256: 100 counts -> 100/256 c/s = 100 << 8 in csQ16
    let cfg = c(1, 0, 32767);
    assert_eq!(step(100 << 16, 0, 0, &cfg).omega_ref_q16, 100 << 8);
    assert_eq!(step(0, 0, 100 << 16, &cfg).omega_ref_q16, -(100 << 8));
}

#[test]
fn feedforward_adds() {
    // kp 0: pure passthrough of omega*
    let cfg = c(0, 0, 32767);
    assert_eq!(step(100 << 16, 200 << 16, 0, &cfg).omega_ref_q16, 200 << 16);
    // kp term and omega* sum
    let cfg = c(1 << 8, 0, 32767);
    assert_eq!(step(10 << 16, 200 << 16, 0, &cfg).omega_ref_q16, 210 << 16);
}

#[test]
fn vel_limit_and_error_clamp() {
    // 1000 counts of error clamps to E_LIM's 128 first: kp 1.0 -> 128 c/s
    let cfg = c(1 << 8, 0, 32767);
    assert_eq!(step(1000 << 16, 0, 0, &cfg).omega_ref_q16, 128 << 16);
    // vel_limit clamps the sum, both signs
    let cfg = c(1 << 8, 0, 100);
    assert_eq!(step(1000 << 16, 0, 0, &cfg).omega_ref_q16, 100 << 16);
    assert_eq!(step(0, 0, 1000 << 16, &cfg).omega_ref_q16, -(100 << 16));
    // feedforward alone also cannot escape the limit
    assert_eq!(step(0, 500 << 16, 0, &cfg).omega_ref_q16, 100 << 16);
}

#[test]
fn hold_predicate_each_condition() {
    let cfg = c(1 << 8, 5, 32767);
    // both hold conditions true: within deadband and profile at rest
    assert!(step(5 << 16, 0, 0, &cfg).hold);
    // deadband 0 disables hold outright, even at perfect rest
    assert!(!step(0, 0, 0, &c(1 << 8, 0, 32767)).hold);
    // error one cQ16 past the deadband
    assert!(!step((5 << 16) + 1, 0, 0, &cfg).hold);
    // omega* nonzero: profile still moving
    assert!(!step(5 << 16, 1, 0, &cfg).hold);
}

#[test]
fn hold_uses_raw_error_not_clamped() {
    // 6000 counts of error is far past E_LIM's 128 but inside a 65535
    // deadband: the predicate must see the raw magnitude and hold
    let cfg = c(1 << 8, 65535, 32767);
    let out = step(3000 << 16, 0, -(3000 << 16), &cfg);
    assert!(out.hold);
    // while the drive command stays E_LIM/vel_limit-clamped
    assert_eq!(out.omega_ref_q16, 128 << 16);
    // and a small deadband rejects the same error
    assert!(!step(3000 << 16, 0, -(3000 << 16), &c(1 << 8, 5, 32767)).hold);
}
