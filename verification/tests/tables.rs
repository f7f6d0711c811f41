//! The linearization table's bookkeeping, the slip segments, register seeding
//! and the integer helpers.

use osc_servo::lut::{
    anchor_bins, coverage, covered, gaps, step_bins, touched, Covered, Gap, PotLut, StepBins,
};
use osc_servo::math::{
    clamp32, clamp_i16, magnitude, q_mul, q_mul_u, raw_bits, sat_add, sat_mul, sat_neg, sat_sub,
};
use osc_servo::regions::calib::CalibSense;
use osc_servo::regions::config::{BaudRate, ConfigDefaults, StallResponse};
use osc_servo::regions::control::Mode;
use osc_servo::regions::ControlTableCell;
use osc_servo::slip::{core_segments, Segment};

// --- table --------------------------------------------------------------------------

#[test]
fn identity_has_no_corrections() {
    let l = PotLut::identity(200, 3900);
    assert_eq!((l.raw_min, l.raw_max), (200, 3900));
    assert_eq!(l.corr, [0i16; 55]);
    assert!(!l.populated());
    assert_eq!(l.max_corr(), 0);
    assert_eq!(l.corr_bytes(), vec![0u8; 110]);
}

#[test]
fn knots_go_out_low_byte_first() {
    let mut l = PotLut::identity(0, 4095);
    l.corr[0] = 0x0102;
    l.corr[1] = -2;
    l.corr[54] = i16::MIN;
    assert!(l.populated());
    assert_eq!(l.max_corr(), 32_768);
    let b = l.corr_bytes();
    assert_eq!(b.len(), 110);
    assert_eq!(&b[..4], &[0x02, 0x01, 0xfe, 0xff]);
    assert_eq!(&b[108..], &[0x00, 0x80]);
}

#[test]
fn steps_fall_into_the_bins_they_cross() {
    let bins = |lo, hi, counts| StepBins { lo, hi, counts };
    // sitting still: one bin, the top interval on the upper rail
    assert_eq!(step_bins(105, 105, 100, 110), bins(5, 6, 1));
    assert_eq!(step_bins(110, 110, 100, 110), bins(9, 10, 1));
    assert_eq!(step_bins(100, 100, 100, 110), bins(0, 1, 1));
    assert_eq!(step_bins(99, 99, 100, 110), bins(0, 0, 1));
    assert_eq!(step_bins(111, 111, 100, 110), bins(0, 0, 1));
    // crossing, either way
    assert_eq!(step_bins(102, 105, 100, 110), bins(2, 5, 3));
    assert_eq!(step_bins(105, 102, 100, 110), bins(2, 5, 3));
    // off both ends: the turn spreads over all counts, only those inside land
    assert_eq!(step_bins(95, 115, 100, 110), bins(0, 10, 20));
    assert_eq!(step_bins(90, 95, 100, 110), bins(0, 0, 5));
}

#[test]
fn chunks_cover_what_they_touch() {
    let m = touched(&vec![101, 103, 103, 106], 100, 110);
    let on: Vec<usize> = (0..m.len()).filter(|&b| m[b]).collect();
    assert_eq!(m.len(), 11);
    assert_eq!(on, [1, 2, 3, 4, 5]);
    assert!(touched(&vec![], 100, 110).iter().all(|b| !b));
    assert!(touched(&vec![105], 100, 110).iter().all(|b| !b));
}

#[test]
fn coverage_counts_chunks_and_finds_gaps() {
    let a = touched(&vec![100, 103], 100, 110);
    let b = touched(&vec![102, 104], 100, 110);
    let c = touched(&vec![107, 109], 100, 110);
    let cov = coverage(&vec![a, b, c], 11);
    assert_eq!(cov, [1, 1, 2, 1, 0, 0, 0, 1, 1, 0, 0]);
    assert_eq!(
        covered(&cov),
        Some(Covered {
            count: 6,
            first: 0,
            last: 8
        })
    );
    assert_eq!(gaps(&cov), [Gap { prev: 3, next: 7 }]);
    assert_eq!(covered(&vec![0, 1, 0]), None);
    assert_eq!(covered(&vec![]), None);
    assert!(gaps(&vec![1, 1, 0, 0]).is_empty());
}

#[test]
fn anchors_are_the_nearest_covered_bins() {
    let cov = vec![1, 0, 1, 1, 0, 0, 1, 0, 1];
    assert_eq!(anchor_bins(&cov, 3, false, 0, 8), [3, 2, 0]);
    assert_eq!(anchor_bins(&cov, 6, true, 0, 8), [6, 8]);
    assert_eq!(anchor_bins(&cov, 4, true, 0, 5), Vec::<usize>::new());
    // no more than eight
    assert_eq!(
        anchor_bins(&vec![1; 20], 10, false, 0, 19),
        [10, 9, 8, 7, 6, 5, 4, 3]
    );
}

// --- slip ---------------------------------------------------------------------------

#[test]
fn segments_leave_the_edges_out() {
    let pos: Vec<u16> = (0..25).map(|k| 100 + 2 * k).collect();
    let v = core_segments(&pos, 25, 10, 1).expect("long enough");
    assert_eq!(v.len(), 8);
    assert_eq!(
        v[0],
        Segment {
            first: 2,
            last: 4,
            travel: 4
        }
    );
    assert_eq!(
        v[7],
        Segment {
            first: 20,
            last: 21,
            travel: 2
        }
    );
    for w in v.windows(2) {
        assert_eq!(w[1].first, w[0].last + 1);
    }
}

#[test]
fn unjudgeable_sweeps_have_no_segments() {
    let pos = vec![0u16; 100];
    assert!(core_segments(&pos, 99, 10, 1).is_none());
    assert!(core_segments(&pos, 100, 51, 1).is_none());
    assert!(core_segments(&pos, 100, 2, 0).is_none());
    assert!(core_segments(&pos, 100, 10, 5).is_none());
    assert!(core_segments(&pos, 100, 10, 4).is_none());
    assert!(core_segments(&pos, 100, 10, usize::MAX).is_none());
    assert!(core_segments(&pos, 100, usize::MAX, 0).is_none());
    assert_eq!(core_segments(&pos, 100, 9, 3).map(|v| v.len()), Some(3));
    // a falling segment travels as far as a rising one
    let down: Vec<u16> = (0..12).map(|k| 500 - 10 * k).collect();
    let v = core_segments(&down, 12, 3, 0).unwrap();
    assert!(v.iter().all(|s| s.travel == 30));
}

// --- register table -------------------------------------------------------------------

#[test]
fn defaults_seed_the_config() {
    let mut cell = ControlTableCell::new();
    cell.seed_config_defaults(&ConfigDefaults {
        pos_min_phys_counts: 100,
        pos_max_phys_counts: 4000,
        id: 7,
        baud: BaudRate::B1000000,
        response_deadline_us: 250,
    });
    let c = &cell.table.config;
    assert_eq!(c.common.id, 7);
    assert_eq!(c.common.baud_rate_idx, BaudRate::B1000000.as_idx());
    assert_eq!(c.common.response_deadline_us, 250);
    assert_eq!(c.pos_limits.pos_min_phys_counts, 100);
    assert_eq!(c.pos_limits.pos_max_phys_counts, 4000);
    assert_eq!(c.pos_limits.pos_min_soft_counts, 100);
    assert_eq!(c.pos_limits.pos_max_soft_counts, 4000);
    assert_eq!(c.loop_current.duty_max_q15, 32_767);
    assert_eq!(c.loop_position.velocity_limit_cps, 1_500);
    assert_eq!(c.loop_position.accel_limit_q88, 3_840);
    assert_eq!(c.loop_position.pos_deadband_counts, 12);
    assert_eq!(c.limits.current_limit_counts, 1_200);
    assert_eq!(c.limits.stall_time_ms, 500);
    assert_eq!(c.limits.oc_trip_ticks, 8);
    assert_eq!(c.thermal.cutoff_cc, 10_000);
    assert_eq!(c.fault_cfg.sensor_bad_count, 4);
    assert_eq!(c.limits.stall_response, StallResponse::Fault);
}

#[test]
fn sense_and_bias_seed_their_own_fields() {
    let mut cell = ControlTableCell::new();
    let sense = CalibSense {
        shunt_r_mohm: 33,
        gain_milli: 15_000,
        vmotor_div_top: 18_200,
        vmotor_div_bot: 10_000,
        vdd_mv: 3_300,
        tick_hz: 20_000,
        i_window_min_ticks: 100,
        v_window_min_ticks: 120,
    };
    cell.seed_calib_sense(&sense);
    cell.seed_current_bias(2048);
    assert_eq!(cell.table.calib.sense, sense);
    assert_eq!(cell.table.telemetry.sensors.current_bias_counts, 2048);
    assert_eq!(cell.table.config.common.id, 0);
}

#[test]
fn modes_and_rates_round_trip() {
    for m in [Mode::OpenLoop, Mode::Current, Mode::Velocity, Mode::Position] {
        assert_eq!(Mode::from_byte(m.as_byte()), Some(m));
    }
    assert_eq!(Mode::from_byte(200), None);
    assert_eq!(BaudRate::B3000000.as_hz(), 3_000_000);
}

// --- integer helpers --------------------------------------------------------------------

#[test]
fn fixed_point_products_floor_and_truncate() {
    assert_eq!(q_mul(3, 5, 1), 7);
    assert_eq!(q_mul(-3, 5, 1), -8);
    assert_eq!(q_mul(i32::MAX, i32::MAX, 16), ((i32::MAX as i64 * i32::MAX as i64) >> 16) as i32);
    assert_eq!(q_mul(i32::MIN, -1, 0), i32::MIN);
    assert_eq!(q_mul_u(50, 2 << 16, 16), 100);
}

#[test]
fn saturating_helpers_match_the_machine() {
    for a in [i32::MIN, -7, 0, 9, i32::MAX] {
        for b in [i32::MIN, -3, 0, 4, i32::MAX] {
            assert_eq!(sat_add(a, b), a.saturating_add(b));
            assert_eq!(sat_sub(a, b), a.saturating_sub(b));
            assert_eq!(sat_mul(a, b), a.saturating_mul(b));
        }
        assert_eq!(sat_neg(a), a.saturating_neg());
        assert_eq!(magnitude(a), a.unsigned_abs());
        assert_eq!(raw_bits(a), a as u32);
        assert_eq!(clamp_i16(a), a.clamp(-32_768, 32_767) as i16);
        assert_eq!(clamp32(a, -5, 5), a.clamp(-5, 5));
    }
}
