//! Calibration: cutting captures into runs, the replay survey, the nudges and
//! the speed probe, the stream bracket.

use osc_servo::cal::anchor::{anchor, Anchor, GearSource};
use osc_servo::cal::motion::{
    capture_window, probe_sign, sweep_sign, Probe, Seek, SeekPhase, TelWrap, Window, CAPTURE_MASK,
};
use osc_servo::cal::replay::{
    chunk_samples, classify, diagnose, observed, parse_mask, rails, survey, Bounds,
    Classification, Diagnosis,
};
use osc_servo::cal::runs::{
    build_sweep, build_sweep_chunks, longest_contiguous_run, pos_plausible, samples,
    trim_edge_dwell, Chunk, Range, Sample, EDGE_DWELL_COUNTS,
};
use osc_servo::cal::session::{Event, Session, Task};
use osc_servo::cli::ArgError;
use osc_servo::exp::endstop::EndstopResult;
use osc_servo::exp::sweep::{Sweep, SweepCfg};
use osc_servo::exp::{Cmd, Experiment};
use osc_servo::frame::{TelFrame, TelemetrySnapshot};
use osc_servo::kinematics::KinematicsResult;
use osc_servo::lut::PotLut;
use osc_servo::regs::{calib, config, control, Reg};

fn frame(seq: u8, pos: u16) -> TelFrame {
    TelFrame {
        seq,
        pos: Some(pos),
        current: Some(0),
        ..Default::default()
    }
}

/// Contiguous-seq samples from a pos list (current = pos for simplicity).
fn seqd(pos: &[u16]) -> Vec<Sample> {
    pos.iter()
        .enumerate()
        .map(|(i, &p)| Sample {
            seq: i as u8,
            pos: p,
            current: p as i16,
        })
        .collect()
}

// --- runs -----------------------------------------------------------------------

#[test]
fn contiguous_run_splits_on_seq_gap_and_picks_longest() {
    // 30 samples, seq gap at index 20: the longer half [0,20) wins, and pos need
    // not be monotonic (slip is fine - current carries ripple).
    let mut s = seqd(&(0..30).map(|k| 1000 + (k % 3) * 10).collect::<Vec<_>>());
    for e in s.iter_mut().skip(20) {
        e.seq = e.seq.wrapping_add(7); // punch a seq discontinuity at 20
    }
    assert_eq!(longest_contiguous_run(&s), Some(Range { lo: 0, hi: 20 }));
}

#[test]
fn contiguous_run_seq_wraps_cleanly() {
    // u8 seq wrapping 255->0 mid-run stays contiguous.
    let mut s = seqd(&[10u16; 6]);
    for (i, e) in s.iter_mut().enumerate() {
        e.seq = (253u8).wrapping_add(i as u8); // 253,254,255,0,1,2
    }
    assert_eq!(longest_contiguous_run(&s), Some(Range { lo: 0, hi: 6 }));
}

#[test]
fn contiguous_run_none_when_too_short() {
    assert!(longest_contiguous_run(&[]).is_none());
    assert!(longest_contiguous_run(&seqd(&[7])).is_none());
}

#[test]
fn contiguous_run_prefers_the_first_of_equals() {
    let mut s = seqd(&[1, 2, 3, 4, 5, 6]);
    for e in s.iter_mut().skip(3) {
        e.seq += 9;
    }
    assert_eq!(longest_contiguous_run(&s), Some(Range { lo: 0, hi: 3 }));
    // and nothing where every sample stands alone
    let lone: Vec<Sample> = (0..5)
        .map(|k| Sample {
            seq: 3 * k,
            pos: 9,
            current: 0,
        })
        .collect();
    assert!(longest_contiguous_run(&lone).is_none());
}

#[test]
fn build_sweep_none_without_frames() {
    assert!(build_sweep(&[]).is_none());
}

#[test]
fn pos_plausible_rejects_above_12bit() {
    assert!(pos_plausible(0));
    assert!(pos_plausible(4095));
    assert!(!pos_plausible(4096));
    assert!(!pos_plausible(9999));
}

#[test]
fn samples_need_position_and_current() {
    let bare = TelFrame {
        seq: 1,
        pos: Some(5),
        ..Default::default()
    };
    let blind = TelFrame {
        seq: 2,
        current: Some(5),
        ..Default::default()
    };
    let v = samples(&[frame(0, 4), bare, blind, frame(3, 4096), frame(4, 7)]);
    assert_eq!(
        v.iter().map(|s| (s.seq, s.pos)).collect::<Vec<_>>(),
        [(0, 4), (4, 7)]
    );
}

#[test]
fn build_sweep_drops_out_of_range_pos() {
    // seqs 0..10, all pos in-range except seq 5 which is bit-corrupt (>4095).
    // Dropping it removes its seq, so the contiguous run splits there: the
    // longer half is seqs 0..=4 (5 samples) and the corrupt pos is excluded.
    let frames: Vec<TelFrame> = (0..10u8)
        .map(|k| TelFrame {
            seq: k,
            pos: Some(if k == 5 { 9999 } else { 1000 + k as u16 }),
            current: Some(50),
            ..Default::default()
        })
        .collect();
    let Chunk { pos, current } = build_sweep(&frames).expect("a run survives");
    assert!(
        pos.iter().all(|&p| p <= 4095),
        "corrupt pos leaked: {pos:?}"
    );
    assert!(!pos.contains(&9999));
    assert_eq!(pos, vec![1000, 1001, 1002, 1003, 1004]);
    assert_eq!(current.len(), pos.len());
}

#[test]
fn build_sweep_chunks_keeps_big_runs_drops_fragments_and_stalls() {
    // seq = index (u8, wraps cleanly). Moving runs (pos sweeps a real span)
    // split by out-of-range pos, plus a trailing short fragment, a long STALL
    // run (pos frozen at a rail), and a moving run with a rail buzz FUSED to its
    // tail. Kept: the moving runs, edge-trimmed by EDGE_DWELL_COUNTS; the fused
    // buzz tail is trimmed off entirely.
    let mut frames: Vec<TelFrame> = Vec::new();
    let mut push = |base: u16, count: u32, moving: bool| {
        for j in 0..count {
            let seq = frames.len() as u8;
            let pos = if moving { base + j as u16 } else { base };
            frames.push(TelFrame {
                seq,
                pos: Some(pos),
                current: Some(50),
                ..Default::default()
            });
        }
    };
    push(1000, 250, true); // run A: span 249, kept (trimmed)
    push(9999, 1, true); // split (out-of-range)
    push(2000, 300, true); // run B: span 299, kept (trimmed)
    push(9999, 1, true); // split
    push(3000, 50, true); // fragment: < MIN_CHUNK_SAMPLES, dropped
    push(9999, 1, true); // split
    push(4095, 250, false); // stall: >= samples but span 0, dropped
    push(9999, 1, true); // split
    push(3600, 300, true); // run C sweeps 3600..3899 ...
    push(3899, 400, false); // ... then buzzes at the rail seq-contiguously

    let chunks = build_sweep_chunks(&frames);
    assert_eq!(chunks.len(), 3, "the three moving runs survive");
    // each end trimmed at the first crossing out of the extreme band: head loses
    // EDGE_DWELL_COUNTS+1 samples, tail keeps through the first sample inside
    // the band (1 count/sample here)
    let trimmed = |n: usize| n - (2 * EDGE_DWELL_COUNTS as usize + 1);
    assert_eq!(chunks[0].pos.len(), trimmed(250));
    assert_eq!(chunks[1].pos.len(), trimmed(300));
    assert_eq!(chunks[0].current.len(), trimmed(250));
    // the stall run (span 0) is gone despite having >= MIN_CHUNK_SAMPLES
    assert!(chunks.iter().all(|c| c.pos.iter().max() != Some(&4095)));
    // run C: the 400-sample fused buzz is trimmed off with the tail band
    assert_eq!(chunks[2].pos.len(), trimmed(300));
    assert!(chunks[2].pos.iter().max() < Some(&3899));
    assert_eq!(chunk_samples(&chunks), trimmed(250) + 2 * trimmed(300));
}

#[test]
fn build_sweep_chunks_empty_without_frames() {
    assert!(build_sweep_chunks(&[]).is_empty());
}

#[test]
fn dwell_comes_off_a_falling_run_too() {
    // 500 down to 401, then stuck at 401
    let mut pos: Vec<u16> = (401..=500).rev().collect();
    pos.extend([401; 40]);
    let s = seqd(&pos);
    let t = trim_edge_dwell(&s);
    assert_eq!(t.first().unwrap().pos, 491);
    assert_eq!(t.last().unwrap().pos, 409);
    // too narrow for two bands: left alone
    let narrow = seqd(&[100, 116, 100, 108]);
    assert_eq!(trim_edge_dwell(&narrow).len(), 4);
    // one count wider is cut
    let wide = seqd(&[100, 109, 117, 108]);
    assert_eq!(trim_edge_dwell(&wide), &wide[1..2]);
}

// --- replay ---------------------------------------------------------------------

#[test]
fn mask_parses_hex_with_and_without_prefix() {
    assert_eq!(parse_mask("0x1B").unwrap(), 0x1B);
    assert_eq!(parse_mask("1b").unwrap(), 0x1B);
    assert_eq!(parse_mask("3F").unwrap(), 0x3F);
    assert_eq!(parse_mask(" 0X0f ").unwrap(), 0x0F);
    assert!(parse_mask("zz").is_err());
    assert!(parse_mask("").is_err());
}

#[test]
fn mask_bounds_and_prefix_alone() {
    assert_eq!(parse_mask("FFFF"), Ok(0xffff));
    assert_eq!(parse_mask("+1b"), Ok(0x1b));
    assert_eq!(parse_mask("10000"), Err(ArgError::BadNumber));
    assert_eq!(parse_mask("0x"), Err(ArgError::BadNumber));
    assert_eq!(parse_mask("0x0x1"), Err(ArgError::BadNumber));
    assert_eq!(parse_mask("0x 1"), Err(ArgError::BadNumber));
    assert_eq!(parse_mask("-1"), Err(ArgError::BadNumber));
}

#[test]
fn classify_counts_out_of_range_and_within_range_jumps() {
    let frames = vec![
        frame(0, 1000),
        frame(1, 1010), // +10, ok
        frame(2, 5000), // out-of-range (bit corruption)
        frame(3, 1020), // 2->3 consecutive but seq 2 out-of-range -> not a jump
        frame(4, 1900), // 1020->1900 = 880, within-range implausible jump
        frame(6, 1905), // seq gap (5 dropped) -> not consecutive, skipped
    ];
    let c = classify(&frames);
    assert_eq!(c.out_of_range, 1);
    assert_eq!(c.implausible_jumps, 1);
    assert_eq!(c.max_consec_delta, 880);
}

#[test]
fn classify_clean_stream_has_no_flags() {
    // small monotonic steps, all consecutive, all in range
    let frames: Vec<TelFrame> = (0..8u8).map(|k| frame(k, 1000 + k as u16)).collect();
    let c = classify(&frames);
    assert_eq!(c.out_of_range, 0);
    assert_eq!(c.implausible_jumps, 0);
    assert_eq!(c.max_consec_delta, 1);
}

#[test]
fn a_step_of_the_limit_is_no_jump() {
    let c = classify(&[frame(255, 100), frame(0, 300), frame(1, 99)]);
    assert_eq!((c.implausible_jumps, c.max_consec_delta), (1, 201));
    let c = classify(&[frame(255, 100), frame(0, 300)]);
    assert_eq!((c.implausible_jumps, c.max_consec_delta), (0, 200));
}

#[test]
fn bounds_skip_implausible_positions() {
    assert_eq!(observed(&[]), None);
    assert_eq!(observed(&[frame(0, 4096)]), None);
    assert_eq!(
        observed(&[frame(0, 800), frame(1, 9999), frame(2, 200), frame(3, 799)]),
        Some(Bounds { min: 200, max: 800 })
    );
}

#[test]
fn given_rails_override_the_capture() {
    let seen = Some(Bounds { min: 200, max: 800 });
    let r = rails(None, None, seen);
    assert_eq!((r.min, r.max, r.from_capture), (200, 800, true));
    let r = rails(Some(10), None, seen);
    assert_eq!((r.min, r.max, r.from_capture), (10, 800, true));
    let r = rails(Some(10), Some(20), seen);
    assert_eq!((r.min, r.max, r.from_capture), (10, 20, false));
    let r = rails(None, Some(20), None);
    assert_eq!((r.min, r.max, r.from_capture), (0, 20, true));
}

#[test]
fn diagnosis_ranks_bit_errors_over_drops() {
    let clean = Classification {
        out_of_range: 0,
        implausible_jumps: 0,
        max_consec_delta: 3,
    };
    assert_eq!(diagnose(&clean, 1000, 10), Diagnosis::Clean);
    assert_eq!(diagnose(&clean, 1000, 11), Diagnosis::FrameDrops);
    assert_eq!(diagnose(&clean, 0, 11), Diagnosis::Clean);
    assert_eq!(diagnose(&clean, u64::MAX, u64::MAX), Diagnosis::Clean);
    assert_eq!(
        diagnose(&clean, u64::MAX - 1, u64::MAX / 2),
        Diagnosis::FrameDrops
    );
    let jumped = Classification {
        implausible_jumps: 1,
        ..clean
    };
    assert_eq!(diagnose(&jumped, 1000, 900), Diagnosis::BitErrors);
    let corrupt = Classification {
        out_of_range: 1,
        ..clean
    };
    assert_eq!(diagnose(&corrupt, 1000, 0), Diagnosis::BitErrors);
}

#[test]
fn survey_puts_it_together() {
    let frames: Vec<TelFrame> = (0..400u16).map(|k| frame(k as u8, 1000 + k)).collect();
    let s = survey(&frames, 400, 0, None, Some(4000));
    assert_eq!(s.diagnosis, Diagnosis::Clean);
    assert_eq!((s.rails.min, s.rails.max), (1000, 4000));
    assert_eq!(s.chunks.len(), 1);
    assert_eq!(s.chunk_samples, 400 - 17);
    assert_eq!(s.run.unwrap().pos.len(), 400 - 17);
    assert_eq!(s.classification.max_consec_delta, 1);
}

// --- motion ---------------------------------------------------------------------

fn at(pos: u16) -> TelemetrySnapshot {
    TelemetrySnapshot {
        pos,
        ..Default::default()
    }
}

fn put(reg: Reg, value: i32) -> Cmd {
    Cmd::Write { reg, value }
}

#[test]
fn seek_drives_toward_the_target_and_holds() {
    let mut s = Seek::to_count(1000, true, 8520);
    assert_eq!(s.step(None), put(control::mode(), 0));
    assert_eq!(s.step(None), put(control::torque_enable(), 1));
    assert_eq!(s.step(None), Cmd::Read);
    assert_eq!(s.step(Some(&at(900))), put(control::goal_duty(), 8520));
    assert_eq!(s.step(None), Cmd::Pause { ms: 25 });
    assert_eq!(s.step(None), Cmd::Read);
    assert_eq!(s.step(Some(&at(1041))), put(control::goal_duty(), -8520));
    assert_eq!(s.step(None), Cmd::Pause { ms: 25 });
    assert_eq!(s.step(None), Cmd::Read);
    // no reply yet: ask again
    assert_eq!(s.step(None), Cmd::Read);
    assert_eq!(s.step(Some(&at(1040))), put(control::goal_duty(), 0));
    assert!(s.reached);
    // torque stays on for what follows
    assert_eq!(s.step(None), Cmd::Done);
    assert_eq!(s.step(None), Cmd::Done);
}

#[test]
fn seek_flips_with_polarity() {
    let mut s = Seek::to_count(1000, false, 8520);
    for _ in 0..3 {
        s.step(None);
    }
    assert_eq!(s.step(Some(&at(900))), put(control::goal_duty(), -8520));
}

#[test]
fn seek_to_the_middle_lets_go() {
    let mut s = Seek::to_middle(321, 3702, true);
    // mid 2011, margin 338
    assert_eq!((s.lo, s.hi, s.pivot), (1673, 2349, 2011));
    assert!(s.holds(1673) && s.holds(2349) && !s.holds(1672) && !s.holds(2350));
    for _ in 0..3 {
        s.step(None);
    }
    assert_eq!(s.step(Some(&at(2000))), put(control::goal_duty(), 0));
    assert_eq!(s.step(None), put(control::torque_enable(), 0));
    assert_eq!(s.step(None), Cmd::Done);
    assert_eq!(s.phase, SeekPhase::Finished);
}

#[test]
fn seek_band_stays_on_the_scale() {
    let s = Seek::to_middle(0, 5, true);
    assert_eq!((s.lo, s.hi), (1, 3));
    let s = Seek::to_middle(0, 0, true);
    assert_eq!((s.lo, s.hi), (0, 1));
    let s = Seek::to_middle(65_535, 65_535, true);
    assert_eq!((s.lo, s.hi), (65_534, 65_535));
}

#[test]
fn seek_gives_up_after_its_polls() {
    let mut s = Seek::to_mid_travel();
    assert!(s.holds(1750) && s.holds(2350));
    let (mut reads, mut duties, mut pending) = (0, Vec::new(), None);
    for _ in 0..10_000 {
        match s.step(pending.take().as_ref()) {
            Cmd::Read => {
                reads += 1;
                pending = Some(at(100));
            }
            Cmd::Write { reg, value } if reg == control::goal_duty() => duties.push(value),
            Cmd::Done => break,
            _ => {}
        }
    }
    assert_eq!(reads, 200);
    assert!(!s.reached);
    assert_eq!(duties.len(), 201);
    assert!(duties[..200].iter().all(|&d| d == 9000));
    assert_eq!(duties[200], 0);
}

#[test]
fn probe_measures_the_way_it_went() {
    let mut p = Probe::new(8520, -1, 150);
    assert_eq!(p.step(None), put(control::mode(), 0));
    assert_eq!(p.step(None), put(control::torque_enable(), 1));
    assert_eq!(p.step(None), Cmd::Read);
    assert_eq!(p.step(Some(&at(2000))), put(control::goal_duty(), -8520));
    assert_eq!(p.moved(), None);
    assert_eq!(p.step(None), Cmd::Pause { ms: 150 });
    assert_eq!(p.step(None), Cmd::Read);
    assert_eq!(p.step(Some(&at(1400))), put(control::goal_duty(), 0));
    assert_eq!(p.step(None), Cmd::Done);
    assert_eq!(p.moved(), Some(600));
}

#[test]
fn probe_goes_away_from_the_nearer_rail() {
    assert_eq!(sweep_sign(true), 1);
    assert_eq!(sweep_sign(false), -1);
    assert_eq!(probe_sign(500, 321, 3702, true), 1);
    assert_eq!(probe_sign(3000, 321, 3702, true), -1);
    assert_eq!(probe_sign(500, 321, 3702, false), -1);
    assert_eq!(probe_sign(3000, 321, 3702, false), 1);
    // the middle itself counts as the upper half
    assert_eq!(probe_sign(2011, 321, 3702, true), -1);
}

#[test]
fn capture_keeps_its_inset_or_takes_the_rails() {
    assert_eq!(
        capture_window(321, 3702, 101),
        Window {
            start: 422,
            end: 3601
        }
    );
    assert_eq!(
        capture_window(100, 260, 80),
        Window {
            start: 100,
            end: 260
        }
    );
    assert_eq!(
        capture_window(100, 261, 80),
        Window {
            start: 180,
            end: 181
        }
    );
}

#[test]
fn stream_switch_brackets_the_sweep() {
    let cfg = SweepCfg {
        duty_q15: 8520,
        capture_ms: 700,
    };
    let mut w = TelWrap::new(Sweep::new(cfg, 1), CAPTURE_MASK);
    let mut cmds = Vec::new();
    loop {
        let c = w.step(None);
        cmds.push(c);
        if c == Cmd::Done {
            break;
        }
    }
    assert_eq!(cmds[0], put(control::tel_mask(), 0x1b));
    assert_eq!(cmds[1], put(control::tel_enable(), 1));
    assert_eq!(cmds[2], put(control::mode(), 0));
    assert_eq!(cmds[5], Cmd::Pause { ms: 700 });
    let n = cmds.len();
    assert_eq!(n, 11);
    assert_eq!(cmds[n - 4], put(control::torque_enable(), 0));
    assert_eq!(cmds[n - 3], put(control::tel_enable(), 0));
    assert_eq!(cmds[n - 2], put(control::tel_mask(), 0));
    assert_eq!(w.step(None), Cmd::Done);
}

// --- session --------------------------------------------------------------------

fn rails_found() -> EndstopResult {
    EndstopResult {
        pos_min_phys: 321,
        pos_max_phys: 3702,
        drive_polarity: true,
        i_stall_counts: 500,
    }
}

fn figures() -> Event {
    Event::Figures {
        soft_min: 400,
        soft_max: 3600,
        kin: KinematicsResult {
            angle_min_cdeg: 0,
            angle_max_cdeg: 18_000,
            gear_ratio_centi: 15_000,
        },
    }
}

/// A table with two knots off the line.
fn stitched(ends: &EndstopResult) -> PotLut {
    let mut lut = PotLut::identity(ends.pos_min_phys as u16, ends.pos_max_phys as u16);
    lut.corr[1] = 258;
    lut.corr[54] = -2;
    lut
}

/// Answers every task until the session ends; the tasks in order.
fn calibrate(yes: bool, tel: bool, answers: [bool; 2], chunks: usize) -> Vec<Task> {
    let mut s = Session::new(yes, tel);
    let mut t = s.task();
    let mut out = Vec::new();
    for _ in 0..40 {
        out.push(t);
        let e = match t {
            Task::AskProceed => Event::Answer { yes: answers[0] },
            Task::AskWrite => Event::Answer { yes: answers[1] },
            Task::SeekRails => Event::Rails {
                ends: rails_found(),
            },
            Task::Sweep { .. } => Event::Captured { chunks },
            Task::Figure { .. } => figures(),
            Task::BuildLut { ends } => Event::Lut {
                lut: stitched(&ends),
            },
            Task::Decline | Task::Finish => break,
            _ => Event::Done,
        };
        t = s.next(e);
    }
    out
}

fn written(tasks: &[Task]) -> Vec<(Reg, i32)> {
    tasks
        .iter()
        .filter_map(|t| match t {
            Task::Write { write } => Some((write.reg, write.value)),
            _ => None,
        })
        .collect()
}

#[test]
fn full_calibration_in_order() {
    let t = calibrate(false, true, [true, true], 3);
    let ends = rails_found();
    assert_eq!(
        t[..9],
        [
            Task::ReadSense,
            Task::AskProceed,
            Task::SeekRails,
            Task::Sweep { ends },
            Task::Recenter { ends },
            Task::Figure { ends },
            Task::BuildLut { ends },
            Task::AskWrite,
            Task::TakeSnapshot,
        ]
    );
    assert_eq!(
        written(&t),
        [
            (config::pos_min_phys_counts(), 321),
            (config::pos_max_phys_counts(), 3702),
            (config::pos_min_soft_counts(), 400),
            (config::pos_max_soft_counts(), 3600),
            (config::drive_polarity(), 1),
            (calib::angle_min_cdeg(), 0),
            (calib::angle_max_cdeg(), 18_000),
            (calib::gear_ratio_centi(), 15_000),
            (calib::pot_lut_raw_min(), 321),
            (calib::pot_lut_raw_max(), 3702),
            (control::torque_enable(), 0),
        ]
    );
    assert_eq!(t[t.len() - 2..], [Task::Persist, Task::Finish]);
    // the knots that go out are those of the table that was stitched
    let lut = stitched(&ends);
    assert_eq!(
        t[t.len() - 4],
        Task::WriteCorr {
            reg: calib::pot_lut_corr(),
            lut
        }
    );
    let bytes = lut.corr_bytes();
    assert_eq!(bytes.len(), 110);
    assert_eq!(bytes[..4], [0, 0, 2, 1]);
    assert_eq!(bytes[108..], [254, 255]);
}

#[test]
fn no_means_no_writes() {
    let t = calibrate(false, false, [false, true], 0);
    assert_eq!(t, [Task::ReadSense, Task::AskProceed, Task::Decline]);
    let t = calibrate(false, false, [true, false], 0);
    assert!(written(&t).is_empty());
    assert!(!t.contains(&Task::TakeSnapshot));
    assert_eq!(t.last(), Some(&Task::Decline));
}

#[test]
fn headless_run_never_asks() {
    let t = calibrate(true, true, [false, false], 0);
    assert!(!t.contains(&Task::AskProceed) && !t.contains(&Task::AskWrite));
    // a sweep without a clean chunk leaves the table alone
    assert!(!t.iter().any(|t| matches!(t, Task::WriteCorr { .. })));
    assert_eq!(written(&t).len(), 9);
    assert_eq!(t.last(), Some(&Task::Finish));
}

#[test]
fn unexpected_event_changes_nothing() {
    let mut s = Session::new(false, false);
    assert_eq!(s.next(figures()), Task::ReadSense);
    assert_eq!(s.next(Event::Done), Task::AskProceed);
    assert_eq!(s.next(Event::Done), Task::AskProceed);
}

// --- anchor ---------------------------------------------------------------------

#[test]
fn counted_gear_is_preferred() {
    assert_eq!(anchor(true, true, true), Anchor::Gear);
    assert_eq!(anchor(true, true, false), Anchor::Gear);
    assert_eq!(
        anchor(true, false, true),
        Anchor::Travel(GearSource::Entered)
    );
    assert_eq!(
        anchor(false, true, true),
        Anchor::Travel(GearSource::Measured)
    );
    assert_eq!(
        anchor(false, false, true),
        Anchor::Travel(GearSource::Unset)
    );
    assert_eq!(anchor(true, false, false), Anchor::Unset);
    assert_eq!(anchor(false, true, false), Anchor::Unset);
}
