//! Experiments pumped against a simulated servo: the safety envelope, the rail
//! seek, the ripple sweep, the duty ladder and the two verification runs.

use osc_servo::exp::endstop::{Endstop, EndstopCfg};
use osc_servo::exp::ladder::{
    rung_warnings, steady_segment, Ladder, LadderCfg, RungNote, RungSegment,
};
use osc_servo::exp::sweep::{Sweep, SweepCfg};
use osc_servo::exp::verify::{
    passed, step_tail, StepCapture, VerifyCurrent, VerifyCurrentCfg, VerifyResult, VerifyVelocity,
    VerifyVelocityCfg,
};
use osc_servo::exp::{
    distance, mag16, AbortReason, Cmd, Experiment, Guarded, RigParams, WindowSample, WindowStream,
};
use osc_servo::frame::{SeqUnwrap, TelFrame, TelemetrySnapshot};
use osc_servo::regs::{all, control, reg_by_name, Reg};

/// A brushed motor behind a pot between two hard stops, in counts. Speed follows
/// the drive with a short lag; a stop pins the shaft and the current rises to
/// the stall value.
struct FakeServo {
    r: f64,
    ke: f64,
    fc: f64,
    fv: f64,
    vbus: f64,
    pos: f64,
    omega: f64,
    ends: (f64, f64),
    /// Positive duty raises the count.
    drive_polarity: bool,
    /// A pot artifact: readings in this zone come out 80 counts high.
    glitch_zone: Option<(f64, f64)>,
    fault_at_ms: Option<f64>,
    torque: bool,
    duty: i32,
    t_ms: f64,
}

impl FakeServo {
    fn new(r: f64) -> Self {
        FakeServo {
            r,
            ke: 0.1731,
            fc: 20.0,
            fv: 0.006,
            vbus: 1713.0,
            pos: 2000.0,
            omega: 0.0,
            ends: (100.0, 4000.0),
            drive_polarity: true,
            glitch_zone: None,
            fault_at_ms: None,
            torque: false,
            duty: 0,
            t_ms: 0.0,
        }
    }

    fn volts(&self) -> f64 {
        if self.torque {
            self.duty as f64 / 32767.0 * self.vbus
        } else {
            0.0
        }
    }

    fn dir(&self) -> f64 {
        if self.drive_polarity {
            1.0
        } else {
            -1.0
        }
    }

    fn advance(&mut self, ms: f64) {
        let dt: f64 = 0.0002;
        let mut left: f64 = ms / 1000.0;
        while left > 1e-12 {
            let h = dt.min(left);
            let v = self.volts() * self.dir();
            let target = if v.abs() > self.r * self.fc {
                (v - v.signum() * self.r * self.fc) / (self.ke + self.r * self.fv)
            } else {
                0.0
            };
            self.omega += (target - self.omega) * (h / 0.015);
            self.pos += self.omega * h;
            if self.pos <= self.ends.0 || self.pos >= self.ends.1 {
                self.pos = self.pos.clamp(self.ends.0, self.ends.1);
                self.omega = 0.0;
            }
            left -= h;
        }
        self.t_ms += ms;
    }

    fn write(&mut self, reg: Reg, value: i32) {
        if reg == control::torque_enable() {
            self.torque = value != 0;
        } else if reg == control::goal_duty() {
            self.duty = value;
        }
    }

    fn read(&mut self) -> TelemetrySnapshot {
        // a read takes its time on the bus
        self.advance(0.4);
        let faulted = matches!(self.fault_at_ms, Some(t) if self.t_ms >= t);
        let mut pos = self.pos;
        if let Some((lo, hi)) = self.glitch_zone {
            if pos >= lo && pos <= hi {
                pos += 80.0;
            }
        }
        let i = (self.volts() - self.ke * self.omega * self.dir()) / self.r;
        TelemetrySnapshot {
            fault_flags: faulted as u8,
            fault_code: if faulted { 3 } else { 0 },
            pos: pos.round() as u16,
            i_mean_counts: i.round() as i16,
            vdiff_mean: self.vbus as i16,
            duty_mean_q15: if self.torque { self.duty as i16 } else { 0 },
            sample_tick: (self.t_ms * 20.1) as u32,
            agg_seq: (self.t_ms / 0.8) as u64 as u16,
            ..TelemetrySnapshot::default()
        }
    }
}

fn name_of(reg: Reg) -> &'static str {
    all()
        .into_iter()
        .find(|n| n.reg == reg)
        .map(|n| n.name)
        .expect("a register of the map")
}

/// Run an experiment to its end; the log holds its writes.
fn pump<E: Experiment>(exp: &mut E, servo: &mut FakeServo, max: u32) -> Vec<String> {
    let mut log = Vec::new();
    let mut pending: Option<TelemetrySnapshot> = None;
    for _ in 0..max {
        match exp.step(pending.take().as_ref()) {
            Cmd::Write { reg, value } => {
                log.push(format!("write {} {}", name_of(reg), value));
                servo.write(reg, value);
            }
            Cmd::Read => pending = Some(servo.read()),
            Cmd::Pause { ms } => servo.advance(ms as f64),
            Cmd::Done => return log,
        }
    }
    log.push("OVERRUN".to_string());
    log
}

// --- windows and the envelope ----------------------------------------------

#[test]
fn torn_agg_seq_no_duplicate_sample() {
    let params = RigParams::default();
    let mut ws = WindowStream::new(&params);
    let mut o = TelemetrySnapshot {
        agg_seq: 7,
        i_mean_counts: 42,
        ..Default::default()
    };
    assert!(ws.push(&o).is_some());
    assert!(ws.push(&o).is_none(), "repeated agg_seq must not resample");
    o.agg_seq = 8;
    assert!(ws.push(&o).is_some());
}

#[test]
fn settle_windows_discarded_after_transition() {
    let params = RigParams::default();
    let mut ws = WindowStream::new(&params);
    ws.mark_transition();
    let mut accepted = 0;
    for seq in 0..8u16 {
        let o = TelemetrySnapshot {
            agg_seq: seq,
            ..Default::default()
        };
        if ws.push(&o).is_some() {
            accepted += 1;
        }
    }
    assert_eq!(accepted, 3, "5 settle windows dropped from 8");
}

#[test]
fn window_sample_carries_the_snapshot() {
    let mut ws = WindowStream::new(&RigParams::default());
    let o = TelemetrySnapshot {
        agg_seq: 65_535,
        i_mean_counts: -42,
        vdiff_mean: 1700,
        duty_mean_q15: 8520,
        ..Default::default()
    };
    let s = ws.push(&o).expect("first window");
    assert_eq!((s.seq, s.i, s.vdiff, s.duty_q15), (65_535, -42, 1700, 8520));
    // the counter wraps, the window number does not
    let s = ws
        .push(&TelemetrySnapshot { agg_seq: 2, ..o })
        .expect("next window");
    assert_eq!(s.seq, 65_538);
}

#[test]
fn seq_unwrap_counts_forward() {
    let mut u = SeqUnwrap::new();
    assert_eq!(u.push(10), 10);
    assert_eq!(u.push(10), 10);
    assert_eq!(u.push(5), 10 + 65_531);
    assert_eq!(u.push(6), 10 + 65_532);
}

/// Polls forever.
struct Forever(bool);

impl Experiment for Forever {
    fn step(&mut self, _: Option<&TelemetrySnapshot>) -> Cmd {
        self.0 = !self.0;
        if self.0 {
            Cmd::Read
        } else {
            Cmd::Pause { ms: 5 }
        }
    }
}

#[test]
fn abort_on_fault_emits_safety_commands() {
    let mut servo = FakeServo::new(3.37);
    let mut exp = Guarded::new(Forever(false), RigParams::default());
    servo.fault_at_ms = Some(50.0);
    let log = pump(&mut exp, &mut servo, 10_000);
    assert!(matches!(exp.abort(), Some(AbortReason::Fault { .. })));
    let tail: Vec<&String> = log.iter().rev().take(2).collect();
    assert_eq!(*tail[1], "write goal_duty 0");
    assert_eq!(*tail[0], "write torque_enable 0");
}

/// Drives at full speed and watches.
struct Drive(u8);

impl Experiment for Drive {
    fn step(&mut self, _: Option<&TelemetrySnapshot>) -> Cmd {
        self.0 = self.0.wrapping_add(1);
        match self.0 {
            1 => Cmd::Write {
                reg: control::torque_enable(),
                value: 1,
            },
            2 => Cmd::Write {
                reg: control::goal_duty(),
                value: 12000,
            },
            _ => {
                if self.0 % 2 == 1 {
                    Cmd::Read
                } else {
                    Cmd::Pause { ms: 30 }
                }
            }
        }
    }
}

#[test]
fn abort_on_pos_guard_breach() {
    let mut servo = FakeServo::new(3.37);
    servo.pos = 3800.0;
    let mut exp = Guarded::new(Drive(0), RigParams::default());
    let log = pump(&mut exp, &mut servo, 10_000);
    assert!(matches!(exp.abort(), Some(AbortReason::PosGuard { pos }) if pos > 3950));
    assert_eq!(*log.last().unwrap(), "write torque_enable 0");
}

#[test]
fn envelope_judges_fault_then_travel_then_current() {
    let judge = |o: TelemetrySnapshot| {
        let mut exp = Guarded::new(Forever(false), RigParams::default());
        let first = exp.step(None);
        assert_eq!(first, Cmd::Read);
        exp.step(Some(&o));
        exp.abort()
    };
    let fine = TelemetrySnapshot {
        pos: 2000,
        i_mean_counts: 1100,
        duty_mean_q15: 5,
        ..Default::default()
    };
    assert_eq!(judge(fine), None);
    // the fault outranks the travel, the travel the current
    let all = TelemetrySnapshot {
        fault_flags: 4,
        fault_code: 9,
        pos: 4000,
        i_mean_counts: 2000,
        ..fine
    };
    assert_eq!(judge(all), Some(AbortReason::Fault { flags: 4, code: 9 }));
    let off = TelemetrySnapshot {
        fault_flags: 0,
        ..all
    };
    assert_eq!(judge(off), Some(AbortReason::PosGuard { pos: 4000 }));
    let over = TelemetrySnapshot { pos: 2000, ..off };
    assert_eq!(
        judge(over),
        Some(AbortReason::Overcurrent { i_mean: 2000 })
    );
    let most_negative = TelemetrySnapshot {
        i_mean_counts: i16::MIN,
        ..over
    };
    assert_eq!(
        judge(most_negative),
        Some(AbortReason::Overcurrent { i_mean: i16::MIN })
    );
    // the current does not count while nothing drives
    let stale = TelemetrySnapshot {
        duty_mean_q15: 0,
        ..over
    };
    assert_eq!(judge(stale), None);
}

#[test]
fn envelope_without_guard_and_after_abort() {
    let params = RigParams::default().without_pos_guard();
    let mut exp = Guarded::new(Forever(false), params);
    exp.step(None);
    let rail = TelemetrySnapshot {
        pos: 10,
        ..Default::default()
    };
    assert_eq!(exp.step(Some(&rail)), Cmd::Pause { ms: 5 });
    assert!(exp.abort().is_none());
    let fault = TelemetrySnapshot {
        fault_flags: 1,
        ..rail
    };
    exp.step(None);
    assert_eq!(
        exp.step(Some(&fault)),
        Cmd::Write {
            reg: control::goal_duty(),
            value: 0
        }
    );
    // a later observation changes nothing any more
    let other = TelemetrySnapshot {
        fault_flags: 2,
        ..rail
    };
    assert_eq!(
        exp.step(Some(&other)),
        Cmd::Write {
            reg: control::torque_enable(),
            value: 0
        }
    );
    assert_eq!(exp.step(Some(&other)), Cmd::Done);
    assert_eq!(exp.step(None), Cmd::Done);
    assert_eq!(exp.abort(), Some(AbortReason::Fault { flags: 1, code: 0 }));
    exp.inner_mut().0 = true;
    assert!(exp.into_inner().0);
}

#[test]
fn slip_zone_bounds_are_inside() {
    let p = RigParams::default();
    assert!(!p.in_slip(1249));
    assert!(p.in_slip(1250));
    assert!(p.in_slip(1650));
    assert!(!p.in_slip(1651));
}

#[test]
fn magnitudes_at_the_edges() {
    assert_eq!(mag16(i16::MIN), 32_768);
    assert_eq!(mag16(-7), 7);
    assert_eq!(mag16(i16::MAX), 32_767);
    assert_eq!(distance(3, 10), 7);
    assert_eq!(distance(65_535, 0), 65_535);
}

// --- rail seek --------------------------------------------------------------

fn run_endstop(servo: &mut FakeServo) -> (Endstop, Vec<String>) {
    let params = RigParams::default().without_pos_guard();
    let mut exp = Guarded::new(Endstop::new(EndstopCfg::default(), &params), params);
    let log = pump(&mut exp, servo, 2_000_000);
    assert!(exp.abort().is_none(), "abort: {:?}", exp.abort());
    (exp.into_inner(), log)
}

#[test]
fn recovers_rails_and_polarity() {
    let mut servo = FakeServo::new(3.37);
    servo.ends = (321.0, 3702.0);
    servo.pos = 2000.0;
    let (exp, log) = run_endstop(&mut servo);
    assert!(!log.contains(&"OVERRUN".to_string()));
    let r = exp.result().expect("both rails found");
    assert!((r.pos_min_phys - 321).abs() <= 3, "min {}", r.pos_min_phys);
    assert!((r.pos_max_phys - 3702).abs() <= 3, "max {}", r.pos_max_phys);
    assert!(r.drive_polarity, "positive duty should raise counts");
    assert!(r.i_stall_counts > 0, "stall current {}", r.i_stall_counts);
}

#[test]
fn polarity_inference_flips_when_wiring_reversed() {
    let mut servo = FakeServo::new(3.37);
    servo.ends = (321.0, 3702.0);
    servo.pos = 2000.0;
    servo.drive_polarity = false;
    let (exp, _) = run_endstop(&mut servo);
    let r = exp.result().expect("both rails found");
    assert!(!r.drive_polarity, "reversed wiring must flip inference");
    // rails ordered regardless of which duty sign reached which end
    assert!(r.pos_min_phys < r.pos_max_phys);
    assert!((r.pos_min_phys - 321).abs() <= 3, "min {}", r.pos_min_phys);
    assert!((r.pos_max_phys - 3702).abs() <= 3, "max {}", r.pos_max_phys);
}

#[test]
fn command_choreography_is_safe() {
    let mut servo = FakeServo::new(3.37);
    let (_, log) = run_endstop(&mut servo);
    // torque on before any nonzero duty
    let torque_on = log
        .iter()
        .position(|l| l == "write torque_enable 1")
        .expect("torque on");
    let first_duty = log
        .iter()
        .position(|l| l.starts_with("write goal_duty") && !l.ends_with(" 0"))
        .expect("a drive command");
    assert!(torque_on < first_duty);
    // rest between the two seeks
    let zeros = log.iter().filter(|l| *l == "write goal_duty 0").count();
    assert!(zeros >= 2, "one rest plus final safety, got {zeros}");
    // final safety pair
    let tail: Vec<&String> = log.iter().rev().take(2).collect();
    assert_eq!(*tail[1], "write goal_duty 0");
    assert_eq!(*tail[0], "write torque_enable 0");
}

#[test]
fn endstop_writes_follow_the_script() {
    let mut servo = FakeServo::new(3.37);
    let (_, log) = run_endstop(&mut servo);
    let writes: Vec<&str> = log
        .iter()
        .filter(|l| l.starts_with("write "))
        .map(|l| l.as_str())
        .collect();
    assert_eq!(
        writes,
        [
            "write mode 0",
            "write torque_enable 1",
            "write goal_duty 8520",
            "write goal_duty 0",
            "write goal_duty -8520",
            "write goal_duty 0",
            "write goal_duty 0",
            "write torque_enable 0",
        ]
    );
}

#[test]
fn endstop_without_a_run_has_no_result() {
    let params = RigParams::default();
    assert!(Endstop::new(EndstopCfg::default(), &params)
        .result()
        .is_none());
}

// --- ripple sweep -----------------------------------------------------------

fn run_sweep(sweep_sign: i8) -> Vec<String> {
    let mut servo = FakeServo::new(3.37);
    servo.ends = (321.0, 3702.0);
    servo.pos = 2000.0;
    let mut exp = Sweep::new(SweepCfg::default(), sweep_sign);
    let log = pump(&mut exp, &mut servo, 2_000);
    assert!(!log.contains(&"OVERRUN".to_string()));
    log
}

#[test]
fn choreography_is_safe() {
    let log = run_sweep(1);
    // mode set before anything drives
    assert_eq!(log[0], "write mode 0");
    // torque on before any nonzero duty
    let torque_on = log
        .iter()
        .position(|l| l == "write torque_enable 1")
        .unwrap();
    let first_duty = log
        .iter()
        .position(|l| l.starts_with("write goal_duty") && !l.ends_with(" 0"))
        .unwrap();
    assert!(torque_on < first_duty);
    // single nonzero capture duty (no prime): exactly one drive write
    let duties: Vec<&String> = log
        .iter()
        .filter(|l| l.starts_with("write goal_duty"))
        .collect();
    assert_eq!(duties[0], "write goal_duty 8520", "capture toward far rail");
    // ends parked: duty 0 then torque off
    let tail: Vec<&String> = log.iter().rev().take(2).collect();
    assert_eq!(*tail[1], "write goal_duty 0");
    assert_eq!(*tail[0], "write torque_enable 0");
}

#[test]
fn negative_sign_flips_capture_duty() {
    let pos = run_sweep(1);
    let neg = run_sweep(-1);
    let pos_duty = pos
        .iter()
        .find(|l| l.starts_with("write goal_duty") && !l.ends_with(" 0"))
        .unwrap();
    let neg_duty = neg
        .iter()
        .find(|l| l.starts_with("write goal_duty") && !l.ends_with(" 0"))
        .unwrap();
    assert_eq!(pos_duty, "write goal_duty 8520");
    assert_eq!(neg_duty, "write goal_duty -8520");
}

#[test]
fn sweep_pauses_once_and_never_reads() {
    let mut exp = Sweep::new(
        SweepCfg {
            duty_q15: 4000,
            capture_ms: 950,
        },
        0,
    );
    let mut cmds = Vec::new();
    loop {
        let c = exp.step(None);
        if c == Cmd::Done {
            break;
        }
        cmds.push(c);
    }
    assert_eq!(cmds.len(), 6);
    assert_eq!(cmds[3], Cmd::Pause { ms: 950 });
    assert!(!cmds.contains(&Cmd::Read));
    assert_eq!(exp.step(None), Cmd::Done);
}

// --- duty ladder ------------------------------------------------------------

fn run_ladder(servo: &mut FakeServo, cfg: LadderCfg, params: RigParams) -> (Ladder, Vec<String>) {
    let mut exp = Guarded::new(Ladder::new(cfg, &params), params);
    let log = pump(&mut exp, servo, 2_000_000);
    assert!(exp.abort().is_none(), "abort: {:?}", exp.abort());
    (exp.into_inner(), log)
}

/// Every rung reduced, fifteen per cent trimmed off each end.
fn segments(l: &Ladder, params: &RigParams, min_steady: usize) -> Vec<RungSegment> {
    l.captures()
        .iter()
        .map(|c| {
            let trim = (c.samples.len() as f64 * 0.15) as usize;
            steady_segment(c, trim, params, min_steady)
        })
        .collect()
}

#[test]
fn ladder_runs_every_rung_both_ways() {
    let mut servo = FakeServo::new(3.37);
    let (exp, log) = run_ladder(&mut servo, LadderCfg::default(), RigParams::default());
    assert!(!log.contains(&"OVERRUN".to_string()));
    let duties: Vec<i16> = exp.captures().iter().map(|c| c.duty_q15).collect();
    assert_eq!(
        duties,
        [
            8520, -8520, 10813, -10813, 13107, -13107, 15400, -15400, 18022, -18022, 20971, -20971
        ]
    );
    let segs = segments(&exp, &RigParams::default(), 12);
    assert!(segs.iter().all(|s| s.note.is_none()));
    // faster rungs, higher speed: the sweep's own windows say so
    for s in &segs {
        let (a, b) = (s.steady.first().unwrap(), s.steady.last().unwrap());
        let counts = b.pos as f64 - a.pos as f64;
        let secs = (b.w.seq - a.w.seq) as f64 * 0.0008;
        let v = s.duty_q15 as f64 / 32767.0 * 1713.0;
        let omega = (v - v.signum() * 3.37 * 20.0) / (0.1731 + 3.37 * 0.006);
        assert!(
            (counts / secs - omega).abs() < omega.abs() * 0.05 + 20.0,
            "duty {}: {} vs {omega}",
            s.duty_q15,
            counts / secs
        );
    }
    let tail: Vec<&String> = log.iter().rev().take(2).collect();
    assert_eq!(*tail[1], "write goal_duty 0");
    assert_eq!(*tail[0], "write torque_enable 0");
}

#[test]
fn slip_zone_samples_are_masked() {
    let params = RigParams::default();
    let mut clean = FakeServo::new(3.37);
    let (exp_clean, _) = run_ladder(&mut clean, LadderCfg::default(), params);
    let mut glitched = FakeServo::new(3.37);
    // +80-count pot artifact strictly inside the masked slip zone: above the
    // sweep-start threshold (band lo + stop_margin) so the seek geometry
    // matches the clean run, and low enough that the +80 readings also stay
    // inside the mask
    glitched.glitch_zone = Some((1460.0, 1560.0));
    let (exp_glitch, _) = run_ladder(&mut glitched, LadderCfg::default(), params);
    // the artifact was seen
    let seen = |l: &Ladder| -> Vec<u16> {
        l.captures()
            .iter()
            .flat_map(|c| c.samples.iter().map(|s| s.pos))
            .collect()
    };
    assert_ne!(seen(&exp_clean), seen(&exp_glitch));
    // what is left for the fit is the same to the last sample
    let a = segments(&exp_clean, &params, 12);
    let b = segments(&exp_glitch, &params, 12);
    assert_eq!(a.len(), b.len());
    for (x, y) in a.iter().zip(&b) {
        assert_eq!(x.duty_q15, y.duty_q15);
        assert_eq!(x.steady, y.steady);
        assert!(x.steady.iter().all(|s| !params.in_slip(s.pos)));
    }
}

#[test]
fn short_travel_rung_drops_with_warning() {
    let mut servo = FakeServo::new(3.37);
    // 400-count sweep span: the fast rungs cross it in a few dozen windows,
    // under the raised min_steady; the slow rungs clear it
    servo.pos = 2050.0;
    servo.ends = (1600.0, 2500.0);
    let params = RigParams {
        pos_guard: Some((1600, 2500)),
        slip: (0, 0),
        ..RigParams::default()
    };
    let cfg = LadderCfg {
        min_steady: 40,
        stop_margin: 250,
        ..LadderCfg::default()
    };
    let (exp, _) = run_ladder(&mut servo, cfg, params);
    let segs = segments(&exp, &params, 40);
    assert!(
        segs.iter().any(|s| s.note == Some(RungNote::TooShort)),
        "fastest rungs should drop"
    );
    assert!(
        segs.iter().filter(|s| s.note.is_none()).count() >= 2,
        "slow rungs still usable"
    );
    let warnings = rung_warnings(&segs);
    assert!(!warnings.is_empty(), "expected short-segment warnings");
    let dropped: Vec<(i16, RungNote)> = segs
        .iter()
        .filter_map(|s| s.note.map(|n| (s.duty_q15, n)))
        .collect();
    assert_eq!(warnings, dropped);
}

#[test]
fn dropped_rungs_warn_once_each_in_order() {
    let seg = |duty_q15: i16, note: Option<RungNote>| RungSegment {
        duty_q15,
        steady: Vec::new(),
        note,
    };
    let segs = vec![
        seg(8520, None),
        seg(-8520, Some(RungNote::Stalled)),
        seg(10813, Some(RungNote::TooShort)),
        seg(-10813, None),
        seg(13107, Some(RungNote::Degenerate)),
    ];
    assert_eq!(
        rung_warnings(&segs),
        [
            (-8520, RungNote::Stalled),
            (10813, RungNote::TooShort),
            (13107, RungNote::Degenerate)
        ]
    );
    assert!(rung_warnings(&vec![seg(8520, None), seg(-8520, None)]).is_empty());
    assert!(rung_warnings(&Vec::new()).is_empty());
}

#[test]
fn ladder_writes_follow_the_script() {
    let mut servo = FakeServo::new(3.37);
    let cfg = LadderCfg {
        rungs_q15: vec![10813, 13107],
        seek_duty_q15: 8520,
        ..LadderCfg::default()
    };
    let (exp, log) = run_ladder(&mut servo, cfg, RigParams::default());
    let writes: Vec<&str> = log
        .iter()
        .filter(|l| l.starts_with("write "))
        .map(|l| l.as_str())
        .collect();
    assert_eq!(
        writes,
        [
            "write mode 0",
            "write torque_enable 1",
            "write goal_duty -8520",
            "write goal_duty 0",
            "write goal_duty 10813",
            "write goal_duty 0",
            "write goal_duty 8520",
            "write goal_duty 0",
            "write goal_duty -10813",
            "write goal_duty 0",
            "write goal_duty -8520",
            "write goal_duty 0",
            "write goal_duty 13107",
            "write goal_duty 0",
            "write goal_duty 8520",
            "write goal_duty 0",
            "write goal_duty -13107",
            "write goal_duty 0",
            "write torque_enable 0",
        ]
    );
    let duties: Vec<i16> = exp.captures().iter().map(|c| c.duty_q15).collect();
    assert_eq!(duties, [10813, -10813, 13107, -13107]);
}

// --- closed-loop verification ----------------------------------------------

/// The servo holds pos still during seeks and echoes the last goal_current into
/// i_mean with a fixed -5% bias.
#[test]
fn current_verify_measures_settle_and_error() {
    let mut exp = VerifyCurrent::new(VerifyCurrentCfg::default(), &RigParams::default());
    let mut goal = 0i16;
    let mut seq = 0u16;
    let mut log = Vec::new();
    let mut pending: Option<TelemetrySnapshot> = None;
    for _ in 0..2_000_000 {
        match exp.step(pending.take().as_ref()) {
            Cmd::Write { reg, value } => {
                if reg == control::goal_current() {
                    goal = value as i16;
                }
                log.push((reg, value));
            }
            Cmd::Read => {
                seq = seq.wrapping_add(1);
                pending = Some(TelemetrySnapshot {
                    pos: 2000,
                    agg_seq: seq,
                    i_mean_counts: (goal as f64 * 0.95) as i16,
                    duty_mean_q15: if goal != 0 { 6000 } else { 0 },
                    ..Default::default()
                });
            }
            Cmd::Pause { .. } => {}
            Cmd::Done => break,
        }
    }
    assert_eq!(exp.captures.len(), 4, "2 amplitudes x 2 directions");
    let mut passes = Vec::new();
    for c in &exp.captures {
        let goal = c.goal as f64;
        let band = (0.1 * goal.abs()) as u32;
        let t = step_tail(c, exp.settle_windows, band);
        let mean_i = t.sum as f64 / t.windows as f64;
        let err_pct = (mean_i - goal).abs() / goal.abs() * 100.0;
        assert!((err_pct - 5.0).abs() < 1.5, "err {err_pct:.2}");
        assert_eq!(t.settled, Some(c.windows[0].seq));
        assert_eq!(t.windows, c.windows.len() - exp.settle_windows as usize);
        passes.push(err_pct <= 10.0);
    }
    assert!(passed(&passes));
    // mode switch rides a torque-off gap, both directions
    let mode_writes: Vec<i32> = log
        .iter()
        .filter(|(r, _)| *r == control::mode())
        .map(|(_, v)| *v)
        .collect();
    assert_eq!(mode_writes, [0, 1, 0, 1], "open, current, per direction");
}

/// Pos advances at 97% of the goal each 4 ms poll.
#[test]
fn velocity_verify_measures_tracking() {
    let mut exp = VerifyVelocity::new(VerifyVelocityCfg::default(), &RigParams::default());
    let mut goal = 0i32;
    let mut pos = 2000.0f64;
    let mut tick = 0u32;
    let mut pending: Option<TelemetrySnapshot> = None;
    for _ in 0..4_000_000 {
        match exp.step(pending.take().as_ref()) {
            Cmd::Write { reg, value } => {
                if reg == control::goal_velocity() {
                    goal = value;
                }
                if reg == control::goal_duty() && value < 0 {
                    pos = 400.0; // seek lands at the low edge
                }
            }
            Cmd::Read => {
                // 4 ms of motion at 97% tracking
                pos = (pos + goal as f64 * 0.97 * 0.004).clamp(160.0, 3940.0);
                tick = tick.wrapping_add(80); // 4 ms of 20.1k ticks
                pending = Some(TelemetrySnapshot {
                    pos: pos as u16,
                    sample_tick: tick,
                    agg_seq: (tick / 16) as u16,
                    ..Default::default()
                });
            }
            Cmd::Pause { .. } => {}
            Cmd::Done => break,
        }
    }
    assert_eq!(exp.captures.len(), 4, "2 speeds x 2 directions");
    let mut passes = Vec::new();
    for c in &exp.captures {
        // slope of position over time, the first 250 ms left out
        let start = c.pts[0].ticks as f64 / 20_100.0;
        let pts: Vec<(f64, f64)> = c
            .pts
            .iter()
            .map(|p| (p.ticks as f64 / 20_100.0, p.pos as f64))
            .filter(|p| (p.0 - start) * 1000.0 >= 250.0)
            .collect();
        let n = pts.len() as f64;
        let (mx, my) = (
            pts.iter().map(|p| p.0).sum::<f64>() / n,
            pts.iter().map(|p| p.1).sum::<f64>() / n,
        );
        let sxy: f64 = pts.iter().map(|p| (p.0 - mx) * (p.1 - my)).sum();
        let sxx: f64 = pts.iter().map(|p| (p.0 - mx) * (p.0 - mx)).sum();
        let err_pct = (sxy / sxx - c.goal_cps as f64).abs() / c.goal_cps.abs() as f64 * 100.0;
        assert!((err_pct - 3.0).abs() < 1.0, "err {err_pct:.2}");
        passes.push(err_pct <= 15.0);
    }
    assert!(passed(&passes));
}

/// Pump an experiment whose reads all show one position, and keep its writes.
fn writes_at<E: Experiment>(exp: &mut E, pos: u16) -> Vec<(Reg, i32)> {
    let mut writes = Vec::new();
    let mut seq = 0u16;
    let mut pending: Option<TelemetrySnapshot> = None;
    for _ in 0..100_000 {
        match exp.step(pending.take().as_ref()) {
            Cmd::Write { reg, value } => writes.push((reg, value)),
            Cmd::Read => {
                seq = seq.wrapping_add(1);
                pending = Some(TelemetrySnapshot {
                    pos,
                    agg_seq: seq,
                    ..Default::default()
                });
            }
            Cmd::Pause { .. } => {}
            Cmd::Done => return writes,
        }
    }
    panic!("never done");
}

#[test]
fn current_verify_writes_follow_the_script() {
    let mut exp = VerifyCurrent::new(VerifyCurrentCfg::default(), &RigParams::default());
    let (mode, torque) = (control::mode(), control::torque_enable());
    let (duty, current) = (control::goal_duty(), control::goal_current());
    assert_eq!(
        writes_at(&mut exp, 2000),
        [
            (mode, 0),
            (torque, 1),
            (duty, 8520),
            (duty, 0),
            (torque, 0),
            (mode, 1),
            (torque, 1),
            (current, 110),
            (current, 0),
            (current, 140),
            (current, 0),
            (torque, 0),
            (mode, 0),
            (torque, 1),
            (duty, -8520),
            (duty, 0),
            (torque, 0),
            (mode, 1),
            (torque, 1),
            (current, -110),
            (current, 0),
            (current, -140),
            (current, 0),
            (current, 0),
            (torque, 0),
        ]
    );
    let goals: Vec<i16> = exp.captures.iter().map(|c| c.goal).collect();
    assert_eq!(goals, [110, 140, -110, -140]);
}

#[test]
fn velocity_verify_writes_follow_the_script() {
    let cfg = VerifyVelocityCfg {
        leg_cap_polls: 20,
        ..VerifyVelocityCfg::default()
    };
    let mut exp = VerifyVelocity::new(cfg, &RigParams::default());
    let (mode, torque) = (control::mode(), control::torque_enable());
    let (duty, velocity) = (control::goal_duty(), control::goal_velocity());
    assert_eq!(
        writes_at(&mut exp, 2000),
        [
            (mode, 0),
            (torque, 1),
            (duty, -8520),
            (duty, 0),
            (torque, 0),
            (mode, 2),
            (torque, 1),
            (velocity, 600),
            (velocity, 0),
            (velocity, -600),
            (velocity, 0),
            (velocity, 1200),
            (velocity, 0),
            (velocity, -1200),
            (velocity, 0),
            (velocity, 0),
            (torque, 0),
        ]
    );
    let goals: Vec<i32> = exp.captures.iter().map(|c| c.goal_cps).collect();
    assert_eq!(goals, [600, -600, 1200, -1200]);
    // the shaft never moved: every leg ran into its poll cap
    assert_eq!(exp.capped, goals);
}

#[test]
fn assemble_requires_at_least_one_section() {
    assert!(!VerifyResult::assemble(None, None).pass);
}

#[test]
fn assemble_fails_on_any_failed_section() {
    assert!(VerifyResult::assemble(Some(true), None).pass);
    assert!(VerifyResult::assemble(None, Some(true)).pass);
    assert!(VerifyResult::assemble(Some(true), Some(true)).pass);
    assert!(!VerifyResult::assemble(Some(true), Some(false)).pass);
    assert!(!VerifyResult::assemble(Some(false), None).pass);
    assert!(!passed(&vec![]));
    assert!(!passed(&vec![true, false]));
}

// --- names -------------------------------------------------------------------

#[test]
fn registers_are_found_by_name() {
    assert_eq!(
        reg_by_name("goal_duty"),
        Some(Reg {
            addr: 0x186,
            width: 2
        })
    );
    assert_eq!(reg_by_name("l3_q88").map(|r| r.width), Some(2));
    assert_eq!(reg_by_name("goal"), None);
    assert_eq!(reg_by_name(""), None);
}

#[test]
fn register_names_are_unique_and_ascend_by_section() {
    let v = all();
    for (i, a) in v.iter().enumerate() {
        assert!(v[i + 1..].iter().all(|b| b.name != a.name), "{}", a.name);
    }
}

#[test]
fn empty_frame_carries_nothing() {
    let f = TelFrame::default();
    assert_eq!(f.pos, None);
    assert_eq!(f.current, None);
    assert!(!f.window_valid);
}

#[test]
fn step_tails_discard_the_head_and_find_the_settle() {
    let w = |seq, i| WindowSample {
        seq,
        i,
        vdiff: 0,
        duty_q15: 0,
    };
    let c = StepCapture {
        goal: -100,
        windows: vec![w(7, 0), w(8, -60), w(10, -91), w(11, -104), w(12, i16::MIN)],
    };
    let t = step_tail(&c, 2, 10);
    assert_eq!((t.windows, t.sum), (3, -91 - 104 - 32_768));
    assert_eq!(t.settled, Some(10));
    assert_eq!(step_tail(&c, 2, 8).settled, Some(11));
    assert_eq!(step_tail(&c, 2, 3).settled, None);
    let t = step_tail(&c, 5, 10);
    assert_eq!((t.windows, t.sum), (0, 0));
    assert_eq!(step_tail(&c, u32::MAX, 10).windows, 0);
}
