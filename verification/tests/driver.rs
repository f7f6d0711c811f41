//! The driver: register bytes, the guarded telemetry read, the pump, table
//! write-back and the record files.

use osc_servo::driver::csv::{clean_note, flag, group_starts, note, rows, split, ShortRow};
use osc_servo::driver::pump::{tel_change, Act, Pump, TelChange};
use osc_servo::driver::record::{join, snapshot_row, tel_row};
use osc_servo::driver::reader::{ReadAct, SnapshotRead};
use osc_servo::driver::gainset::{GainTask, GainWrite};
use osc_servo::driver::saved::{rollback, snapshot_text};
use osc_servo::driver::restore::{snapshot_fields, FieldValue, Restore, RestoreAct};
use osc_servo::driver::wire::{
    calibration_writes, field_value, park_writes, reg_bytes, safe_writes,
    RegWrite, IDENT_BASE, IDENT_LEN, TEL_BASE, TEL_LEN,
};
use osc_servo::exp::endstop::EndstopResult;
use osc_servo::exp::{Cmd, Experiment};
use osc_servo::frame::{TelFrame, TelemetrySnapshot};
use osc_servo::gains::{Encoded, EncodedGains};
use osc_servo::kinematics::KinematicsResult;
use osc_servo::regs::{calib, config, control, reg_by_name, telemetry, Reg};
use osc_servo::units::SenseParams;

// --- wire -------------------------------------------------------------------------

#[test]
fn write_arm_truncates_by_width() {
    // the exact bytes the Write arm sends per width
    let cases: [(i32, u8, &[u8]); 4] = [
        (1, 1, &[0x01]),
        (-9000, 2, &(-9000i16).to_le_bytes()),
        (0x1B, 2, &[0x1B, 0x00]),
        (-1500, 4, &(-1500i32).to_le_bytes()),
    ];
    for (value, width, want) in cases {
        assert_eq!(reg_bytes(value, width), want, "value {value} width {width}");
    }
}

#[test]
fn register_bytes_match_the_machine_order() {
    for value in [0, 1, -1, 255, 256, 65_535, 65_536, i32::MIN, i32::MAX, 0x0102_0304] {
        for width in 0..=4u8 {
            assert_eq!(
                reg_bytes(value, width),
                &value.to_le_bytes()[..width as usize]
            );
        }
    }
}

#[test]
fn telemetry_span_covers_the_ident_block() {
    assert_eq!(TEL_BASE, 0x200);
    assert_eq!(TEL_LEN, 0x60);
    assert_eq!(IDENT_BASE, 0x254);
    assert_eq!(IDENT_LEN, 12);
}

#[test]
fn field_reads_need_two_bytes() {
    assert_eq!(field_value(&[]), None);
    assert_eq!(field_value(&[7]), None);
    assert_eq!(field_value(&[0x34, 0x12]), Some(0x1234));
    assert_eq!(field_value(&[0x34, 0x12, 9]), Some(0x1234));
}

/// A telemetry read with each field at its register.
fn telemetry_bytes(fields: &[(Reg, i32)]) -> Vec<u8> {
    let mut raw = vec![0u8; TEL_LEN as usize];
    for (reg, value) in fields {
        let at = (reg.addr - TEL_BASE) as usize;
        raw[at..at + reg.width as usize].copy_from_slice(&reg_bytes(*value, reg.width));
    }
    raw
}

#[test]
fn snapshot_decodes_every_field() {
    let raw = telemetry_bytes(&[
        (telemetry::fault_flags(), 0x21),
        (telemetry::fault_code(), 3),
        (telemetry::mode_active(), 2),
        (telemetry::theta_hat_q16(), -131_072),
        (telemetry::omega_hat_cps(), i32::MIN),
        (telemetry::tau_d_counts(), -5),
        (telemetry::i_lim_counts(), 1200),
        (telemetry::t_winding_cc(), -40),
        (telemetry::vbus_counts(), 65_535),
        (telemetry::duty_applied_q15(), -8520),
        (telemetry::omega_bemf_cps(), 77),
        (telemetry::r_hat_q12(), 8192),
        (telemetry::i_hat_counts(), -1),
        (telemetry::sample_tick(), -2),
        (telemetry::pos(), 4095),
        (telemetry::current(), 2048),
        (telemetry::current_trough(), 2049),
        (telemetry::current_bias_counts(), 2050),
        (telemetry::i_mean_counts(), i16::MIN as i32),
        (telemetry::i_min_counts(), -300),
        (telemetry::i_max_counts(), i16::MAX as i32),
        (telemetry::vdiff_mean(), 2960),
        (telemetry::duty_mean_q15(), 8000),
        (telemetry::agg_seq(), 0xabcd),
    ]);
    let want = TelemetrySnapshot {
        fault_flags: 0x21,
        fault_code: 3,
        mode_active: 2,
        theta_hat_q16: -131_072,
        omega_hat_cps: i32::MIN,
        tau_d_counts: -5,
        i_lim_counts: 1200,
        t_winding_cc: -40,
        vbus_counts: 65_535,
        duty_applied_q15: -8520,
        omega_bemf_cps: 77,
        r_hat_q12: 8192,
        i_hat_counts: -1,
        sample_tick: u32::MAX - 1,
        pos: 4095,
        current: 2048,
        current_trough: 2049,
        current_bias_counts: 2050,
        i_mean_counts: i16::MIN,
        i_min_counts: -300,
        i_max_counts: i16::MAX,
        vdiff_mean: 2960,
        duty_mean_q15: 8000,
        agg_seq: 0xabcd,
    };
    assert_eq!(TelemetrySnapshot::parse(TEL_BASE, &raw), Some(want));
    // from further down the map, the same fields sit further in
    let mut early = vec![0u8; 0x20];
    early.extend(&raw);
    assert_eq!(TelemetrySnapshot::parse(TEL_BASE - 0x20, &early), Some(want));
    // short, or past the first field
    assert_eq!(TelemetrySnapshot::parse(TEL_BASE, &raw[..0x5f]), None);
    assert_eq!(TelemetrySnapshot::parse(TEL_BASE + 1, &raw), None);
}

#[test]
fn torn_window_is_read_again_until_the_last_try() {
    let raw = telemetry_bytes(&[(telemetry::agg_seq(), 41), (telemetry::pos(), 9)]);
    let whole = TelemetrySnapshot::parse(TEL_BASE, &raw).unwrap();
    let mut window = vec![0u8; 12];
    window[10] = 41;
    let mut r = SnapshotRead::new();
    assert_eq!(r.next(None), ReadAct::Telemetry);
    // no reply: asked again
    assert_eq!(r.next(None), ReadAct::Telemetry);
    assert_eq!(r.next(Some(&raw)), ReadAct::Window);
    assert_eq!(r.next(None), ReadAct::Window);
    assert_eq!(r.next(Some(&window)), ReadAct::Take(whole));
    assert_eq!(r.next(None), ReadAct::Take(whole));

    // two torn pairs are read again, the third is let through
    window[10] = 42;
    let mut r = SnapshotRead::new();
    assert_eq!(r.next(None), ReadAct::Telemetry);
    for _ in 0..2 {
        assert_eq!(r.next(Some(&raw)), ReadAct::Window);
        assert_eq!(r.next(Some(&window)), ReadAct::Telemetry);
    }
    assert_eq!(r.next(Some(&raw)), ReadAct::Window);
    assert_eq!(r.next(Some(&window)), ReadAct::Take(whole));

    // a torn pair, then a whole one: the later snapshot counts
    let later = telemetry_bytes(&[(telemetry::agg_seq(), 42), (telemetry::pos(), 10)]);
    let mut r = SnapshotRead::new();
    r.next(None);
    r.next(Some(&raw));
    assert_eq!(r.next(Some(&window)), ReadAct::Telemetry);
    assert_eq!(r.next(Some(&later)), ReadAct::Window);
    assert_eq!(
        r.next(Some(&window)),
        ReadAct::Take(TelemetrySnapshot::parse(TEL_BASE, &later).unwrap())
    );
}

#[test]
fn short_replies_end_the_read() {
    let raw = telemetry_bytes(&[(telemetry::agg_seq(), 41)]);
    // before the window is ever asked for
    let mut r = SnapshotRead::new();
    r.next(None);
    assert_eq!(r.next(Some(&raw[..95])), ReadAct::ShortTelemetry);
    assert_eq!(r.next(Some(&raw)), ReadAct::ShortTelemetry);
    let mut r = SnapshotRead::new();
    r.next(None);
    r.next(Some(&raw));
    assert_eq!(r.next(Some(&[0u8; 11])), ReadAct::ShortWindow);
}

fn to(reg: Reg, value: i32) -> RegWrite {
    RegWrite { reg, value }
}

#[test]
fn write_lists() {
    assert_eq!(
        park_writes(),
        [to(control::goal_duty(), 0), to(control::torque_enable(), 0)]
    );
    assert_eq!(
        safe_writes(),
        [
            to(control::goal_duty(), 0),
            to(control::goal_current(), 0),
            to(control::goal_velocity(), 0),
            to(control::torque_enable(), 0),
            to(control::tel_enable(), 0),
            to(control::tel_mask(), 0),
        ]
    );
    let ends = EndstopResult {
        pos_min_phys: 321,
        pos_max_phys: 3702,
        drive_polarity: true,
        i_stall_counts: 500,
    };
    let kin = KinematicsResult {
        angle_min_cdeg: -9000,
        angle_max_cdeg: 9000,
        gear_ratio_centi: 15_000,
    };
    assert_eq!(
        calibration_writes(&ends, 400, 3600, &kin),
        [
            to(config::pos_min_phys_counts(), 321),
            to(config::pos_max_phys_counts(), 3702),
            to(config::pos_min_soft_counts(), 400),
            to(config::pos_max_soft_counts(), 3600),
            to(config::drive_polarity(), 1),
            to(calib::angle_min_cdeg(), -9000),
            to(calib::angle_max_cdeg(), 9000),
            to(calib::gear_ratio_centi(), 15_000),
        ]
    );
}

#[test]
fn sense_params_compare_by_value() {
    let s = SenseParams {
        shunt_r_mohm: 33,
        gain_milli: 15_000,
        vmotor_div_top: 18_200,
        vmotor_div_bot: 10_000,
        vdd_mv: 3300,
        tick_hz: 20_100,
    };
    assert_eq!(s, SenseParams { ..s });
    assert_ne!(s, SenseParams { vdd_mv: 3301, ..s });
}

// --- pump -------------------------------------------------------------------------

/// Plays a fixed script and keeps what it was shown.
struct Script {
    cmds: Vec<Cmd>,
    seen: Vec<Option<u16>>,
}

impl Experiment for Script {
    fn step(&mut self, obs: Option<&TelemetrySnapshot>) -> Cmd {
        self.seen.push(obs.map(|o| o.pos));
        if self.cmds.is_empty() {
            Cmd::Done
        } else {
            self.cmds.remove(0)
        }
    }
}

fn script(cmds: Vec<Cmd>) -> Script {
    Script {
        cmds,
        seen: Vec::new(),
    }
}

/// Every action but the empty ones; reads are answered with position 77.
fn acts(mut p: Pump<Script>, max: u32) -> (Vec<Act>, Pump<Script>) {
    let mut out = Vec::new();
    let mut reply = None;
    for _ in 0..max {
        let a = p.next(false, reply.take());
        if a == Act::Read {
            reply = Some(TelemetrySnapshot {
                pos: 77,
                ..Default::default()
            });
        }
        if a != Act::Next {
            out.push(a);
        }
        if a == Act::Finish {
            break;
        }
    }
    (out, p)
}

#[test]
fn pump_carries_out_each_arm() {
    let w = Cmd::Write {
        reg: control::goal_duty(),
        value: -5,
    };
    let p = Pump::new(script(vec![w, Cmd::Read, Cmd::Pause { ms: 12 }]), false);
    let (a, p) = acts(p, 100);
    assert_eq!(
        a,
        [
            Act::Write {
                reg: control::goal_duty(),
                value: -5
            },
            Act::Read,
            Act::Sleep { ms: 5 },
            Act::Sleep { ms: 5 },
            Act::Sleep { ms: 2 },
            Act::Finish,
        ]
    );
    // the reading reaches the step right after it, and no other
    assert_eq!(p.exp.seen, [None, None, Some(77), None]);
}

#[test]
fn pump_opens_and_closes_the_sink_around_the_writes() {
    let ena = |value| Cmd::Write {
        reg: control::tel_enable(),
        value,
    };
    let put = |value| Act::Write {
        reg: control::tel_enable(),
        value,
    };
    let cmds = vec![ena(1), Cmd::Pause { ms: 3 }, ena(1), ena(0), ena(0)];
    let (a, _) = acts(Pump::new(script(cmds.clone()), true), 100);
    assert_eq!(
        a,
        [
            Act::Open,
            put(1),
            Act::Drain, // before the pause is carried out
            Act::Drain,
            Act::Sleep { ms: 3 },
            Act::Drain,
            Act::Drain,
            put(1), // already open
            Act::Drain,
            Act::Close,
            put(0),
            put(0),
            Act::Finish,
        ]
    );
    // without a port the writes go out and nothing opens
    let (a, _) = acts(Pump::new(script(cmds), false), 100);
    assert_eq!(
        a,
        [
            put(1),
            Act::Sleep { ms: 3 },
            put(1),
            put(0),
            put(0),
            Act::Finish
        ]
    );
}

#[test]
fn pump_hears_a_stop_before_a_step_and_within_a_pause() {
    let mut p = Pump::new(script(vec![Cmd::Pause { ms: 60_000 }]), false);
    assert_eq!(p.next(true, None), Act::Interrupted);
    assert!(p.exp.seen.is_empty());
    let mut slept = 0;
    for k in 0..100 {
        match p.next(k > 10, None) {
            Act::Sleep { ms } => slept += ms,
            Act::Interrupted => break,
            _ => {}
        }
    }
    assert!(slept <= 25, "slept {slept}");
    assert_eq!(p.next(true, None), Act::Interrupted);
}

#[test]
fn sink_switch_table() {
    let e = control::tel_enable();
    assert_eq!(tel_change(e, 1, true, false), TelChange::Open);
    assert_eq!(tel_change(e, 1, true, true), TelChange::Keep);
    assert_eq!(tel_change(e, 0, true, true), TelChange::Close);
    assert_eq!(tel_change(e, 0, true, false), TelChange::Keep);
    assert_eq!(tel_change(e, 1, false, false), TelChange::Keep);
    assert_eq!(
        tel_change(control::tel_mask(), 1, true, false),
        TelChange::Keep
    );
}

// --- write-back ---------------------------------------------------------------------

fn fields(v: &[(&str, u16)]) -> Vec<FieldValue> {
    v.iter()
        .map(|(n, raw)| FieldValue {
            name: n.to_string(),
            raw: *raw,
        })
        .collect()
}

#[test]
fn restore_writes_reads_back_and_counts() {
    let mut r = Restore::new(fields(&[("r_q12", 8192), ("l1_q016", 16384)]));
    let a = reg_by_name("r_q12").unwrap();
    let b = reg_by_name("l1_q016").unwrap();
    assert_eq!(
        r.next(None),
        RestoreAct::Write {
            reg: a,
            value: 8192
        }
    );
    assert_eq!(r.next(None), RestoreAct::ReadBack { reg: a });
    assert_eq!(r.next(None), RestoreAct::ReadBack { reg: a });
    assert_eq!(
        r.next(Some(8192)),
        RestoreAct::Write {
            reg: b,
            value: 16384
        }
    );
    assert_eq!(r.next(None), RestoreAct::ReadBack { reg: b });
    assert_eq!(r.next(Some(16384)), RestoreAct::Done { count: 2 });
    assert_eq!(r.next(None), RestoreAct::Done { count: 2 });
}

#[test]
fn restore_stops_at_the_first_failure() {
    let mut r = Restore::new(fields(&[("r_q12", 1), ("nonsense", 2)]));
    r.next(None);
    r.next(None);
    assert_eq!(r.next(Some(1)), RestoreAct::Unknown { at: 1 });
    let mut r = Restore::new(fields(&[("r_q12", 1), ("l1_q016", 2)]));
    r.next(None);
    r.next(None);
    assert_eq!(
        r.next(Some(3)),
        RestoreAct::Mismatch { at: 0, back: 3 }
    );
    assert!(!matches!(r.next(Some(1)), RestoreAct::Write { .. }));
    assert_eq!(
        Restore::new(Vec::new()).next(None),
        RestoreAct::Done { count: 0 }
    );
}

#[test]
fn saved_fields_are_known_words() {
    let v = snapshot_fields();
    assert_eq!(v.len(), 22);
    for f in &v {
        assert_eq!(reg_by_name(f.name), Some(f.reg), "{}", f.name);
        assert_eq!(f.reg.width, 2, "{}", f.name);
    }
    assert_eq!(v[0].name, "r_q12");
    assert_eq!(v[21].name, "l_bemf_q016");
}

// --- record files -------------------------------------------------------------------

fn lines(v: &[&str]) -> Vec<String> {
    v.iter().map(|s| s.to_string()).collect()
}

#[test]
fn rows_skip_the_header_and_blank_lines() {
    let got = rows(&lines(&["a,b,c", "1,2,3", "", "4,5,6,7"]), 3).unwrap();
    assert_eq!(got, [lines(&["1", "2", "3"]), lines(&["4", "5", "6", "7"])]);
    assert!(rows(&lines(&["a,b"]), 2).unwrap().is_empty());
    assert!(rows(&[].to_vec(), 2).unwrap().is_empty());
}

#[test]
fn short_row_is_named_by_its_line() {
    assert_eq!(
        rows(&lines(&["h", "1,2", "", "1"]), 2),
        Err(ShortRow { line: 4, got: 1 })
    );
}

#[test]
fn cells_split_on_every_comma() {
    assert_eq!(split(""), [""]);
    assert_eq!(split(","), ["", ""]);
    assert_eq!(split("a,,b"), ["a", "", "b"]);
    assert_eq!(split("µ,ok"), ["µ", "ok"]);
}

#[test]
fn notes_lose_their_commas() {
    let n = clean_note("steady segment too short, dropped");
    assert_eq!(n, "steady segment too short; dropped");
    assert_eq!(clean_note(""), "");
    let row = format!("8520,{n}");
    assert_eq!(split(&row), ["8520", &n]);
    assert_eq!(note(&String::new()), None);
    assert_eq!(note(&n), Some(n.clone()));
}

#[test]
fn flags_are_ones() {
    assert!(flag("1"));
    assert!(!flag("0"));
    assert!(!flag("11"));
    assert!(!flag(""));
}

#[test]
fn rows_group_while_the_key_stays() {
    assert_eq!(group_starts(&vec![]), Vec::<usize>::new());
    assert_eq!(group_starts(&vec![0, 0, 1, 1, 1, 0]), [0, 2, 5]);
}

#[test]
fn rows_join_and_split() {
    assert_eq!(join(&vec![]), "");
    assert_eq!(join(&lines(&["a"])), "a");
    let v = lines(&["1", "", "x y"]);
    assert_eq!(join(&v), "1,,x y");
    assert_eq!(split(&join(&v)), v);
}

#[test]
fn stream_frames_leave_absent_cells_empty() {
    let f = TelFrame {
        seq: 255,
        window_valid: true,
        pos: Some(4095),
        current: None,
        duty_q15: Some(i16::MIN),
        vdiff: Some(0),
    };
    assert_eq!(tel_row(&f), "255,1,4095,,-32768,0");
    assert_eq!(tel_row(&TelFrame::default()), "0,0,,,,");
}

#[test]
fn snapshot_rows_hold_every_field() {
    let s = TelemetrySnapshot {
        fault_flags: 1,
        theta_hat_q16: i32::MIN,
        omega_hat_cps: 10,
        sample_tick: u32::MAX,
        agg_seq: 65_535,
        ..Default::default()
    };
    assert_eq!(
        snapshot_row("12.8", &s),
        "12.8,1,0,0,-2147483648,10,0,0,0,0,0,0,0,0,4294967295,0,0,0,0,0,0,0,0,0,65535"
    );
    assert_eq!(split(&snapshot_row("0.0", &s)).len(), 25);
}

// --- gains ------------------------------------------------------------------------

#[test]
fn gains_are_listed_in_write_order_and_saved_before() {
    let e = |raw| Encoded {
        raw,
        saturated: raw == u16::MAX,
    };
    let g = EncodedGains {
        i_kp_q88: e(1),
        i_ki_q412: e(2),
        i_kaw_q412: e(3),
        v_kp_q88: e(4),
        v_ki_q412: e(5),
        v_kaw_q412: e(6),
        j_ff_q88: e(7),
        p_kp_q88: e(8),
        pos_deadband_counts: e(9),
        l1_q016: e(10),
        l2_q88: e(11),
        l3_q88: e(12),
        b_i_q313: e(u16::MAX),
        r_q12: e(14),
        ke_vpc_q: e(15),
        recip_ke_q: e(16),
        fric_fc_counts: e(17),
        fric_fv_q016: e(18),
        fric_breakaway_counts: e(19),
    };
    let f = g.fields();
    assert_eq!(f[0], ("r_q12", e(14)));
    assert_eq!(f[3], ("b_i_q313", e(u16::MAX)));
    assert!(f[3].1.saturated);
    assert_eq!(f[18], ("l3_q88", e(12)));
    let saved = snapshot_fields();
    for (name, _) in f {
        assert!(saved.iter().any(|s| s.name == name), "{name}");
        assert_eq!(reg_by_name(name).map(|r| r.width), Some(2));
    }
}

// --- saved tables -------------------------------------------------------------

#[test]
fn rollback_reads_a_saved_table_in_name_order() {
    let text = "{\n  \"r_q12\": 13804, \"l1_q016\": 0,\n \"i_kp_q88\": 65535\n}";
    let mut r = rollback(text).unwrap();
    let fields: Vec<(&str, u16)> = r.fields.iter().map(|f| (f.name.as_str(), f.raw)).collect();
    assert_eq!(
        fields,
        [("i_kp_q88", 65535), ("l1_q016", 0), ("r_q12", 13804)]
    );
    assert_eq!(
        r.next(None),
        RestoreAct::Write {
            reg: reg_by_name("i_kp_q88").unwrap(),
            value: 65535
        }
    );
    // the last of a double counts
    let r = rollback("{\"t0_cc\": 1, \"t0_cc\": 2}").unwrap();
    assert_eq!((r.fields.len(), r.fields[0].raw), (1, 2));
    assert_eq!(rollback("{}").unwrap().fields.len(), 0);
}

#[test]
fn rollback_refuses_what_is_no_table() {
    for text in [
        "",
        "r_q12",
        "[1, 2]",
        "{\"r_q12\": 65536}",
        "{\"r_q12\": -1}",
        "{\"r_q12\": 1.5}",
        "{\"r_q12\": \"1\"}",
        "{\"r_q12\": 1",
        "{\"r_q12\": 1} x",
    ] {
        assert!(rollback(text).is_none(), "{text}");
    }
}

#[test]
fn snapshot_rolls_back_to_what_was_read() {
    let named = snapshot_fields();
    let values: Vec<u16> = (0..named.len() as u16).map(|i| 1000 + 7 * i).collect();
    let text = snapshot_text(&values).unwrap();
    assert!(text.starts_with("{\n  \"b_i_q313\": 1035,\n  \"fric_breakaway_counts\": 1056,\n"));
    assert!(text.ends_with("\n}"));
    let mut r = rollback(&text).unwrap();
    // every field goes back to the register it was read from
    let mut written = Vec::new();
    let mut back = None;
    loop {
        match r.next(back.take()) {
            RestoreAct::Write { reg, value } => written.push((reg, value)),
            RestoreAct::ReadBack { .. } => back = Some(written.last().unwrap().1 as u16),
            RestoreAct::Done { count } => {
                assert_eq!(count, named.len());
                break;
            }
            a => panic!("{a:?}"),
        }
    }
    assert_eq!(written.len(), named.len());
    for (f, v) in named.iter().zip(&values) {
        assert!(written.contains(&(f.reg, *v as i32)), "{}", f.name);
    }
    // one word short, or one over
    assert!(snapshot_text(&values[1..].to_vec()).is_none());
    assert!(snapshot_text(&vec![0; named.len() + 1]).is_none());
}

// --- gain sets ------------------------------------------------------------------

/// Carries a gain set out on registers that hold what is written; the tasks.
fn write_set(set: &mut GainWrite, wrong: Option<Reg>) -> Vec<GainTask> {
    let mut out = Vec::new();
    let mut back = None;
    let mut last = 0u16;
    for _ in 0..40 {
        let t = set.next(back.take());
        out.push(t);
        match t {
            GainTask::Write { write } => last = write.value as u16,
            GainTask::ReadBack { reg } => {
                back = Some(if wrong == Some(reg) { last ^ 1 } else { last })
            }
            GainTask::Empty
            | GainTask::Finish
            | GainTask::Unknown { .. }
            | GainTask::Mismatch { .. } => return out,
            _ => {}
        }
    }
    panic!("never done");
}

#[test]
fn gain_set_is_saved_written_and_kept_in_order() {
    let (r, l1) = (
        reg_by_name("r_q12").unwrap(),
        reg_by_name("l1_q016").unwrap(),
    );
    let front = [
        GainTask::TakeSnapshot,
        GainTask::Write { write: to(r, 8192) },
        GainTask::ReadBack { reg: r },
        GainTask::Write {
            write: to(l1, 16384),
        },
        GainTask::ReadBack { reg: l1 },
        GainTask::Verified { count: 2 },
    ];
    let set = || fields(&[("r_q12", 8192), ("l1_q016", 16384)]);
    let t = write_set(&mut GainWrite::new(set(), true), None);
    assert_eq!(t[..6], front);
    assert_eq!(
        t[6..],
        [
            GainTask::Write {
                write: to(control::torque_enable(), 0)
            },
            GainTask::Persist,
            GainTask::Finish,
        ]
    );
    let t = write_set(&mut GainWrite::new(set(), false), None);
    assert_eq!(t[..6], front);
    assert_eq!(t[6..], [GainTask::Finish]);
}

#[test]
fn gain_set_that_fails_is_not_kept() {
    let r = reg_by_name("r_q12").unwrap();
    let mut set = GainWrite::new(fields(&[("r_q12", 8192), ("l1_q016", 1)]), true);
    let t = write_set(&mut set, Some(r));
    assert_eq!(t.last(), Some(&GainTask::Mismatch { at: 0, back: 8193 }));
    assert_eq!(set.next(None), GainTask::Unknown { at: 0 });
    let mut set = GainWrite::new(fields(&[("nonsense", 1)]), true);
    assert_eq!(
        write_set(&mut set, None),
        [GainTask::TakeSnapshot, GainTask::Unknown { at: 0 }]
    );
    // nothing to write: not even a snapshot
    let mut set = GainWrite::new(Vec::new(), true);
    assert_eq!(write_set(&mut set, None), [GainTask::Empty]);
    assert_eq!(set.next(None), GainTask::Finish);
}
