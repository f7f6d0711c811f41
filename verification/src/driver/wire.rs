//! Bytes on the wire: register writes, the telemetry block, and the write lists
//! of parking and calibration.

use crate::exp::endstop::EndstopResult;
use crate::exp::rig::Rig;
use crate::exp::put;
use crate::frame::TelemetrySnapshot;
use crate::kinematics::KinematicsResult;
use crate::regs::{calib, config, control, telemetry, Reg};
use vstd::prelude::*;

verus! {

/// First address of the telemetry read.
pub const TEL_BASE: u16 = 0x200;

/// Bytes of the telemetry read.
pub const TEL_LEN: u16 = 0x60;

/// First address of the window block.
pub const IDENT_BASE: u16 = 0x254;

/// Bytes of the window block.
pub const IDENT_LEN: u16 = 12;

/// Two's complement bits of an `i32`.
pub open spec fn bits32(x: int) -> int {
    x % 0x1_0000_0000
}

/// Weight of byte `i`.
pub open spec fn place(i: int) -> int {
    if i == 0 {
        1
    } else if i == 1 {
        0x100
    } else if i == 2 {
        0x1_0000
    } else {
        0x100_0000
    }
}

/// Byte `i` of a value, low byte first.
pub open spec fn byte_of(x: int, i: int) -> int {
    (bits32(x) / place(i)) % 256
}

/// What a register write sends: the value low byte first, cut to the width of
/// the field. A negative value arrives as two's complement of that width.
pub fn reg_bytes(value: i32, width: u8) -> (r: Vec<u8>)
    requires
        width <= 4,
    ensures
        r@.len() == width,
        forall|i: int| 0 <= i < width ==> #[trigger] r@[i] == byte_of(value as int, i),
{
    let bits: u32 = crate::math::raw_bits(value);
    let mut out: Vec<u8> = Vec::new();
    if width > 0 {
        out.push((bits % 256) as u8);
    }
    if width > 1 {
        out.push((bits / 0x100 % 256) as u8);
    }
    if width > 2 {
        out.push((bits / 0x1_0000 % 256) as u8);
    }
    if width > 3 {
        out.push((bits / 0x100_0000 % 256) as u8);
    }
    out
}

/// Unsigned value of two bytes, low byte first.
pub open spec fn le16(s: Seq<u8>, at: int) -> int {
    s[at] + 256 * s[at + 1]
}

/// Unsigned value of four bytes, low byte first.
pub open spec fn le32(s: Seq<u8>, at: int) -> int {
    le16(s, at) + 0x1_0000 * le16(s, at + 2)
}

/// The signed reading of 16 bits.
pub open spec fn signed16(x: int) -> int {
    if x < 0x8000 {
        x
    } else {
        x - 0x1_0000
    }
}

/// The signed reading of 32 bits.
pub open spec fn signed32(x: int) -> int {
    if x < 0x8000_0000 {
        x
    } else {
        x - 0x1_0000_0000
    }
}

pub(crate) fn u16_at(raw: &[u8], at: usize) -> (r: u16)
    requires
        at + 2 <= raw@.len(),
    ensures
        r == le16(raw@, at as int),
{
    raw[at] as u16 + 256 * raw[at + 1] as u16
}

fn i16_at(raw: &[u8], at: usize) -> (r: i16)
    requires
        at + 2 <= raw@.len(),
    ensures
        r == signed16(le16(raw@, at as int)),
{
    let x: u16 = u16_at(raw, at);
    if x < 0x8000 {
        x as i16
    } else {
        (x as i32 - 0x1_0000) as i16
    }
}

fn u32_at(raw: &[u8], at: usize) -> (r: u32)
    requires
        at + 4 <= raw@.len(),
    ensures
        r == le32(raw@, at as int),
{
    let n: usize = raw.len();
    assert(at + 4 <= n);
    u16_at(raw, at) as u32 + 0x1_0000 * u16_at(raw, at + 2) as u32
}

fn i32_at(raw: &[u8], at: usize) -> (r: i32)
    requires
        at + 4 <= raw@.len(),
    ensures
        r == signed32(le32(raw@, at as int)),
{
    let x: u32 = u32_at(raw, at);
    if x < 0x8000_0000 {
        x as i32
    } else {
        (x as i64 - 0x1_0000_0000) as i32
    }
}

/// A 16-bit field as read; nothing where the reply is short.
pub fn field_value(raw: &[u8]) -> (r: Option<u16>)
    ensures
        r is Some <==> raw@.len() >= 2,
        r matches Some(v) ==> v == le16(raw@, 0),
{
    let n: usize = raw.len();
    if n < 2 {
        None
    } else {
        Some(u16_at(raw, 0))
    }
}

/// Place of a register in bytes read from `base` on.
pub open spec fn offset(reg: Reg, base: u16) -> int {
    reg.addr - base
}

/// Every telemetry field lies in `len` bytes read from `base` on.
pub open spec fn spans_telemetry(base: u16, len: int) -> bool {
    base <= TEL_BASE && len >= TEL_BASE + TEL_LEN - base
}

/// The snapshot in bytes read from `base` on: each field at its register, low
/// byte first.
pub open spec fn snapshot_in(base: u16, s: Seq<u8>) -> TelemetrySnapshot {
    TelemetrySnapshot {
        fault_flags: s[offset(telemetry::fault_flags(), base)],
        fault_code: s[offset(telemetry::fault_code(), base)],
        mode_active: s[offset(telemetry::mode_active(), base)],
        theta_hat_q16: signed32(le32(s, offset(telemetry::theta_hat_q16(), base))) as i32,
        omega_hat_cps: signed32(le32(s, offset(telemetry::omega_hat_cps(), base))) as i32,
        tau_d_counts: signed16(le16(s, offset(telemetry::tau_d_counts(), base))) as i16,
        i_lim_counts: le16(s, offset(telemetry::i_lim_counts(), base)) as u16,
        t_winding_cc: signed16(le16(s, offset(telemetry::t_winding_cc(), base))) as i16,
        vbus_counts: le16(s, offset(telemetry::vbus_counts(), base)) as u16,
        duty_applied_q15: signed16(le16(s, offset(telemetry::duty_applied_q15(), base))) as i16,
        omega_bemf_cps: signed16(le16(s, offset(telemetry::omega_bemf_cps(), base))) as i16,
        r_hat_q12: le16(s, offset(telemetry::r_hat_q12(), base)) as u16,
        i_hat_counts: signed16(le16(s, offset(telemetry::i_hat_counts(), base))) as i16,
        sample_tick: le32(s, offset(telemetry::sample_tick(), base)) as u32,
        pos: le16(s, offset(telemetry::pos(), base)) as u16,
        current: le16(s, offset(telemetry::current(), base)) as u16,
        current_trough: le16(s, offset(telemetry::current_trough(), base)) as u16,
        current_bias_counts: le16(s, offset(telemetry::current_bias_counts(), base)) as u16,
        i_mean_counts: signed16(le16(s, offset(telemetry::i_mean_counts(), base))) as i16,
        i_min_counts: signed16(le16(s, offset(telemetry::i_min_counts(), base))) as i16,
        i_max_counts: signed16(le16(s, offset(telemetry::i_max_counts(), base))) as i16,
        vdiff_mean: signed16(le16(s, offset(telemetry::vdiff_mean(), base))) as i16,
        duty_mean_q15: signed16(le16(s, offset(telemetry::duty_mean_q15(), base))) as i16,
        agg_seq: le16(s, offset(telemetry::agg_seq(), base)) as u16,
    }
}

impl TelemetrySnapshot {
    /// Decode bytes read from `base` on; nothing where they do not span every
    /// field.
    pub fn parse(base: u16, raw: &[u8]) -> (r: Option<TelemetrySnapshot>)
        ensures
            r is Some <==> spans_telemetry(base, raw@.len() as int),
            r matches Some(s) ==> s == snapshot_in(base, raw@),
    {
        let n: usize = raw.len();
        if base > TEL_BASE || n < (TEL_BASE + TEL_LEN - base) as usize {
            return None;
        }
        Some(
            TelemetrySnapshot {
                fault_flags: raw[(telemetry::fault_flags().addr - base) as usize],
                fault_code: raw[(telemetry::fault_code().addr - base) as usize],
                mode_active: raw[(telemetry::mode_active().addr - base) as usize],
                theta_hat_q16: i32_at(raw, (telemetry::theta_hat_q16().addr - base) as usize),
                omega_hat_cps: i32_at(raw, (telemetry::omega_hat_cps().addr - base) as usize),
                tau_d_counts: i16_at(raw, (telemetry::tau_d_counts().addr - base) as usize),
                i_lim_counts: u16_at(raw, (telemetry::i_lim_counts().addr - base) as usize),
                t_winding_cc: i16_at(raw, (telemetry::t_winding_cc().addr - base) as usize),
                vbus_counts: u16_at(raw, (telemetry::vbus_counts().addr - base) as usize),
                duty_applied_q15: i16_at(raw, (telemetry::duty_applied_q15().addr - base) as usize),
                omega_bemf_cps: i16_at(raw, (telemetry::omega_bemf_cps().addr - base) as usize),
                r_hat_q12: u16_at(raw, (telemetry::r_hat_q12().addr - base) as usize),
                i_hat_counts: i16_at(raw, (telemetry::i_hat_counts().addr - base) as usize),
                sample_tick: u32_at(raw, (telemetry::sample_tick().addr - base) as usize),
                pos: u16_at(raw, (telemetry::pos().addr - base) as usize),
                current: u16_at(raw, (telemetry::current().addr - base) as usize),
                current_trough: u16_at(raw, (telemetry::current_trough().addr - base) as usize),
                current_bias_counts: u16_at(
                    raw,
                    (telemetry::current_bias_counts().addr - base) as usize,
                ),
                i_mean_counts: i16_at(raw, (telemetry::i_mean_counts().addr - base) as usize),
                i_min_counts: i16_at(raw, (telemetry::i_min_counts().addr - base) as usize),
                i_max_counts: i16_at(raw, (telemetry::i_max_counts().addr - base) as usize),
                vdiff_mean: i16_at(raw, (telemetry::vdiff_mean().addr - base) as usize),
                duty_mean_q15: i16_at(raw, (telemetry::duty_mean_q15().addr - base) as usize),
                agg_seq: u16_at(raw, (telemetry::agg_seq().addr - base) as usize),
            },
        )
    }
}

/// A single register write.
#[derive(Copy, Clone, Debug, PartialEq, Eq, Structural)]
pub struct RegWrite {
    pub reg: Reg,
    pub value: i32,
}

/// A write to list.
pub open spec fn to(reg: Reg, value: int) -> RegWrite {
    RegWrite { reg, value: value as i32 }
}

/// Parks the drive: nothing commanded, torque off.
pub fn park_writes() -> (r: Vec<RegWrite>)
    ensures
        r@ == seq![to(control::goal_duty(), 0), to(control::torque_enable(), 0)],
{
    let mut v: Vec<RegWrite> = Vec::new();
    v.push(RegWrite { reg: control::goal_duty(), value: 0 });
    v.push(RegWrite { reg: control::torque_enable(), value: 0 });
    v
}

/// What every drive path ends with, whether it finished, failed or was stopped:
/// nothing commanded in any mode, torque off, stream off.
pub fn safe_writes() -> (r: Vec<RegWrite>)
    ensures
        r@ == seq![
            to(control::goal_duty(), 0),
            to(control::goal_current(), 0),
            to(control::goal_velocity(), 0),
            to(control::torque_enable(), 0),
            to(control::tel_enable(), 0),
            to(control::tel_mask(), 0),
        ],
{
    let mut v: Vec<RegWrite> = Vec::new();
    v.push(RegWrite { reg: control::goal_duty(), value: 0 });
    v.push(RegWrite { reg: control::goal_current(), value: 0 });
    v.push(RegWrite { reg: control::goal_velocity(), value: 0 });
    v.push(RegWrite { reg: control::torque_enable(), value: 0 });
    v.push(RegWrite { reg: control::tel_enable(), value: 0 });
    v.push(RegWrite { reg: control::tel_mask(), value: 0 });
    v
}

/// What calibration writes, in order: the rails, the working range, the drive
/// polarity, then the angles and the gear.
pub open spec fn calibration_list(
    ends: EndstopResult,
    soft_min: int,
    soft_max: int,
    kin: KinematicsResult,
) -> Seq<RegWrite> {
    seq![
        to(config::pos_min_phys_counts(), ends.pos_min_phys as int),
        to(config::pos_max_phys_counts(), ends.pos_max_phys as int),
        to(config::pos_min_soft_counts(), soft_min),
        to(config::pos_max_soft_counts(), soft_max),
        to(
            config::drive_polarity(),
            if ends.drive_polarity {
                1int
            } else {
                0
            },
        ),
        to(calib::angle_min_cdeg(), kin.angle_min_cdeg as int),
        to(calib::angle_max_cdeg(), kin.angle_max_cdeg as int),
        to(calib::gear_ratio_centi(), kin.gear_ratio_centi as int),
    ]
}

pub fn calibration_writes(ends: &EndstopResult, soft_min: i32, soft_max: i32, kin: &KinematicsResult)
    -> (r: Vec<RegWrite>)
    ensures
        r@ == calibration_list(*ends, soft_min as int, soft_max as int, *kin),
{
    let polarity: i32 = if ends.drive_polarity {
        1
    } else {
        0
    };
    let mut v: Vec<RegWrite> = Vec::new();
    v.push(RegWrite { reg: config::pos_min_phys_counts(), value: ends.pos_min_phys });
    v.push(RegWrite { reg: config::pos_max_phys_counts(), value: ends.pos_max_phys });
    v.push(RegWrite { reg: config::pos_min_soft_counts(), value: soft_min });
    v.push(RegWrite { reg: config::pos_max_soft_counts(), value: soft_max });
    v.push(RegWrite { reg: config::drive_polarity(), value: polarity });
    v.push(RegWrite { reg: calib::angle_min_cdeg(), value: kin.angle_min_cdeg as i32 });
    v.push(RegWrite { reg: calib::angle_max_cdeg(), value: kin.angle_max_cdeg as i32 });
    v.push(RegWrite { reg: calib::gear_ratio_centi(), value: kin.gear_ratio_centi as i32 });
    v
}

/// The registers once a list of writes has been carried out.
pub open spec fn after_writes(rig: Rig, writes: Seq<RegWrite>) -> Rig
    decreases writes.len(),
{
    if writes.len() == 0 {
        rig
    } else {
        after_writes(
            rig.after(put(writes[0].reg, writes[0].value as int)),
            writes.skip(1),
        )
    }
}

/// Whatever the drive was doing, the safe writes leave it with nothing commanded
/// and torque off.
pub proof fn law_safe_writes_stop_the_drive(rig: Rig)
    ensures
        ({
            let end = after_writes(
                rig,
                seq![
                    to(control::goal_duty(), 0),
                    to(control::goal_current(), 0),
                    to(control::goal_velocity(), 0),
                    to(control::torque_enable(), 0),
                    to(control::tel_enable(), 0),
                    to(control::tel_mask(), 0),
                ],
            );
            end.idle() && end.torque == 0 && end.mode == rig.mode
        }),
{
    let w = seq![
        to(control::goal_duty(), 0),
        to(control::goal_current(), 0),
        to(control::goal_velocity(), 0),
        to(control::torque_enable(), 0),
        to(control::tel_enable(), 0),
        to(control::tel_mask(), 0),
    ];
    let w1 = w.skip(1);
    let w2 = w1.skip(1);
    let w3 = w2.skip(1);
    let w4 = w3.skip(1);
    let w5 = w4.skip(1);
    let w6 = w5.skip(1);
    reveal_with_fuel(after_writes, 7);
    assert(w1[0] == w[1] && w2[0] == w[2] && w3[0] == w[3] && w4[0] == w[4] && w5[0] == w[5]);
    assert(w6.len() == 0);
}

/// Reading back the bytes of a 16-bit write gives the value written.
pub proof fn law_field_round_trip(value: u16, bytes: Seq<u8>)
    requires
        bytes.len() == 2,
        forall|i: int| 0 <= i < 2 ==> #[trigger] bytes[i] == byte_of(value as int, i),
    ensures
        le16(bytes, 0) == value,
{
    assert(bytes[0] == byte_of(value as int, 0));
    assert(bytes[1] == byte_of(value as int, 1));
}

/// The two reads lie where their fields do: the telemetry read runs from the
/// first field through the window number, and the window read is its tail.
pub proof fn law_reads_match_registers()
    ensures
        TEL_BASE == telemetry::fault_flags().addr,
        TEL_BASE + TEL_LEN == telemetry::agg_seq().addr + telemetry::agg_seq().width,
        IDENT_BASE == telemetry::i_mean_counts().addr,
        IDENT_BASE + IDENT_LEN == TEL_BASE + TEL_LEN,
        telemetry::agg_seq().addr == IDENT_BASE + 10,
{
}

/// A write's bytes put together, low byte first, are the value's two's
/// complement.
pub proof fn law_write_bytes(value: i32)
    ensures
        forall|i: int| 0 <= i < 4 ==> 0 <= #[trigger] byte_of(value as int, i) < 256,
        ({
            let low = byte_of(value as int, 0) + 256 * byte_of(value as int, 1);
            let all = low + 65_536 * byte_of(value as int, 2) + 16_777_216 * byte_of(
                value as int,
                3,
            );
            &&& value >= 0 ==> all == value
            &&& value < 0 ==> all == value + 4_294_967_296
            &&& 0 <= value < 65_536 ==> low == value
            &&& -32_768 <= value < 0 ==> low == value + 65_536
            &&& -128 <= value < 0 ==> byte_of(value as int, 0) == value + 256
        }),
{
    let b = bits32(value as int);
    assert(0 <= b < 0x1_0000_0000);
    let (b0, b1, b2, b3) = (b % 256, (b / 0x100) % 256, (b / 0x1_0000) % 256, (b / 0x100_0000)
        % 256);
    assert(b == b0 + 256 * b1 + 65_536 * b2 + 16_777_216 * b3);
    assert(byte_of(value as int, 0) == b0 && byte_of(value as int, 1) == b1 && byte_of(
        value as int,
        2,
    ) == b2 && byte_of(value as int, 3) == b3);
}

/// Two and four bytes read low byte first; the upper half of the range is
/// negative.
pub proof fn law_reading(s: Seq<u8>, at: int, x: int)
    ensures
        le16(s, at) == s[at] + 256 * s[at + 1],
        le32(s, at) == s[at] + 256 * s[at + 1] + 65_536 * s[at + 2] + 16_777_216 * s[at + 3],
        0 <= x <= 32_767 ==> signed16(x) == x,
        32_768 <= x <= 65_535 ==> signed16(x) == x - 65_536,
        0 <= x <= 2_147_483_647 ==> signed32(x) == x,
        2_147_483_648 <= x <= 4_294_967_295 ==> signed32(x) == x - 4_294_967_296,
{
}

/// Where the telemetry fields stand in the block that starts at 0x200.
pub proof fn law_snapshot_layout(s: Seq<u8>)
    ensures
        ({
            let t = snapshot_in(0x200, s);
            &&& t.fault_flags == s[0x00]
            &&& t.mode_active == s[0x20]
            &&& t.fault_code == s[0x21]
            &&& t.theta_hat_q16 == signed32(le32(s, 0x24))
            &&& t.omega_hat_cps == signed32(le32(s, 0x28))
            &&& t.tau_d_counts == signed16(le16(s, 0x2c))
            &&& t.i_lim_counts == le16(s, 0x2e)
            &&& t.t_winding_cc == signed16(le16(s, 0x30))
            &&& t.vbus_counts == le16(s, 0x32)
            &&& t.duty_applied_q15 == signed16(le16(s, 0x34))
            &&& t.omega_bemf_cps == signed16(le16(s, 0x36))
            &&& t.r_hat_q12 == le16(s, 0x38)
            &&& t.i_hat_counts == signed16(le16(s, 0x3a))
            &&& t.sample_tick == le32(s, 0x3c)
            &&& t.pos == le16(s, 0x40)
            &&& t.current == le16(s, 0x42)
            &&& t.current_trough == le16(s, 0x50)
            &&& t.current_bias_counts == le16(s, 0x52)
            &&& t.i_mean_counts == signed16(le16(s, 0x54))
            &&& t.i_min_counts == signed16(le16(s, 0x56))
            &&& t.i_max_counts == signed16(le16(s, 0x58))
            &&& t.vdiff_mean == signed16(le16(s, 0x5a))
            &&& t.duty_mean_q15 == signed16(le16(s, 0x5c))
            &&& t.agg_seq == le16(s, 0x5e)
        }),
{
}

/// A read spans the telemetry exactly when it starts at or below 0x200 and runs
/// to 0x260.
pub proof fn law_snapshot_span(base: u16, len: int)
    ensures
        spans_telemetry(base, len) <==> base <= 0x200 && base + len >= 0x260,
{
}

/// Calibration writes eight registers, each with its own figure.
pub proof fn law_calibration_figures(
    ends: EndstopResult,
    soft_min: i32,
    soft_max: i32,
    kin: KinematicsResult,
)
    ensures
        ({
            let w = calibration_list(ends, soft_min as int, soft_max as int, kin);
            &&& w.len() == 8
            &&& w[0] == (RegWrite {
                reg: config::pos_min_phys_counts(),
                value: ends.pos_min_phys,
            })
            &&& w[1] == (RegWrite {
                reg: config::pos_max_phys_counts(),
                value: ends.pos_max_phys,
            })
            &&& w[2] == (RegWrite { reg: config::pos_min_soft_counts(), value: soft_min })
            &&& w[3] == (RegWrite { reg: config::pos_max_soft_counts(), value: soft_max })
            &&& w[4].reg == config::drive_polarity()
            &&& ends.drive_polarity ==> w[4].value == 1
            &&& !ends.drive_polarity ==> w[4].value == 0
            &&& w[5] == (RegWrite {
                reg: calib::angle_min_cdeg(),
                value: kin.angle_min_cdeg as i32,
            })
            &&& w[6] == (RegWrite {
                reg: calib::angle_max_cdeg(),
                value: kin.angle_max_cdeg as i32,
            })
            &&& w[7] == (RegWrite {
                reg: calib::gear_ratio_centi(),
                value: kin.gear_ratio_centi as i32,
            })
        }),
{
}

/// A block of zero bytes is the zero snapshot, and every field of it is zero.
pub proof fn law_zero_block(s: Seq<u8>)
    requires
        s.len() >= 0x60,
        forall|i: int| 0 <= i < s.len() ==> #[trigger] s[i] == 0,
    ensures
        snapshot_in(0x200, s) == TelemetrySnapshot::zero(),
{
}

} // verus!
