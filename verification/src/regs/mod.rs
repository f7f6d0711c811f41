//! Register addresses the identification and calibration pipelines read and
//! write, with the field name of each.

pub mod calib;
pub mod config;
pub mod control;
pub mod names;
pub mod telemetry;

use crate::text::same;
use vstd::prelude::*;

verus! {

/// One field of the register map.
#[derive(Copy, Clone, Debug, PartialEq, Eq, Structural)]
pub struct Reg {
    pub addr: u16,
    pub width: u8,
}

/// A field name beside its register.
pub struct Named {
    pub name: &'static str,
    pub reg: Reg,
}

/// Every scalar field, in map order within its section.
pub open spec fn fields() -> Seq<(Seq<char>, Reg)> {
    seq![
        ("pos_min_phys_counts"@, config::pos_min_phys_counts()),
        ("pos_max_phys_counts"@, config::pos_max_phys_counts()),
        ("pos_min_soft_counts"@, config::pos_min_soft_counts()),
        ("pos_max_soft_counts"@, config::pos_max_soft_counts()),
        ("i_kp_q88"@, config::i_kp_q88()),
        ("i_ki_q412"@, config::i_ki_q412()),
        ("i_kaw_q412"@, config::i_kaw_q412()),
        ("duty_max_q15"@, config::duty_max_q15()),
        ("v_kp_q88"@, config::v_kp_q88()),
        ("v_ki_q412"@, config::v_ki_q412()),
        ("v_kaw_q412"@, config::v_kaw_q412()),
        ("j_ff_q88"@, config::j_ff_q88()),
        ("p_kp_q88"@, config::p_kp_q88()),
        ("pos_deadband_counts"@, config::pos_deadband_counts()),
        ("current_limit_counts"@, config::current_limit_counts()),
        ("drive_polarity"@, config::drive_polarity()),
        ("v_undervolt_counts"@, config::v_undervolt_counts()),
        ("l1_q016"@, config::l1_q016()),
        ("l2_q88"@, config::l2_q88()),
        ("l3_q88"@, config::l3_q88()),
        ("l_bemf_q016"@, config::l_bemf_q016()),
        ("raw_min"@, calib::pot_lut_raw_min()),
        ("raw_max"@, calib::pot_lut_raw_max()),
        ("shunt_r_mohm"@, calib::shunt_r_mohm()),
        ("gain_milli"@, calib::gain_milli()),
        ("vmotor_div_top"@, calib::vmotor_div_top()),
        ("vmotor_div_bot"@, calib::vmotor_div_bot()),
        ("vdd_mv"@, calib::vdd_mv()),
        ("tick_hz"@, calib::tick_hz()),
        ("i_window_min_ticks"@, calib::i_window_min_ticks()),
        ("v_window_min_ticks"@, calib::v_window_min_ticks()),
        ("r0_q12"@, calib::r0_q12()),
        ("t0_cc"@, calib::t0_cc()),
        ("r_q12"@, calib::r_q12()),
        ("recip_ke_q"@, calib::recip_ke_q()),
        ("b_i_q313"@, calib::b_i_q313()),
        ("fric_fc_counts"@, calib::fric_fc_counts()),
        ("fric_fv_q016"@, calib::fric_fv_q016()),
        ("fric_breakaway_counts"@, calib::fric_breakaway_counts()),
        ("ke_vpc_q"@, calib::ke_vpc_q()),
        ("angle_min_cdeg"@, calib::angle_min_cdeg()),
        ("angle_max_cdeg"@, calib::angle_max_cdeg()),
        ("gear_ratio_centi"@, calib::gear_ratio_centi()),
        ("torque_enable"@, control::torque_enable()),
        ("tel_enable"@, control::tel_enable()),
        ("tel_mask"@, control::tel_mask()),
        ("mode"@, control::mode()),
        ("goal_duty"@, control::goal_duty()),
        ("goal_position"@, control::goal_position()),
        ("goal_velocity"@, control::goal_velocity()),
        ("goal_current"@, control::goal_current()),
        ("fault_flags"@, telemetry::fault_flags()),
        ("status_flags"@, telemetry::status_flags()),
        ("mode_active"@, telemetry::mode_active()),
        ("fault_code"@, telemetry::fault_code()),
        ("theta_hat_q16"@, telemetry::theta_hat_q16()),
        ("omega_hat_cps"@, telemetry::omega_hat_cps()),
        ("tau_d_counts"@, telemetry::tau_d_counts()),
        ("i_lim_counts"@, telemetry::i_lim_counts()),
        ("t_winding_cc"@, telemetry::t_winding_cc()),
        ("vbus_counts"@, telemetry::vbus_counts()),
        ("duty_applied_q15"@, telemetry::duty_applied_q15()),
        ("omega_bemf_cps"@, telemetry::omega_bemf_cps()),
        ("r_hat_q12"@, telemetry::r_hat_q12()),
        ("i_hat_counts"@, telemetry::i_hat_counts()),
        ("sample_tick"@, telemetry::sample_tick()),
        ("pos"@, telemetry::pos()),
        ("current"@, telemetry::current()),
        ("current_trough"@, telemetry::current_trough()),
        ("current_bias_counts"@, telemetry::current_bias_counts()),
        ("i_mean_counts"@, telemetry::i_mean_counts()),
        ("i_min_counts"@, telemetry::i_min_counts()),
        ("i_max_counts"@, telemetry::i_max_counts()),
        ("vdiff_mean"@, telemetry::vdiff_mean()),
        ("duty_mean_q15"@, telemetry::duty_mean_q15()),
        ("agg_seq"@, telemetry::agg_seq()),
    ]
}

/// The register of the first field of that name.
pub open spec fn lookup(table: Seq<(Seq<char>, Reg)>, name: Seq<char>) -> Option<Reg>
    decreases table.len(),
{
    if table.len() == 0 {
        None
    } else if table[0].0 == name {
        Some(table[0].1)
    } else {
        lookup(table.skip(1), name)
    }
}

/// Every scalar field with its name.
pub fn all() -> (r: Vec<Named>)
    ensures
        r@.len() == fields().len(),
        forall|i: int| 0 <= i < r@.len() ==> (r@[i].name@, (#[trigger] r@[i]).reg) == fields()[i],
{
    vec![
        Named { name: "pos_min_phys_counts", reg: config::pos_min_phys_counts() },
        Named { name: "pos_max_phys_counts", reg: config::pos_max_phys_counts() },
        Named { name: "pos_min_soft_counts", reg: config::pos_min_soft_counts() },
        Named { name: "pos_max_soft_counts", reg: config::pos_max_soft_counts() },
        Named { name: "i_kp_q88", reg: config::i_kp_q88() },
        Named { name: "i_ki_q412", reg: config::i_ki_q412() },
        Named { name: "i_kaw_q412", reg: config::i_kaw_q412() },
        Named { name: "duty_max_q15", reg: config::duty_max_q15() },
        Named { name: "v_kp_q88", reg: config::v_kp_q88() },
        Named { name: "v_ki_q412", reg: config::v_ki_q412() },
        Named { name: "v_kaw_q412", reg: config::v_kaw_q412() },
        Named { name: "j_ff_q88", reg: config::j_ff_q88() },
        Named { name: "p_kp_q88", reg: config::p_kp_q88() },
        Named { name: "pos_deadband_counts", reg: config::pos_deadband_counts() },
        Named { name: "current_limit_counts", reg: config::current_limit_counts() },
        Named { name: "drive_polarity", reg: config::drive_polarity() },
        Named { name: "v_undervolt_counts", reg: config::v_undervolt_counts() },
        Named { name: "l1_q016", reg: config::l1_q016() },
        Named { name: "l2_q88", reg: config::l2_q88() },
        Named { name: "l3_q88", reg: config::l3_q88() },
        Named { name: "l_bemf_q016", reg: config::l_bemf_q016() },
        Named { name: "raw_min", reg: calib::pot_lut_raw_min() },
        Named { name: "raw_max", reg: calib::pot_lut_raw_max() },
        Named { name: "shunt_r_mohm", reg: calib::shunt_r_mohm() },
        Named { name: "gain_milli", reg: calib::gain_milli() },
        Named { name: "vmotor_div_top", reg: calib::vmotor_div_top() },
        Named { name: "vmotor_div_bot", reg: calib::vmotor_div_bot() },
        Named { name: "vdd_mv", reg: calib::vdd_mv() },
        Named { name: "tick_hz", reg: calib::tick_hz() },
        Named { name: "i_window_min_ticks", reg: calib::i_window_min_ticks() },
        Named { name: "v_window_min_ticks", reg: calib::v_window_min_ticks() },
        Named { name: "r0_q12", reg: calib::r0_q12() },
        Named { name: "t0_cc", reg: calib::t0_cc() },
        Named { name: "r_q12", reg: calib::r_q12() },
        Named { name: "recip_ke_q", reg: calib::recip_ke_q() },
        Named { name: "b_i_q313", reg: calib::b_i_q313() },
        Named { name: "fric_fc_counts", reg: calib::fric_fc_counts() },
        Named { name: "fric_fv_q016", reg: calib::fric_fv_q016() },
        Named { name: "fric_breakaway_counts", reg: calib::fric_breakaway_counts() },
        Named { name: "ke_vpc_q", reg: calib::ke_vpc_q() },
        Named { name: "angle_min_cdeg", reg: calib::angle_min_cdeg() },
        Named { name: "angle_max_cdeg", reg: calib::angle_max_cdeg() },
        Named { name: "gear_ratio_centi", reg: calib::gear_ratio_centi() },
        Named { name: "torque_enable", reg: control::torque_enable() },
        Named { name: "tel_enable", reg: control::tel_enable() },
        Named { name: "tel_mask", reg: control::tel_mask() },
        Named { name: "mode", reg: control::mode() },
        Named { name: "goal_duty", reg: control::goal_duty() },
        Named { name: "goal_position", reg: control::goal_position() },
        Named { name: "goal_velocity", reg: control::goal_velocity() },
        Named { name: "goal_current", reg: control::goal_current() },
        Named { name: "fault_flags", reg: telemetry::fault_flags() },
        Named { name: "status_flags", reg: telemetry::status_flags() },
        Named { name: "mode_active", reg: telemetry::mode_active() },
        Named { name: "fault_code", reg: telemetry::fault_code() },
        Named { name: "theta_hat_q16", reg: telemetry::theta_hat_q16() },
        Named { name: "omega_hat_cps", reg: telemetry::omega_hat_cps() },
        Named { name: "tau_d_counts", reg: telemetry::tau_d_counts() },
        Named { name: "i_lim_counts", reg: telemetry::i_lim_counts() },
        Named { name: "t_winding_cc", reg: telemetry::t_winding_cc() },
        Named { name: "vbus_counts", reg: telemetry::vbus_counts() },
        Named { name: "duty_applied_q15", reg: telemetry::duty_applied_q15() },
        Named { name: "omega_bemf_cps", reg: telemetry::omega_bemf_cps() },
        Named { name: "r_hat_q12", reg: telemetry::r_hat_q12() },
        Named { name: "i_hat_counts", reg: telemetry::i_hat_counts() },
        Named { name: "sample_tick", reg: telemetry::sample_tick() },
        Named { name: "pos", reg: telemetry::pos() },
        Named { name: "current", reg: telemetry::current() },
        Named { name: "current_trough", reg: telemetry::current_trough() },
        Named { name: "current_bias_counts", reg: telemetry::current_bias_counts() },
        Named { name: "i_mean_counts", reg: telemetry::i_mean_counts() },
        Named { name: "i_min_counts", reg: telemetry::i_min_counts() },
        Named { name: "i_max_counts", reg: telemetry::i_max_counts() },
        Named { name: "vdiff_mean", reg: telemetry::vdiff_mean() },
        Named { name: "duty_mean_q15", reg: telemetry::duty_mean_q15() },
        Named { name: "agg_seq", reg: telemetry::agg_seq() },
    ]
}

/// The register a field name stands for.
pub fn reg_by_name(name: &str) -> (r: Option<Reg>)
    ensures
        r == lookup(fields(), name@),
{
    let v: Vec<Named> = all();
    let mut i: usize = 0;
    assert(fields().skip(0) =~= fields());
    while i < v.len()
        invariant
            i <= v.len(),
            v@.len() == fields().len(),
            forall|k: int|
                0 <= k < v@.len() ==> (v@[k].name@, (#[trigger] v@[k]).reg) == fields()[k],
            lookup(fields(), name@) == lookup(fields().skip(i as int), name@),
        decreases v.len() - i,
    {
        let ghost rest = fields().skip(i as int);
        assert(rest[0] == fields()[i as int]);
        assert((v@[i as int].name@, v@[i as int].reg) == fields()[i as int]);
        if same(v[i].name, name) {
            return Some(v[i].reg);
        }
        assert(rest.skip(1) =~= fields().skip(i + 1));
        i = i + 1;
    }
    None
}

/// The register takes the bytes from `from` up to, and not including, `to`.
pub open spec fn spans(r: Reg, from: int, to: int) -> bool {
    r.addr == from && r.addr + r.width == to
}

/// The config registers the pipelines use: where each starts and how many bytes it
/// takes. They follow each other inside 0x000..0x080.
pub proof fn law_config_registers()
    ensures
        spans(config::pos_min_phys_counts(), 0x0020, 0x0024),
        spans(config::pos_max_phys_counts(), 0x0024, 0x0028),
        spans(config::pos_min_soft_counts(), 0x0028, 0x002c),
        spans(config::pos_max_soft_counts(), 0x002c, 0x0030),
        spans(config::i_kp_q88(), 0x0030, 0x0032),
        spans(config::i_ki_q412(), 0x0032, 0x0034),
        spans(config::i_kaw_q412(), 0x0034, 0x0036),
        spans(config::duty_max_q15(), 0x0036, 0x0038),
        spans(config::v_kp_q88(), 0x0038, 0x003a),
        spans(config::v_ki_q412(), 0x003a, 0x003c),
        spans(config::v_kaw_q412(), 0x003c, 0x003e),
        spans(config::j_ff_q88(), 0x003e, 0x0040),
        spans(config::p_kp_q88(), 0x0040, 0x0042),
        spans(config::pos_deadband_counts(), 0x0042, 0x0044),
        spans(config::current_limit_counts(), 0x0048, 0x004a),
        spans(config::drive_polarity(), 0x004b, 0x004c),
        spans(config::v_undervolt_counts(), 0x0060, 0x0062),
        spans(config::l1_q016(), 0x0066, 0x0068),
        spans(config::l2_q88(), 0x0068, 0x006a),
        spans(config::l3_q88(), 0x006a, 0x006c),
        spans(config::l_bemf_q016(), 0x006c, 0x006e),
{
}

/// The calibration registers: where each starts and how many bytes it takes. They
/// follow each other inside 0x080..0x180; the knot block takes 110 bytes.
pub proof fn law_calib_registers()
    ensures
        spans(calib::pot_lut_raw_min(), 0x0080, 0x0082),
        spans(calib::pot_lut_raw_max(), 0x0082, 0x0084),
        spans(calib::pot_lut_corr(), 0x0084, 0x00f2),
        spans(calib::shunt_r_mohm(), 0x00f2, 0x00f4),
        spans(calib::gain_milli(), 0x00f4, 0x00f6),
        spans(calib::vmotor_div_top(), 0x00f6, 0x00f8),
        spans(calib::vmotor_div_bot(), 0x00f8, 0x00fa),
        spans(calib::vdd_mv(), 0x00fa, 0x00fc),
        spans(calib::tick_hz(), 0x00fc, 0x00fe),
        spans(calib::i_window_min_ticks(), 0x00fe, 0x0100),
        spans(calib::v_window_min_ticks(), 0x0100, 0x0102),
        spans(calib::r0_q12(), 0x0102, 0x0104),
        spans(calib::t0_cc(), 0x0104, 0x0106),
        spans(calib::r_q12(), 0x010c, 0x010e),
        spans(calib::recip_ke_q(), 0x010e, 0x0110),
        spans(calib::b_i_q313(), 0x0110, 0x0112),
        spans(calib::fric_fc_counts(), 0x0112, 0x0114),
        spans(calib::fric_fv_q016(), 0x0114, 0x0116),
        spans(calib::fric_breakaway_counts(), 0x0116, 0x0118),
        spans(calib::ke_vpc_q(), 0x0118, 0x011a),
        spans(calib::angle_min_cdeg(), 0x011a, 0x011c),
        spans(calib::angle_max_cdeg(), 0x011c, 0x011e),
        spans(calib::gear_ratio_centi(), 0x011e, 0x0120),
{
}

/// The control registers: where each starts and how many bytes it takes. They
/// follow each other inside 0x180..0x200.
pub proof fn law_control_registers()
    ensures
        spans(control::torque_enable(), 0x0180, 0x0181),
        spans(control::tel_enable(), 0x0181, 0x0182),
        spans(control::tel_mask(), 0x0182, 0x0184),
        spans(control::mode(), 0x0184, 0x0185),
        spans(control::goal_duty(), 0x0186, 0x0188),
        spans(control::goal_position(), 0x0188, 0x018c),
        spans(control::goal_velocity(), 0x018c, 0x0190),
        spans(control::goal_current(), 0x0190, 0x0192),
{
}

/// The telemetry registers: where each starts and how many bytes it takes. They
/// follow each other inside 0x200..0x280.
pub proof fn law_telemetry_registers()
    ensures
        spans(telemetry::fault_flags(), 0x0200, 0x0201),
        spans(telemetry::status_flags(), 0x0201, 0x0202),
        spans(telemetry::mode_active(), 0x0220, 0x0221),
        spans(telemetry::fault_code(), 0x0221, 0x0222),
        spans(telemetry::theta_hat_q16(), 0x0224, 0x0228),
        spans(telemetry::omega_hat_cps(), 0x0228, 0x022c),
        spans(telemetry::tau_d_counts(), 0x022c, 0x022e),
        spans(telemetry::i_lim_counts(), 0x022e, 0x0230),
        spans(telemetry::t_winding_cc(), 0x0230, 0x0232),
        spans(telemetry::vbus_counts(), 0x0232, 0x0234),
        spans(telemetry::duty_applied_q15(), 0x0234, 0x0236),
        spans(telemetry::omega_bemf_cps(), 0x0236, 0x0238),
        spans(telemetry::r_hat_q12(), 0x0238, 0x023a),
        spans(telemetry::i_hat_counts(), 0x023a, 0x023c),
        spans(telemetry::sample_tick(), 0x023c, 0x0240),
        spans(telemetry::pos(), 0x0240, 0x0242),
        spans(telemetry::current(), 0x0242, 0x0244),
        spans(telemetry::current_trough(), 0x0250, 0x0252),
        spans(telemetry::current_bias_counts(), 0x0252, 0x0254),
        spans(telemetry::i_mean_counts(), 0x0254, 0x0256),
        spans(telemetry::i_min_counts(), 0x0256, 0x0258),
        spans(telemetry::i_max_counts(), 0x0258, 0x025a),
        spans(telemetry::vdiff_mean(), 0x025a, 0x025c),
        spans(telemetry::duty_mean_q15(), 0x025c, 0x025e),
        spans(telemetry::agg_seq(), 0x025e, 0x0260),
{
}

/// A name stands for a register only by standing beside it in the table.
pub proof fn law_lookup_is_in_the_table(table: Seq<(Seq<char>, Reg)>, name: Seq<char>)
    ensures
        lookup(table, name) matches Some(r) ==> exists|k: int|
            0 <= k < table.len() && #[trigger] table[k] == (name, r),
        lookup(table, name) is None ==> forall|k: int|
            0 <= k < table.len() ==> (#[trigger] table[k]).0 != name,
    decreases table.len(),
{
    if table.len() > 0 && table[0].0 != name {
        let rest = table.skip(1);
        law_lookup_is_in_the_table(rest, name);
        if let Some(r) = lookup(rest, name) {
            let k = choose|k: int| 0 <= k < rest.len() && #[trigger] rest[k] == (name, r);
            assert(table[k + 1] == (name, r));
        } else {
            assert forall|k: int| 0 <= k < table.len() implies (#[trigger] table[k]).0 != name by {
                if k > 0 {
                    assert(rest[k - 1] == table[k]);
                }
            }
        }
    } else if table.len() > 0 {
        assert(table[0] == (name, table[0].1));
    }
}

} // verus!
