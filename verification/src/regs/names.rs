//! Field names tell the registers apart.

use super::{fields, lookup, Reg};
use vstd::prelude::*;

verus! {

/// A lookup finds the first field of the name.
proof fn lemma_lookup(table: Seq<(Seq<char>, Reg)>, name: Seq<char>, k: int)
    requires
        0 <= k < table.len(),
        forall|j: int| 0 <= j < k ==> (#[trigger] table[j]).0 != name,
        table[k].0 == name,
    ensures
        lookup(table, name) == Some(table[k].1),
    decreases k,
{
    if k > 0 {
        let rest = table.skip(1);
        assert(table[0].0 != name);
        assert forall|j: int| 0 <= j < k - 1 implies (#[trigger] rest[j]).0 != name by {
            assert(rest[j] == table[j + 1]);
        }
        assert(rest[k - 1] == table[k]);
        lemma_lookup(rest, name, k - 1);
    }
}

/// The code point at `i`, or 0 behind the end.
spec fn letter(s: Seq<char>, i: int) -> int {
    if 0 <= i < s.len() {
        s[i] as int
    } else {
        0
    }
}

/// A number that tells the field names apart.
#[verifier::opaque]
spec fn code(s: Seq<char>) -> int {
    letter(s, 0) + letter(s, 1) + letter(s, 4) + letter(s, 5) + 6 * letter(s, 7) + 3 * letter(s, 11)
}

/// The place of the field whose name has that number.
spec fn place(c: int) -> int {
    if c == 1352 {
        0
    } else if c == 1344 {
        1
    } else if c == 1355 {
        2
    } else if c == 1347 {
        3
    } else if c == 744 {
        4
    } else if c == 702 {
        5
    } else if c == 726 {
        6
    } else if c == 1300 {
        7
    } else if c == 757 {
        8
    } else if c == 715 {
        9
    } else if c == 739 {
        10
    } else if c == 745 {
        11
    } else if c == 751 {
        12
    } else if c == 1324 {
        13
    } else if c == 1312 {
        14
    } else if c == 1391 {
        15
    } else if c == 1407 {
        16
    } else if c == 254 {
        17
    } else if c == 270 {
        18
    } else if c == 271 {
        19
    } else if c == 1092 {
        20
    } else if c == 425 {
        21
    } else if c == 417 {
        22
    } else if c == 1327 {
        23
    } else if c == 1052 {
        24
    } else if c == 1400 {
        25
    } else if c == 1346 {
        26
    } else if c == 445 {
        27
    } else if c == 420 {
        28
    } else if c == 1454 {
        29
    } else if c == 1467 {
        30
    } else if c == 261 {
        31
    } else if c == 263 {
        32
    } else if c == 259 {
        33
    } else if c == 1028 {
        34
    } else if c == 663 {
        35
    } else if c == 1313 {
        36
    } else if c == 1145 {
        37
    } else if c == 1372 {
        38
    } else if c == 1097 {
        39
    } else if c == 1333 {
        40
    } else if c == 1285 {
        41
    } else if c == 1406 {
        42
    } else if c == 1375 {
        43
    } else if c == 1016 {
        44
    } else if c == 1065 {
        45
    } else if c == 220 {
        46
    } else if c == 1105 {
        47
    } else if c == 1444 {
        48
    } else if c == 1423 {
        49
    } else if c == 1440 {
        50
    } else if c == 1058 {
        51
    } else if c == 1420 {
        52
    } else if c == 1108 {
        53
    } else if c == 1076 {
        54
    } else if c == 1141 {
        55
    } else if c == 1330 {
        56
    } else if c == 1419 {
        57
    } else if c == 1415 {
        58
    } else if c == 1378 {
        59
    } else if c == 1112 {
        60
    } else if c == 1381 {
        61
    } else if c == 1315 {
        62
    } else if c == 714 {
        63
    } else if c == 1422 {
        64
    } else if c == 1117 {
        65
    } else if c == 223 {
        66
    } else if c == 427 {
        67
    } else if c == 1348 {
        68
    } else if c == 1342 {
        69
    } else if c == 1349 {
        70
    } else if c == 1416 {
        71
    } else if c == 1426 {
        72
    } else if c == 1021 {
        73
    } else if c == 1150 {
        74
    } else if c == 416 {
        75
    } else {
        76
    }
}

/// The first `k` fields stand at their places.
spec fn placed(k: nat) -> bool
    decreases k,
{
    k == 0 || (place(code(fields()[k - 1].0)) == k - 1 && placed((k - 1) as nat))
}

proof fn lemma_placed()
    ensures
        placed(76),
{
    assert(code("pos_min_phys_counts"@) == 1352) by {
        reveal(code);
        reveal_strlit("pos_min_phys_counts");
    }
    assert(code("pos_max_phys_counts"@) == 1344) by {
        reveal(code);
        reveal_strlit("pos_max_phys_counts");
    }
    assert(code("pos_min_soft_counts"@) == 1355) by {
        reveal(code);
        reveal_strlit("pos_min_soft_counts");
    }
    assert(code("pos_max_soft_counts"@) == 1347) by {
        reveal(code);
        reveal_strlit("pos_max_soft_counts");
    }
    assert(code("i_kp_q88"@) == 744) by {
        reveal(code);
        reveal_strlit("i_kp_q88");
    }
    assert(code("i_ki_q412"@) == 702) by {
        reveal(code);
        reveal_strlit("i_ki_q412");
    }
    assert(code("i_kaw_q412"@) == 726) by {
        reveal(code);
        reveal_strlit("i_kaw_q412");
    }
    assert(code("duty_max_q15"@) == 1300) by {
        reveal(code);
        reveal_strlit("duty_max_q15");
    }
    assert(code("v_kp_q88"@) == 757) by {
        reveal(code);
        reveal_strlit("v_kp_q88");
    }
    assert(code("v_ki_q412"@) == 715) by {
        reveal(code);
        reveal_strlit("v_ki_q412");
    }
    assert(code("v_kaw_q412"@) == 739) by {
        reveal(code);
        reveal_strlit("v_kaw_q412");
    }
    assert(code("j_ff_q88"@) == 745) by {
        reveal(code);
        reveal_strlit("j_ff_q88");
    }
    assert(code("p_kp_q88"@) == 751) by {
        reveal(code);
        reveal_strlit("p_kp_q88");
    }
    assert(code("pos_deadband_counts"@) == 1324) by {
        reveal(code);
        reveal_strlit("pos_deadband_counts");
    }
    assert(code("current_limit_counts"@) == 1312) by {
        reveal(code);
        reveal_strlit("current_limit_counts");
    }
    assert(code("drive_polarity"@) == 1391) by {
        reveal(code);
        reveal_strlit("drive_polarity");
    }
    assert(code("v_undervolt_counts"@) == 1407) by {
        reveal(code);
        reveal_strlit("v_undervolt_counts");
    }
    assert(code("l1_q016"@) == 254) by {
        reveal(code);
        reveal_strlit("l1_q016");
    }
    assert(code("l2_q88"@) == 270) by {
        reveal(code);
        reveal_strlit("l2_q88");
    }
    assert(code("l3_q88"@) == 271) by {
        reveal(code);
        reveal_strlit("l3_q88");
    }
    assert(code("l_bemf_q016"@) == 1092) by {
        reveal(code);
        reveal_strlit("l_bemf_q016");
    }
    assert(code("raw_min"@) == 425) by {
        reveal(code);
        reveal_strlit("raw_min");
    }
    assert(code("raw_max"@) == 417) by {
        reveal(code);
        reveal_strlit("raw_max");
    }
    assert(code("shunt_r_mohm"@) == 1327) by {
        reveal(code);
        reveal_strlit("shunt_r_mohm");
    }
    assert(code("gain_milli"@) == 1052) by {
        reveal(code);
        reveal_strlit("gain_milli");
    }
    assert(code("vmotor_div_top"@) == 1400) by {
        reveal(code);
        reveal_strlit("vmotor_div_top");
    }
    assert(code("vmotor_div_bot"@) == 1346) by {
        reveal(code);
        reveal_strlit("vmotor_div_bot");
    }
    assert(code("vdd_mv"@) == 445) by {
        reveal(code);
        reveal_strlit("vdd_mv");
    }
    assert(code("tick_hz"@) == 420) by {
        reveal(code);
        reveal_strlit("tick_hz");
    }
    assert(code("i_window_min_ticks"@) == 1454) by {
        reveal(code);
        reveal_strlit("i_window_min_ticks");
    }
    assert(code("v_window_min_ticks"@) == 1467) by {
        reveal(code);
        reveal_strlit("v_window_min_ticks");
    }
    assert(code("r0_q12"@) == 261) by {
        reveal(code);
        reveal_strlit("r0_q12");
    }
    assert(code("t0_cc"@) == 263) by {
        reveal(code);
        reveal_strlit("t0_cc");
    }
    assert(code("r_q12"@) == 259) by {
        reveal(code);
        reveal_strlit("r_q12");
    }
    assert(code("recip_ke_q"@) == 1028) by {
        reveal(code);
        reveal_strlit("recip_ke_q");
    }
    assert(code("b_i_q313"@) == 663) by {
        reveal(code);
        reveal_strlit("b_i_q313");
    }
    assert(code("fric_fc_counts"@) == 1313) by {
        reveal(code);
        reveal_strlit("fric_fc_counts");
    }
    assert(code("fric_fv_q016"@) == 1145) by {
        reveal(code);
        reveal_strlit("fric_fv_q016");
    }
    assert(code("fric_breakaway_counts"@) == 1372) by {
        reveal(code);
        reveal_strlit("fric_breakaway_counts");
    }
    assert(code("ke_vpc_q"@) == 1097) by {
        reveal(code);
        reveal_strlit("ke_vpc_q");
    }
    assert(code("angle_min_cdeg"@) == 1333) by {
        reveal(code);
        reveal_strlit("angle_min_cdeg");
    }
    assert(code("angle_max_cdeg"@) == 1285) by {
        reveal(code);
        reveal_strlit("angle_max_cdeg");
    }
    assert(code("gear_ratio_centi"@) == 1406) by {
        reveal(code);
        reveal_strlit("gear_ratio_centi");
    }
    assert(code("torque_enable"@) == 1375) by {
        reveal(code);
        reveal_strlit("torque_enable");
    }
    assert(code("tel_enable"@) == 1016) by {
        reveal(code);
        reveal_strlit("tel_enable");
    }
    assert(code("tel_mask"@) == 1065) by {
        reveal(code);
        reveal_strlit("tel_mask");
    }
    assert(code("mode"@) == 220) by {
        reveal(code);
        reveal_strlit("mode");
    }
    assert(code("goal_duty"@) == 1105) by {
        reveal(code);
        reveal_strlit("goal_duty");
    }
    assert(code("goal_position"@) == 1444) by {
        reveal(code);
        reveal_strlit("goal_position");
    }
    assert(code("goal_velocity"@) == 1423) by {
        reveal(code);
        reveal_strlit("goal_velocity");
    }
    assert(code("goal_current"@) == 1440) by {
        reveal(code);
        reveal_strlit("goal_current");
    }
    assert(code("fault_flags"@) == 1058) by {
        reveal(code);
        reveal_strlit("fault_flags");
    }
    assert(code("status_flags"@) == 1420) by {
        reveal(code);
        reveal_strlit("status_flags");
    }
    assert(code("mode_active"@) == 1108) by {
        reveal(code);
        reveal_strlit("mode_active");
    }
    assert(code("fault_code"@) == 1076) by {
        reveal(code);
        reveal_strlit("fault_code");
    }
    assert(code("theta_hat_q16"@) == 1141) by {
        reveal(code);
        reveal_strlit("theta_hat_q16");
    }
    assert(code("omega_hat_cps"@) == 1330) by {
        reveal(code);
        reveal_strlit("omega_hat_cps");
    }
    assert(code("tau_d_counts"@) == 1419) by {
        reveal(code);
        reveal_strlit("tau_d_counts");
    }
    assert(code("i_lim_counts"@) == 1415) by {
        reveal(code);
        reveal_strlit("i_lim_counts");
    }
    assert(code("t_winding_cc"@) == 1378) by {
        reveal(code);
        reveal_strlit("t_winding_cc");
    }
    assert(code("vbus_counts"@) == 1112) by {
        reveal(code);
        reveal_strlit("vbus_counts");
    }
    assert(code("duty_applied_q15"@) == 1381) by {
        reveal(code);
        reveal_strlit("duty_applied_q15");
    }
    assert(code("omega_bemf_cps"@) == 1315) by {
        reveal(code);
        reveal_strlit("omega_bemf_cps");
    }
    assert(code("r_hat_q12"@) == 714) by {
        reveal(code);
        reveal_strlit("r_hat_q12");
    }
    assert(code("i_hat_counts"@) == 1422) by {
        reveal(code);
        reveal_strlit("i_hat_counts");
    }
    assert(code("sample_tick"@) == 1117) by {
        reveal(code);
        reveal_strlit("sample_tick");
    }
    assert(code("pos"@) == 223) by {
        reveal(code);
        reveal_strlit("pos");
    }
    assert(code("current"@) == 427) by {
        reveal(code);
        reveal_strlit("current");
    }
    assert(code("current_trough"@) == 1348) by {
        reveal(code);
        reveal_strlit("current_trough");
    }
    assert(code("current_bias_counts"@) == 1342) by {
        reveal(code);
        reveal_strlit("current_bias_counts");
    }
    assert(code("i_mean_counts"@) == 1349) by {
        reveal(code);
        reveal_strlit("i_mean_counts");
    }
    assert(code("i_min_counts"@) == 1416) by {
        reveal(code);
        reveal_strlit("i_min_counts");
    }
    assert(code("i_max_counts"@) == 1426) by {
        reveal(code);
        reveal_strlit("i_max_counts");
    }
    assert(code("vdiff_mean"@) == 1021) by {
        reveal(code);
        reveal_strlit("vdiff_mean");
    }
    assert(code("duty_mean_q15"@) == 1150) by {
        reveal(code);
        reveal_strlit("duty_mean_q15");
    }
    assert(code("agg_seq"@) == 416) by {
        reveal(code);
        reveal_strlit("agg_seq");
    }
    reveal_with_fuel(placed, 77);
}

proof fn lemma_at_place(k: nat, i: int)
    requires
        placed(k),
        0 <= i < k,
    ensures
        place(code(fields()[i].0)) == i,
    decreases k,
{
    if i + 1 < k {
        lemma_at_place((k - 1) as nat, i);
    }
}

/// Every field is found by its name: no two share one.
pub proof fn law_every_field_is_found(i: int)
    requires
        0 <= i < fields().len(),
    ensures
        lookup(fields(), fields()[i].0) == Some(fields()[i].1),
{
    lemma_placed();
    lemma_at_place(76, i);
    assert forall|j: int| 0 <= j < i implies (#[trigger] fields()[j]).0 != fields()[i].0 by {
        lemma_at_place(76, j);
    }
    lemma_lookup(fields(), fields()[i].0, i);
}

} // verus!
