//! The gain set as the register table holds it: one encoded word per field, in
//! the order it is written.
//!
//! Formats: `i_kp_q88` vcounts per ccount; `i_ki`/`i_kaw_q412` per fast tick;
//! `v_kp_q88` ccounts per c/s; `v_ki`/`v_kaw_q412` per medium tick; `j_ff_q88`
//! 256/B; `p_kp_q88` c/s per count; `l1_q016`; `l2_q88` c/s per count; `l3_q88`
//! cc per count; `b_i_q313` B*8192; `r_q12`/`ke_vpc_q` Q4.12; `recip_ke_q`
//! Q6.10; `fric_fv_q016` Q0.16; `fric_fc`/`breakaway` whole ccounts.

use crate::driver::restore::{law_saved_fields_can_be_put_back, saved_fields};
use crate::regs::{calib, config, fields, lookup};
use vstd::prelude::*;

verus! {

/// One encoded field: the raw word, and whether the encoding clamped.
#[derive(Copy, Clone, Debug, PartialEq, Eq, Structural)]
pub struct Encoded {
    pub raw: u16,
    pub saturated: bool,
}

/// The full write set.
#[derive(Copy, Clone, Debug, PartialEq, Eq, Structural)]
pub struct EncodedGains {
    pub i_kp_q88: Encoded,
    pub i_ki_q412: Encoded,
    pub i_kaw_q412: Encoded,
    pub v_kp_q88: Encoded,
    pub v_ki_q412: Encoded,
    pub v_kaw_q412: Encoded,
    pub j_ff_q88: Encoded,
    pub p_kp_q88: Encoded,
    pub pos_deadband_counts: Encoded,
    pub l1_q016: Encoded,
    pub l2_q88: Encoded,
    pub l3_q88: Encoded,
    pub b_i_q313: Encoded,
    pub r_q12: Encoded,
    pub ke_vpc_q: Encoded,
    pub recip_ke_q: Encoded,
    pub fric_fc_counts: Encoded,
    pub fric_fv_q016: Encoded,
    pub fric_breakaway_counts: Encoded,
}

impl EncodedGains {
    /// Names and fields in the order they are written.
    pub open spec fn listed(self) -> Seq<(Seq<char>, Encoded)> {
        seq![
            ("r_q12"@, self.r_q12),
            ("ke_vpc_q"@, self.ke_vpc_q),
            ("recip_ke_q"@, self.recip_ke_q),
            ("b_i_q313"@, self.b_i_q313),
            ("fric_fc_counts"@, self.fric_fc_counts),
            ("fric_fv_q016"@, self.fric_fv_q016),
            ("fric_breakaway_counts"@, self.fric_breakaway_counts),
            ("i_kp_q88"@, self.i_kp_q88),
            ("i_ki_q412"@, self.i_ki_q412),
            ("i_kaw_q412"@, self.i_kaw_q412),
            ("v_kp_q88"@, self.v_kp_q88),
            ("v_ki_q412"@, self.v_ki_q412),
            ("v_kaw_q412"@, self.v_kaw_q412),
            ("j_ff_q88"@, self.j_ff_q88),
            ("p_kp_q88"@, self.p_kp_q88),
            ("pos_deadband_counts"@, self.pos_deadband_counts),
            ("l1_q016"@, self.l1_q016),
            ("l2_q88"@, self.l2_q88),
            ("l3_q88"@, self.l3_q88),
        ]
    }

    /// Names and fields in the order they are written.
    pub fn fields(&self) -> (r: [(&'static str, Encoded); 19])
        ensures
            forall|i: int|
                0 <= i < 19 ==> ((#[trigger] r@[i]).0@, r@[i].1) == self.listed()[i],
    {
        [
            ("r_q12", self.r_q12),
            ("ke_vpc_q", self.ke_vpc_q),
            ("recip_ke_q", self.recip_ke_q),
            ("b_i_q313", self.b_i_q313),
            ("fric_fc_counts", self.fric_fc_counts),
            ("fric_fv_q016", self.fric_fv_q016),
            ("fric_breakaway_counts", self.fric_breakaway_counts),
            ("i_kp_q88", self.i_kp_q88),
            ("i_ki_q412", self.i_ki_q412),
            ("i_kaw_q412", self.i_kaw_q412),
            ("v_kp_q88", self.v_kp_q88),
            ("v_ki_q412", self.v_ki_q412),
            ("v_kaw_q412", self.v_kaw_q412),
            ("j_ff_q88", self.j_ff_q88),
            ("p_kp_q88", self.p_kp_q88),
            ("pos_deadband_counts", self.pos_deadband_counts),
            ("l1_q016", self.l1_q016),
            ("l2_q88", self.l2_q88),
            ("l3_q88", self.l3_q88),
        ]
    }
}

/// Every gain that is written was saved before: a bad set can be taken back.
pub proof fn law_gains_are_saved(g: EncodedGains, i: int)
    requires
        0 <= i < g.listed().len(),
    ensures
        exists|j: int|
            0 <= j < saved_fields().len() && (#[trigger] saved_fields()[j]).0 == g.listed()[i].0,
{
    if i == 0 {
        assert(saved_fields()[0].0 == g.listed()[0].0);
    } else if i == 1 {
        assert(saved_fields()[3].0 == g.listed()[1].0);
    } else if i == 2 {
        assert(saved_fields()[4].0 == g.listed()[2].0);
    } else if i == 3 {
        assert(saved_fields()[5].0 == g.listed()[3].0);
    } else if i == 4 {
        assert(saved_fields()[6].0 == g.listed()[4].0);
    } else if i == 5 {
        assert(saved_fields()[7].0 == g.listed()[5].0);
    } else if i == 6 {
        assert(saved_fields()[8].0 == g.listed()[6].0);
    } else if i == 7 {
        assert(saved_fields()[9].0 == g.listed()[7].0);
    } else if i == 8 {
        assert(saved_fields()[10].0 == g.listed()[8].0);
    } else if i == 9 {
        assert(saved_fields()[11].0 == g.listed()[9].0);
    } else if i == 10 {
        assert(saved_fields()[12].0 == g.listed()[10].0);
    } else if i == 11 {
        assert(saved_fields()[13].0 == g.listed()[11].0);
    } else if i == 12 {
        assert(saved_fields()[14].0 == g.listed()[12].0);
    } else if i == 13 {
        assert(saved_fields()[15].0 == g.listed()[13].0);
    } else if i == 14 {
        assert(saved_fields()[16].0 == g.listed()[14].0);
    } else if i == 15 {
        assert(saved_fields()[17].0 == g.listed()[15].0);
    } else if i == 16 {
        assert(saved_fields()[18].0 == g.listed()[16].0);
    } else if i == 17 {
        assert(saved_fields()[19].0 == g.listed()[17].0);
    } else {
        assert(saved_fields()[20].0 == g.listed()[18].0);
    }
}

/// Each gain goes to its own register: the name it is written under is the
/// name of that register, and the word written there is the gain's.
pub proof fn law_gains_go_home(g: EncodedGains)
    ensures
        g.listed().len() == 19,
        lookup(fields(), g.listed()[0].0) == Some(calib::r_q12()) && g.listed()[0].1 == g.r_q12,
        lookup(fields(), g.listed()[1].0) == Some(calib::ke_vpc_q()) && g.listed()[1].1 == g.ke_vpc_q,
        lookup(fields(), g.listed()[2].0) == Some(calib::recip_ke_q()) && g.listed()[2].1 == g.recip_ke_q,
        lookup(fields(), g.listed()[3].0) == Some(calib::b_i_q313()) && g.listed()[3].1 == g.b_i_q313,
        lookup(fields(), g.listed()[4].0) == Some(calib::fric_fc_counts()) && g.listed()[4].1 == g.fric_fc_counts,
        lookup(fields(), g.listed()[5].0) == Some(calib::fric_fv_q016()) && g.listed()[5].1 == g.fric_fv_q016,
        lookup(fields(), g.listed()[6].0) == Some(calib::fric_breakaway_counts()) && g.listed()[6].1 == g.fric_breakaway_counts,
        lookup(fields(), g.listed()[7].0) == Some(config::i_kp_q88()) && g.listed()[7].1 == g.i_kp_q88,
        lookup(fields(), g.listed()[8].0) == Some(config::i_ki_q412()) && g.listed()[8].1 == g.i_ki_q412,
        lookup(fields(), g.listed()[9].0) == Some(config::i_kaw_q412()) && g.listed()[9].1 == g.i_kaw_q412,
        lookup(fields(), g.listed()[10].0) == Some(config::v_kp_q88()) && g.listed()[10].1 == g.v_kp_q88,
        lookup(fields(), g.listed()[11].0) == Some(config::v_ki_q412()) && g.listed()[11].1 == g.v_ki_q412,
        lookup(fields(), g.listed()[12].0) == Some(config::v_kaw_q412()) && g.listed()[12].1 == g.v_kaw_q412,
        lookup(fields(), g.listed()[13].0) == Some(config::j_ff_q88()) && g.listed()[13].1 == g.j_ff_q88,
        lookup(fields(), g.listed()[14].0) == Some(config::p_kp_q88()) && g.listed()[14].1 == g.p_kp_q88,
        lookup(fields(), g.listed()[15].0) == Some(config::pos_deadband_counts()) && g.listed()[15].1 == g.pos_deadband_counts,
        lookup(fields(), g.listed()[16].0) == Some(config::l1_q016()) && g.listed()[16].1 == g.l1_q016,
        lookup(fields(), g.listed()[17].0) == Some(config::l2_q88()) && g.listed()[17].1 == g.l2_q88,
        lookup(fields(), g.listed()[18].0) == Some(config::l3_q88()) && g.listed()[18].1 == g.l3_q88,
{
    law_saved_fields_can_be_put_back(0);
    assert(saved_fields()[0] == (g.listed()[0].0, calib::r_q12()));
    law_saved_fields_can_be_put_back(3);
    assert(saved_fields()[3] == (g.listed()[1].0, calib::ke_vpc_q()));
    law_saved_fields_can_be_put_back(4);
    assert(saved_fields()[4] == (g.listed()[2].0, calib::recip_ke_q()));
    law_saved_fields_can_be_put_back(5);
    assert(saved_fields()[5] == (g.listed()[3].0, calib::b_i_q313()));
    law_saved_fields_can_be_put_back(6);
    assert(saved_fields()[6] == (g.listed()[4].0, calib::fric_fc_counts()));
    law_saved_fields_can_be_put_back(7);
    assert(saved_fields()[7] == (g.listed()[5].0, calib::fric_fv_q016()));
    law_saved_fields_can_be_put_back(8);
    assert(saved_fields()[8] == (g.listed()[6].0, calib::fric_breakaway_counts()));
    law_saved_fields_can_be_put_back(9);
    assert(saved_fields()[9] == (g.listed()[7].0, config::i_kp_q88()));
    law_saved_fields_can_be_put_back(10);
    assert(saved_fields()[10] == (g.listed()[8].0, config::i_ki_q412()));
    law_saved_fields_can_be_put_back(11);
    assert(saved_fields()[11] == (g.listed()[9].0, config::i_kaw_q412()));
    law_saved_fields_can_be_put_back(12);
    assert(saved_fields()[12] == (g.listed()[10].0, config::v_kp_q88()));
    law_saved_fields_can_be_put_back(13);
    assert(saved_fields()[13] == (g.listed()[11].0, config::v_ki_q412()));
    law_saved_fields_can_be_put_back(14);
    assert(saved_fields()[14] == (g.listed()[12].0, config::v_kaw_q412()));
    law_saved_fields_can_be_put_back(15);
    assert(saved_fields()[15] == (g.listed()[13].0, config::j_ff_q88()));
    law_saved_fields_can_be_put_back(16);
    assert(saved_fields()[16] == (g.listed()[14].0, config::p_kp_q88()));
    law_saved_fields_can_be_put_back(17);
    assert(saved_fields()[17] == (g.listed()[15].0, config::pos_deadband_counts()));
    law_saved_fields_can_be_put_back(18);
    assert(saved_fields()[18] == (g.listed()[16].0, config::l1_q016()));
    law_saved_fields_can_be_put_back(19);
    assert(saved_fields()[19] == (g.listed()[17].0, config::l2_q88()));
    law_saved_fields_can_be_put_back(20);
    assert(saved_fields()[20] == (g.listed()[18].0, config::l3_q88()));
}

} // verus!
