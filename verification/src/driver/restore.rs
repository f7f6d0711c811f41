//! Table write-back: each field is written, read back and compared before the
//! next one is touched. Rolling a snapshot back and writing a gain set are the
//! same run over different fields.

use crate::regs::names::law_every_field_is_found;
use crate::regs::{calib, config, fields, lookup, reg_by_name, Named, Reg};
use vstd::prelude::*;

verus! {

/// A field by name, with its value.
pub struct FieldValue {
    pub name: String,
    pub raw: u16,
}

/// One thing for the driver to do.
#[derive(Copy, Clone, Debug, PartialEq, Eq, Structural)]
pub enum RestoreAct {
    Write { reg: Reg, value: i32 },
    /// Read the field and call again with what it holds.
    ReadBack { reg: Reg },
    /// The field at this place has no known name. A run that has stopped, at
    /// such a field or at a mismatch, answers every further call with this and
    /// the place where it stopped.
    Unknown { at: usize },
    /// The field at this place holds something else than was written.
    Mismatch { at: usize, back: u16 },
    /// All fields are written and verified.
    Done { count: usize },
}

#[derive(Copy, Clone, Debug, PartialEq, Eq, Structural)]
pub enum RestorePhase {
    /// About to write the field.
    Write,
    /// The write is out.
    Wrote { reg: Reg },
    /// Waiting for the value read back.
    Check { reg: Reg },
    /// Stopped at a field.
    Failed,
}

pub struct Restore {
    pub fields: Vec<FieldValue>,
    pub at: usize,
    pub phase: RestorePhase,
}

impl Restore {
    pub fn new(fields: Vec<FieldValue>) -> (r: Self)
        ensures
            r.fields == fields,
            r.at == 0,
            r.phase == RestorePhase::Write,
            r.wf(),
    {
        Restore { fields, at: 0, phase: RestorePhase::Write }
    }

    pub open spec fn wf(self) -> bool {
        &&& self.at <= self.fields@.len()
        &&& self.phase != RestorePhase::Write ==> self.at < self.fields@.len()
    }

    /// The register of the field in hand.
    pub open spec fn target(self) -> Option<Reg> {
        lookup(fields(), self.fields@[self.at as int].name@)
    }

    /// The value of the field in hand.
    pub open spec fn raw(self) -> u16 {
        self.fields@[self.at as int].raw
    }

    /// In reply to a value read back, the run moves to `next` and asks for
    /// `act`. One that has stopped stays where it is and answers `Unknown`.
    pub open spec fn moves_to(self, back: Option<u16>, next: Restore, act: RestoreAct) -> bool {
        &&& next.fields == self.fields
        &&& match self.phase {
            RestorePhase::Write => self.moves_to_write(next, act),
            RestorePhase::Wrote { reg } => {
                &&& next.at == self.at && next.phase == (RestorePhase::Check { reg })
                &&& act == (RestoreAct::ReadBack { reg })
            },
            RestorePhase::Check { reg } => match back {
                None => {
                    &&& next.at == self.at && next.phase == self.phase
                    &&& act == (RestoreAct::ReadBack { reg })
                },
                Some(b) => if b != self.raw() {
                    &&& next.at == self.at && next.phase == RestorePhase::Failed
                    &&& act == (RestoreAct::Mismatch { at: self.at, back: b })
                } else {
                    let done = Restore {
                        at: (self.at + 1) as usize,
                        phase: RestorePhase::Write,
                        ..self
                    };
                    done.moves_to_write(next, act)
                },
            },
            RestorePhase::Failed => {
                &&& next.at == self.at && next.phase == self.phase
                &&& act == (RestoreAct::Unknown { at: self.at })
            },
        }
    }

    /// The next field's write, or the end.
    pub open spec fn moves_to_write(self, next: Restore, act: RestoreAct) -> bool {
        if self.at == self.fields@.len() {
            &&& next.at == self.at && next.phase == RestorePhase::Write
            &&& act == (RestoreAct::Done { count: self.at })
        } else {
            match self.target() {
                None => {
                    &&& next.at == self.at && next.phase == RestorePhase::Failed
                    &&& act == (RestoreAct::Unknown { at: self.at })
                },
                Some(reg) => {
                    &&& next.at == self.at && next.phase == (RestorePhase::Wrote { reg })
                    &&& act == (RestoreAct::Write { reg, value: self.raw() as i32 })
                },
            }
        }
    }

    fn write_next(&mut self) -> (act: RestoreAct)
        requires
            old(self).wf(),
            old(self).phase == RestorePhase::Write,
        ensures
            final(self).wf(),
            final(self).fields == old(self).fields,
            old(self).moves_to_write(*final(self), act),
    {
        let n: usize = self.fields.len();
        if self.at == n {
            return RestoreAct::Done { count: self.at };
        }
        match reg_by_name(self.fields[self.at].name.as_str()) {
            None => {
                self.phase = RestorePhase::Failed;
                RestoreAct::Unknown { at: self.at }
            },
            Some(reg) => {
                self.phase = RestorePhase::Wrote { reg };
                RestoreAct::Write { reg, value: self.fields[self.at].raw as i32 }
            },
        }
    }

    /// One step of the run. After a mismatch or an unknown name it has stopped:
    /// every further call answers `Unknown` for the field it stopped at.
    pub fn next(&mut self, back: Option<u16>) -> (act: RestoreAct)
        requires
            old(self).wf(),
        ensures
            final(self).wf(),
            old(self).moves_to(back, *final(self), act),
    {
        match self.phase {
            RestorePhase::Write => self.write_next(),
            RestorePhase::Wrote { reg } => {
                self.phase = RestorePhase::Check { reg };
                RestoreAct::ReadBack { reg }
            },
            RestorePhase::Check { reg } => match back {
                None => RestoreAct::ReadBack { reg },
                Some(b) => {
                    if b != self.fields[self.at].raw {
                        self.phase = RestorePhase::Failed;
                        RestoreAct::Mismatch { at: self.at, back: b }
                    } else {
                        let n: usize = self.fields.len();
                        assert(self.at < n);
                        self.at = self.at + 1;
                        self.phase = RestorePhase::Write;
                        self.write_next()
                    }
                },
            },
            RestorePhase::Failed => RestoreAct::Unknown { at: self.at },
        }
    }
}

/// The run passes a field only once it has read back what was written there.
pub proof fn law_restore_verifies(r: Restore, back: Option<u16>, next: Restore, act: RestoreAct)
    requires
        r.wf(),
        r.moves_to(back, next, act),
        next.at != r.at,
    ensures
        next.at == r.at + 1,
        r.phase is Check,
        back == Some(r.raw()),
{
    assert(r.fields.len() == r.fields@.len());
}

/// A field that reads back otherwise stops the run where it is, for good.
pub proof fn law_restore_stops_on_mismatch(
    r: Restore,
    b: u16,
    next: Restore,
    act: RestoreAct,
    later: Option<u16>,
    next2: Restore,
    act2: RestoreAct,
)
    requires
        r.wf(),
        r.phase is Check,
        b != r.raw(),
        r.moves_to(Some(b), next, act),
        next.moves_to(later, next2, act2),
    ensures
        act == (RestoreAct::Mismatch { at: r.at, back: b }),
        next2.at == r.at,
        next2.phase == RestorePhase::Failed,
        !(act2 is Write),
{
}

/// Every field the identification can write: what a snapshot saves and a
/// rollback restores.
pub open spec fn saved_fields() -> Seq<(Seq<char>, Reg)> {
    seq![
        ("r_q12"@, calib::r_q12()),
        ("r0_q12"@, calib::r0_q12()),
        ("t0_cc"@, calib::t0_cc()),
        ("ke_vpc_q"@, calib::ke_vpc_q()),
        ("recip_ke_q"@, calib::recip_ke_q()),
        ("b_i_q313"@, calib::b_i_q313()),
        ("fric_fc_counts"@, calib::fric_fc_counts()),
        ("fric_fv_q016"@, calib::fric_fv_q016()),
        ("fric_breakaway_counts"@, calib::fric_breakaway_counts()),
        ("i_kp_q88"@, config::i_kp_q88()),
        ("i_ki_q412"@, config::i_ki_q412()),
        ("i_kaw_q412"@, config::i_kaw_q412()),
        ("v_kp_q88"@, config::v_kp_q88()),
        ("v_ki_q412"@, config::v_ki_q412()),
        ("v_kaw_q412"@, config::v_kaw_q412()),
        ("j_ff_q88"@, config::j_ff_q88()),
        ("p_kp_q88"@, config::p_kp_q88()),
        ("pos_deadband_counts"@, config::pos_deadband_counts()),
        ("l1_q016"@, config::l1_q016()),
        ("l2_q88"@, config::l2_q88()),
        ("l3_q88"@, config::l3_q88()),
        ("l_bemf_q016"@, config::l_bemf_q016()),
    ]
}

pub fn snapshot_fields() -> (r: Vec<Named>)
    ensures
        r@.len() == saved_fields().len(),
        forall|i: int|
            0 <= i < r@.len() ==> (r@[i].name@, (#[trigger] r@[i]).reg) == saved_fields()[i],
{
    vec![
        Named { name: "r_q12", reg: calib::r_q12() },
        Named { name: "r0_q12", reg: calib::r0_q12() },
        Named { name: "t0_cc", reg: calib::t0_cc() },
        Named { name: "ke_vpc_q", reg: calib::ke_vpc_q() },
        Named { name: "recip_ke_q", reg: calib::recip_ke_q() },
        Named { name: "b_i_q313", reg: calib::b_i_q313() },
        Named { name: "fric_fc_counts", reg: calib::fric_fc_counts() },
        Named { name: "fric_fv_q016", reg: calib::fric_fv_q016() },
        Named { name: "fric_breakaway_counts", reg: calib::fric_breakaway_counts() },
        Named { name: "i_kp_q88", reg: config::i_kp_q88() },
        Named { name: "i_ki_q412", reg: config::i_ki_q412() },
        Named { name: "i_kaw_q412", reg: config::i_kaw_q412() },
        Named { name: "v_kp_q88", reg: config::v_kp_q88() },
        Named { name: "v_ki_q412", reg: config::v_ki_q412() },
        Named { name: "v_kaw_q412", reg: config::v_kaw_q412() },
        Named { name: "j_ff_q88", reg: config::j_ff_q88() },
        Named { name: "p_kp_q88", reg: config::p_kp_q88() },
        Named { name: "pos_deadband_counts", reg: config::pos_deadband_counts() },
        Named { name: "l1_q016", reg: config::l1_q016() },
        Named { name: "l2_q88", reg: config::l2_q88() },
        Named { name: "l3_q88", reg: config::l3_q88() },
        Named { name: "l_bemf_q016", reg: config::l_bemf_q016() },
    ]
}

/// Every saved field can be put back: its name is known, stands for the register
/// it was read from, and that register is one word.
pub proof fn law_saved_fields_can_be_put_back(i: int)
    requires
        0 <= i < saved_fields().len(),
    ensures
        lookup(fields(), saved_fields()[i].0) == Some(saved_fields()[i].1),
        saved_fields()[i].1.width == 2,
{
    if i == 0 {
        law_every_field_is_found(33);
        assert(fields()[33] == saved_fields()[0]);
    } else if i == 1 {
        law_every_field_is_found(31);
        assert(fields()[31] == saved_fields()[1]);
    } else if i == 2 {
        law_every_field_is_found(32);
        assert(fields()[32] == saved_fields()[2]);
    } else if i == 3 {
        law_every_field_is_found(39);
        assert(fields()[39] == saved_fields()[3]);
    } else if i == 4 {
        law_every_field_is_found(34);
        assert(fields()[34] == saved_fields()[4]);
    } else if i == 5 {
        law_every_field_is_found(35);
        assert(fields()[35] == saved_fields()[5]);
    } else if i == 6 {
        law_every_field_is_found(36);
        assert(fields()[36] == saved_fields()[6]);
    } else if i == 7 {
        law_every_field_is_found(37);
        assert(fields()[37] == saved_fields()[7]);
    } else if i == 8 {
        law_every_field_is_found(38);
        assert(fields()[38] == saved_fields()[8]);
    } else if i == 9 {
        law_every_field_is_found(4);
        assert(fields()[4] == saved_fields()[9]);
    } else if i == 10 {
        law_every_field_is_found(5);
        assert(fields()[5] == saved_fields()[10]);
    } else if i == 11 {
        law_every_field_is_found(6);
        assert(fields()[6] == saved_fields()[11]);
    } else if i == 12 {
        law_every_field_is_found(8);
        assert(fields()[8] == saved_fields()[12]);
    } else if i == 13 {
        law_every_field_is_found(9);
        assert(fields()[9] == saved_fields()[13]);
    } else if i == 14 {
        law_every_field_is_found(10);
        assert(fields()[10] == saved_fields()[14]);
    } else if i == 15 {
        law_every_field_is_found(11);
        assert(fields()[11] == saved_fields()[15]);
    } else if i == 16 {
        law_every_field_is_found(12);
        assert(fields()[12] == saved_fields()[16]);
    } else if i == 17 {
        law_every_field_is_found(13);
        assert(fields()[13] == saved_fields()[17]);
    } else if i == 18 {
        law_every_field_is_found(17);
        assert(fields()[17] == saved_fields()[18]);
    } else if i == 19 {
        law_every_field_is_found(18);
        assert(fields()[18] == saved_fields()[19]);
    } else if i == 20 {
        law_every_field_is_found(19);
        assert(fields()[19] == saved_fields()[20]);
    } else {
        law_every_field_is_found(20);
        assert(fields()[20] == saved_fields()[21]);
    }
}

/// What a snapshot saves beyond the gains: the winding's reference resistance
/// and temperature and the back-EMF blend. Twenty-two fields in all, no
/// register twice.
pub proof fn law_saved_registers(i: int, j: int)
    ensures
        saved_fields().len() == 22,
        saved_fields()[1].1 == calib::r0_q12(),
        saved_fields()[2].1 == calib::t0_cc(),
        saved_fields()[21].1 == config::l_bemf_q016(),
        0 <= i < j < 22 ==> saved_fields()[i].1 != saved_fields()[j].1,
{
}

/// One field of a run, end to end: it is written with its word, read back, and
/// passed only where the word came back; where another came back the run says
/// which, and where its name is unknown the run says so and writes nothing.
pub proof fn law_restore_field(r: Restore, back: Option<u16>, next: Restore, act: RestoreAct)
    requires
        r.wf(),
        r.moves_to(back, next, act),
    ensures
        next.fields == r.fields,
        r.phase == RestorePhase::Write && r.at < r.fields@.len() ==> {
            let f = r.fields@[r.at as int];
            &&& lookup(fields(), f.name@) matches Some(reg) ==> act == (RestoreAct::Write {
                reg,
                value: f.raw as i32,
            }) && next.phase == (RestorePhase::Wrote { reg }) && next.at == r.at
            &&& lookup(fields(), f.name@) is None ==> act == (RestoreAct::Unknown { at: r.at })
                && next.phase == RestorePhase::Failed && next.at == r.at
        },
        r.phase == RestorePhase::Write && r.at == r.fields@.len() ==> act == (RestoreAct::Done {
            count: r.at,
        }) && next.at == r.at && next.phase == RestorePhase::Write,
        r.phase matches RestorePhase::Wrote { reg } ==> act == (RestoreAct::ReadBack { reg })
            && next.phase == (RestorePhase::Check { reg }) && next.at == r.at,
        r.phase matches RestorePhase::Check { reg } ==> {
            let raw = r.fields@[r.at as int].raw;
            &&& back is None ==> act == (RestoreAct::ReadBack { reg }) && next.phase == r.phase
                && next.at == r.at
            &&& back is Some && back->0 != raw ==> act == (RestoreAct::Mismatch {
                at: r.at,
                back: back->0,
            }) && next.phase == RestorePhase::Failed && next.at == r.at
            &&& back == Some(raw) ==> next.at == r.at + 1 && !(act is ReadBack) && !(
            act is Mismatch)
        },
        r.phase == RestorePhase::Failed ==> !(act is Write) && next.phase == RestorePhase::Failed
            && next.at == r.at,
{
    assert(r.fields.len() == r.fields@.len());
}

} // verus!
