//! Writing a gain set: the order of saving the table, writing and checking each
//! field, taking torque off and having the servo keep it. Nothing is written
//! before the table is saved, and nothing is kept before every field has been
//! read back.

use super::restore::{FieldValue, Restore, RestoreAct, RestorePhase};
use super::wire::{to, RegWrite};
use crate::regs::{control, Reg};
use vstd::prelude::*;

verus! {

/// One thing for the driver to do.
#[derive(Copy, Clone, Debug, PartialEq, Eq, Structural)]
pub enum GainTask {
    /// There is nothing to write.
    Empty,
    /// Save the table's present contents.
    TakeSnapshot,
    Write { write: RegWrite },
    /// Read the field and call again with what it holds.
    ReadBack { reg: Reg },
    /// Stopped: the field at this place has no known name, or the run had
    /// stopped there before.
    Unknown { at: usize },
    /// Stopped: the field at this place holds something else than was written.
    Mismatch { at: usize, back: u16 },
    /// Every field is written and verified.
    Verified { count: usize },
    /// Have the servo keep what was written.
    Persist,
    Finish,
}

#[derive(Copy, Clone, Debug, PartialEq, Eq, Structural)]
pub enum GainStage {
    Start,
    /// The table is saved; fields are under way.
    Fields,
    /// Every field stands; torque is to go.
    TorqueOff,
    /// Torque is off.
    Persist,
    Finished,
}

/// A gain set being written.
pub struct GainWrite {
    pub fields: Restore,
    /// Have the servo keep the set.
    pub save: bool,
    pub stage: GainStage,
}

impl GainWrite {
    pub fn new(fields: Vec<FieldValue>, save: bool) -> (r: Self)
        ensures
            r.fields.fields == fields,
            r.fields.at == 0,
            r.fields.phase == RestorePhase::Write,
            r.save == save,
            r.stage == GainStage::Start,
            r.wf(),
    {
        GainWrite { fields: Restore::new(fields), save, stage: GainStage::Start }
    }

    /// Every field has been read back as written.
    pub open spec fn verified(self) -> bool {
        self.fields.at == self.fields.fields@.len() && self.fields.phase == RestorePhase::Write
    }

    pub open spec fn wf(self) -> bool {
        &&& self.fields.wf()
        &&& self.stage == GainStage::Start ==> self.fields.at == 0 && self.fields.phase
            == RestorePhase::Write
        &&& self.stage == GainStage::TorqueOff || self.stage == GainStage::Persist
            ==> self.save && self.verified()
    }

    /// In reply to a value read back, the run moves to `next` and asks for
    /// `task`.
    pub open spec fn moves_to(self, back: Option<u16>, next: GainWrite, task: GainTask) -> bool {
        &&& next.save == self.save
        &&& match self.stage {
            GainStage::Start => {
                &&& next.fields == self.fields
                &&& if self.fields.fields@.len() == 0 {
                    next.stage == GainStage::Finished && task == GainTask::Empty
                } else {
                    next.stage == GainStage::Fields && task == GainTask::TakeSnapshot
                }
            },
            GainStage::Fields => exists|act: RestoreAct| #[trigger]
                self.fields.moves_to(back, next.fields, act) && match act {
                    RestoreAct::Write { reg, value } => next.stage == GainStage::Fields && task
                        == (GainTask::Write { write: RegWrite { reg, value } }),
                    RestoreAct::ReadBack { reg } => next.stage == GainStage::Fields && task
                        == (GainTask::ReadBack { reg }),
                    RestoreAct::Unknown { at } => next.stage == GainStage::Fields && task
                        == (GainTask::Unknown { at }),
                    RestoreAct::Mismatch { at, back } => next.stage == GainStage::Fields && task
                        == (GainTask::Mismatch { at, back }),
                    RestoreAct::Done { count } => {
                        &&& next.stage == (if self.save {
                            GainStage::TorqueOff
                        } else {
                            GainStage::Finished
                        })
                        &&& task == (GainTask::Verified { count })
                    },
                },
            GainStage::TorqueOff => {
                &&& next.fields == self.fields
                &&& next.stage == GainStage::Persist
                &&& task == (GainTask::Write { write: to(control::torque_enable(), 0) })
            },
            GainStage::Persist => {
                &&& next.fields == self.fields
                &&& next.stage == GainStage::Finished
                &&& task == GainTask::Persist
            },
            GainStage::Finished => {
                &&& next.fields == self.fields
                &&& next.stage == GainStage::Finished
                &&& task == GainTask::Finish
            },
        }
    }

    /// One step of the run: what to do next, once the last thing is done. A value
    /// read back comes with the call.
    pub fn next(&mut self, back: Option<u16>) -> (task: GainTask)
        requires
            old(self).wf(),
        ensures
            final(self).wf(),
            old(self).moves_to(back, *final(self), task),
    {
        match self.stage {
            GainStage::Start => {
                if self.fields.fields.len() == 0 {
                    self.stage = GainStage::Finished;
                    GainTask::Empty
                } else {
                    self.stage = GainStage::Fields;
                    GainTask::TakeSnapshot
                }
            },
            GainStage::Fields => {
                let ghost before = self.fields;
                let act: RestoreAct = self.fields.next(back);
                assert(before.moves_to(back, self.fields, act));
                match act {
                    RestoreAct::Write { reg, value } => GainTask::Write {
                        write: RegWrite { reg, value },
                    },
                    RestoreAct::ReadBack { reg } => GainTask::ReadBack { reg },
                    RestoreAct::Unknown { at } => GainTask::Unknown { at },
                    RestoreAct::Mismatch { at, back } => GainTask::Mismatch { at, back },
                    RestoreAct::Done { count } => {
                        self.stage = if self.save {
                            GainStage::TorqueOff
                        } else {
                            GainStage::Finished
                        };
                        GainTask::Verified { count }
                    },
                }
            },
            GainStage::TorqueOff => {
                self.stage = GainStage::Persist;
                GainTask::Write { write: RegWrite { reg: control::torque_enable(), value: 0 } }
            },
            GainStage::Persist => {
                self.stage = GainStage::Finished;
                GainTask::Persist
            },
            GainStage::Finished => GainTask::Finish,
        }
    }
}

/// The table is saved before anything is written: the first thing asked for is
/// the snapshot, or nothing at all for an empty set, and nothing leads back to
/// the start.
pub proof fn law_snapshot_comes_first(
    g: GainWrite,
    back: Option<u16>,
    next: GainWrite,
    task: GainTask,
)
    requires
        g.wf(),
        g.moves_to(back, next, task),
    ensures
        g.stage == GainStage::Start ==> task == GainTask::TakeSnapshot || task == GainTask::Empty,
        task is Write || task is Persist ==> g.stage != GainStage::Start,
        next.stage != GainStage::Start,
        task == GainTask::TakeSnapshot <==> g.stage == GainStage::Start && g.fields.fields@.len() > 0,
{
}

/// The servo is told to keep a set only where that was asked for and every field
/// has been read back as written, and right behind the write that takes torque
/// off.
pub proof fn law_kept_once_verified(
    g: GainWrite,
    back: Option<u16>,
    mid: GainWrite,
    task: GainTask,
    later: Option<u16>,
    next: GainWrite,
)
    requires
        g.wf(),
        mid.wf(),
        g.moves_to(back, mid, task),
        mid.moves_to(later, next, GainTask::Persist),
    ensures
        mid.save,
        mid.verified(),
        task == (GainTask::Write { write: to(control::torque_enable(), 0) }),
        next.stage == GainStage::Finished,
{
}

/// A run that stopped at a field writes nothing more and is never kept.
pub proof fn law_stopped_set_is_not_kept(
    g: GainWrite,
    back: Option<u16>,
    next: GainWrite,
    task: GainTask,
)
    requires
        g.wf(),
        g.stage == GainStage::Fields,
        g.fields.phase == RestorePhase::Failed,
        g.moves_to(back, next, task),
    ensures
        task == (GainTask::Unknown { at: g.fields.at }),
        next.stage == GainStage::Fields,
        next.fields.phase == RestorePhase::Failed,
{
}

/// The order of a gain set: the snapshot, unless the set is empty; the fields,
/// each as the run over them asks; then, where the set is to be kept, torque
/// off, the keeping and the finish, and without it the finish at once.
pub proof fn law_gain_order(g: GainWrite, back: Option<u16>, next: GainWrite, task: GainTask)
    requires
        g.wf(),
        g.moves_to(back, next, task),
    ensures
        next.save == g.save,
        g.stage == GainStage::Start && g.fields.fields@.len() == 0 ==> task == GainTask::Empty
            && next.stage == GainStage::Finished,
        g.stage == GainStage::Start && g.fields.fields@.len() > 0 ==> task
            == GainTask::TakeSnapshot && next.stage == GainStage::Fields,
        g.stage == GainStage::Fields && task is Verified ==> next.stage == (if g.save {
            GainStage::TorqueOff
        } else {
            GainStage::Finished
        }),
        g.stage == GainStage::Fields && !(task is Verified) ==> next.stage == GainStage::Fields,
        g.stage == GainStage::TorqueOff ==> task == (GainTask::Write {
            write: RegWrite { reg: control::torque_enable(), value: 0 },
        }) && next.stage == GainStage::Persist,
        g.stage == GainStage::Persist ==> task == GainTask::Persist && next.stage
            == GainStage::Finished,
        g.stage == GainStage::Finished ==> task == GainTask::Finish && next.stage
            == GainStage::Finished,
        g.stage != GainStage::Fields ==> next.fields == g.fields,
{
}

/// The fields of a gain set go as a run over them goes: what that run writes,
/// reads back or stops at is what is asked for.
pub proof fn law_gain_fields(
    g: GainWrite,
    back: Option<u16>,
    next: GainWrite,
    task: GainTask,
)
    requires
        g.wf(),
        g.stage == GainStage::Fields,
        g.moves_to(back, next, task),
    ensures
        task matches GainTask::Write { write } ==> g.fields.moves_to(
            back,
            next.fields,
            RestoreAct::Write { reg: write.reg, value: write.value },
        ),
        task matches GainTask::ReadBack { reg } ==> g.fields.moves_to(
            back,
            next.fields,
            RestoreAct::ReadBack { reg },
        ),
        task matches GainTask::Unknown { at } ==> g.fields.moves_to(
            back,
            next.fields,
            RestoreAct::Unknown { at },
        ),
        task matches GainTask::Mismatch { at, back: b } ==> g.fields.moves_to(
            back,
            next.fields,
            RestoreAct::Mismatch { at, back: b },
        ),
        task matches GainTask::Verified { count } ==> g.fields.moves_to(
            back,
            next.fields,
            RestoreAct::Done { count },
        ),
{
}

} // verus!
