//! The order of a calibration: what the driver does next, given how the last
//! thing went. Nothing moves before the operator agrees or has waived being
//! asked, and nothing is written before a second yes and a saved table.

use crate::driver::wire::{calibration_list, calibration_writes, to, RegWrite};
use crate::exp::endstop::EndstopResult;
use crate::kinematics::KinematicsResult;
use crate::lut::PotLut;
use crate::regs::{calib, control, Reg};
use vstd::prelude::*;

verus! {

/// Registers of the calibration proper.
pub const WRITES: usize = 8;

/// One thing for the driver to do.
#[derive(Copy, Clone, Debug, PartialEq, Eq)]
pub enum Task {
    /// Read the sense scales.
    ReadSense,
    /// Warn that both end-stops get driven, and ask whether to go on.
    AskProceed,
    /// Run the end-stop seek.
    SeekRails,
    /// Capture the ripple sweep between the rails.
    Sweep { ends: EndstopResult },
    /// Drive off the rails.
    Recenter { ends: EndstopResult },
    /// Work the angles, the gear and the working range out.
    Figure { ends: EndstopResult },
    /// Stitch the linearization table from the sweep.
    BuildLut { ends: EndstopResult },
    /// Report, and ask whether to write and save.
    AskWrite,
    /// Save the table's present contents.
    TakeSnapshot,
    Write { write: RegWrite },
    /// Write the knots of this table as one block, [`PotLut::corr_bytes`].
    WriteCorr { reg: Reg, lut: PotLut },
    /// Have the servo keep what was written.
    Persist,
    /// The operator said no: stop.
    Decline,
    Finish,
}

/// How the last thing went. What fails otherwise ends the calibration.
#[derive(Copy, Clone, Debug)]
pub enum Event {
    Done,
    Answer { yes: bool },
    Rails { ends: EndstopResult },
    /// Clean chunks in the sweep.
    Captured { chunks: usize },
    Figures { soft_min: i32, soft_max: i32, kin: KinematicsResult },
    Lut { lut: PotLut },
}

#[derive(Copy, Clone, Debug, PartialEq, Eq, Structural)]
pub enum Stage {
    Sense,
    Proceed,
    Rails,
    Sweep,
    Recenter,
    Figure,
    Lut,
    Consent,
    Snapshot,
    Writes { at: usize },
    LutMin,
    LutMax,
    LutCorr,
    TorqueOff,
    Persist,
    Declined,
    Finished,
}

#[derive(Copy, Clone, Debug)]
pub struct Session {
    /// Never ask.
    pub yes: bool,
    /// There is a stream to capture a sweep from.
    pub tel: bool,
    pub ends: EndstopResult,
    pub soft_min: i32,
    pub soft_max: i32,
    pub kin: KinematicsResult,
    /// The sweep left something to stitch.
    pub stitch: bool,
    pub lut: PotLut,
    /// The operator agreed to the writes.
    pub granted: bool,
    /// The table's contents were saved.
    pub saved: bool,
    pub stage: Stage,
}

impl Session {
    pub fn new(yes: bool, tel: bool) -> (r: Self)
        ensures
            r.yes == yes,
            r.tel == tel,
            r.stage == Stage::Sense,
            !r.stitch,
            !r.granted,
            !r.saved,
            r.wf(),
    {
        Session {
            yes,
            tel,
            ends: EndstopResult {
                pos_min_phys: 0,
                pos_max_phys: 0,
                drive_polarity: false,
                i_stall_counts: 0,
            },
            soft_min: 0,
            soft_max: 0,
            kin: KinematicsResult { angle_min_cdeg: 0, angle_max_cdeg: 0, gear_ratio_centi: 0 },
            stitch: false,
            lut: PotLut::identity(0, 0),
            granted: false,
            saved: false,
            stage: Stage::Sense,
        }
    }

    /// The stages that change the servo's table.
    pub open spec fn writing(self) -> bool {
        self.stage is Writes || self.stage == Stage::LutMin || self.stage == Stage::LutMax
            || self.stage == Stage::LutCorr || self.stage == Stage::TorqueOff || self.stage
            == Stage::Persist
    }

    pub open spec fn wf(self) -> bool {
        &&& self.stage matches Stage::Writes { at } ==> at < WRITES
        &&& self.stage == Stage::Snapshot || self.writing() || self.stage == Stage::Finished
            ==> self.yes || self.granted
        &&& self.writing() || self.stage == Stage::Finished ==> self.saved
        &&& self.stage == Stage::Proceed || self.stage == Stage::Consent || self.stage
            == Stage::Declined ==> !self.yes
    }

    /// What the calibration writes, in order.
    pub open spec fn list(self) -> Seq<RegWrite> {
        calibration_list(self.ends, self.soft_min as int, self.soft_max as int, self.kin)
    }

    /// What to do in a stage.
    pub open spec fn task_of(self) -> Task {
        match self.stage {
            Stage::Sense => Task::ReadSense,
            Stage::Proceed => Task::AskProceed,
            Stage::Rails => Task::SeekRails,
            Stage::Sweep => Task::Sweep { ends: self.ends },
            Stage::Recenter => Task::Recenter { ends: self.ends },
            Stage::Figure => Task::Figure { ends: self.ends },
            Stage::Lut => Task::BuildLut { ends: self.ends },
            Stage::Consent => Task::AskWrite,
            Stage::Snapshot => Task::TakeSnapshot,
            Stage::Writes { at } => Task::Write { write: self.list()[at as int] },
            Stage::LutMin => Task::Write {
                write: to(calib::pot_lut_raw_min(), self.lut.raw_min as int),
            },
            Stage::LutMax => Task::Write {
                write: to(calib::pot_lut_raw_max(), self.lut.raw_max as int),
            },
            Stage::LutCorr => Task::WriteCorr { reg: calib::pot_lut_corr(), lut: self.lut },
            Stage::TorqueOff => Task::Write { write: to(control::torque_enable(), 0) },
            Stage::Persist => Task::Persist,
            Stage::Declined => Task::Decline,
            Stage::Finished => Task::Finish,
        }
    }

    /// What to do now.
    pub fn task(&self) -> (r: Task)
        requires
            self.wf(),
        ensures
            r == self.task_of(),
    {
        match self.stage {
            Stage::Sense => Task::ReadSense,
            Stage::Proceed => Task::AskProceed,
            Stage::Rails => Task::SeekRails,
            Stage::Sweep => Task::Sweep { ends: self.ends },
            Stage::Recenter => Task::Recenter { ends: self.ends },
            Stage::Figure => Task::Figure { ends: self.ends },
            Stage::Lut => Task::BuildLut { ends: self.ends },
            Stage::Consent => Task::AskWrite,
            Stage::Snapshot => Task::TakeSnapshot,
            Stage::Writes { at } => {
                let v: Vec<RegWrite> = calibration_writes(
                    &self.ends,
                    self.soft_min,
                    self.soft_max,
                    &self.kin,
                );
                Task::Write { write: v[at] }
            },
            Stage::LutMin => Task::Write {
                write: RegWrite { reg: calib::pot_lut_raw_min(), value: self.lut.raw_min as i32 },
            },
            Stage::LutMax => Task::Write {
                write: RegWrite { reg: calib::pot_lut_raw_max(), value: self.lut.raw_max as i32 },
            },
            Stage::LutCorr => Task::WriteCorr { reg: calib::pot_lut_corr(), lut: self.lut },
            Stage::TorqueOff => Task::Write {
                write: RegWrite { reg: control::torque_enable(), value: 0 },
            },
            Stage::Persist => Task::Persist,
            Stage::Declined => Task::Decline,
            Stage::Finished => Task::Finish,
        }
    }

    pub open spec fn at(self, stage: Stage) -> Session {
        Session { stage, ..self }
    }

    /// Where the figures lead once there is nothing left to stitch.
    pub open spec fn consenting(self) -> Stage {
        if self.yes {
            Stage::Snapshot
        } else {
            Stage::Consent
        }
    }

    /// Where an event leads; one that a stage does not wait for leads nowhere.
    pub open spec fn after(self, e: Event) -> Session {
        match (self.stage, e) {
            (Stage::Sense, Event::Done) => self.at(
                if self.yes {
                    Stage::Rails
                } else {
                    Stage::Proceed
                },
            ),
            (Stage::Proceed, Event::Answer { yes }) => self.at(
                if yes {
                    Stage::Rails
                } else {
                    Stage::Declined
                },
            ),
            (Stage::Rails, Event::Rails { ends }) => Session {
                ends,
                stage: if self.tel {
                    Stage::Sweep
                } else {
                    Stage::Recenter
                },
                ..self
            },
            (Stage::Sweep, Event::Captured { chunks }) => Session {
                stitch: chunks > 0,
                stage: Stage::Recenter,
                ..self
            },
            (Stage::Recenter, Event::Done) => self.at(Stage::Figure),
            (Stage::Figure, Event::Figures { soft_min, soft_max, kin }) => Session {
                soft_min,
                soft_max,
                kin,
                stage: if self.stitch {
                    Stage::Lut
                } else {
                    self.consenting()
                },
                ..self
            },
            (Stage::Lut, Event::Lut { lut }) => Session { lut, stage: self.consenting(), ..self },
            (Stage::Consent, Event::Answer { yes }) => Session {
                granted: yes,
                stage: if yes {
                    Stage::Snapshot
                } else {
                    Stage::Declined
                },
                ..self
            },
            (Stage::Snapshot, Event::Done) => Session {
                saved: true,
                stage: Stage::Writes { at: 0 },
                ..self
            },
            (Stage::Writes { at }, Event::Done) => self.at(
                if at + 1 < WRITES {
                    Stage::Writes { at: (at + 1) as usize }
                } else if self.stitch {
                    Stage::LutMin
                } else {
                    Stage::TorqueOff
                },
            ),
            (Stage::LutMin, Event::Done) => self.at(Stage::LutMax),
            (Stage::LutMax, Event::Done) => self.at(Stage::LutCorr),
            (Stage::LutCorr, Event::Done) => self.at(Stage::TorqueOff),
            (Stage::TorqueOff, Event::Done) => self.at(Stage::Persist),
            (Stage::Persist, Event::Done) => self.at(Stage::Finished),
            _ => self,
        }
    }

    /// Take in how the last thing went and say what comes next.
    pub fn next(&mut self, e: Event) -> (r: Task)
        requires
            old(self).wf(),
        ensures
            *final(self) == old(self).after(e),
            final(self).wf(),
            r == final(self).task_of(),
    {
        let asking: Stage = if self.yes {
            Stage::Snapshot
        } else {
            Stage::Consent
        };
        match (self.stage, e) {
            (Stage::Sense, Event::Done) => {
                self.stage = if self.yes {
                    Stage::Rails
                } else {
                    Stage::Proceed
                };
            },
            (Stage::Proceed, Event::Answer { yes }) => {
                self.stage = if yes {
                    Stage::Rails
                } else {
                    Stage::Declined
                };
            },
            (Stage::Rails, Event::Rails { ends }) => {
                self.ends = ends;
                self.stage = if self.tel {
                    Stage::Sweep
                } else {
                    Stage::Recenter
                };
            },
            (Stage::Sweep, Event::Captured { chunks }) => {
                self.stitch = chunks > 0;
                self.stage = Stage::Recenter;
            },
            (Stage::Recenter, Event::Done) => {
                self.stage = Stage::Figure;
            },
            (Stage::Figure, Event::Figures { soft_min, soft_max, kin }) => {
                self.soft_min = soft_min;
                self.soft_max = soft_max;
                self.kin = kin;
                self.stage = if self.stitch {
                    Stage::Lut
                } else {
                    asking
                };
            },
            (Stage::Lut, Event::Lut { lut }) => {
                self.lut = lut;
                self.stage = asking;
            },
            (Stage::Consent, Event::Answer { yes }) => {
                self.granted = yes;
                self.stage = if yes {
                    Stage::Snapshot
                } else {
                    Stage::Declined
                };
            },
            (Stage::Snapshot, Event::Done) => {
                self.saved = true;
                self.stage = Stage::Writes { at: 0 };
            },
            (Stage::Writes { at }, Event::Done) => {
                self.stage = if at + 1 < WRITES {
                    Stage::Writes { at: at + 1 }
                } else if self.stitch {
                    Stage::LutMin
                } else {
                    Stage::TorqueOff
                };
            },
            (Stage::LutMin, Event::Done) => {
                self.stage = Stage::LutMax;
            },
            (Stage::LutMax, Event::Done) => {
                self.stage = Stage::LutCorr;
            },
            (Stage::LutCorr, Event::Done) => {
                self.stage = Stage::TorqueOff;
            },
            (Stage::TorqueOff, Event::Done) => {
                self.stage = Stage::Persist;
            },
            (Stage::Persist, Event::Done) => {
                self.stage = Stage::Finished;
            },
            _ => {},
        }
        self.task()
    }

    /// Stages still to come at most.
    pub open spec fn remaining(self) -> int {
        match self.stage {
            Stage::Sense => 23,
            Stage::Proceed => 22,
            Stage::Rails => 21,
            Stage::Sweep => 20,
            Stage::Recenter => 19,
            Stage::Figure => 18,
            Stage::Lut => 17,
            Stage::Consent => 16,
            Stage::Snapshot => 15,
            Stage::Writes { at } => 14 - at,
            Stage::LutMin => 5,
            Stage::LutMax => 4,
            Stage::LutCorr => 3,
            Stage::TorqueOff => 2,
            Stage::Persist => 1,
            Stage::Declined => 0,
            Stage::Finished => 0,
        }
    }

    /// The tasks of the next `n` steps, each carried out.
    pub open spec fn tasks(self, n: nat) -> Seq<Task>
        decreases n,
    {
        if n == 0 {
            seq![]
        } else {
            seq![self.task_of()] + self.after(Event::Done).tasks((n - 1) as nat)
        }
    }
}

/// The task changes what the servo holds.
pub open spec fn alters(t: Task) -> bool {
    t is Write || t is WriteCorr || t is Persist
}

/// The task moves the servo.
pub open spec fn moves(t: Task) -> bool {
    t is SeekRails || t is Sweep || t is Recenter
}

/// Nothing is written unless the operator agreed to it or waived being asked,
/// and the table's contents were saved.
pub proof fn law_writes_need_consent(s: Session)
    requires
        s.wf(),
        alters(s.task_of()),
    ensures
        s.yes || s.granted,
        s.saved,
{
}

/// Agreement comes from the second question alone, and the saved mark from the
/// snapshot alone.
pub proof fn law_consent_is_given(s: Session, e: Event)
    requires
        s.wf(),
    ensures
        s.after(e).granted && !s.granted ==> s.task_of() == Task::AskWrite && e == (Event::Answer {
            yes: true,
        }),
        s.after(e).saved && !s.saved ==> s.task_of() == Task::TakeSnapshot && e == Event::Done,
        s.after(e).yes == s.yes,
{
}

/// A no to either question ends the calibration there: nothing moves and
/// nothing is written any more.
pub proof fn law_no_ends_it(s: Session, e: Event)
    requires
        s.task_of() == Task::AskProceed || s.task_of() == Task::AskWrite,
    ensures
        ({
            let d = s.after(Event::Answer { yes: false });
            &&& d.task_of() == Task::Decline
            &&& d.after(e) == d
        }),
{
}

/// The first motion follows a yes to the first question, unless being asked was
/// waived.
pub proof fn law_motion_needs_a_yes(s: Session, e: Event)
    requires
        s.wf(),
        !moves(s.task_of()),
        moves(s.after(e).task_of()),
    ensures
        s.yes || (s.task_of() == Task::AskProceed && e == (Event::Answer { yes: true })),
{
}

/// With the writes agreed to and every step carried out, the servo's table is
/// saved first, then gets the calibration in order, then the linearization
/// where one was stitched, then torque off, and only then is told to keep it.
pub proof fn law_writes_in_order(s: Session)
    requires
        s.wf(),
        s.stage == Stage::Snapshot,
    ensures
        ({
            let w = s.list();
            let put = |i: int| Task::Write { write: w[i] };
            let front = seq![
                Task::TakeSnapshot,
                put(0),
                put(1),
                put(2),
                put(3),
                put(4),
                put(5),
                put(6),
                put(7),
            ];
            let table = seq![
                Task::Write { write: to(calib::pot_lut_raw_min(), s.lut.raw_min as int) },
                Task::Write { write: to(calib::pot_lut_raw_max(), s.lut.raw_max as int) },
                Task::WriteCorr { reg: calib::pot_lut_corr(), lut: s.lut },
            ];
            let back = seq![
                Task::Write { write: to(control::torque_enable(), 0) },
                Task::Persist,
                Task::Finish,
            ];
            if s.stitch {
                s.tasks(15) == front + table + back
            } else {
                s.tasks(12) == front + back
            }
        }),
{
    reveal_with_fuel(Session::tasks, 16);
    let w = s.list();
    let put = |i: int| Task::Write { write: w[i] };
    let front = seq![
        Task::TakeSnapshot,
        put(0),
        put(1),
        put(2),
        put(3),
        put(4),
        put(5),
        put(6),
        put(7),
    ];
    let table = seq![
        Task::Write { write: to(calib::pot_lut_raw_min(), s.lut.raw_min as int) },
        Task::Write { write: to(calib::pot_lut_raw_max(), s.lut.raw_max as int) },
        Task::WriteCorr { reg: calib::pot_lut_corr(), lut: s.lut },
    ];
    let back = seq![
        Task::Write { write: to(control::torque_enable(), 0) },
        Task::Persist,
        Task::Finish,
    ];
    if s.stitch {
        assert(s.tasks(15) =~= front + table + back);
    } else {
        assert(s.tasks(12) =~= front + back);
    }
}

/// Every event a stage waits for brings the calibration closer to its end.
pub proof fn law_session_ends(s: Session, e: Event)
    requires
        s.wf(),
    ensures
        s.after(e) == s || 0 <= s.after(e).remaining() < s.remaining(),
        s.remaining() == 0 <==> s.task_of() == Task::Decline || s.task_of() == Task::Finish,
{
}

/// The order of a calibration up to the writes: the sense scales; the first
/// question, unless it was waived; the rails; a sweep where there is a stream;
/// off the rails; the figures; the table where the sweep left a chunk; the
/// second question, unless it was waived; the snapshot.
pub proof fn law_session_order(s: Session, e: Event)
    requires
        s.wf(),
    ensures
        ({
            let n = s.after(e);
            &&& s.stage == Stage::Sense && e == Event::Done ==> n.stage == (if s.yes {
                Stage::Rails
            } else {
                Stage::Proceed
            })
            &&& s.stage == Stage::Proceed && e == (Event::Answer { yes: true }) ==> n.stage
                == Stage::Rails
            &&& (s.stage == Stage::Rails ==> (e matches Event::Rails { ends } ==> n.ends == ends
                && n.stage == (if s.tel {
                Stage::Sweep
            } else {
                Stage::Recenter
            })))
            &&& (s.stage == Stage::Sweep ==> (e matches Event::Captured { chunks } ==> n.stage
                == Stage::Recenter && (n.stitch <==> chunks != 0)))
            &&& s.stage == Stage::Recenter && e == Event::Done ==> n.stage == Stage::Figure
            &&& (s.stage == Stage::Figure ==> (e matches Event::Figures { soft_min, soft_max, kin }
                ==> {
                &&& n.soft_min == soft_min && n.soft_max == soft_max && n.kin == kin
                &&& s.stitch ==> n.stage == Stage::Lut
                &&& !s.stitch && s.yes ==> n.stage == Stage::Snapshot
                &&& !s.stitch && !s.yes ==> n.stage == Stage::Consent
            }))
            &&& (s.stage == Stage::Lut ==> (e matches Event::Lut { lut } ==> {
                &&& n.lut == lut
                &&& s.yes ==> n.stage == Stage::Snapshot
                &&& !s.yes ==> n.stage == Stage::Consent
            }))
            &&& s.stage == Stage::Consent && e == (Event::Answer { yes: true }) ==> n.stage
                == Stage::Snapshot && n.granted
            &&& s.stage == Stage::Snapshot && e == Event::Done ==> n.stage == (Stage::Writes {
                at: 0,
            }) && n.saved
        }),
{
}

/// What has been found is kept: only the stage that waits for a thing changes
/// it.
pub proof fn law_session_keeps(s: Session, e: Event)
    requires
        s.wf(),
    ensures
        s.after(e).tel == s.tel,
        s.after(e).yes == s.yes,
        s.stage != Stage::Rails ==> s.after(e).ends == s.ends,
        s.stage != Stage::Sweep ==> s.after(e).stitch == s.stitch,
        s.stage != Stage::Lut ==> s.after(e).lut == s.lut,
        s.stage != Stage::Figure ==> s.after(e).kin == s.kin && s.after(e).soft_min == s.soft_min
            && s.after(e).soft_max == s.soft_max,
{
}

} // verus!
