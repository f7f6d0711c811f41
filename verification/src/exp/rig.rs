//! The servo as the commands leave it: what its control registers hold after a
//! run of writes. Statements about whole runs are made over this.

use super::Cmd;
use crate::regs::control;
use vstd::prelude::*;

verus! {

/// The control registers an experiment writes.
pub struct Rig {
    pub torque: int,
    pub mode: int,
    pub duty: int,
    pub current: int,
    pub velocity: int,
}

impl Rig {
    /// Torque off, open loop, nothing commanded.
    pub open spec fn parked() -> Rig {
        Rig { torque: 0, mode: 0, duty: 0, current: 0, velocity: 0 }
    }

    /// Nothing commanded.
    pub open spec fn idle(self) -> bool {
        self.duty == 0 && self.current == 0 && self.velocity == 0
    }

    /// The registers once the driver has carried out a command.
    pub open spec fn after(self, cmd: Cmd) -> Rig {
        match cmd {
            Cmd::Write { reg, value } => if reg == control::torque_enable() {
                Rig { torque: value as int, ..self }
            } else if reg == control::mode() {
                Rig { mode: value as int, ..self }
            } else if reg == control::goal_duty() {
                Rig { duty: value as int, ..self }
            } else if reg == control::goal_current() {
                Rig { current: value as int, ..self }
            } else if reg == control::goal_velocity() {
                Rig { velocity: value as int, ..self }
            } else {
                self
            },
            _ => self,
        }
    }

    /// The registers once a series of commands has been carried out.
    pub open spec fn after_all(self, cmds: Seq<Cmd>) -> Rig
        decreases cmds.len(),
    {
        if cmds.len() == 0 {
            self
        } else {
            self.after_all(cmds.drop_last()).after(cmds.last())
        }
    }

    /// Every command of a series is safe where it comes.
    pub open spec fn permits_all(self, cmds: Seq<Cmd>) -> bool {
        forall|i: int|
            0 <= i < cmds.len() ==> self.after_all(cmds.take(i)).permits(#[trigger] cmds[i])
    }

    /// A command is safe here: nothing but a zero is commanded while torque is
    /// off, and the mode changes only while it is off and nothing is commanded.
    pub open spec fn permits(self, cmd: Cmd) -> bool {
        match cmd {
            Cmd::Write { reg, value } => {
                &&& reg == control::mode() ==> self.torque == 0 && self.idle()
                &&& (reg == control::goal_duty() || reg == control::goal_current() || reg
                    == control::goal_velocity()) && value != 0 ==> self.torque == 1
                &&& reg == control::torque_enable() && value == 0 ==> self.idle()
            },
            _ => true,
        }
    }
}

} // verus!
