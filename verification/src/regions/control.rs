//! Control section: the goals and gates the host writes while the servo runs.

use vstd::prelude::*;

verus! {

/// Control mode.
#[derive(Copy, Clone, Debug, PartialEq, Eq, Structural)]
pub enum Mode {
    OpenLoop,
    Current,
    Velocity,
    Position,
}

#[derive(Copy, Clone, Debug, PartialEq, Eq, Structural)]
pub enum BootMode {
    App,
    Bootloader,
}

impl Mode {
    /// The register byte of a mode.
    pub open spec fn byte(self) -> u8 {
        match self {
            Mode::OpenLoop => 0,
            Mode::Current => 1,
            Mode::Velocity => 2,
            Mode::Position => 3,
        }
    }

    pub fn as_byte(self) -> (r: u8)
        ensures
            r == self.byte(),
    {
        match self {
            Mode::OpenLoop => 0,
            Mode::Current => 1,
            Mode::Velocity => 2,
            Mode::Position => 3,
        }
    }

    /// The mode of a register byte; bytes past the last mode name none.
    pub fn from_byte(b: u8) -> (r: Option<Mode>)
        ensures
            match r {
                Some(m) => m.byte() == b,
                None => b > 3,
            },
    {
        if b == 0 {
            Some(Mode::OpenLoop)
        } else if b == 1 {
            Some(Mode::Current)
        } else if b == 2 {
            Some(Mode::Velocity)
        } else if b == 3 {
            Some(Mode::Position)
        } else {
            None
        }
    }
}

impl Default for Mode {
    fn default() -> (r: Self)
        ensures
            r == Mode::OpenLoop,
    {
        Mode::OpenLoop
    }
}

impl Default for BootMode {
    fn default() -> (r: Self)
        ensures
            r == BootMode::App,
    {
        BootMode::App
    }
}

#[derive(Copy, Clone)]
pub struct ControlLifecycle {
    pub torque_enable: bool,
    /// Stream gate, adjacent to `torque_enable`: one two-byte write starts
    /// motion and capture together. The stream runs when this is set and
    /// `tel_mask` is not zero.
    pub tel_enable: bool,
    /// Stream frame layout, one bit per field.
    pub tel_mask: u16,
    pub mode: Mode,
    pub _rsvd_align: u8,
    pub goal_duty: i16,
    /// A goal outside the soft limits runs to the soft wall.
    pub goal_position: i32,
    pub goal_velocity: i32,
    pub goal_current: i16,
    pub _rsvd_tail: [u8; 2],
}

#[derive(Copy, Clone, Debug, PartialEq, Eq, Structural)]
pub struct ControlSystem {
    pub boot_mode: BootMode,
}

#[derive(Copy, Clone)]
pub struct ControlRegs {
    pub lifecycle: ControlLifecycle,
    pub system: ControlSystem,
    pub _rsvd_tail: [u8; 107],
}

impl ControlRegs {
    /// Every register at zero.
    pub open spec fn is_zero(self) -> bool {
        &&& !self.lifecycle.torque_enable
        &&& !self.lifecycle.tel_enable
        &&& self.lifecycle.tel_mask == 0
        &&& self.lifecycle.mode == Mode::OpenLoop
        &&& self.lifecycle._rsvd_align == 0
        &&& self.lifecycle.goal_duty == 0
        &&& self.lifecycle.goal_position == 0
        &&& self.lifecycle.goal_velocity == 0
        &&& self.lifecycle.goal_current == 0
        &&& self.lifecycle._rsvd_tail@ == seq![0u8, 0u8]
        &&& self.system == (ControlSystem { boot_mode: BootMode::App })
        &&& forall|i: int| 0 <= i < 107 ==> self._rsvd_tail@[i] == 0
    }

    /// The all-zero section: torque off, open loop, every goal at zero.
    pub fn zeroed() -> (r: Self)
        ensures
            r.is_zero(),
    {
        ControlRegs {
            lifecycle: ControlLifecycle {
                torque_enable: false,
                tel_enable: false,
                tel_mask: 0,
                mode: Mode::OpenLoop,
                _rsvd_align: 0,
                goal_duty: 0,
                goal_position: 0,
                goal_velocity: 0,
                goal_current: 0,
                _rsvd_tail: [0, 0],
            },
            system: ControlSystem { boot_mode: BootMode::App },
            _rsvd_tail: [0; 107],
        }
    }
}

} // verus!
