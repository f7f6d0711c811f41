//! The sense-chain constants that unit conversion starts from.

use vstd::prelude::*;

verus! {

/// Sense-chain constants as read off the servo.
#[derive(Copy, Clone, Debug, PartialEq, Eq, Structural)]
pub struct SenseParams {
    pub shunt_r_mohm: u16,
    pub gain_milli: u16,
    pub vmotor_div_top: u16,
    pub vmotor_div_bot: u16,
    pub vdd_mv: u16,
    pub tick_hz: u16,
}

} // verus!
