//! Encoded kinematics: what calibration stores of the travel.

use vstd::prelude::*;

verus! {

/// Angle endpoints in centi-degrees and the gear ratio x100, as the calibration
/// registers hold them. All-zero is the unset sentinel.
#[derive(Copy, Clone, Debug, PartialEq, Eq, Structural)]
pub struct KinematicsResult {
    pub angle_min_cdeg: i16,
    pub angle_max_cdeg: i16,
    pub gear_ratio_centi: u16,
}

} // verus!
