//! Calibration: what the end-stop seek and the ripple sweep leave to decide.

pub mod anchor;
pub mod motion;
pub mod replay;
pub mod runs;
pub mod session;
