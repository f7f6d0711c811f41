//! Servo control core: the state observer, the profile generator and the
//! position loop of a cascaded servo controller, the tick sequence that ties
//! them together, and the sans-io experiments and host tooling that identify
//! and calibrate the motor it drives.

pub mod cal;
pub mod cli;
pub mod driver;
pub mod estimator;
pub mod exp;
pub mod frame;
pub mod gains;
pub mod kernel;
pub mod kinematics;
pub mod lut;
pub mod math;
pub mod regions;
pub mod regs;
pub mod slip;
pub mod text;
pub mod units;
