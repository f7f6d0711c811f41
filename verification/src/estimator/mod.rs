//! State estimation from the pot, the shunt and the back-EMF.

pub mod fusion;
pub mod laws;
