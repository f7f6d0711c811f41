//! The driver's side of an experiment: bytes on the wire, the pump that carries
//! commands out, the telemetry read, table write-back, and the record files.

pub mod csv;
pub mod gainset;
pub mod pump;
pub mod reader;
pub mod record;
pub mod restore;
pub mod saved;
pub mod wire;
