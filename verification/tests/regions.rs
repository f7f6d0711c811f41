//! The register table: sizes and what seeding writes.

use osc_servo::regions::control::ControlRegs;
use osc_servo::regions::{ControlTableCell, CONTROL_REGION_SIZE, FIRMWARE_VERSION};
use std::mem::size_of;

#[test]
fn region_fits_declared_size() {
    assert_eq!(size_of::<ControlRegs>(), CONTROL_REGION_SIZE as usize);
}

#[test]
fn seed_identity_stamps_the_block() {
    let mut cell = ControlTableCell::new();
    cell.seed_identity(0x0101, 3);
    let t = &cell.table;
    assert_eq!(t.config.common.model_number, 0x0101);
    assert_eq!(t.config.common.hardware_revision, 3);
    assert_eq!(t.config.common.firmware_version, FIRMWARE_VERSION);
}
