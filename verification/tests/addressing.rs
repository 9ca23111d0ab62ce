//! Address-binding and range-length checks against the documented constants.

use lsm303_i2c::device::Lsm303Agr;
use lsm303_i2c::regs::{
    reg_addr, reg_seq_size, Accelerometer, Ctrl, Magnetometer, OutEnd, OutX, OutXH, OutXL, OutXYZ,
    OutY, OutYH, OutYL, OutZ, OutZH, OutZL, WhoAmI, ACC_ADDR, MAG_ADDR,
};
use lsm303_i2c::sim::SimBus;

type Dev = Lsm303Agr<SimBus>;

#[test]
fn slave_addresses_are_documented_constants() {
    assert_eq!(MAG_ADDR, 0b00111100);
    assert_eq!(ACC_ADDR, 0b00110010);
}

#[test]
fn magnetometer_registers_resolve_as_declared() {
    assert_eq!(reg_addr::<Dev, Magnetometer, WhoAmI>(), 0x4f);
    assert_eq!(reg_addr::<Dev, Magnetometer, OutXL>(), 0x68);
    assert_eq!(reg_addr::<Dev, Magnetometer, OutXH>(), 0x69);
    assert_eq!(reg_addr::<Dev, Magnetometer, OutYL>(), 0x6a);
    assert_eq!(reg_addr::<Dev, Magnetometer, OutYH>(), 0x6b);
    assert_eq!(reg_addr::<Dev, Magnetometer, OutZL>(), 0x6c);
    assert_eq!(reg_addr::<Dev, Magnetometer, OutZH>(), 0x6d);
    assert_eq!(reg_addr::<Dev, Magnetometer, OutEnd>(), 0x6e);
}

#[test]
fn accelerometer_registers_resolve_as_declared() {
    assert_eq!(reg_addr::<Dev, Accelerometer, WhoAmI>(), 0x0f);
    assert_eq!(reg_addr::<Dev, Accelerometer, Ctrl>(), 0x20);
    assert_eq!(reg_addr::<Dev, Accelerometer, OutXL>(), 0x28);
    assert_eq!(reg_addr::<Dev, Accelerometer, OutXH>(), 0x29);
    assert_eq!(reg_addr::<Dev, Accelerometer, OutYL>(), 0x2a);
    assert_eq!(reg_addr::<Dev, Accelerometer, OutYH>(), 0x2b);
    assert_eq!(reg_addr::<Dev, Accelerometer, OutZL>(), 0x2c);
    assert_eq!(reg_addr::<Dev, Accelerometer, OutZH>(), 0x2d);
    assert_eq!(reg_addr::<Dev, Accelerometer, OutEnd>(), 0x2e);
}

#[test]
fn range_lengths_are_end_minus_start() {
    assert_eq!(reg_seq_size::<Dev, Magnetometer, OutX>(), 2);
    assert_eq!(reg_seq_size::<Dev, Magnetometer, OutY>(), 2);
    assert_eq!(reg_seq_size::<Dev, Magnetometer, OutZ>(), 2);
    assert_eq!(reg_seq_size::<Dev, Magnetometer, OutXYZ>(), 6);
    assert_eq!(reg_seq_size::<Dev, Accelerometer, OutX>(), 2);
    assert_eq!(reg_seq_size::<Dev, Accelerometer, OutY>(), 2);
    assert_eq!(reg_seq_size::<Dev, Accelerometer, OutZ>(), 2);
    assert_eq!(reg_seq_size::<Dev, Accelerometer, OutXYZ>(), 6);
}
