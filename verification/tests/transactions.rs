//! The three transaction shapes against the simulated controller: the bytes
//! moved and the exact command sequences issued.

use lsm303_i2c::bus::BusOp;
use lsm303_i2c::device::{Error, Lsm303Agr};
use lsm303_i2c::regs::{Accelerometer, Ctrl, Magnetometer, OutXYZ, WhoAmI, ACC_ADDR, MAG_ADDR};
use lsm303_i2c::sim::SimBus;

fn log_of(dev: &Lsm303Agr<SimBus>) -> Vec<BusOp> {
    let sim = dev.ctl_ref();
    let mut ops = Vec::new();
    let mut i: usize = 0;
    while i < sim.ops_len() {
        ops.push(sim.op_at(i));
        i += 1;
    }
    ops
}

#[test]
fn who_am_i_read_returns_preset_byte() {
    // Scenario: accelerometer WhoAmI resolves to 0x0f; a simulated read of a
    // device that holds 0b00110011 there yields 0x33.
    let mut bus = SimBus::new();
    bus.set_reg(ACC_ADDR, 0x0f, 0b00110011);
    let mut dev = Lsm303Agr::new(bus);
    let byte = dev.read::<Accelerometer, WhoAmI>();
    assert_eq!(byte, 0x33);
}

#[test]
fn single_read_issues_write_pointer_then_repeated_start() {
    let mut bus = SimBus::new();
    bus.set_reg(MAG_ADDR, 0x4f, 0b01000000);
    let mut dev = Lsm303Agr::new(bus);
    let byte = dev.read::<Magnetometer, WhoAmI>();
    assert_eq!(byte, 0x40);
    assert_eq!(
        log_of(&dev),
        vec![
            BusOp::Start { sadd: MAG_ADDR, read: false, nbytes: 1, autoend: false },
            BusOp::Send { byte: 0x4f },
            BusOp::Start { sadd: MAG_ADDR, read: true, nbytes: 1, autoend: true },
            BusOp::Recv { byte: 0x40 },
        ]
    );
}

#[test]
fn read_is_idempotent() {
    // Identity registers are static: two reads with no intervening write
    // return the same byte.
    let mut bus = SimBus::new();
    bus.set_reg(ACC_ADDR, 0x0f, 0x33);
    let mut dev = Lsm303Agr::new(bus);
    let first = dev.read::<Accelerometer, WhoAmI>();
    let second = dev.read::<Accelerometer, WhoAmI>();
    assert_eq!(first, second);
    let (a, b) = dev.read_twice::<Accelerometer, WhoAmI>();
    assert_eq!(a, b);
    assert_eq!(a, 0x33);
}

#[test]
fn write_then_read_round_trips() {
    // Control byte: ODR code 0100 (50 Hz), low-power off, Z, Y and X enabled.
    let mut dev = Lsm303Agr::new(SimBus::new());
    dev.write::<Accelerometer, Ctrl>(0b01000111);
    let byte = dev.read::<Accelerometer, Ctrl>();
    assert_eq!(byte, 0b01000111);
    let echoed = dev.write_then_read::<Accelerometer, Ctrl>(0b01010111);
    assert_eq!(echoed, 0b01010111);
}

#[test]
fn single_write_sends_register_then_value_in_one_transfer() {
    let mut dev = Lsm303Agr::new(SimBus::new());
    dev.write::<Accelerometer, Ctrl>(0b01000111);
    assert_eq!(
        log_of(&dev),
        vec![
            BusOp::Start { sadd: ACC_ADDR, read: false, nbytes: 2, autoend: false },
            BusOp::Send { byte: 0x20 },
            BusOp::Send { byte: 0b01000111 },
        ]
    );
}

#[test]
fn burst_read_fills_buffer_in_register_order() {
    // Scenario: magnetometer OutXYZ into a 6-byte buffer; the device holds
    // [0x01..0x06] across the auto-incrementing burst.
    let mut bus = SimBus::new();
    for (k, v) in [0x01u8, 0x02, 0x03, 0x04, 0x05, 0x06].into_iter().enumerate() {
        bus.set_reg(MAG_ADDR, 0x68 + k as u8, v);
    }
    let mut dev = Lsm303Agr::new(bus);
    let mut buf = vec![0u8; 6];
    let res = dev.read_all::<Magnetometer, OutXYZ>(&mut buf);
    assert!(res.is_ok());
    assert_eq!(buf, vec![0x01, 0x02, 0x03, 0x04, 0x05, 0x06]);

    // Exactly one addressing phase in read direction, with byte count 6 and
    // autoend enabled, after the pointer write; then the six data bytes.
    let log = log_of(&dev);
    assert_eq!(
        log,
        vec![
            BusOp::Start { sadd: MAG_ADDR, read: false, nbytes: 1, autoend: false },
            BusOp::Send { byte: 0x68 | 0x80 },
            BusOp::Start { sadd: MAG_ADDR, read: true, nbytes: 6, autoend: true },
            BusOp::Recv { byte: 0x01 },
            BusOp::Recv { byte: 0x02 },
            BusOp::Recv { byte: 0x03 },
            BusOp::Recv { byte: 0x04 },
            BusOp::Recv { byte: 0x05 },
            BusOp::Recv { byte: 0x06 },
        ]
    );
    let read_phases = log
        .iter()
        .filter(|op| matches!(op, BusOp::Start { read: true, .. }))
        .count();
    assert_eq!(read_phases, 1);
}

#[test]
fn burst_read_leaves_buffer_tail_untouched() {
    let mut bus = SimBus::new();
    bus.set_reg(ACC_ADDR, 0x28, 0xaa);
    let mut dev = Lsm303Agr::new(bus);
    let mut buf = vec![0x55u8; 8];
    let res = dev.read_all::<Accelerometer, OutXYZ>(&mut buf);
    assert!(res.is_ok());
    assert_eq!(buf, vec![0xaa, 0, 0, 0, 0, 0, 0x55, 0x55]);
}

#[test]
fn short_buffer_is_rejected_before_any_bus_activity() {
    // Scenario: a 4-byte buffer for the 6-byte OutXYZ range is rejected and
    // no command reaches the simulated controller.
    let mut bus = SimBus::new();
    bus.set_reg(MAG_ADDR, 0x68, 0x01);
    let mut dev = Lsm303Agr::new(bus);
    let mut buf = vec![0u8; 4];
    let res = dev.read_all::<Magnetometer, OutXYZ>(&mut buf);
    assert_eq!(res, Err(Error::BufferTooSmall));
    assert_eq!(buf, vec![0, 0, 0, 0]);
    assert_eq!(dev.ctl_ref().ops_len(), 0);
}
