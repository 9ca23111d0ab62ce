//! Typed I2C register addressing and a polled bus transaction engine for an
//! LSM303AGR accelerometer/magnetometer pair sharing one bus.
//!
//! The crate has three layers:
//!
//! * [`regs`] — the register address space: slave identities, register
//!   identities and register-range identities, with the compile-time proof
//!   obligations that bind a register to a slave and a range's bounds to the
//!   same slave.
//! * [`bus`] — the register-level model of the bus controller (control,
//!   status and data registers) that the transaction engine drives.
//! * [`device`] — the device facade: `read`, `write` and `read_all`, each a
//!   fixed sequence of controller commands whose contract states the exact
//!   transaction shape and the bytes moved.
//!
//! [`sim`] provides a simulated controller, so the engine can be exercised
//! without hardware, and [`convert`] decodes the little-endian axis words
//! that the output registers hold.

pub mod bus;
pub mod convert;
pub mod device;
pub mod regs;
pub mod sim;
