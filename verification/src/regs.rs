//! The register address space: a compile-time catalogue of slave devices,
//! registers and register ranges.
//!
//! A register identity is meaningful only in the context of a slave: the same
//! name resolves to a different byte address depending on the slave it is
//! declared against, and a pair that was never declared cannot be resolved at
//! all — there is no impl, so the program does not compile. A range is a
//! half-open span `[Start, End)` of consecutive registers; its bounds are
//! register identities of the same slave, so a range cannot mix devices, and
//! each declaration carries a proof that the span is non-empty.

use vstd::prelude::*;

verus! {

/// Bus address byte of the magnetometer: the 7-bit device address in the
/// upper bits, read/write bit clear.
pub const MAG_ADDR: u8 = 0b00111100;

/// Bus address byte of the accelerometer: the 7-bit device address in the
/// upper bits, read/write bit clear.
pub const ACC_ADDR: u8 = 0b00110010;

/// A slave device on the bus of the device family `Of`, with its fixed bus
/// address.
pub trait Slave<Of> {
    /// The device's bus address, constant for the device's lifetime.
    spec fn spec_addr() -> u8;

    /// Returns the device's bus address.
    fn addr() -> (a: u8)
        ensures
            a == Self::spec_addr(),
    ;
}

/// A register of the slave `Of`, with its fixed byte address.
///
/// Each impl of this trait is one intentional (slave, register) declaration;
/// resolving an undeclared pair is a compile-time error.
pub trait Register<Of> {
    /// The register's byte address on `Of`.
    spec fn spec_addr() -> u8;

    /// Register addresses fit in seven bits: the top bit of the sub-address
    /// byte sent on the bus is the burst auto-increment flag, not part of the
    /// address.
    proof fn addr_fits()
        ensures
            Self::spec_addr() < 0x80,
    ;

    /// Returns the register's byte address on `Of`.
    fn addr() -> (a: u8)
        ensures
            a == Self::spec_addr(),
    ;
}

/// A contiguous register range of the slave `Of`: the half-open span from
/// `Start` (inclusive) to `End` (exclusive).
///
/// Both bounds are registers of the same slave `Of`, so a range whose start
/// and end belong to different slaves cannot be declared. The byte length of
/// the range is `End - Start`.
pub trait RegisterSeq<Of> {
    /// First register of the range.
    type Start: Register<Of>;

    /// First register past the range.
    type End: Register<Of>;

    /// Every declared range is non-empty: its exclusive end lies strictly
    /// after its start.
    proof fn start_lt_end()
        ensures
            <Self::Start as Register<Of>>::spec_addr() < <Self::End as Register<Of>>::spec_addr(),
    ;
}

/// The magnetometer on the bus.
pub struct Magnetometer;

/// The accelerometer on the bus.
pub struct Accelerometer;

/// Identification register.
pub struct WhoAmI;

/// Low byte of the X axis output.
pub struct OutXL;

/// High byte of the X axis output.
pub struct OutXH;

/// Low byte of the Y axis output.
pub struct OutYL;

/// High byte of the Y axis output.
pub struct OutYH;

/// Low byte of the Z axis output.
pub struct OutZL;

/// High byte of the Z axis output.
pub struct OutZH;

/// First address past the axis output block; the exclusive end bound of the
/// output ranges.
pub struct OutEnd;

/// Control register of the accelerometer. Its byte is laid out from the top
/// bit down: the output data rate code in the high nibble, then the
/// low-power-mode disable bit, and the Z, Y and X axis enable bits (so
/// `0b0100_0111` selects 50 Hz with all three axes on).
pub struct Ctrl;

/// X axis output range: its low and high bytes.
pub struct OutX;

/// Y axis output range: its low and high bytes.
pub struct OutY;

/// Z axis output range: its low and high bytes.
pub struct OutZ;

/// The whole axis output block: X, Y and Z, low byte first.
pub struct OutXYZ;

impl<B> Slave<crate::device::Lsm303Agr<B>> for Magnetometer {
    open spec fn spec_addr() -> u8 {
        MAG_ADDR
    }

    fn addr() -> u8 {
        MAG_ADDR
    }
}

impl<B> Slave<crate::device::Lsm303Agr<B>> for Accelerometer {
    open spec fn spec_addr() -> u8 {
        ACC_ADDR
    }

    fn addr() -> u8 {
        ACC_ADDR
    }
}

impl Register<Magnetometer> for WhoAmI {
    open spec fn spec_addr() -> u8 {
        0x4f
    }

    proof fn addr_fits() {
    }

    fn addr() -> u8 {
        0x4f
    }
}

impl Register<Accelerometer> for WhoAmI {
    open spec fn spec_addr() -> u8 {
        0x0f
    }

    proof fn addr_fits() {
    }

    fn addr() -> u8 {
        0x0f
    }
}

impl Register<Magnetometer> for OutXL {
    open spec fn spec_addr() -> u8 {
        0x68
    }

    proof fn addr_fits() {
    }

    fn addr() -> u8 {
        0x68
    }
}

impl Register<Accelerometer> for OutXL {
    open spec fn spec_addr() -> u8 {
        0x28
    }

    proof fn addr_fits() {
    }

    fn addr() -> u8 {
        0x28
    }
}

impl Register<Magnetometer> for OutXH {
    open spec fn spec_addr() -> u8 {
        0x69
    }

    proof fn addr_fits() {
    }

    fn addr() -> u8 {
        0x69
    }
}

impl Register<Accelerometer> for OutXH {
    open spec fn spec_addr() -> u8 {
        0x29
    }

    proof fn addr_fits() {
    }

    fn addr() -> u8 {
        0x29
    }
}

impl Register<Magnetometer> for OutYL {
    open spec fn spec_addr() -> u8 {
        0x6a
    }

    proof fn addr_fits() {
    }

    fn addr() -> u8 {
        0x6a
    }
}

impl Register<Accelerometer> for OutYL {
    open spec fn spec_addr() -> u8 {
        0x2a
    }

    proof fn addr_fits() {
    }

    fn addr() -> u8 {
        0x2a
    }
}

impl Register<Magnetometer> for OutYH {
    open spec fn spec_addr() -> u8 {
        0x6b
    }

    proof fn addr_fits() {
    }

    fn addr() -> u8 {
        0x6b
    }
}

impl Register<Accelerometer> for OutYH {
    open spec fn spec_addr() -> u8 {
        0x2b
    }

    proof fn addr_fits() {
    }

    fn addr() -> u8 {
        0x2b
    }
}

impl Register<Magnetometer> for OutZL {
    open spec fn spec_addr() -> u8 {
        0x6c
    }

    proof fn addr_fits() {
    }

    fn addr() -> u8 {
        0x6c
    }
}

impl Register<Accelerometer> for OutZL {
    open spec fn spec_addr() -> u8 {
        0x2c
    }

    proof fn addr_fits() {
    }

    fn addr() -> u8 {
        0x2c
    }
}

impl Register<Magnetometer> for OutZH {
    open spec fn spec_addr() -> u8 {
        0x6d
    }

    proof fn addr_fits() {
    }

    fn addr() -> u8 {
        0x6d
    }
}

impl Register<Accelerometer> for OutZH {
    open spec fn spec_addr() -> u8 {
        0x2d
    }

    proof fn addr_fits() {
    }

    fn addr() -> u8 {
        0x2d
    }
}

impl Register<Magnetometer> for OutEnd {
    open spec fn spec_addr() -> u8 {
        0x6e
    }

    proof fn addr_fits() {
    }

    fn addr() -> u8 {
        0x6e
    }
}

impl Register<Accelerometer> for OutEnd {
    open spec fn spec_addr() -> u8 {
        0x2e
    }

    proof fn addr_fits() {
    }

    fn addr() -> u8 {
        0x2e
    }
}

impl Register<Accelerometer> for Ctrl {
    open spec fn spec_addr() -> u8 {
        0x20
    }

    proof fn addr_fits() {
    }

    fn addr() -> u8 {
        0x20
    }
}

impl RegisterSeq<Magnetometer> for OutX {
    type Start = OutXL;

    type End = OutYL;

    proof fn start_lt_end() {
    }
}

impl RegisterSeq<Accelerometer> for OutX {
    type Start = OutXL;

    type End = OutYL;

    proof fn start_lt_end() {
    }
}

impl RegisterSeq<Magnetometer> for OutY {
    type Start = OutYL;

    type End = OutZL;

    proof fn start_lt_end() {
    }
}

impl RegisterSeq<Accelerometer> for OutY {
    type Start = OutYL;

    type End = OutZL;

    proof fn start_lt_end() {
    }
}

impl RegisterSeq<Magnetometer> for OutZ {
    type Start = OutZL;

    type End = OutEnd;

    proof fn start_lt_end() {
    }
}

impl RegisterSeq<Accelerometer> for OutZ {
    type Start = OutZL;

    type End = OutEnd;

    proof fn start_lt_end() {
    }
}

impl RegisterSeq<Magnetometer> for OutXYZ {
    type Start = OutXL;

    type End = OutEnd;

    proof fn start_lt_end() {
    }
}

impl RegisterSeq<Accelerometer> for OutXYZ {
    type Start = OutXL;

    type End = OutEnd;

    proof fn start_lt_end() {
    }
}

/// Resolves the byte address of register `R` on slave `S`: a declared binding
/// folds to its constant.
pub fn reg_addr<T, S: Slave<T>, R: Register<S>>() -> (a: u8)
    ensures
        a == R::spec_addr(),
{
    R::addr()
}

/// Resolves the byte length of range `R` on slave `S`: the distance from its
/// start register to its exclusive end, always positive.
pub fn reg_seq_size<T, S: Slave<T>, R: RegisterSeq<S>>() -> (n: u8)
    ensures
        n == R::End::spec_addr() - R::Start::spec_addr(),
        0 < n,
{
    proof {
        R::start_lt_end();
    }
    R::End::addr() - R::Start::addr()
}

} // verus!
