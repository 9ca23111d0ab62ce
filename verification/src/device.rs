//! The device facade: binds a device identity to a bus controller and
//! exposes `read`, `write` and `read_all` over the register address space.
//!
//! Each transaction is a fixed sequence of controller commands; the contract
//! of each method states that sequence exactly, together with the bytes
//! moved, so the three transfer shapes of the protocol — single read, single
//! write, burst read — are pinned down against any controller that honours
//! the [`BusCtl`] contracts.

use vstd::prelude::*;

use crate::bus::{bus_ready, unchanged_mem, unchanged_slaves, BusCtl, BusOp, Phase};
use crate::regs::{Register, RegisterSeq, Slave};

verus! {

/// Rejection raised before any bus activity.
#[derive(Clone, Copy, PartialEq, Eq, Debug, Structural)]
pub enum Error {
    /// The destination buffer is shorter than the resolved range length.
    BufferTooSmall,
}

/// The command sequence of a single-register read: address the slave for one
/// written byte (the sub-address), send it, repeated START in read direction
/// for one byte with autoend, consume the byte.
pub open spec fn single_read_ops(sadd: u8, sub: u8, byte: u8) -> Seq<BusOp> {
    seq![
        BusOp::Start { sadd, read: false, nbytes: 1, autoend: false },
        BusOp::Send { byte: sub },
        BusOp::Start { sadd, read: true, nbytes: 1, autoend: true },
        BusOp::Recv { byte },
    ]
}

/// The command sequence of a single-register write: address the slave for
/// two written bytes, send the sub-address, send the value; no repeated
/// START.
pub open spec fn single_write_ops(sadd: u8, sub: u8, byte: u8) -> Seq<BusOp> {
    seq![
        BusOp::Start { sadd, read: false, nbytes: 2, autoend: false },
        BusOp::Send { byte: sub },
        BusOp::Send { byte },
    ]
}

/// The command sequence of a burst read of `n` bytes: address the slave for
/// one written byte, send the start sub-address with the auto-increment bit
/// set, repeated START in read direction for `n` bytes with autoend, consume
/// the `n` bytes in order.
pub open spec fn burst_read_ops(sadd: u8, sub: u8, n: u8, bytes: Seq<u8>) -> Seq<BusOp> {
    seq![
        BusOp::Start { sadd, read: false, nbytes: 1, autoend: false },
        BusOp::Send { byte: (sub | 0x80) },
        BusOp::Start { sadd, read: true, nbytes: n, autoend: true },
    ] + Seq::new(bytes.len(), |j: int| BusOp::Recv { byte: bytes[j] })
}

/// The `n` bytes held by the consecutive registers `sub`, `sub + 1`, … of
/// the slave addressed by `sadd`.
pub open spec fn reg_bytes<B: BusCtl>(b: B, sadd: u8, sub: u8, n: int) -> Seq<u8> {
    Seq::new(n as nat, |j: int| b.mem_at(sadd, (sub + j) as u8))
}

/// Facade over the bus controller `B` for the LSM303AGR pair.
pub struct Lsm303Agr<B> {
    i2c: B,
}

impl<B: BusCtl> Lsm303Agr<B> {
    /// The controller model behind this facade.
    pub closed spec fn ctl(self) -> B {
        self.i2c
    }

    /// Wraps a bus controller.
    pub fn new(i2c: B) -> (d: Self)
        ensures
            d.ctl() == i2c,
    {
        Lsm303Agr { i2c }
    }

    /// Borrows the controller, e.g. to inspect a simulated one after a
    /// transaction.
    pub fn ctl_ref(&self) -> (b: &B)
        ensures
            *b == self.ctl(),
    {
        &self.i2c
    }

    /// Reads register `R` of slave `S`: one single-read transaction at the
    /// addresses the catalogue declares for the pair. Returns the register's
    /// byte; no register content changes and the bus ends idle.
    pub fn read<S: Slave<Self>, R: Register<S>>(&mut self) -> (r: u8)
        requires
            old(self).ctl().inv(),
            bus_ready(old(self).ctl().phase()),
            old(self).ctl().has_slave(S::spec_addr()),
        ensures
            final(self).ctl().inv(),
            final(self).ctl().phase() == Phase::Idle,
            r == old(self).ctl().mem_at(S::spec_addr(), R::spec_addr()),
            unchanged_mem(old(self).ctl(), final(self).ctl()),
            unchanged_slaves(old(self).ctl(), final(self).ctl()),
            final(self).ctl().ptr_of(S::spec_addr()) == R::spec_addr(),
            !final(self).ctl().inc_of(S::spec_addr()),
            forall|s: u8|
                s != S::spec_addr() ==> final(self).ctl().ptr_of(s) == old(self).ctl().ptr_of(s)
                    && final(self).ctl().inc_of(s) == old(self).ctl().inc_of(s),
            final(self).ctl().ops() == old(self).ctl().ops() + single_read_ops(
                S::spec_addr(),
                R::spec_addr(),
                r,
            ),
    {
        proof {
            R::addr_fits();
        }
        let slave = S::addr();
        let register = R::addr();
        self.read_single(slave, register)
    }

    /// Writes `byte` to register `R` of slave `S`: one single-write
    /// transaction. Exactly that register changes; the transfer completes
    /// without a STOP, holding the bus for the next START.
    pub fn write<S: Slave<Self>, R: Register<S>>(&mut self, byte: u8)
        requires
            old(self).ctl().inv(),
            bus_ready(old(self).ctl().phase()),
            old(self).ctl().has_slave(S::spec_addr()),
        ensures
            final(self).ctl().inv(),
            bus_ready(final(self).ctl().phase()),
            final(self).ctl().mem_at(S::spec_addr(), R::spec_addr()) == byte,
            forall|s: u8, r: u8|
                !(s == S::spec_addr() && r == R::spec_addr()) ==> final(self).ctl().mem_at(s, r)
                    == old(self).ctl().mem_at(s, r),
            unchanged_slaves(old(self).ctl(), final(self).ctl()),
            final(self).ctl().ptr_of(S::spec_addr()) == R::spec_addr(),
            !final(self).ctl().inc_of(S::spec_addr()),
            forall|s: u8|
                s != S::spec_addr() ==> final(self).ctl().ptr_of(s) == old(self).ctl().ptr_of(s)
                    && final(self).ctl().inc_of(s) == old(self).ctl().inc_of(s),
            final(self).ctl().ops() == old(self).ctl().ops() + single_write_ops(
                S::spec_addr(),
                R::spec_addr(),
                byte,
            ),
    {
        proof {
            R::addr_fits();
        }
        let slave = S::addr();
        let register = R::addr();
        self.write_single(slave, register, byte)
    }

    /// Reads the range `R` of slave `S` into the front of `data`: one burst
    /// transaction of the range's length, filling `data` in increasing
    /// register-address order, low address first. Rejected before any bus
    /// activity when `data` is shorter than the range.
    pub fn read_all<S: Slave<Self>, R: RegisterSeq<S>>(&mut self, data: &mut Vec<u8>) -> (res:
        Result<(), Error>)
        requires
            old(self).ctl().inv(),
            bus_ready(old(self).ctl().phase()),
            old(self).ctl().has_slave(S::spec_addr()),
        ensures
            final(self).ctl().inv(),
            unchanged_mem(old(self).ctl(), final(self).ctl()),
            unchanged_slaves(old(self).ctl(), final(self).ctl()),
            res is Ok <==> old(data).len() >= R::End::spec_addr() - R::Start::spec_addr(),
            res is Err ==> res == Err::<(), Error>(Error::BufferTooSmall),
            res is Err ==> *final(self) == *old(self) && final(data)@ == old(data)@,
            res is Ok ==> final(self).ctl().phase() == Phase::Idle,
            res is Ok ==> final(data).len() == old(data).len(),
            res is Ok ==> forall|j: int|
                0 <= j < R::End::spec_addr() - R::Start::spec_addr() ==> final(data)@[j] == old(self).ctl().mem_at(S::spec_addr(), (R::Start::spec_addr() + j) as u8),
            res is Ok ==> forall|j: int|
                R::End::spec_addr() - R::Start::spec_addr() <= j < old(data).len() ==> final(data)@[j] == old(data)@[j],
            res is Ok ==> final(self).ctl().ops() == old(self).ctl().ops() + burst_read_ops(
                S::spec_addr(),
                R::Start::spec_addr(),
                (R::End::spec_addr() - R::Start::spec_addr()) as u8,
                reg_bytes(
                    old(self).ctl(),
                    S::spec_addr(),
                    R::Start::spec_addr(),
                    R::End::spec_addr() - R::Start::spec_addr(),
                ),
            ),
    {
        let len = crate::regs::reg_seq_size::<Self, S, R>();
        proof {
            R::start_lt_end();
            R::Start::addr_fits();
            R::End::addr_fits();
        }
        if (len as usize) > data.len() {
            return Err(Error::BufferTooSmall);
        }
        let slave = S::addr();
        let start = R::Start::addr();
        self.read_many(slave, start, data, len as usize);
        Ok(())
    }

    /// Identity registers are static: two reads of the same register with no
    /// intervening write return the same byte. The pair holds the two bytes,
    /// in order.
    pub fn read_twice<S: Slave<Self>, R: Register<S>>(&mut self) -> (pair: (u8, u8))
        requires
            old(self).ctl().inv(),
            bus_ready(old(self).ctl().phase()),
            old(self).ctl().has_slave(S::spec_addr()),
        ensures
            pair.0 == pair.1,
            pair.0 == old(self).ctl().mem_at(S::spec_addr(), R::spec_addr()),
            final(self).ctl().inv(),
            final(self).ctl().phase() == Phase::Idle,
            unchanged_mem(old(self).ctl(), final(self).ctl()),
            unchanged_slaves(old(self).ctl(), final(self).ctl()),
    {
        let a = self.read::<S, R>();
        let b = self.read::<S, R>();
        (a, b)
    }

    /// Round trip: writing a byte to a register and then reading the same
    /// register through the transaction engine yields the written byte.
    pub fn write_then_read<S: Slave<Self>, R: Register<S>>(&mut self, byte: u8) -> (r: u8)
        requires
            old(self).ctl().inv(),
            bus_ready(old(self).ctl().phase()),
            old(self).ctl().has_slave(S::spec_addr()),
        ensures
            r == byte,
            final(self).ctl().inv(),
            final(self).ctl().phase() == Phase::Idle,
            final(self).ctl().mem_at(S::spec_addr(), R::spec_addr()) == byte,
            unchanged_slaves(old(self).ctl(), final(self).ctl()),
    {
        self.write::<S, R>(byte);
        self.read::<S, R>()
    }

    /// Single read against the controller: write the register sub-address,
    /// repeated START, read one byte, STOP by autoend.
    fn read_single(&mut self, slave: u8, register: u8) -> (r: u8)
        requires
            old(self).ctl().inv(),
            bus_ready(old(self).ctl().phase()),
            old(self).ctl().has_slave(slave),
            register < 0x80,
        ensures
            final(self).ctl().inv(),
            final(self).ctl().phase() == Phase::Idle,
            r == old(self).ctl().mem_at(slave, register),
            unchanged_mem(old(self).ctl(), final(self).ctl()),
            unchanged_slaves(old(self).ctl(), final(self).ctl()),
            final(self).ctl().ptr_of(slave) == register,
            !final(self).ctl().inc_of(slave),
            forall|s: u8|
                s != slave ==> final(self).ctl().ptr_of(s) == old(self).ctl().ptr_of(s) && final(self).ctl().inc_of(s) == old(self).ctl().inc_of(s),
            final(self).ctl().ops() == old(self).ctl().ops() + single_read_ops(slave, register, r),
    {
        self.i2c.start_transfer(slave, false, 1, false);
        self.i2c.wait_txis();
        self.i2c.write_data(register);
        self.i2c.wait_tc();
        self.i2c.start_transfer(slave, true, 1, true);
        self.i2c.wait_rxne();
        let r = self.i2c.read_data();
        proof {
            assert(register % 0x80 == register);
            assert(self.ctl().ops() =~= old(self).ctl().ops() + single_read_ops(
                slave,
                register,
                r,
            ));
        }
        r
    }

    /// Single write against the controller: one transfer of two bytes — the
    /// register sub-address, then the value — with no repeated START; the
    /// transfer-complete wait ends the transaction.
    fn write_single(&mut self, slave: u8, register: u8, byte: u8)
        requires
            old(self).ctl().inv(),
            bus_ready(old(self).ctl().phase()),
            old(self).ctl().has_slave(slave),
            register < 0x80,
        ensures
            final(self).ctl().inv(),
            final(self).ctl().phase() == (Phase::Tx { sadd: slave, remaining: 0, sub_done: true }),
            final(self).ctl().mem_at(slave, register) == byte,
            forall|s: u8, r: u8|
                !(s == slave && r == register) ==> final(self).ctl().mem_at(s, r) == old(self).ctl().mem_at(s, r),
            unchanged_slaves(old(self).ctl(), final(self).ctl()),
            final(self).ctl().ptr_of(slave) == register,
            !final(self).ctl().inc_of(slave),
            forall|s: u8|
                s != slave ==> final(self).ctl().ptr_of(s) == old(self).ctl().ptr_of(s) && final(self).ctl().inc_of(s) == old(self).ctl().inc_of(s),
            final(self).ctl().ops() == old(self).ctl().ops() + single_write_ops(
                slave,
                register,
                byte,
            ),
    {
        self.i2c.start_transfer(slave, false, 2, false);
        self.i2c.wait_txis();
        self.i2c.write_data(register);
        self.i2c.wait_txis();
        self.i2c.write_data(byte);
        self.i2c.wait_tc();
        proof {
            assert(register % 0x80 == register);
            assert(self.ctl().ops() =~= old(self).ctl().ops() + single_write_ops(
                slave,
                register,
                byte,
            ));
        }
    }

    /// Burst read against the controller: write the start sub-address with
    /// its top bit set (the device then auto-increments across the burst),
    /// repeated START in read direction for `n` bytes with autoend, and
    /// consume the bytes in register-address order into `data[0..n]`.
    #[verifier::loop_isolation(false)]
    fn read_many(&mut self, slave: u8, start_reg: u8, data: &mut Vec<u8>, n: usize)
        requires
            old(self).ctl().inv(),
            bus_ready(old(self).ctl().phase()),
            old(self).ctl().has_slave(slave),
            0 < n <= 0xff,
            n <= old(data).len(),
            start_reg + n <= 0x80,
        ensures
            final(self).ctl().inv(),
            final(self).ctl().phase() == Phase::Idle,
            final(data).len() == old(data).len(),
            forall|j: int|
                0 <= j < n ==> final(data)@[j] == old(self).ctl().mem_at(
                    slave,
                    (start_reg + j) as u8,
                ),
            forall|j: int| n <= j < old(data).len() ==> final(data)@[j] == old(data)@[j],
            unchanged_mem(old(self).ctl(), final(self).ctl()),
            unchanged_slaves(old(self).ctl(), final(self).ctl()),
            final(self).ctl().ptr_of(slave) as int == (start_reg + n) % 0x80,
            final(self).ctl().inc_of(slave),
            forall|s: u8|
                s != slave ==> final(self).ctl().ptr_of(s) == old(self).ctl().ptr_of(s) && final(self).ctl().inc_of(s) == old(self).ctl().inc_of(s),
            final(self).ctl().ops() == old(self).ctl().ops() + burst_read_ops(
                slave,
                start_reg,
                n as u8,
                reg_bytes(old(self).ctl(), slave, start_reg, n as int),
            ),
    {
        self.i2c.start_transfer(slave, false, 1, false);
        self.i2c.wait_txis();
        self.i2c.write_data(start_reg | 0x80);
        proof {
            assert((start_reg | 0x80) % 0x80 == start_reg && (start_reg | 0x80) >= 0x80)
                by (bit_vector)
                requires
                    start_reg < 0x80,
            ;
        }
        self.i2c.wait_tc();
        self.i2c.start_transfer(slave, true, n as u8, true);
        let ghost b0 = self.ctl();
        let ghost d0 = data@;
        let mut i: usize = 0;
        while i < n
            invariant
                i <= n,
                self.ctl().inv(),
                self.ctl().phase() == (if i < n {
                    Phase::Rx { sadd: slave, remaining: (n - i) as u8, autoend: true }
                } else {
                    Phase::Idle
                }),
                self.ctl().ptr_of(slave) as int == (start_reg + i) % 0x80,
                self.ctl().inc_of(slave),
                forall|s: u8|
                    s != slave ==> self.ctl().ptr_of(s) == b0.ptr_of(s) && self.ctl().inc_of(s)
                        == b0.inc_of(s),
                unchanged_mem(b0, self.ctl()),
                unchanged_slaves(b0, self.ctl()),
                self.ctl().ops() == b0.ops() + Seq::new(
                    i as nat,
                    |j: int| BusOp::Recv { byte: b0.mem_at(slave, (start_reg + j) as u8) },
                ),
                data@.len() == d0.len(),
                forall|j: int| 0 <= j < i ==> data@[j] == b0.mem_at(slave, (start_reg + j) as u8),
                forall|j: int| i <= j < d0.len() ==> data@[j] == d0[j],
            decreases n - i,
        {
            proof {
                assert((start_reg + i) % 0x80 == start_reg + i);
            }
            self.i2c.wait_rxne();
            let b = self.i2c.read_data();
            data.set(i, b);
            proof {
                assert(self.ctl().ops() =~= b0.ops() + Seq::new(
                    (i + 1) as nat,
                    |j: int| BusOp::Recv { byte: b0.mem_at(slave, (start_reg + j) as u8) },
                ));
            }
            i = i + 1;
        }
        proof {
            assert(self.ctl().ops() =~= old(self).ctl().ops() + burst_read_ops(
                slave,
                start_reg,
                n as u8,
                reg_bytes(old(self).ctl(), slave, start_reg, n as int),
            ));
        }
    }
}

} // verus!
