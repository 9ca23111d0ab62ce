//! A simulated bus controller: the two sensors of the catalogue behind a
//! controller that is always ready, with a log of every command issued.
//!
//! The simulation implements [`BusCtl`] exactly as its contracts state it, so
//! the transaction engine runs against it unchanged; tests preset register
//! bytes with [`SimBus::set_reg`] and inspect the command log afterwards.

use vstd::prelude::*;

use crate::bus::{BusCtl, BusOp, Phase};
use crate::regs::{ACC_ADDR, MAG_ADDR};

verus! {

/// Simulated controller with the magnetometer and the accelerometer on the
/// bus. Each slave has a 128-byte register file, a register pointer and an
/// auto-increment flag.
pub struct SimBus {
    mag: Vec<u8>,
    acc: Vec<u8>,
    mag_ptr: u8,
    acc_ptr: u8,
    mag_inc: bool,
    acc_inc: bool,
    ph: Phase,
    log: Vec<BusOp>,
}

impl BusCtl for SimBus {
    closed spec fn inv(&self) -> bool {
        &&& self.mag@.len() == 0x80
        &&& self.acc@.len() == 0x80
        &&& self.mag_ptr < 0x80
        &&& self.acc_ptr < 0x80
        &&& match self.ph {
            Phase::Idle => true,
            Phase::Tx { sadd, .. } => sadd == MAG_ADDR || sadd == ACC_ADDR,
            Phase::Rx { sadd, .. } => sadd == MAG_ADDR || sadd == ACC_ADDR,
        }
    }

    closed spec fn has_slave(&self, sadd: u8) -> bool {
        sadd == MAG_ADDR || sadd == ACC_ADDR
    }

    closed spec fn mem_at(&self, sadd: u8, reg: u8) -> u8 {
        if sadd == MAG_ADDR && reg < 0x80 {
            self.mag@[reg as int]
        } else if sadd == ACC_ADDR && reg < 0x80 {
            self.acc@[reg as int]
        } else {
            0
        }
    }

    closed spec fn phase(&self) -> Phase {
        self.ph
    }

    closed spec fn ptr_of(&self, sadd: u8) -> u8 {
        if sadd == MAG_ADDR {
            self.mag_ptr
        } else if sadd == ACC_ADDR {
            self.acc_ptr
        } else {
            0
        }
    }

    closed spec fn inc_of(&self, sadd: u8) -> bool {
        if sadd == MAG_ADDR {
            self.mag_inc
        } else if sadd == ACC_ADDR {
            self.acc_inc
        } else {
            false
        }
    }

    closed spec fn ops(&self) -> Seq<BusOp> {
        self.log@
    }

    fn start_transfer(&mut self, sadd: u8, read: bool, nbytes: u8, autoend: bool) {
        if read {
            self.ph = Phase::Rx { sadd, remaining: nbytes, autoend };
        } else {
            self.ph = Phase::Tx { sadd, remaining: nbytes, sub_done: false };
        }
        self.log.push(BusOp::Start { sadd, read, nbytes, autoend });
    }

    fn wait_txis(&self) {
    }

    fn wait_tc(&self) {
    }

    fn wait_rxne(&self) {
    }

    fn write_data(&mut self, byte: u8) {
        match self.ph {
            Phase::Tx { sadd, remaining, sub_done } => {
                if !sub_done {
                    if sadd == MAG_ADDR {
                        self.mag_ptr = byte % 0x80;
                        self.mag_inc = byte >= 0x80;
                    } else {
                        self.acc_ptr = byte % 0x80;
                        self.acc_inc = byte >= 0x80;
                    }
                } else {
                    if sadd == MAG_ADDR {
                        self.mag.set(self.mag_ptr as usize, byte);
                        if self.mag_inc {
                            self.mag_ptr = (self.mag_ptr + 1) % 0x80;
                        }
                    } else {
                        self.acc.set(self.acc_ptr as usize, byte);
                        if self.acc_inc {
                            self.acc_ptr = (self.acc_ptr + 1) % 0x80;
                        }
                    }
                }
                self.ph = Phase::Tx { sadd, remaining: remaining - 1, sub_done: true };
                self.log.push(BusOp::Send { byte });
            },
            _ => {
            },
        }
    }

    fn read_data(&mut self) -> (r: u8) {
        match self.ph {
            Phase::Rx { sadd, remaining, autoend } => {
                let byte: u8;
                if sadd == MAG_ADDR {
                    byte = self.mag[self.mag_ptr as usize];
                    if self.mag_inc {
                        self.mag_ptr = (self.mag_ptr + 1) % 0x80;
                    }
                } else {
                    byte = self.acc[self.acc_ptr as usize];
                    if self.acc_inc {
                        self.acc_ptr = (self.acc_ptr + 1) % 0x80;
                    }
                }
                if remaining == 1 && autoend {
                    self.ph = Phase::Idle;
                } else {
                    self.ph = Phase::Rx { sadd, remaining: remaining - 1, autoend };
                }
                self.log.push(BusOp::Recv { byte });
                byte
            },
            _ => 0,
        }
    }
}

impl SimBus {
    /// A bus with both sensors present, every register byte zero, both
    /// register pointers at zero and the bus idle.
    pub fn new() -> (b: SimBus)
        ensures
            b.inv(),
            b.phase() == Phase::Idle,
            b.ops().len() == 0,
            forall|s: u8, r: u8| b.mem_at(s, r) == 0,
            forall|s: u8| b.has_slave(s) <==> (s == MAG_ADDR || s == ACC_ADDR),
            forall|s: u8| b.ptr_of(s) == 0,
            forall|s: u8| !b.inc_of(s),
    {
        let mut mag: Vec<u8> = Vec::new();
        let mut acc: Vec<u8> = Vec::new();
        let mut i: usize = 0;
        while i < 0x80
            invariant
                i <= 0x80,
                mag@.len() == i,
                acc@.len() == i,
                forall|j: int| 0 <= j < i ==> mag@[j] == 0,
                forall|j: int| 0 <= j < i ==> acc@[j] == 0,
            decreases 0x80 - i,
        {
            mag.push(0);
            acc.push(0);
            i = i + 1;
        }
        SimBus {
            mag,
            acc,
            mag_ptr: 0,
            acc_ptr: 0,
            mag_inc: false,
            acc_inc: false,
            ph: Phase::Idle,
            log: Vec::new(),
        }
    }

    /// Test fixture: stores `val` in register `reg` of the slave addressed by
    /// `sadd`, without any bus traffic. Addresses outside the catalogue and
    /// registers outside the seven-bit space are ignored.
    pub fn set_reg(&mut self, sadd: u8, reg: u8, val: u8)
        requires
            old(self).inv(),
        ensures
            final(self).inv(),
            final(self).phase() == old(self).phase(),
            final(self).ops() == old(self).ops(),
            forall|s: u8| final(self).has_slave(s) == old(self).has_slave(s),
            forall|s: u8| final(self).ptr_of(s) == old(self).ptr_of(s),
            forall|s: u8| final(self).inc_of(s) == old(self).inc_of(s),
            old(self).has_slave(sadd) && reg < 0x80 ==> final(self).mem_at(sadd, reg) == val,
            forall|s: u8, r: u8|
                !(s == sadd && r == reg) ==> final(self).mem_at(s, r) == old(self).mem_at(s, r),
            !(old(self).has_slave(sadd) && reg < 0x80) ==> final(self).mem_at(sadd, reg) == old(
                self,
            ).mem_at(sadd, reg),
    {
        if reg < 0x80 {
            if sadd == MAG_ADDR {
                self.mag.set(reg as usize, val);
            } else if sadd == ACC_ADDR {
                self.acc.set(reg as usize, val);
            }
        }
    }

    /// Number of controller commands issued so far.
    pub fn ops_len(&self) -> (n: usize)
        ensures
            n == self.ops().len(),
    {
        self.log.len()
    }

    /// The `i`-th controller command issued.
    pub fn op_at(&self, i: usize) -> (op: BusOp)
        requires
            i < self.ops().len(),
        ensures
            op == self.ops()[i as int],
    {
        self.log[i]
    }
}

} // verus!
