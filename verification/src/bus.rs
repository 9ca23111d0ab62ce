//! Register-level model of the I2C bus controller.
//!
//! The transaction engine drives the controller through five operations:
//! programming the addressing phase (slave address, direction, byte count,
//! autoend, START), busy-waiting on the status flags TXIS, TC and RXNE, and
//! moving bytes through the transmit and receive data registers. [`BusCtl`]
//! gives each operation a contract over an abstract controller state: the
//! transaction [`Phase`], the register contents of the slaves behind the bus,
//! each slave's register pointer and auto-increment flag, and a log of the
//! commands issued. The engine is verified against these contracts alone, so
//! it drives any controller that honours them the same way.

use vstd::prelude::*;

verus! {

/// One controller command, as the transaction log records it.
#[derive(Clone, Copy, PartialEq, Eq, Debug, Structural)]
pub enum BusOp {
    /// Addressing phase programmed and START raised.
    Start { sadd: u8, read: bool, nbytes: u8, autoend: bool },
    /// One byte written to the transmit data register.
    Send { byte: u8 },
    /// One byte consumed from the receive data register.
    Recv { byte: u8 },
}

/// The controller's transaction state.
#[derive(Clone, Copy)]
pub enum Phase {
    /// Bus free: no transfer in progress, STOP issued.
    Idle,
    /// Write transfer: `remaining` bytes still expected in the transmit data
    /// register; `sub_done` once the first of them — the register
    /// sub-address — has been sent. With `remaining == 0` the transfer is
    /// complete (TC) and the bus is held for a repeated START.
    Tx { sadd: u8, remaining: u8, sub_done: bool },
    /// Read transfer: `remaining` bytes still to consume from the receive
    /// data register; with `autoend` the controller issues STOP by itself
    /// after the last one.
    Rx { sadd: u8, remaining: u8, autoend: bool },
}

/// The bus is free for a new transfer: idle, or holding a completed write
/// transfer from which a repeated START may follow.
pub open spec fn bus_ready(p: Phase) -> bool {
    match p {
        Phase::Idle => true,
        Phase::Tx { remaining, .. } => remaining == 0,
        Phase::Rx { .. } => false,
    }
}

/// A write transfer still expects bytes.
pub open spec fn tx_pending(p: Phase) -> bool {
    match p {
        Phase::Tx { remaining, .. } => remaining > 0,
        _ => false,
    }
}

/// A write transfer has sent all its bytes: the transfer-complete flag rises.
pub open spec fn tx_done(p: Phase) -> bool {
    match p {
        Phase::Tx { remaining, .. } => remaining == 0,
        _ => false,
    }
}

/// A read transfer still has bytes to deliver.
pub open spec fn rx_pending(p: Phase) -> bool {
    match p {
        Phase::Rx { remaining, .. } => remaining > 0,
        _ => false,
    }
}

/// The slave address of the transfer in progress.
pub open spec fn p_sadd(p: Phase) -> u8 {
    match p {
        Phase::Tx { sadd, .. } => sadd,
        Phase::Rx { sadd, .. } => sadd,
        Phase::Idle => 0,
    }
}

/// Bytes still to move in the transfer in progress.
pub open spec fn p_rem(p: Phase) -> u8 {
    match p {
        Phase::Tx { remaining, .. } => remaining,
        Phase::Rx { remaining, .. } => remaining,
        Phase::Idle => 0,
    }
}

/// Whether the sub-address byte of a write transfer has been sent.
pub open spec fn p_sub_done(p: Phase) -> bool {
    match p {
        Phase::Tx { sub_done, .. } => sub_done,
        _ => true,
    }
}

/// Whether the read transfer in progress ends with an automatic STOP.
pub open spec fn p_autoend(p: Phase) -> bool {
    match p {
        Phase::Rx { autoend, .. } => autoend,
        _ => false,
    }
}

/// No slave register changed between two controller states.
pub open spec fn unchanged_mem<B: BusCtl>(pre: B, post: B) -> bool {
    forall|s: u8, r: u8| post.mem_at(s, r) == pre.mem_at(s, r)
}

/// The set of slaves on the bus did not change between two controller states.
pub open spec fn unchanged_slaves<B: BusCtl>(pre: B, post: B) -> bool {
    forall|s: u8| post.has_slave(s) == pre.has_slave(s)
}

/// The bus controller's register interface together with the slaves behind
/// it.
///
/// Waiting on a status flag observes the state without changing it; in a
/// simulated controller the flag is simply already up, on hardware the call
/// spins until the controller raises it — addressing a slave that never
/// answers blocks forever, which is why every transfer requires
/// `has_slave(sadd)`.
pub trait BusCtl: Sized {
    /// Well-formedness of the controller state; established by constructors,
    /// preserved by every operation.
    spec fn inv(&self) -> bool;

    /// Whether a slave with bus address `sadd` answers on the bus.
    spec fn has_slave(&self, sadd: u8) -> bool;

    /// Contents of register `reg` of the slave addressed by `sadd`.
    spec fn mem_at(&self, sadd: u8, reg: u8) -> u8;

    /// The controller's transaction state.
    spec fn phase(&self) -> Phase;

    /// Register pointer of the slave addressed by `sadd`.
    spec fn ptr_of(&self, sadd: u8) -> u8;

    /// Auto-increment flag of the slave addressed by `sadd`.
    spec fn inc_of(&self, sadd: u8) -> bool;

    /// Log of the controller commands issued so far.
    spec fn ops(&self) -> Seq<BusOp>;

    /// Program the addressing phase — slave address, direction, byte count,
    /// autoend — and raise START (a repeated START when the bus is held by a
    /// completed write transfer).
    fn start_transfer(&mut self, sadd: u8, read: bool, nbytes: u8, autoend: bool)
        requires
            old(self).inv(),
            bus_ready(old(self).phase()),
            old(self).has_slave(sadd),
            nbytes > 0,
            !read ==> !autoend,
        ensures
            final(self).inv(),
            final(self).phase() == (if read {
                Phase::Rx { sadd, remaining: nbytes, autoend }
            } else {
                Phase::Tx { sadd, remaining: nbytes, sub_done: false }
            }),
            forall|s: u8, r: u8| final(self).mem_at(s, r) == old(self).mem_at(s, r),
            forall|s: u8| final(self).has_slave(s) == old(self).has_slave(s),
            forall|s: u8| final(self).ptr_of(s) == old(self).ptr_of(s),
            forall|s: u8| final(self).inc_of(s) == old(self).inc_of(s),
            final(self).ops() == old(self).ops().push(BusOp::Start { sadd, read, nbytes, autoend }),
    ;

    /// Busy-wait until the controller is ready for the next transmit byte
    /// (TXIS).
    fn wait_txis(&self)
        requires
            self.inv(),
            tx_pending(self.phase()),
    ;

    /// Busy-wait until a write transfer without autoend has moved all its
    /// bytes (TC); the bus is then held for a repeated START.
    fn wait_tc(&self)
        requires
            self.inv(),
            tx_done(self.phase()),
    ;

    /// Busy-wait until a received byte is available (RXNE).
    fn wait_rxne(&self)
        requires
            self.inv(),
            rx_pending(self.phase()),
    ;

    /// Write one byte to the transmit data register. The first byte of a
    /// write transfer is the register sub-address, every later byte is data.
    fn write_data(&mut self, byte: u8)
        requires
            old(self).inv(),
            tx_pending(old(self).phase()),
        ensures
            final(self).inv(),
            final(self).phase() == (Phase::Tx {
                sadd: p_sadd(old(self).phase()),
                remaining: (p_rem(old(self).phase()) - 1) as u8,
                sub_done: true,
            }),
            !p_sub_done(old(self).phase()) ==> final(self).ptr_of(p_sadd(old(self).phase()))
                == byte % 0x80,
            !p_sub_done(old(self).phase()) ==> final(self).inc_of(p_sadd(old(self).phase())) == (
            byte >= 0x80),
            !p_sub_done(old(self).phase()) ==> forall|s: u8, r: u8|
                final(self).mem_at(s, r) == old(self).mem_at(s, r),
            !p_sub_done(old(self).phase()) ==> forall|s: u8|
                s != p_sadd(old(self).phase()) ==> final(self).ptr_of(s) == old(self).ptr_of(s)
                    && final(self).inc_of(s) == old(self).inc_of(s),
            p_sub_done(old(self).phase()) ==> final(self).mem_at(
                p_sadd(old(self).phase()),
                old(self).ptr_of(p_sadd(old(self).phase())),
            ) == byte,
            p_sub_done(old(self).phase()) ==> forall|s: u8, r: u8|
                !(s == p_sadd(old(self).phase()) && r == old(self).ptr_of(
                    p_sadd(old(self).phase()),
                )) ==> final(self).mem_at(s, r) == old(self).mem_at(s, r),
            p_sub_done(old(self).phase()) ==> final(self).ptr_of(p_sadd(old(self).phase())) as int
                == (if old(self).inc_of(p_sadd(old(self).phase()))  {
                (old(self).ptr_of(p_sadd(old(self).phase())) + 1) % 0x80
            } else {
                old(self).ptr_of(p_sadd(old(self).phase())) as int
            }),
            p_sub_done(old(self).phase()) ==> forall|s: u8|
                s != p_sadd(old(self).phase()) ==> final(self).ptr_of(s) == old(self).ptr_of(s),
            p_sub_done(old(self).phase()) ==> forall|s: u8|
                final(self).inc_of(s) == old(self).inc_of(s),
            forall|s: u8| final(self).has_slave(s) == old(self).has_slave(s),
            final(self).ops() == old(self).ops().push(BusOp::Send { byte }),
    ;

    /// Consume one byte from the receive data register: the contents of the
    /// addressed slave's register at its pointer. After the last byte of an
    /// autoend transfer the controller issues STOP and goes idle.
    fn read_data(&mut self) -> (r: u8)
        requires
            old(self).inv(),
            rx_pending(old(self).phase()),
        ensures
            final(self).inv(),
            r == old(self).mem_at(p_sadd(old(self).phase()), old(self).ptr_of(p_sadd(old(self).phase()))),
            final(self).phase() == (if p_rem(old(self).phase()) == 1 && p_autoend(old(self).phase()) {
                Phase::Idle
            } else {
                Phase::Rx {
                    sadd: p_sadd(old(self).phase()),
                    remaining: (p_rem(old(self).phase()) - 1) as u8,
                    autoend: p_autoend(old(self).phase()),
                }
            }),
            forall|s: u8, r2: u8| final(self).mem_at(s, r2) == old(self).mem_at(s, r2),
            final(self).ptr_of(p_sadd(old(self).phase())) as int == (if old(self).inc_of(
                p_sadd(old(self).phase()),
            )  {
                (old(self).ptr_of(p_sadd(old(self).phase())) + 1) % 0x80
            } else {
                old(self).ptr_of(p_sadd(old(self).phase())) as int
            }),
            forall|s: u8|
                s != p_sadd(old(self).phase()) ==> final(self).ptr_of(s) == old(self).ptr_of(s),
            forall|s: u8| final(self).inc_of(s) == old(self).inc_of(s),
            forall|s: u8| final(self).has_slave(s) == old(self).has_slave(s),
            final(self).ops() == old(self).ops().push(BusOp::Recv { byte: r }),
    ;
}

} // verus!
