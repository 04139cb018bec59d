//! An in-memory register file implementing the transport interface.
//!
//! The bank behaves like a device whose registers simply store bytes: a write
//! stores the byte at the register address, a read returns the stored bytes
//! in ascending address order (wrapping at the end of the address space, as
//! the device's address auto-increment does).  It never fails.  It backs the
//! test suite and host-side simulation of the driver.

use vstd::prelude::*;

verus! {

use crate::interface::{Interface, Transaction, tx_write};

/// The number of addressable 8-bit registers.
pub const REGISTER_SPACE: usize = 256;

/// An in-memory register file: one byte per address, plus the ghost log of
/// the transactions performed on it.
pub struct RegisterBank {
    regs: Vec<u8>,
    history: Ghost<Seq<Transaction>>,
}

impl RegisterBank {
    /// The stored byte at each register address.
    pub closed spec fn regs(&self) -> Seq<u8> {
        self.regs@
    }

    /// Create a bank with every register holding zero and an empty log.
    pub fn new() -> (r: Self)
        ensures
            r.inv(),
            r.log() == Seq::<Transaction>::empty(),
            r.regs() == Seq::new(REGISTER_SPACE as nat, |i: int| 0u8),
    {
        let mut regs: Vec<u8> = Vec::new();
        let mut i: usize = 0;
        while i < REGISTER_SPACE
            invariant
                i <= REGISTER_SPACE,
                regs@.len() == i,
                forall|j: int| 0 <= j < i ==> regs@[j] == 0u8,
            decreases REGISTER_SPACE - i,
        {
            regs.push(0u8);
            i += 1;
        }
        let r = RegisterBank { regs, history: Ghost(Seq::empty()) };
        proof {
            assert(r.regs() =~= Seq::new(REGISTER_SPACE as nat, |i: int| 0u8));
        }
        r
    }

    /// The stored byte at the given register address.
    pub fn register(&self, addr: u8) -> (r: u8)
        requires
            self.inv(),
        ensures
            r == self.regs()[addr as int],
    {
        self.regs[addr as usize]
    }
}

impl Interface for RegisterBank {
    type Error = ();

    /// The transactions performed on this bank, oldest first.
    closed spec fn log(&self) -> Seq<Transaction> {
        self.history@
    }

    /// The bank holds exactly one byte per addressable register.
    open spec fn inv(&self) -> bool {
        self.regs().len() == REGISTER_SPACE
    }

    /// Store `value` at the register address `addr` and log the write.
    fn write(&mut self, addr: u8, value: u8) -> (r: Result<(), Self::Error>)
        ensures
            final(self).regs() == old(self).regs().update(addr as int, value),
    {
        self.regs[addr as usize] = value;
        proof {
            self.history@ = self.history@.push(tx_write(addr, value));
            assert(self.regs() =~= old(self).regs().update(addr as int, value));
        }
        Ok(())
    }

    /// Return the `len` stored bytes starting at `addr`, in ascending address
    /// order and wrapping at the end of the register space, and log the read.
    fn read(&mut self, addr: u8, len: usize) -> (r: Result<Vec<u8>, Self::Error>)
        ensures
            final(self).regs() == old(self).regs(),
            r matches Ok(data) ==> forall|i: int|
                0 <= i < len ==> data@[i] == old(self).regs()[(addr + i) % 256],
    {
        let mut data: Vec<u8> = Vec::new();
        let mut i: usize = 0;
        while i < len
            invariant
                self.inv(),
                i <= len,
                len <= 6,
                data@.len() == i,
                forall|j: int| 0 <= j < i ==> data@[j] == self.regs()[(addr + j) % 256],
            decreases len - i,
        {
            data.push(self.regs[(addr as usize + i) % REGISTER_SPACE]);
            i += 1;
        }
        proof {
            self.history@ = self.history@.push(Transaction::Read { addr, data: data@ });
        }
        Ok(data)
    }
}

} // verus!
