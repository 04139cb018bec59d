//! The transport abstraction: a register-level bus interface together with
//! the ghost transaction log that driver contracts are stated over.

use vstd::prelude::*;

verus! {

/// One bus transaction, as recorded in a transport's ghost log: either a
/// sequential read starting at a register address (the data being whatever
/// the device returned), or a single-byte write to a register address.
pub enum Transaction {
    /// A sequential read of `data.len()` bytes starting at `addr`.
    Read { addr: u8, data: Seq<u8> },
    /// A single-byte write of `value` to `addr`.
    Write { addr: u8, value: u8 },
}

/// A one-byte read transaction at `addr` that returned `b`.
pub open spec fn tx_read1(addr: u8, b: u8) -> Transaction {
    Transaction::Read { addr, data: seq![b] }
}

/// A single-byte write transaction.
pub open spec fn tx_write(addr: u8, value: u8) -> Transaction {
    Transaction::Write { addr, value }
}

/// The byte returned by a one-byte read transaction.
pub open spec fn read1_byte(t: Transaction) -> u8 {
    match t {
        Transaction::Read { data, .. } => data[0],
        Transaction::Write { .. } => 0,
    }
}

/// The bytes returned by a read transaction.
pub open spec fn read_data(t: Transaction) -> Seq<u8> {
    match t {
        Transaction::Read { data, .. } => data,
        Transaction::Write { .. } => Seq::empty(),
    }
}

/// `post` extends `pre` with exactly one one-byte read at `addr`.
pub open spec fn read1_trace(pre: Seq<Transaction>, post: Seq<Transaction>, addr: u8) -> bool {
    &&& post.len() == pre.len() + 1
    &&& post.take(pre.len() as int) == pre
    &&& post.last() == tx_read1(addr, read1_byte(post.last()))
}

/// `post` extends `pre` with exactly one read-modify-write of the register at
/// `addr`: a one-byte read returning some byte `b`, then a write of `f(b)`.
pub open spec fn rmw_trace(
    pre: Seq<Transaction>,
    post: Seq<Transaction>,
    addr: u8,
    f: spec_fn(u8) -> u8,
) -> bool {
    &&& post.len() == pre.len() + 2
    &&& post.take(pre.len() as int) == pre
    &&& post[pre.len() as int] == tx_read1(addr, read1_byte(post[pre.len() as int]))
    &&& post.last() == tx_write(addr, f(read1_byte(post[pre.len() as int])))
}

/// A register-level transport for the sensor: issues single-byte register
/// writes and short sequential register reads over the physical bus.
///
/// Implementations record every completed transaction in the ghost log, so
/// that driver operations can state exactly what reaches the device.  A
/// failed call promises nothing about the log; any bus-level error is
/// surfaced unchanged and never retried.
pub trait Interface: Sized {
    /// The transport's bus-level error type, propagated unchanged.
    type Error;

    /// The transactions this transport has completed, oldest first.  The
    /// default is only a placeholder: a transport verified against this
    /// trait gives its own definition.
    open spec fn log(&self) -> Seq<Transaction> {
        Seq::empty()
    }

    /// The transport's internal well-formedness condition.  The default is
    /// only a placeholder: a transport verified against this trait gives its
    /// own definition.
    open spec fn inv(&self) -> bool {
        true
    }

    /// Issue a single-byte write of `value` to the register at `addr`.
    fn write(&mut self, addr: u8, value: u8) -> (r: Result<(), Self::Error>)
        requires
            old(self).inv(),
        ensures
            final(self).inv(),
            r is Ok ==> final(self).log() == old(self).log().push(tx_write(addr, value)),
    ;

    /// Read `len` bytes starting at the register at `addr`; the device
    /// auto-increments the register address across the transfer.
    fn read(&mut self, addr: u8, len: usize) -> (r: Result<Vec<u8>, Self::Error>)
        requires
            old(self).inv(),
            1 <= len <= 6,
        ensures
            final(self).inv(),
            r matches Ok(data) ==> data@.len() == len && final(self).log() == old(
                self,
            ).log().push(Transaction::Read { addr, data: data@ }),
    ;
}

/// Pressure sensor address for I2C communication, selected by the level of
/// the SA0 pad.
#[allow(non_camel_case_types)]
#[derive(Debug, Clone, Copy, PartialEq, Eq, Structural)]
pub enum I2cAddress {
    /// SA0 pad tied to VCC
    SA0_VCC,
    /// SA0 pad tied to ground
    SA0_GND,
}

/// The 7-bit I2C device address selected by the SA0 strap.
pub open spec fn i2c_addr(a: I2cAddress) -> u8 {
    match a {
        I2cAddress::SA0_VCC => 0b1011101,
        I2cAddress::SA0_GND => 0b1011100,
    }
}

impl I2cAddress {
    /// The 7-bit device address this strap level selects.
    pub fn addr(self) -> (r: u8)
        ensures
            r == i2c_addr(self),
    {
        match self {
            I2cAddress::SA0_VCC => 0b1011101,
            I2cAddress::SA0_GND => 0b1011100,
        }
    }
}

} // verus!
