//! Platform-agnostic driver for the LPS22HB barometric pressure and
//! temperature sensor.
//!
//! The driver owns a transport (any implementation of
//! [`interface::Interface`]) and talks to the device purely through
//! single-register writes and short auto-incrementing reads.  Every public
//! operation carries a contract that pins down exactly which bus transactions
//! it performs and how the bytes it writes are computed from the bytes it
//! read, so read-modify-write operations provably leave unrelated bits of a
//! shared register untouched.

use vstd::prelude::*;

pub mod bank;
pub mod config;
pub mod fifo;
pub mod interface;
pub mod interrupt;
pub mod register;
pub mod sensor;

verus! {

use crate::interface::{Interface, Transaction, tx_read1, read1_byte, read1_trace, rmw_trace};
use crate::register::{Registers, reg_addr};

/// Output data rate and power mode selection (ODR bits of control register 1).
#[allow(non_camel_case_types)]
#[derive(Debug, Clone, Copy, PartialEq, Eq, Structural)]
pub enum Odr {
    /// Power-down / one-shot mode enabled
    PowerDown,
    /// 1 Hz
    _1Hz,
    /// 10 Hz
    _10Hz,
    /// 25 Hz
    _25Hz,
    /// 50 Hz
    _50Hz,
    /// 75 Hz
    _75Hz,
}

/// The 3-bit rate code of an output-data-rate selection.
pub open spec fn odr_code(odr: Odr) -> u8 {
    match odr {
        Odr::PowerDown => 0b000,
        Odr::_1Hz => 0b001,
        Odr::_10Hz => 0b010,
        Odr::_25Hz => 0b011,
        Odr::_50Hz => 0b100,
        Odr::_75Hz => 0b101,
    }
}

/// The rate code moved into bits [6:4], ready to be OR-ed into the register.
pub open spec fn odr_bits(odr: Odr) -> u8 {
    match odr {
        Odr::PowerDown => 0b0000_0000,
        Odr::_1Hz => 0b0001_0000,
        Odr::_10Hz => 0b0010_0000,
        Odr::_25Hz => 0b0011_0000,
        Odr::_50Hz => 0b0100_0000,
        Odr::_75Hz => 0b0101_0000,
    }
}

impl Odr {
    /// The encoding of this rate, pre-shifted into bits [6:4].
    pub fn value(self) -> (r: u8)
        ensures
            r == odr_bits(self),
    {
        match self {
            Odr::PowerDown => 0b0000_0000,
            Odr::_1Hz => 0b0001_0000,
            Odr::_10Hz => 0b0010_0000,
            Odr::_25Hz => 0b0011_0000,
            Odr::_50Hz => 0b0100_0000,
            Odr::_75Hz => 0b0101_0000,
        }
    }
}

/// Law: every output-data-rate encoding is its documented 3-bit code shifted
/// left by four.
pub proof fn lemma_odr_value_is_code_shifted(odr: Odr)
    ensures
        odr_bits(odr) == odr_code(odr) << 4,
{
    assert((0b000u8 << 4) == 0b0000_0000u8 && (0b001u8 << 4) == 0b0001_0000u8 && (0b010u8 << 4)
        == 0b0010_0000u8 && (0b011u8 << 4) == 0b0011_0000u8 && (0b100u8 << 4) == 0b0100_0000u8 && (
    0b101u8 << 4) == 0b0101_0000u8) by (bit_vector);
}

/// SPI interface mode
#[allow(non_camel_case_types)]
#[derive(Debug, Clone, Copy, PartialEq, Eq, Structural)]
pub enum SPIMode {
    /// 4-wire mode (default)
    _4wire,
    /// 3-wire mode
    _3wire,
}

/// FIFO mode selection (bits [7:5] of the FIFO control register).
#[allow(non_camel_case_types)]
#[derive(Debug, Clone, Copy, PartialEq, Eq, Structural)]
pub enum FIFOMode {
    /// Bypass mode
    Bypass,
    /// FIFO mode
    FIFO,
    /// Stream mode
    Stream,
    /// Stream-to-FIFO mode
    StreamToFIFO,
    /// Bypass-to-stream mode
    BypassToStream,
    /// Dynamic-stream mode
    DynamicStream,
    /// Bypass-to-FIFO mode
    BypassToFIFO,
}

/// The 3-bit mode code of a FIFO mode selection.
pub open spec fn fifo_mode_code(m: FIFOMode) -> u8 {
    match m {
        FIFOMode::Bypass => 0b000,
        FIFOMode::FIFO => 0b001,
        FIFOMode::Stream => 0b010,
        FIFOMode::StreamToFIFO => 0b011,
        FIFOMode::BypassToStream => 0b100,
        FIFOMode::DynamicStream => 0b110,
        FIFOMode::BypassToFIFO => 0b111,
    }
}

/// The mode code moved into bits [7:5], ready to be OR-ed into the register.
pub open spec fn fifo_mode_bits(m: FIFOMode) -> u8 {
    match m {
        FIFOMode::Bypass => 0b0000_0000,
        FIFOMode::FIFO => 0b0010_0000,
        FIFOMode::Stream => 0b0100_0000,
        FIFOMode::StreamToFIFO => 0b0110_0000,
        FIFOMode::BypassToStream => 0b1000_0000,
        FIFOMode::DynamicStream => 0b1100_0000,
        FIFOMode::BypassToFIFO => 0b1110_0000,
    }
}

impl FIFOMode {
    /// The encoding of this mode, pre-shifted into bits [7:5].
    pub fn value(self) -> (r: u8)
        ensures
            r == fifo_mode_bits(self),
    {
        match self {
            FIFOMode::Bypass => 0b0000_0000,
            FIFOMode::FIFO => 0b0010_0000,
            FIFOMode::Stream => 0b0100_0000,
            FIFOMode::StreamToFIFO => 0b0110_0000,
            FIFOMode::BypassToStream => 0b1000_0000,
            FIFOMode::DynamicStream => 0b1100_0000,
            FIFOMode::BypassToFIFO => 0b1110_0000,
        }
    }
}

/// Law: every FIFO-mode encoding is its documented 3-bit code shifted left by
/// five.
pub proof fn lemma_fifo_mode_value_is_code_shifted(m: FIFOMode)
    ensures
        fifo_mode_bits(m) == fifo_mode_code(m) << 5,
{
    assert((0b000u8 << 5) == 0b0000_0000u8 && (0b001u8 << 5) == 0b0010_0000u8 && (0b010u8 << 5)
        == 0b0100_0000u8 && (0b011u8 << 5) == 0b0110_0000u8 && (0b100u8 << 5) == 0b1000_0000u8 && (
    0b110u8 << 5) == 0b1100_0000u8 && (0b111u8 << 5) == 0b1110_0000u8) by (bit_vector);
}

/// INT_DRDY pin data-signal selection (bits [1:0] of control register 3).
#[allow(non_camel_case_types)]
#[derive(Debug, Clone, Copy, PartialEq, Eq, Structural)]
pub enum IntDrdy {
    /// Data signal
    DataSignal,
    /// Pressure high
    PHigh,
    /// Pressure low
    PLow,
    /// Pressure low or high
    PLowOrHigh,
}

/// The 2-bit data-signal selection code (bits [1:0], no shift needed).
pub open spec fn int_drdy_bits(s: IntDrdy) -> u8 {
    match s {
        IntDrdy::DataSignal => 0b00,
        IntDrdy::PHigh => 0b01,
        IntDrdy::PLow => 0b10,
        IntDrdy::PLowOrHigh => 0b11,
    }
}

impl IntDrdy {
    /// The encoding of this selection; it occupies bits [1:0], so no shift is
    /// needed.
    pub fn value(self) -> (r: u8)
        ensures
            r == int_drdy_bits(self),
    {
        match self {
            IntDrdy::DataSignal => 0b00,
            IntDrdy::PHigh => 0b01,
            IntDrdy::PLow => 0b10,
            IntDrdy::PLowOrHigh => 0b11,
        }
    }
}

/// Interrupt level setting for the INT_DRDY pin: active high (default) or
/// active low.
#[allow(non_camel_case_types)]
#[derive(Debug, Clone, Copy, PartialEq, Eq, Structural)]
pub enum IntActive {
    /// Active high
    High,
    /// Active low
    Low,
}

/// The single-bit encoding of an interrupt level setting.
pub open spec fn int_active_bit(a: IntActive) -> u8 {
    match a {
        IntActive::High => 0,
        IntActive::Low => 1,
    }
}

impl IntActive {
    /// The single-bit encoding of this setting, before shifting.
    pub fn value(self) -> (r: u8)
        ensures
            r == int_active_bit(self),
    {
        match self {
            IntActive::High => 0,
            IntActive::Low => 1,
        }
    }
}

/// Interrupt pad setting for the INT_DRDY pin: push-pull (default) or
/// open-drain.
#[allow(non_camel_case_types)]
#[derive(Debug, Clone, Copy, PartialEq, Eq, Structural)]
pub enum IntPin {
    /// Push-pull
    PushPull,
    /// Open drain
    OpenDrain,
}

/// The single-bit encoding of an interrupt pad setting.
pub open spec fn int_pin_bit(p: IntPin) -> u8 {
    match p {
        IntPin::PushPull => 0,
        IntPin::OpenDrain => 1,
    }
}

impl IntPin {
    /// The single-bit encoding of this setting, before shifting.
    pub fn value(self) -> (r: u8)
        ensures
            r == int_pin_bit(self),
    {
        match self {
            IntPin::PushPull => 0,
            IntPin::OpenDrain => 1,
        }
    }
}

/// Settings for various FIFO- and interrupt-related flags: enabled or
/// disabled.
#[allow(non_camel_case_types)]
#[derive(Debug, Clone, Copy, PartialEq, Eq, Structural)]
pub enum Flag {
    /// Enabled (bit set)
    Enabled,
    /// Disabled (bit cleared)
    Disabled,
}

/// The single-bit encoding of a flag setting.
pub open spec fn flag_bit(f: Flag) -> u8 {
    match f {
        Flag::Disabled => 0,
        Flag::Enabled => 1,
    }
}

impl Flag {
    /// The single-bit encoding of this setting, before shifting.
    pub fn status(self) -> (r: u8)
        ensures
            r == flag_bit(self),
    {
        match self {
            Flag::Disabled => 0,
            Flag::Enabled => 1,
        }
    }
}

/// FIFO on/off selection.
#[allow(non_camel_case_types)]
#[derive(Debug, Clone, Copy, PartialEq, Eq, Structural)]
pub enum FIFOOn {
    /// Enabled (bit set)
    Enabled,
    /// Disabled (bit cleared)
    Disabled,
}

/// The single-bit encoding of a FIFO on/off selection.
pub open spec fn fifo_on_bit(f: FIFOOn) -> u8 {
    match f {
        FIFOOn::Disabled => 0,
        FIFOOn::Enabled => 1,
    }
}

impl FIFOOn {
    /// The single-bit encoding of this selection, before shifting.
    pub fn value(self) -> (r: u8)
        ensures
            r == fifo_on_bit(self),
    {
        match self {
            FIFOOn::Disabled => 0,
            FIFOOn::Enabled => 1,
        }
    }
}

/// A byte with the bits of `mask` set.
pub open spec fn set_bits(cur: u8, mask: u8) -> u8 {
    cur | mask
}

/// A byte with the bits of `mask` cleared.
pub open spec fn clear_bits(cur: u8, mask: u8) -> u8 {
    cur & !mask
}

/// A byte with the bits of `mask` set or cleared according to `on`.
pub open spec fn flag_update(cur: u8, mask: u8, on: bool) -> u8 {
    if on {
        set_bits(cur, mask)
    } else {
        clear_bits(cur, mask)
    }
}

/// Law: setting the bits of a mask and then clearing the same mask restores
/// every byte that had none of the masked bits set.
pub proof fn lemma_set_then_clear_restores(b: u8, m: u8)
    requires
        b & m == 0,
    ensures
        clear_bits(set_bits(b, m), m) == b,
{
    assert(b & m == 0 ==> (b | m) & !m == b) by (bit_vector);
}

/// Holds the driver instance with the selected transport.
pub struct LPS22HB<T> {
    interface: T,
}

impl<T: Interface> LPS22HB<T> {
    /// The transactions the underlying transport has completed.
    pub open(crate) spec fn log(&self) -> Seq<Transaction> {
        self.interface.log()
    }

    /// The underlying transport's well-formedness condition.
    pub open(crate) spec fn inv(&self) -> bool {
        self.interface.inv()
    }

    /// Create a new driver instance that owns the given transport.  No
    /// hardware transaction occurs.
    pub fn new(interface: T) -> (r: Self)
        ensures
            r.log() == interface.log(),
            r.inv() == interface.inv(),
    {
        LPS22HB { interface }
    }

    /// Destroy the driver instance and give the transport back.
    pub fn destroy(self) -> (r: T)
        ensures
            r.log() == self.log(),
            r.inv() == self.inv(),
    {
        self.interface
    }

    /// Read a byte from the given register.
    pub fn read_register(&mut self, address: Registers) -> (r: Result<u8, T::Error>)
        requires
            old(self).inv(),
        ensures
            final(self).inv(),
            r matches Ok(b) ==> final(self).log() == old(self).log().push(
                tx_read1(reg_addr(address), b),
            ),
    {
        let data = self.interface.read(address.addr(), 1)?;
        proof {
            assert(data@ =~= seq![data@[0]]);
        }
        Ok(data[0])
    }

    /// Set the selected bits of a register using a bitmask: read the current
    /// byte, OR the mask in, and write the result back.
    pub fn set_register_bit_flag(&mut self, address: Registers, bitmask: u8) -> (r: Result<
        (),
        T::Error,
    >)
        requires
            old(self).inv(),
        ensures
            final(self).inv(),
            r is Ok ==> rmw_trace(
                old(self).log(),
                final(self).log(),
                reg_addr(address),
                |b: u8| set_bits(b, bitmask),
            ),
    {
        let ghost pre = self.log();
        let cur = self.read_register(address)?;
        let payload: u8 = cur | bitmask;
        self.interface.write(address.addr(), payload)?;
        proof {
            assert(self.log().take(pre.len() as int) =~= pre);
        }
        Ok(())
    }

    /// Clear the selected bits of a register using a bitmask: read the
    /// current byte, AND the complement of the mask, and write the result
    /// back.
    pub fn clear_register_bit_flag(&mut self, address: Registers, bitmask: u8) -> (r: Result<
        (),
        T::Error,
    >)
        requires
            old(self).inv(),
        ensures
            final(self).inv(),
            r is Ok ==> rmw_trace(
                old(self).log(),
                final(self).log(),
                reg_addr(address),
                |b: u8| clear_bits(b, bitmask),
            ),
    {
        let ghost pre = self.log();
        let cur = self.read_register(address)?;
        let payload: u8 = cur & !bitmask;
        self.interface.write(address.addr(), payload)?;
        proof {
            assert(self.log().take(pre.len() as int) =~= pre);
        }
        Ok(())
    }

    /// Check whether any of the selected bits of a register are set.
    pub fn is_register_bit_flag_high(&mut self, address: Registers, bitmask: u8) -> (r: Result<
        bool,
        T::Error,
    >)
        requires
            old(self).inv(),
        ensures
            final(self).inv(),
            r matches Ok(v) ==> read1_trace(old(self).log(), final(self).log(), reg_addr(address))
                && v == ((read1_byte(final(self).log().last()) & bitmask) != 0),
    {
        let data = self.read_register(address)?;
        proof {
            assert(self.log().take(old(self).log().len() as int) =~= old(self).log());
        }
        Ok((data & bitmask) != 0)
    }
}

} // verus!
