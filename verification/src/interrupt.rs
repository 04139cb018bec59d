//! Interrupt pin configuration and interrupt status.

use vstd::prelude::*;

verus! {

use crate::interface::{Interface, read1_byte, read1_trace, rmw_trace, tx_write};
use crate::register::{Bitmasks, Registers, reg_addr};
use crate::{Flag, IntActive, IntDrdy, IntPin, LPS22HB, flag_bit, int_active_bit, int_drdy_bits,
    int_pin_bit};

/// Interrupt pin settings.  They pack into two registers: control register 3
/// holds the pin behaviour and the signals routed to the pin, and the low
/// nibble of the interrupt-configuration register holds the event enables.
#[derive(Debug, Clone, Copy, PartialEq, Eq, Structural)]
pub struct InterruptConfig {
    /// Configure the interrupt pin as active high or active low.
    pub active_high_or_low: IntActive,
    /// Configure the interrupt pin as push-pull or open drain.
    pub pushpull_or_opendrain: IntPin,
    /// Configure the data signal on the interrupt pin.
    pub data_signal_config: IntDrdy,
    /// Enable the FIFO full flag on the interrupt pin.
    pub enable_fifo_full: Flag,
    /// Enable the FIFO watermark flag on the interrupt pin.
    pub enable_fifo_fth: Flag,
    /// Enable the FIFO overrun flag on the interrupt pin.
    pub enable_fifo_overrun: Flag,
    /// Enable the data-ready signal on the interrupt pin.
    pub enable_data_ready: Flag,
    /// Enable latching the interrupt request to the interrupt-source
    /// register.
    pub enable_latch_interrupt: Flag,
    /// Enable the low pressure event on the interrupt pin.
    pub enable_low_event: Flag,
    /// Enable the high pressure event on the interrupt pin.
    pub enable_high_event: Flag,
    /// Enable computing of differential pressure output.
    pub enable_differential: Flag,
}

impl Default for InterruptConfig {
    /// The hardware's power-on values: pin active high and push-pull, data
    /// signal routed to the pin, and every enable off.
    fn default() -> (r: Self)
        ensures
            r == (InterruptConfig {
                active_high_or_low: IntActive::High,
                pushpull_or_opendrain: IntPin::PushPull,
                data_signal_config: IntDrdy::DataSignal,
                enable_fifo_full: Flag::Disabled,
                enable_fifo_fth: Flag::Disabled,
                enable_fifo_overrun: Flag::Disabled,
                enable_data_ready: Flag::Disabled,
                enable_latch_interrupt: Flag::Disabled,
                enable_low_event: Flag::Disabled,
                enable_high_event: Flag::Disabled,
                enable_differential: Flag::Disabled,
            }),
    {
        InterruptConfig {
            active_high_or_low: IntActive::High,
            pushpull_or_opendrain: IntPin::PushPull,
            data_signal_config: IntDrdy::DataSignal,
            enable_fifo_full: Flag::Disabled,
            enable_fifo_fth: Flag::Disabled,
            enable_fifo_overrun: Flag::Disabled,
            enable_data_ready: Flag::Disabled,
            enable_latch_interrupt: Flag::Disabled,
            enable_low_event: Flag::Disabled,
            enable_high_event: Flag::Disabled,
            enable_differential: Flag::Disabled,
        }
    }
}

/// The byte an interrupt configuration packs into control register 3:
/// active level (bit 7), pad mode (bit 6), FIFO full (bit 5), FIFO watermark
/// (bit 4), FIFO overrun (bit 3), data ready (bit 2), and the data-signal
/// selection (bits [1:0]).
pub open spec fn ctrl_reg3_byte(cfg: InterruptConfig) -> u8 {
    (int_active_bit(cfg.active_high_or_low) << 7) | (int_pin_bit(cfg.pushpull_or_opendrain) << 6)
        | (flag_bit(cfg.enable_fifo_full) << 5) | (flag_bit(cfg.enable_fifo_fth) << 4) | (flag_bit(
        cfg.enable_fifo_overrun,
    ) << 3) | (flag_bit(cfg.enable_data_ready) << 2) | int_drdy_bits(cfg.data_signal_config)
}

/// The low nibble an interrupt configuration packs into the
/// interrupt-configuration register: differential enable (bit 3), latch
/// enable (bit 2), low-event enable (bit 1) and high-event enable (bit 0).
pub open spec fn interrupt_cfg_nibble(cfg: InterruptConfig) -> u8 {
    (flag_bit(cfg.enable_differential) << 3) | (flag_bit(cfg.enable_latch_interrupt) << 2) | (
    flag_bit(cfg.enable_low_event) << 1) | flag_bit(cfg.enable_high_event)
}

impl InterruptConfig {
    /// The byte to be written to control register 3.
    pub fn int_ctrl_reg3(&self) -> (r: u8)
        ensures
            r == ctrl_reg3_byte(*self),
    {
        (self.active_high_or_low.value() << 7) | (self.pushpull_or_opendrain.value() << 6) | (
        self.enable_fifo_full.status() << 5) | (self.enable_fifo_fth.status() << 4) | (
        self.enable_fifo_overrun.status() << 3) | (self.enable_data_ready.status() << 2)
            | self.data_signal_config.value()
    }

    /// The low nibble to be merged into the interrupt-configuration
    /// register; the register's upper nibble belongs to the autozero
    /// functions and is preserved by [`LPS22HB::configure_interrupts`].
    pub fn int_interrupt_cfg(&self) -> (r: u8)
        ensures
            r == interrupt_cfg_nibble(*self),
    {
        (self.enable_differential.status() << 3) | (self.enable_latch_interrupt.status() << 2) | (
        self.enable_low_event.status() << 1) | self.enable_high_event.status()
    }
}

/// An interrupt-configuration register byte with the low nibble replaced by
/// the packing of `cfg` and the upper nibble (the autozero and reset bits)
/// kept.
pub open spec fn interrupt_cfg_update(cur: u8, cfg: InterruptConfig) -> u8 {
    (cur & !0b0000_1111u8) | interrupt_cfg_nibble(cfg)
}

/// Law: applying an interrupt configuration to the interrupt-configuration
/// register leaves the register's upper nibble unchanged, and sets the low
/// nibble to exactly the configuration's packing.
pub proof fn lemma_interrupt_cfg_update_touches_only_low_nibble(cur: u8, cfg: InterruptConfig)
    ensures
        interrupt_cfg_update(cur, cfg) & 0xF0 == cur & 0xF0,
        interrupt_cfg_update(cur, cfg) & 0x0F == interrupt_cfg_nibble(cfg),
{
    let a = flag_bit(cfg.enable_differential);
    let b = flag_bit(cfg.enable_latch_interrupt);
    let c = flag_bit(cfg.enable_low_event);
    let d = flag_bit(cfg.enable_high_event);
    assert(a <= 1 && b <= 1 && c <= 1 && d <= 1);
    assert(a <= 1 && b <= 1 && c <= 1 && d <= 1 ==> ({
        let v = (a << 3) | (b << 2) | (c << 1) | d;
        ((cur & !0b0000_1111u8) | v) & 0xF0 == cur & 0xF0 && ((cur & !0b0000_1111u8) | v) & 0x0F
            == v
    })) by (bit_vector);
}

/// Law: each interrupt setting lands at its documented position in the
/// control-register-3 byte, and the data-signal selection occupies exactly
/// bits [1:0].
pub proof fn lemma_ctrl_reg3_byte_fields(cfg: InterruptConfig)
    ensures
        (ctrl_reg3_byte(cfg) & Bitmasks::INT_H_L != 0) == (cfg.active_high_or_low is Low),
        (ctrl_reg3_byte(cfg) & Bitmasks::PP_OD != 0) == (cfg.pushpull_or_opendrain is OpenDrain),
        (ctrl_reg3_byte(cfg) & Bitmasks::F_FSS5 != 0) == (cfg.enable_fifo_full is Enabled),
        (ctrl_reg3_byte(cfg) & Bitmasks::F_FTH != 0) == (cfg.enable_fifo_fth is Enabled),
        (ctrl_reg3_byte(cfg) & Bitmasks::F_OVR != 0) == (cfg.enable_fifo_overrun is Enabled),
        (ctrl_reg3_byte(cfg) & Bitmasks::DRDY != 0) == (cfg.enable_data_ready is Enabled),
        ctrl_reg3_byte(cfg) & Bitmasks::INT_S_MASK == int_drdy_bits(cfg.data_signal_config),
{
    let a = int_active_bit(cfg.active_high_or_low);
    let b = int_pin_bit(cfg.pushpull_or_opendrain);
    let c = flag_bit(cfg.enable_fifo_full);
    let d = flag_bit(cfg.enable_fifo_fth);
    let e = flag_bit(cfg.enable_fifo_overrun);
    let f = flag_bit(cfg.enable_data_ready);
    let s = int_drdy_bits(cfg.data_signal_config);
    assert(a <= 1 && b <= 1 && c <= 1 && d <= 1 && e <= 1 && f <= 1 && s <= 3);
    assert(a <= 1 && b <= 1 && c <= 1 && d <= 1 && e <= 1 && f <= 1 && s <= 3 ==> ({
        let v = (a << 7) | (b << 6) | (c << 5) | (d << 4) | (e << 3) | (f << 2) | s;
        &&& (v & 0b1000_0000 != 0) == (a == 1)
        &&& (v & 0b0100_0000 != 0) == (b == 1)
        &&& (v & 0b0010_0000 != 0) == (c == 1)
        &&& (v & 0b0001_0000 != 0) == (d == 1)
        &&& (v & 0b0000_1000 != 0) == (e == 1)
        &&& (v & 0b0000_0100 != 0) == (f == 1)
        &&& v & 0b0000_0011 == s
    })) by (bit_vector);
}

/// Contents of the interrupt-source register: the interrupt-active flag and
/// the differential pressure event flags, decoded from one snapshot byte.
#[derive(Debug, Clone, Copy, PartialEq, Eq, Structural)]
pub struct IntStatus {
    /// Has an interrupt event been generated?
    pub interrupt_active: bool,
    /// Has a differential pressure low event occurred?
    pub diff_press_low: bool,
    /// Has a differential pressure high event occurred?
    pub diff_press_high: bool,
}

/// The interrupt status decoded from one snapshot byte of the
/// interrupt-source register.
pub open spec fn int_status_of(value: u8) -> IntStatus {
    IntStatus {
        interrupt_active: (value & Bitmasks::IA) != 0,
        diff_press_low: (value & Bitmasks::PL) != 0,
        diff_press_high: (value & Bitmasks::PH) != 0,
    }
}

impl core::convert::From<u8> for IntStatus {
    /// Decode an interrupt-source register byte.
    fn from(value: u8) -> (r: Self) {
        IntStatus {
            interrupt_active: (value & Bitmasks::IA) != 0,
            diff_press_low: (value & Bitmasks::PL) != 0,
            diff_press_high: (value & Bitmasks::PH) != 0,
        }
    }
}

impl vstd::std_specs::convert::FromSpecImpl<u8> for IntStatus {
    open spec fn obeys_from_spec() -> bool {
        true
    }

    open spec fn from_spec(value: u8) -> Self {
        int_status_of(value)
    }
}

impl<T: Interface> LPS22HB<T> {
    /// Enable interrupts and configure the interrupt pin: write control
    /// register 3 wholesale (this driver is its only writer), then
    /// read-modify-write the interrupt-configuration register, replacing
    /// only its low nibble so that the autozero bits of the upper nibble
    /// survive unchanged.
    pub fn configure_interrupts(&mut self, config: InterruptConfig) -> (r: Result<(), T::Error>)
        requires
            old(self).inv(),
        ensures
            final(self).inv(),
            r is Ok ==> rmw_trace(
                old(self).log().push(
                    tx_write(reg_addr(Registers::CTRL_REG3), ctrl_reg3_byte(config)),
                ),
                final(self).log(),
                reg_addr(Registers::INTERRUPT_CFG),
                (|b: u8| interrupt_cfg_update(b, config)),
            ),
    {
        self.interface.write(Registers::CTRL_REG3.addr(), config.int_ctrl_reg3())?;
        let ghost mid = self.log();
        let cur = self.read_register(Registers::INTERRUPT_CFG)?;
        let data: u8 = (cur & !0b0000_1111u8) | config.int_interrupt_cfg();
        self.interface.write(Registers::INTERRUPT_CFG.addr(), data)?;
        proof {
            assert(self.log().take(mid.len() as int) =~= mid);
        }
        Ok(())
    }

    /// Get all the flags from the interrupt-source register in one read.
    /// The device clears the latched bits as a side effect of the read, so
    /// the full status must be captured in one call rather than bit by bit.
    pub fn get_int_status(&mut self) -> (r: Result<IntStatus, T::Error>)
        requires
            old(self).inv(),
        ensures
            final(self).inv(),
            r matches Ok(status) ==> read1_trace(
                old(self).log(),
                final(self).log(),
                reg_addr(Registers::INT_SOURCE),
            ) && status == int_status_of(read1_byte(final(self).log().last())),
    {
        let ghost pre = self.log();
        let value = self.read_register(Registers::INT_SOURCE)?;
        proof {
            assert(self.log().take(pre.len() as int) =~= pre);
        }
        Ok(IntStatus::from(value))
    }
}

} // verus!
