//! Configuration operations: data rate, power mode, bus options and the
//! low-pass filter.

use vstd::prelude::*;

verus! {

use crate::interface::{Interface, read1_trace, rmw_trace};
use crate::register::{Bitmasks, Registers, reg_addr};
use crate::{LPS22HB, Odr, SPIMode, flag_update, odr_bits, set_bits};

/// A control-register-1 byte with the rate field (bits [6:4]) replaced by the
/// encoding of `odr` and every other bit kept.
pub open spec fn datarate_update(cur: u8, odr: Odr) -> u8 {
    (cur & !Bitmasks::ODR_MASK) | odr_bits(odr)
}

/// Law: replacing the rate field sets exactly that field.  Every bit outside
/// the 3-bit rate field keeps its value, and the rate field itself holds the
/// new rate's encoding.
pub proof fn lemma_datarate_update_touches_only_rate_field(cur: u8, odr: Odr)
    ensures
        datarate_update(cur, odr) & !Bitmasks::ODR_MASK == cur & !Bitmasks::ODR_MASK,
        datarate_update(cur, odr) & Bitmasks::ODR_MASK == odr_bits(odr),
{
    let v = odr_bits(odr);
    assert(v & 0b0111_0000 == v) by {
        assert(0b0000_0000u8 & 0b0111_0000 == 0b0000_0000u8 && 0b0001_0000u8 & 0b0111_0000
            == 0b0001_0000u8 && 0b0010_0000u8 & 0b0111_0000 == 0b0010_0000u8 && 0b0011_0000u8
            & 0b0111_0000 == 0b0011_0000u8 && 0b0100_0000u8 & 0b0111_0000 == 0b0100_0000u8
            && 0b0101_0000u8 & 0b0111_0000 == 0b0101_0000u8) by (bit_vector);
    }
    assert(v & 0b0111_0000 == v ==> ((cur & !0b0111_0000u8) | v) & !0b0111_0000u8 == cur
        & !0b0111_0000u8 && ((cur & !0b0111_0000u8) | v) & 0b0111_0000u8 == v) by (bit_vector);
}

impl<T: Interface> LPS22HB<T> {
    /// Set the output data rate: read control register 1, replace the 3-bit
    /// rate field, and write the byte back, leaving all other bits unchanged.
    pub fn set_datarate(&mut self, odr: Odr) -> (r: Result<(), T::Error>)
        requires
            old(self).inv(),
        ensures
            final(self).inv(),
            r is Ok ==> rmw_trace(
                old(self).log(),
                final(self).log(),
                reg_addr(Registers::CTRL_REG1),
                (|b: u8| datarate_update(b, odr)),
            ),
    {
        let ghost pre = self.log();
        let cur = self.read_register(Registers::CTRL_REG1)?;
        let mut payload: u8 = cur;
        payload &= !Bitmasks::ODR_MASK;
        payload |= odr.value();
        self.interface.write(Registers::CTRL_REG1.addr(), payload)?;
        proof {
            assert(self.log().take(pre.len() as int) =~= pre);
        }
        Ok(())
    }

    /// Set the one-shot bit to acquire a new dataset; the device clears the
    /// bit itself once the acquisition completes.  Triggering is only valid
    /// when the rate field already selects power-down mode;
    /// [`LPS22HB::one_shot`] forces that mode first.
    pub fn enable_one_shot(&mut self) -> (r: Result<(), T::Error>)
        requires
            old(self).inv(),
        ensures
            final(self).inv(),
            r is Ok ==> rmw_trace(
                old(self).log(),
                final(self).log(),
                reg_addr(Registers::CTRL_REG2),
                (|b: u8| set_bits(b, Bitmasks::ONE_SHOT)),
            ),
    {
        self.set_register_bit_flag(Registers::CTRL_REG2, Bitmasks::ONE_SHOT)
    }

    /// Enable or disable block data update (the BDU bit of control register
    /// 1).
    pub fn bdu_enable(&mut self, flag: bool) -> (r: Result<(), T::Error>)
        requires
            old(self).inv(),
        ensures
            final(self).inv(),
            r is Ok ==> rmw_trace(
                old(self).log(),
                final(self).log(),
                reg_addr(Registers::CTRL_REG1),
                (|b: u8| flag_update(b, Bitmasks::BDU, flag)),
            ),
    {
        match flag {
            true => self.set_register_bit_flag(Registers::CTRL_REG1, Bitmasks::BDU),
            false => self.clear_register_bit_flag(Registers::CTRL_REG1, Bitmasks::BDU),
        }
    }

    /// Enable or disable the autozero function (the AUTOZERO bit of the
    /// interrupt-configuration register).  While it is set, the measured
    /// pressure is used as the reference, and the output pressure is the
    /// measured pressure minus that reference.
    pub fn autozero_config(&mut self, flag: bool) -> (r: Result<(), T::Error>)
        requires
            old(self).inv(),
        ensures
            final(self).inv(),
            r is Ok ==> rmw_trace(
                old(self).log(),
                final(self).log(),
                reg_addr(Registers::INTERRUPT_CFG),
                (|b: u8| flag_update(b, Bitmasks::AUTOZERO, flag)),
            ),
    {
        match flag {
            true => self.set_register_bit_flag(Registers::INTERRUPT_CFG, Bitmasks::AUTOZERO),
            false => self.clear_register_bit_flag(Registers::INTERRUPT_CFG, Bitmasks::AUTOZERO),
        }
    }

    /// Reset the autozero function.  The bit is self-cleared by the device.
    pub fn autozero_reset(&mut self) -> (r: Result<(), T::Error>)
        requires
            old(self).inv(),
        ensures
            final(self).inv(),
            r is Ok ==> rmw_trace(
                old(self).log(),
                final(self).log(),
                reg_addr(Registers::INTERRUPT_CFG),
                (|b: u8| set_bits(b, Bitmasks::RESET_AZ)),
            ),
    {
        self.set_register_bit_flag(Registers::INTERRUPT_CFG, Bitmasks::RESET_AZ)
    }

    /// Disable or re-enable the I2C interface (default: enabled).
    pub fn i2c_disable(&mut self, flag: bool) -> (r: Result<(), T::Error>)
        requires
            old(self).inv(),
        ensures
            final(self).inv(),
            r is Ok ==> rmw_trace(
                old(self).log(),
                final(self).log(),
                reg_addr(Registers::CTRL_REG2),
                (|b: u8| flag_update(b, Bitmasks::I2C_DIS, flag)),
            ),
    {
        match flag {
            true => self.set_register_bit_flag(Registers::CTRL_REG2, Bitmasks::I2C_DIS),
            false => self.clear_register_bit_flag(Registers::CTRL_REG2, Bitmasks::I2C_DIS),
        }
    }

    /// Set the SPI wire mode (default: 4-wire).
    pub fn spi_config(&mut self, mode: SPIMode) -> (r: Result<(), T::Error>)
        requires
            old(self).inv(),
        ensures
            final(self).inv(),
            r is Ok ==> rmw_trace(
                old(self).log(),
                final(self).log(),
                reg_addr(Registers::CTRL_REG1),
                (|b: u8| flag_update(b, Bitmasks::SIM, mode is _3wire)),
            ),
    {
        match mode {
            SPIMode::_3wire => self.set_register_bit_flag(Registers::CTRL_REG1, Bitmasks::SIM),
            SPIMode::_4wire => self.clear_register_bit_flag(Registers::CTRL_REG1, Bitmasks::SIM),
        }
    }

    /// Enable or disable automatic register-address increment during a
    /// multiple-byte access (default: enabled).
    pub fn address_incrementing(&mut self, flag: bool) -> (r: Result<(), T::Error>)
        requires
            old(self).inv(),
        ensures
            final(self).inv(),
            r is Ok ==> rmw_trace(
                old(self).log(),
                final(self).log(),
                reg_addr(Registers::CTRL_REG2),
                (|b: u8| flag_update(b, Bitmasks::IF_ADD_INC, flag)),
            ),
    {
        match flag {
            true => self.set_register_bit_flag(Registers::CTRL_REG2, Bitmasks::IF_ADD_INC),
            false => self.clear_register_bit_flag(Registers::CTRL_REG2, Bitmasks::IF_ADD_INC),
        }
    }

    /// Reboot: refresh the content of the internal registers from the flash
    /// memory block.  The device clears the bit again once the boot process
    /// completes.
    pub fn reboot(&mut self) -> (r: Result<(), T::Error>)
        requires
            old(self).inv(),
        ensures
            final(self).inv(),
            r is Ok ==> rmw_trace(
                old(self).log(),
                final(self).log(),
                reg_addr(Registers::CTRL_REG2),
                (|b: u8| set_bits(b, Bitmasks::BOOT)),
            ),
    {
        self.set_register_bit_flag(Registers::CTRL_REG2, Bitmasks::BOOT)
    }

    /// Is the reboot phase running?
    pub fn reboot_running(&mut self) -> (r: Result<bool, T::Error>)
        requires
            old(self).inv(),
        ensures
            final(self).inv(),
            r matches Ok(v) ==> read1_trace(
                old(self).log(),
                final(self).log(),
                reg_addr(Registers::INT_SOURCE),
            ) && v == ((crate::interface::read1_byte(final(self).log().last())
                & Bitmasks::BOOT_STATUS) != 0),
    {
        self.is_register_bit_flag_high(Registers::INT_SOURCE, Bitmasks::BOOT_STATUS)
    }

    /// Run a software reset, returning the device to its power-on
    /// configuration.  The bit is self-cleared by the device.
    pub fn software_reset(&mut self) -> (r: Result<(), T::Error>)
        requires
            old(self).inv(),
        ensures
            final(self).inv(),
            r is Ok ==> rmw_trace(
                old(self).log(),
                final(self).log(),
                reg_addr(Registers::CTRL_REG2),
                (|b: u8| set_bits(b, Bitmasks::SWRESET)),
            ),
    {
        self.set_register_bit_flag(Registers::CTRL_REG2, Bitmasks::SWRESET)
    }

    /// Enable low-power mode.  Must be done only with the device in
    /// power-down mode.
    pub fn enable_low_power(&mut self) -> (r: Result<(), T::Error>)
        requires
            old(self).inv(),
        ensures
            final(self).inv(),
            r is Ok ==> rmw_trace(
                old(self).log(),
                final(self).log(),
                reg_addr(Registers::RES_CONF),
                (|b: u8| set_bits(b, Bitmasks::LC_EN)),
            ),
    {
        self.set_register_bit_flag(Registers::RES_CONF, Bitmasks::LC_EN)
    }

    /// Enable and configure the low-pass filter on pressure data in
    /// continuous mode: one read-modify-write for the enable bit, then one
    /// for the configuration bit, both on control register 1.
    pub fn lowpass_filter(&mut self, enable: bool, configure: bool) -> (r: Result<(), T::Error>)
        requires
            old(self).inv(),
        ensures
            final(self).inv(),
            r is Ok ==> ({
                let pre = old(self).log();
                let post = final(self).log();
                &&& post.len() == pre.len() + 4
                &&& rmw_trace(
                    pre,
                    post.take(pre.len() as int + 2),
                    reg_addr(Registers::CTRL_REG1),
                    (|b: u8| flag_update(b, Bitmasks::EN_LPFP, enable)),
                )
                &&& rmw_trace(
                    post.take(pre.len() as int + 2),
                    post,
                    reg_addr(Registers::CTRL_REG1),
                    (|b: u8| flag_update(b, Bitmasks::LPFP_CFG, configure)),
                )
            }),
    {
        let ghost pre = self.log();
        match enable {
            true => self.set_register_bit_flag(Registers::CTRL_REG1, Bitmasks::EN_LPFP),
            false => self.clear_register_bit_flag(Registers::CTRL_REG1, Bitmasks::EN_LPFP),
        }?;
        let ghost mid = self.log();
        match configure {
            true => self.set_register_bit_flag(Registers::CTRL_REG1, Bitmasks::LPFP_CFG),
            false => self.clear_register_bit_flag(Registers::CTRL_REG1, Bitmasks::LPFP_CFG),
        }?;
        proof {
            assert(self.log().take(pre.len() as int + 2) == mid);
        }
        Ok(())
    }

    /// Reset the low-pass filter.  If the filter is active, reading the
    /// dedicated filter-reset register before generating pressure
    /// measurements skips the filter's transitory phase; the byte read back
    /// is discarded.
    pub fn lowpass_filter_reset(&mut self) -> (r: Result<(), T::Error>)
        requires
            old(self).inv(),
        ensures
            final(self).inv(),
            r is Ok ==> read1_trace(
                old(self).log(),
                final(self).log(),
                reg_addr(Registers::LPFP_RES),
            ),
    {
        let ghost pre = self.log();
        self.read_register(Registers::LPFP_RES)?;
        proof {
            assert(self.log().take(pre.len() as int) =~= pre);
        }
        Ok(())
    }
}

} // verus!
