//! FIFO configuration and status.

use vstd::prelude::*;

verus! {

use crate::interface::{Interface, read1_byte, read1_trace, rmw_trace, tx_write};
use crate::register::{Bitmasks, Registers, reg_addr};
use crate::{FIFOMode, FIFOOn, Flag, LPS22HB, fifo_mode_bits, flag_update};

/// FIFO settings.
#[derive(Debug, Clone, Copy, PartialEq, Eq, Structural)]
pub struct FIFOConfig {
    /// Stop on FIFO watermark (enables FIFO watermark use).
    pub enable_watermark: Flag,
    /// FIFO operation mode.
    pub fifo_mode: FIFOMode,
    /// Watermark level.  The register field holds five bits, so a level
    /// above 31 cannot be represented and must not be passed to
    /// [`LPS22HB::configure_fifo`].
    pub watermark_level: u8,
}

impl Default for FIFOConfig {
    /// The default configuration: watermark disabled, bypass mode, and a
    /// watermark level of 32 standing for "no practical watermark"; the
    /// level must be lowered to at most 31 before the configuration is
    /// applied.
    fn default() -> (r: Self)
        ensures
            r == (FIFOConfig {
                enable_watermark: Flag::Disabled,
                fifo_mode: FIFOMode::Bypass,
                watermark_level: 32u8,
            }),
    {
        FIFOConfig {
            enable_watermark: Flag::Disabled,
            fifo_mode: FIFOMode::Bypass,
            watermark_level: 32u8,
        }
    }
}

/// The byte a FIFO configuration packs to: the mode code in bits [7:5] OR-ed
/// with the watermark level in bits [4:0].
pub open spec fn fifo_ctrl_byte(cfg: FIFOConfig) -> u8 {
    fifo_mode_bits(cfg.fifo_mode) | cfg.watermark_level
}

impl FIFOConfig {
    /// The byte to be written to the FIFO control register.
    pub fn f_fifo_ctrl(&self) -> (r: u8)
        ensures
            r == fifo_ctrl_byte(*self),
    {
        self.fifo_mode.value() | self.watermark_level
    }
}

/// Law: with a representable watermark level (below 32) the packed
/// FIFO-control byte keeps the two fields apart: bits [7:5] hold exactly the
/// mode encoding and bits [4:0] exactly the watermark level.
pub proof fn lemma_fifo_ctrl_byte_fields(cfg: FIFOConfig)
    requires
        cfg.watermark_level < 32,
    ensures
        fifo_ctrl_byte(cfg) & Bitmasks::F_MODE_MASK == fifo_mode_bits(cfg.fifo_mode),
        fifo_ctrl_byte(cfg) & Bitmasks::WTM_MASK == cfg.watermark_level,
{
    let m = fifo_mode_bits(cfg.fifo_mode);
    let w = cfg.watermark_level;
    assert(m & 0b1110_0000 == m) by {
        assert(0b0000_0000u8 & 0b1110_0000 == 0b0000_0000u8 && 0b0010_0000u8 & 0b1110_0000
            == 0b0010_0000u8 && 0b0100_0000u8 & 0b1110_0000 == 0b0100_0000u8 && 0b0110_0000u8
            & 0b1110_0000 == 0b0110_0000u8 && 0b1000_0000u8 & 0b1110_0000 == 0b1000_0000u8
            && 0b1100_0000u8 & 0b1110_0000 == 0b1100_0000u8 && 0b1110_0000u8 & 0b1110_0000
            == 0b1110_0000u8) by (bit_vector);
    }
    assert(m & 0b1110_0000 == m && w < 32 ==> (m | w) & 0b1110_0000 == m && (m | w) & 0b0001_1111
        == w) by (bit_vector);
}

/// Contents of the FIFO status register: threshold reached, overrun, empty,
/// and the stored data level, all decoded from one snapshot byte.
#[derive(Debug, Clone, Copy, PartialEq, Eq, Structural)]
pub struct FIFOStatus {
    /// Is the FIFO filling equal to or higher than the watermark?
    pub fifo_thresh_reached: bool,
    /// Is the FIFO full, with at least one sample overwritten?
    pub fifo_overrun: bool,
    /// Does the FIFO hold no samples?
    pub fifo_empty: bool,
    /// The number of samples stored in the FIFO.
    pub fifo_level: u8,
}

/// The FIFO status decoded from one snapshot byte of the FIFO status
/// register.
pub open spec fn fifo_status_of(b: u8) -> FIFOStatus {
    FIFOStatus {
        fifo_thresh_reached: (b & Bitmasks::FTH_FIFO) != 0,
        fifo_overrun: (b & Bitmasks::OVR) != 0,
        fifo_empty: (b & Bitmasks::FSS_MASK) == 0,
        fifo_level: b & Bitmasks::FSS_MASK,
    }
}

/// Law: a decoded FIFO status is empty exactly when its stored-data level is
/// zero, whatever the snapshot byte was.
pub proof fn lemma_fifo_empty_iff_level_zero(b: u8)
    ensures
        fifo_status_of(b).fifo_empty == (fifo_status_of(b).fifo_level == 0),
{
}

impl<T: Interface> LPS22HB<T> {
    /// Enable or disable the FIFO and apply a FIFO configuration: one
    /// read-modify-write of the FIFO-enable bit, one of the
    /// stop-on-watermark bit (both in control register 2), then one write of
    /// the packed mode-and-watermark byte to the FIFO control register.
    pub fn configure_fifo(&mut self, flag: FIFOOn, config: FIFOConfig) -> (r: Result<
        (),
        T::Error,
    >)
        requires
            old(self).inv(),
            config.watermark_level < 32,
        ensures
            final(self).inv(),
            r is Ok ==> ({
                let pre = old(self).log();
                let post = final(self).log();
                &&& post.len() == pre.len() + 5
                &&& rmw_trace(
                    pre,
                    post.take(pre.len() as int + 2),
                    reg_addr(Registers::CTRL_REG2),
                    (|b: u8| flag_update(b, Bitmasks::FIFO_EN, flag is Enabled)),
                )
                &&& rmw_trace(
                    post.take(pre.len() as int + 2),
                    post.take(pre.len() as int + 4),
                    reg_addr(Registers::CTRL_REG2),
                    (|b: u8| flag_update(b, Bitmasks::STOP_ON_FTH, config.enable_watermark is Enabled)),
                )
                &&& post.last() == tx_write(reg_addr(Registers::FIFO_CTRL), fifo_ctrl_byte(config))
            }),
    {
        let ghost pre = self.log();
        match flag {
            FIFOOn::Enabled => self.set_register_bit_flag(Registers::CTRL_REG2, Bitmasks::FIFO_EN),
            FIFOOn::Disabled => self.clear_register_bit_flag(
                Registers::CTRL_REG2,
                Bitmasks::FIFO_EN,
            ),
        }?;
        let ghost mid1 = self.log();
        match config.enable_watermark {
            Flag::Enabled => self.set_register_bit_flag(
                Registers::CTRL_REG2,
                Bitmasks::STOP_ON_FTH,
            ),
            Flag::Disabled => self.clear_register_bit_flag(
                Registers::CTRL_REG2,
                Bitmasks::STOP_ON_FTH,
            ),
        }?;
        let ghost mid2 = self.log();
        self.interface.write(Registers::FIFO_CTRL.addr(), config.f_fifo_ctrl())?;
        proof {
            assert(self.log().take(pre.len() as int + 2) =~= mid1);
            assert(self.log().take(pre.len() as int + 4) =~= mid2);
        }
        Ok(())
    }

    /// Get the flags and the stored-data level from the FIFO status
    /// register.  The register is read once, so all fields of the returned
    /// status describe the same instant; the empty flag is derived from the
    /// level field being zero.
    pub fn get_fifo_status(&mut self) -> (r: Result<FIFOStatus, T::Error>)
        requires
            old(self).inv(),
        ensures
            final(self).inv(),
            r matches Ok(status) ==> read1_trace(
                old(self).log(),
                final(self).log(),
                reg_addr(Registers::FIFO_STATUS),
            ) && status == fifo_status_of(read1_byte(final(self).log().last())),
    {
        let ghost pre = self.log();
        let reg_value = self.read_register(Registers::FIFO_STATUS)?;
        let level: u8 = reg_value & Bitmasks::FSS_MASK;
        let status = FIFOStatus {
            fifo_thresh_reached: (reg_value & Bitmasks::FTH_FIFO) != 0,
            fifo_overrun: (reg_value & Bitmasks::OVR) != 0,
            fifo_empty: level == 0,
            fifo_level: level,
        };
        proof {
            assert(self.log().take(pre.len() as int) =~= pre);
        }
        Ok(status)
    }
}

} // verus!
