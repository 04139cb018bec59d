//! Register mapping and bitmasks of the device.

use vstd::prelude::*;

verus! {

/// The device's 8-bit register addresses.
#[allow(non_camel_case_types)]
#[derive(Debug, Clone, Copy, PartialEq, Eq, Structural)]
pub enum Registers {
    /// Interrupt control.
    INTERRUPT_CFG,
    /// Pressure threshold low.
    THS_P_L,
    /// Pressure threshold high.
    THS_P_H,
    /// Who Am I (identifies the chip).
    WHO_AM_I,
    /// Control register 1.
    CTRL_REG1,
    /// Control register 2.
    CTRL_REG2,
    /// Control register 3.
    CTRL_REG3,
    /// FIFO configuration register.
    FIFO_CTRL,
    /// Reference pressure register, lowest byte.
    REF_P_XL,
    /// Reference pressure register, low byte.
    REF_P_L,
    /// Reference pressure register, high byte.
    REF_P_H,
    /// Pressure offset register, low byte.
    RPDS_L,
    /// Pressure offset register, high byte.
    RPDS_H,
    /// Resolution configuration.
    RES_CONF,
    /// Interrupt source.
    INT_SOURCE,
    /// FIFO status register.
    FIFO_STATUS,
    /// Status register.
    STATUS,
    /// Pressure output register, lowest byte.
    PRESS_OUT_XL,
    /// Pressure output register, low byte.
    PRESS_OUT_L,
    /// Pressure output register, high byte.
    PRESS_OUT_H,
    /// Temperature output register, low byte.
    TEMP_OUT_L,
    /// Temperature output register, high byte.
    TEMP_OUT_H,
    /// Filter reset register.  If the low-pass filter is active, reading this
    /// register before generating pressure measurements resets the filter's
    /// transient phase.
    LPFP_RES,
}

/// The address of each register in the device's register space.
pub open spec fn reg_addr(r: Registers) -> u8 {
    match r {
        Registers::INTERRUPT_CFG => 0x0B,
        Registers::THS_P_L => 0x0C,
        Registers::THS_P_H => 0x0D,
        Registers::WHO_AM_I => 0x0F,
        Registers::CTRL_REG1 => 0x10,
        Registers::CTRL_REG2 => 0x11,
        Registers::CTRL_REG3 => 0x12,
        Registers::FIFO_CTRL => 0x14,
        Registers::REF_P_XL => 0x15,
        Registers::REF_P_L => 0x16,
        Registers::REF_P_H => 0x17,
        Registers::RPDS_L => 0x18,
        Registers::RPDS_H => 0x19,
        Registers::RES_CONF => 0x1A,
        Registers::INT_SOURCE => 0x25,
        Registers::FIFO_STATUS => 0x26,
        Registers::STATUS => 0x27,
        Registers::PRESS_OUT_XL => 0x28,
        Registers::PRESS_OUT_L => 0x29,
        Registers::PRESS_OUT_H => 0x2A,
        Registers::TEMP_OUT_L => 0x2B,
        Registers::TEMP_OUT_H => 0x2C,
        Registers::LPFP_RES => 0x33,
    }
}

impl Registers {
    /// The 8-bit address of this register.
    pub fn addr(self) -> (r: u8)
        ensures
            r == reg_addr(self),
    {
        match self {
            Registers::INTERRUPT_CFG => 0x0B,
            Registers::THS_P_L => 0x0C,
            Registers::THS_P_H => 0x0D,
            Registers::WHO_AM_I => 0x0F,
            Registers::CTRL_REG1 => 0x10,
            Registers::CTRL_REG2 => 0x11,
            Registers::CTRL_REG3 => 0x12,
            Registers::FIFO_CTRL => 0x14,
            Registers::REF_P_XL => 0x15,
            Registers::REF_P_L => 0x16,
            Registers::REF_P_H => 0x17,
            Registers::RPDS_L => 0x18,
            Registers::RPDS_H => 0x19,
            Registers::RES_CONF => 0x1A,
            Registers::INT_SOURCE => 0x25,
            Registers::FIFO_STATUS => 0x26,
            Registers::STATUS => 0x27,
            Registers::PRESS_OUT_XL => 0x28,
            Registers::PRESS_OUT_L => 0x29,
            Registers::PRESS_OUT_H => 0x2A,
            Registers::TEMP_OUT_L => 0x2B,
            Registers::TEMP_OUT_H => 0x2C,
            Registers::LPFP_RES => 0x33,
        }
    }
}

/// Named bitmasks for the device's registers.
#[allow(non_camel_case_types)]
pub struct Bitmasks;

impl Bitmasks {
    // === INTERRUPT_CFG (0x0B) ===
    /// Enable the AUTORIFP function
    pub const AUTORIFP: u8 = 0b1000_0000;

    /// Reset the AUTORIFP function
    pub const RESET_ARP: u8 = 0b0100_0000;

    /// Enable the autozero function
    pub const AUTOZERO: u8 = 0b0010_0000;

    /// Reset the autozero function
    pub const RESET_AZ: u8 = 0b0001_0000;

    /// Enable interrupt generation
    pub const DIFF_EN: u8 = 0b0000_1000;

    /// Latch interrupt request
    pub const LIR: u8 = 0b0000_0100;

    /// Enable interrupt generation on low pressure event
    pub const PLE: u8 = 0b0000_0010;

    /// Enable interrupt generation on high pressure event
    pub const PHE: u8 = 0b0000_0001;

    // === CTRL_REG1 (0x10) ===
    /// Output data rate selection
    pub const ODR_MASK: u8 = 0b0111_0000;

    /// Low-pass filter on pressure data in continuous mode
    pub const EN_LPFP: u8 = 0b0000_1000;

    /// Low-pass filter configuration
    pub const LPFP_CFG: u8 = 0b0000_0100;

    /// Block data update
    pub const BDU: u8 = 0b0000_0010;

    /// SPI interface mode selection
    pub const SIM: u8 = 0b0000_0001;

    // === CTRL_REG2 (0x11) ===
    /// Reboot memory content
    pub const BOOT: u8 = 0b1000_0000;

    /// Enable the FIFO
    pub const FIFO_EN: u8 = 0b0100_0000;

    /// Stop on FIFO watermark
    pub const STOP_ON_FTH: u8 = 0b0010_0000;

    /// Increment register address during a multiple-byte access
    pub const IF_ADD_INC: u8 = 0b0001_0000;

    /// Disable the I2C interface
    pub const I2C_DIS: u8 = 0b0000_1000;

    /// Software reset
    pub const SWRESET: u8 = 0b0000_0100;

    /// Enable single shot to acquire a new dataset
    pub const ONE_SHOT: u8 = 0b0000_0001;

    // === CTRL_REG3 (0x12) ===
    /// Interrupt active high/low
    pub const INT_H_L: u8 = 0b1000_0000;

    /// Push-pull / open-drain selection on interrupt pads
    pub const PP_OD: u8 = 0b0100_0000;

    /// FIFO full flag on INT_DRDY pin
    pub const F_FSS5: u8 = 0b0010_0000;

    /// FIFO watermark status on INT_DRDY pin
    pub const F_FTH: u8 = 0b0001_0000;

    /// FIFO overrun status on INT_DRDY pin
    pub const F_OVR: u8 = 0b0000_1000;

    /// Data-ready signal on INT_DRDY pin
    pub const DRDY: u8 = 0b0000_0100;

    /// Data signal on INT_DRDY pin control bits
    pub const INT_S_MASK: u8 = 0b0000_0011;

    // === FIFO_CTRL (0x14) ===
    /// FIFO mode selection
    pub const F_MODE_MASK: u8 = 0b1110_0000;

    /// FIFO watermark level selection
    pub const WTM_MASK: u8 = 0b0001_1111;

    // === RES_CONF (0x1A) ===
    /// Low current mode enable; must be changed in power-down mode
    pub const LC_EN: u8 = 0b0000_0001;

    // === INT_SOURCE (0x25) ===
    /// Reboot phase status (1 - running)
    pub const BOOT_STATUS: u8 = 0b1000_0000;

    /// Interrupt active
    pub const IA: u8 = 0b0000_0100;

    /// Differential pressure low
    pub const PL: u8 = 0b0000_0010;

    /// Differential pressure high
    pub const PH: u8 = 0b0000_0001;

    // === FIFO_STATUS (0x26) ===
    /// FIFO watermark status
    pub const FTH_FIFO: u8 = 0b1000_0000;

    /// FIFO overrun status
    pub const OVR: u8 = 0b0100_0000;

    /// FIFO stored data level
    pub const FSS_MASK: u8 = 0b0011_1111;

    // === STATUS (0x27) ===
    /// Temperature data overrun
    pub const T_OR: u8 = 0b0010_0000;

    /// Pressure data overrun
    pub const P_OR: u8 = 0b0001_0000;

    /// Temperature data available
    pub const T_DA: u8 = 0b0000_0010;

    /// Pressure data available
    pub const P_DA: u8 = 0b0000_0001;
}

} // verus!
