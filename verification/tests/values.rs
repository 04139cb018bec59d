//! Encoding values of the configuration enums and the register catalog.

use lps22hb::interface::I2cAddress;
use lps22hb::register::{Bitmasks, Registers};
use lps22hb::{FIFOMode, FIFOOn, Flag, IntActive, IntDrdy, IntPin, Odr};

#[test]
fn odr_values_are_code_shifted_by_four() {
    assert_eq!(Odr::PowerDown.value(), 0b0000_0000);
    assert_eq!(Odr::_1Hz.value(), 0b0001_0000);
    assert_eq!(Odr::_10Hz.value(), 0b0010_0000);
    assert_eq!(Odr::_25Hz.value(), 0b0011_0000);
    assert_eq!(Odr::_50Hz.value(), 0b0100_0000);
    assert_eq!(Odr::_75Hz.value(), 0b0101_0000);
}

#[test]
fn fifo_mode_values_are_code_shifted_by_five() {
    assert_eq!(FIFOMode::Bypass.value(), 0b0000_0000);
    assert_eq!(FIFOMode::FIFO.value(), 0b0010_0000);
    assert_eq!(FIFOMode::Stream.value(), 0b0100_0000);
    assert_eq!(FIFOMode::StreamToFIFO.value(), 0b0110_0000);
    assert_eq!(FIFOMode::BypassToStream.value(), 0b1000_0000);
    assert_eq!(FIFOMode::DynamicStream.value(), 0b1100_0000);
    assert_eq!(FIFOMode::BypassToFIFO.value(), 0b1110_0000);
}

#[test]
fn int_drdy_values() {
    assert_eq!(IntDrdy::DataSignal.value(), 0b00);
    assert_eq!(IntDrdy::PHigh.value(), 0b01);
    assert_eq!(IntDrdy::PLow.value(), 0b10);
    assert_eq!(IntDrdy::PLowOrHigh.value(), 0b11);
}

#[test]
fn single_bit_setting_values() {
    assert_eq!(IntActive::High.value(), 0);
    assert_eq!(IntActive::Low.value(), 1);
    assert_eq!(IntPin::PushPull.value(), 0);
    assert_eq!(IntPin::OpenDrain.value(), 1);
    assert_eq!(Flag::Disabled.status(), 0);
    assert_eq!(Flag::Enabled.status(), 1);
    assert_eq!(FIFOOn::Disabled.value(), 0);
    assert_eq!(FIFOOn::Enabled.value(), 1);
}

#[test]
fn register_addresses() {
    assert_eq!(Registers::INTERRUPT_CFG.addr(), 0x0B);
    assert_eq!(Registers::THS_P_L.addr(), 0x0C);
    assert_eq!(Registers::THS_P_H.addr(), 0x0D);
    assert_eq!(Registers::WHO_AM_I.addr(), 0x0F);
    assert_eq!(Registers::CTRL_REG1.addr(), 0x10);
    assert_eq!(Registers::CTRL_REG2.addr(), 0x11);
    assert_eq!(Registers::CTRL_REG3.addr(), 0x12);
    assert_eq!(Registers::FIFO_CTRL.addr(), 0x14);
    assert_eq!(Registers::REF_P_XL.addr(), 0x15);
    assert_eq!(Registers::REF_P_L.addr(), 0x16);
    assert_eq!(Registers::REF_P_H.addr(), 0x17);
    assert_eq!(Registers::RPDS_L.addr(), 0x18);
    assert_eq!(Registers::RPDS_H.addr(), 0x19);
    assert_eq!(Registers::RES_CONF.addr(), 0x1A);
    assert_eq!(Registers::INT_SOURCE.addr(), 0x25);
    assert_eq!(Registers::FIFO_STATUS.addr(), 0x26);
    assert_eq!(Registers::STATUS.addr(), 0x27);
    assert_eq!(Registers::PRESS_OUT_XL.addr(), 0x28);
    assert_eq!(Registers::PRESS_OUT_L.addr(), 0x29);
    assert_eq!(Registers::PRESS_OUT_H.addr(), 0x2A);
    assert_eq!(Registers::TEMP_OUT_L.addr(), 0x2B);
    assert_eq!(Registers::TEMP_OUT_H.addr(), 0x2C);
    assert_eq!(Registers::LPFP_RES.addr(), 0x33);
}

#[test]
fn i2c_addresses() {
    assert_eq!(I2cAddress::SA0_VCC.addr(), 0x5D);
    assert_eq!(I2cAddress::SA0_GND.addr(), 0x5C);
}

#[test]
fn bitmask_values() {
    assert_eq!(Bitmasks::ODR_MASK, 0b0111_0000);
    assert_eq!(Bitmasks::F_MODE_MASK, 0b1110_0000);
    assert_eq!(Bitmasks::WTM_MASK, 0b0001_1111);
    assert_eq!(Bitmasks::FSS_MASK, 0b0011_1111);
    assert_eq!(Bitmasks::ONE_SHOT, 0b0000_0001);
    assert_eq!(Bitmasks::BOOT_STATUS, 0b1000_0000);
}
