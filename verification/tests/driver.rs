//! Driver-core primitives and configuration operations, run against the
//! in-memory register bank.

use lps22hb::bank::RegisterBank;
use lps22hb::interface::Interface;
use lps22hb::register::{Bitmasks, Registers};
use lps22hb::{LPS22HB, Odr, SPIMode};

fn bank_with(values: &[(Registers, u8)]) -> RegisterBank {
    let mut bank = RegisterBank::new();
    for (reg, value) in values {
        bank.write(reg.addr(), *value).unwrap();
    }
    bank
}

#[test]
fn new_and_destroy_keep_the_bank() {
    let bank = bank_with(&[(Registers::WHO_AM_I, 0xB1)]);
    let driver = LPS22HB::new(bank);
    let bank = driver.destroy();
    assert_eq!(bank.register(Registers::WHO_AM_I.addr()), 0xB1);
}

#[test]
fn read_register_returns_stored_byte() {
    let bank = bank_with(&[(Registers::CTRL_REG2, 0x5A)]);
    let mut driver = LPS22HB::new(bank);
    assert_eq!(driver.read_register(Registers::CTRL_REG2).unwrap(), 0x5A);
}

#[test]
fn set_then_clear_bit_flag_restores_original() {
    // The initial byte has no bit of the mask set, so the pair of calls is a
    // round trip.
    let bank = bank_with(&[(Registers::CTRL_REG2, 0b1000_0010)]);
    let mut driver = LPS22HB::new(bank);
    driver
        .set_register_bit_flag(Registers::CTRL_REG2, 0b0100_0000)
        .unwrap();
    {
        let bank = driver.destroy();
        assert_eq!(bank.register(Registers::CTRL_REG2.addr()), 0b1100_0010);
        driver = LPS22HB::new(bank);
    }
    driver
        .clear_register_bit_flag(Registers::CTRL_REG2, 0b0100_0000)
        .unwrap();
    let bank = driver.destroy();
    assert_eq!(bank.register(Registers::CTRL_REG2.addr()), 0b1000_0010);
}

#[test]
fn set_then_clear_round_trips_for_disjoint_bytes_and_masks() {
    // Sweep every initial byte against a spread of masks; whenever the byte
    // has no bit of the mask set, the pair of calls must restore it.
    let masks = [
        0b0000_0001u8,
        0b0000_0010,
        0b0000_0100,
        0b0000_1000,
        0b0001_0000,
        0b0010_0000,
        0b0100_0000,
        0b1000_0000,
        0b0011_0000,
        0b1100_0011,
    ];
    for byte in 0u8..=255 {
        for mask in masks {
            if byte & mask != 0 {
                continue;
            }
            let bank = bank_with(&[(Registers::CTRL_REG1, byte)]);
            let mut driver = LPS22HB::new(bank);
            driver
                .set_register_bit_flag(Registers::CTRL_REG1, mask)
                .unwrap();
            driver
                .clear_register_bit_flag(Registers::CTRL_REG1, mask)
                .unwrap();
            let bank = driver.destroy();
            assert_eq!(bank.register(Registers::CTRL_REG1.addr()), byte);
        }
    }
}

#[test]
fn is_register_bit_flag_high_tests_the_mask() {
    let bank = bank_with(&[(Registers::STATUS, 0b0000_0011)]);
    let mut driver = LPS22HB::new(bank);
    assert!(driver
        .is_register_bit_flag_high(Registers::STATUS, 0b0000_0001)
        .unwrap());
    assert!(!driver
        .is_register_bit_flag_high(Registers::STATUS, 0b0001_0000)
        .unwrap());
}

#[test]
fn set_datarate_preserves_bits_outside_rate_field() {
    // BDU and SIM set beforehand; selecting 50 Hz must give 0b0100_0011.
    let bank = bank_with(&[(Registers::CTRL_REG1, 0b0000_0011)]);
    let mut driver = LPS22HB::new(bank);
    driver.set_datarate(Odr::_50Hz).unwrap();
    let bank = driver.destroy();
    assert_eq!(bank.register(Registers::CTRL_REG1.addr()), 0b0100_0011);
}

#[test]
fn set_datarate_replaces_an_earlier_rate() {
    let bank = bank_with(&[(Registers::CTRL_REG1, 0b0101_1010)]);
    let mut driver = LPS22HB::new(bank);
    driver.set_datarate(Odr::_1Hz).unwrap();
    let bank = driver.destroy();
    assert_eq!(bank.register(Registers::CTRL_REG1.addr()), 0b0001_1010);
}

#[test]
fn bdu_enable_sets_and_clears_the_bdu_bit() {
    let bank = RegisterBank::new();
    let mut driver = LPS22HB::new(bank);
    driver.bdu_enable(true).unwrap();
    {
        let bank = driver.destroy();
        assert_eq!(bank.register(Registers::CTRL_REG1.addr()), Bitmasks::BDU);
        driver = LPS22HB::new(bank);
    }
    driver.bdu_enable(false).unwrap();
    let bank = driver.destroy();
    assert_eq!(bank.register(Registers::CTRL_REG1.addr()), 0);
}

#[test]
fn i2c_disable_sets_and_clears_the_bit() {
    let bank = RegisterBank::new();
    let mut driver = LPS22HB::new(bank);
    driver.i2c_disable(true).unwrap();
    {
        let bank = driver.destroy();
        assert_eq!(bank.register(Registers::CTRL_REG2.addr()), Bitmasks::I2C_DIS);
        driver = LPS22HB::new(bank);
    }
    driver.i2c_disable(false).unwrap();
    let bank = driver.destroy();
    assert_eq!(bank.register(Registers::CTRL_REG2.addr()), 0);
}

#[test]
fn spi_config_drives_the_sim_bit() {
    let bank = RegisterBank::new();
    let mut driver = LPS22HB::new(bank);
    driver.spi_config(SPIMode::_3wire).unwrap();
    {
        let bank = driver.destroy();
        assert_eq!(bank.register(Registers::CTRL_REG1.addr()), Bitmasks::SIM);
        driver = LPS22HB::new(bank);
    }
    driver.spi_config(SPIMode::_4wire).unwrap();
    let bank = driver.destroy();
    assert_eq!(bank.register(Registers::CTRL_REG1.addr()), 0);
}

#[test]
fn address_incrementing_drives_the_if_add_inc_bit() {
    let bank = RegisterBank::new();
    let mut driver = LPS22HB::new(bank);
    driver.address_incrementing(true).unwrap();
    let bank = driver.destroy();
    assert_eq!(
        bank.register(Registers::CTRL_REG2.addr()),
        Bitmasks::IF_ADD_INC
    );
}

#[test]
fn autozero_config_drives_the_autozero_bit() {
    let bank = bank_with(&[(Registers::INTERRUPT_CFG, 0b0000_0101)]);
    let mut driver = LPS22HB::new(bank);
    driver.autozero_config(true).unwrap();
    {
        let bank = driver.destroy();
        assert_eq!(bank.register(Registers::INTERRUPT_CFG.addr()), 0b0010_0101);
        driver = LPS22HB::new(bank);
    }
    driver.autozero_config(false).unwrap();
    let bank = driver.destroy();
    assert_eq!(bank.register(Registers::INTERRUPT_CFG.addr()), 0b0000_0101);
}

#[test]
fn autozero_reset_sets_the_reset_bit() {
    let bank = RegisterBank::new();
    let mut driver = LPS22HB::new(bank);
    driver.autozero_reset().unwrap();
    let bank = driver.destroy();
    assert_eq!(
        bank.register(Registers::INTERRUPT_CFG.addr()),
        Bitmasks::RESET_AZ
    );
}

#[test]
fn reboot_sets_the_boot_bit() {
    let bank = RegisterBank::new();
    let mut driver = LPS22HB::new(bank);
    driver.reboot().unwrap();
    let bank = driver.destroy();
    assert_eq!(bank.register(Registers::CTRL_REG2.addr()), Bitmasks::BOOT);
}

#[test]
fn reboot_running_reads_the_boot_status_bit() {
    let bank = bank_with(&[(Registers::INT_SOURCE, 0b1000_0000)]);
    let mut driver = LPS22HB::new(bank);
    assert!(driver.reboot_running().unwrap());
    let bank = bank_with(&[(Registers::INT_SOURCE, 0b0000_0111)]);
    let mut driver = LPS22HB::new(bank);
    assert!(!driver.reboot_running().unwrap());
}

#[test]
fn software_reset_sets_the_swreset_bit() {
    let bank = RegisterBank::new();
    let mut driver = LPS22HB::new(bank);
    driver.software_reset().unwrap();
    let bank = driver.destroy();
    assert_eq!(bank.register(Registers::CTRL_REG2.addr()), Bitmasks::SWRESET);
}

#[test]
fn enable_low_power_sets_the_lc_en_bit() {
    let bank = RegisterBank::new();
    let mut driver = LPS22HB::new(bank);
    driver.enable_low_power().unwrap();
    let bank = driver.destroy();
    assert_eq!(bank.register(Registers::RES_CONF.addr()), Bitmasks::LC_EN);
}

#[test]
fn lowpass_filter_drives_both_bits() {
    let bank = RegisterBank::new();
    let mut driver = LPS22HB::new(bank);
    driver.lowpass_filter(true, true).unwrap();
    {
        let bank = driver.destroy();
        assert_eq!(
            bank.register(Registers::CTRL_REG1.addr()),
            Bitmasks::EN_LPFP | Bitmasks::LPFP_CFG
        );
        driver = LPS22HB::new(bank);
    }
    driver.lowpass_filter(false, false).unwrap();
    let bank = driver.destroy();
    assert_eq!(bank.register(Registers::CTRL_REG1.addr()), 0);
}

#[test]
fn lowpass_filter_reset_leaves_registers_unchanged() {
    let bank = bank_with(&[(Registers::LPFP_RES, 0x77), (Registers::CTRL_REG1, 0x12)]);
    let mut driver = LPS22HB::new(bank);
    driver.lowpass_filter_reset().unwrap();
    let bank = driver.destroy();
    assert_eq!(bank.register(Registers::LPFP_RES.addr()), 0x77);
    assert_eq!(bank.register(Registers::CTRL_REG1.addr()), 0x12);
}

#[test]
fn enable_one_shot_sets_only_the_one_shot_bit() {
    let bank = bank_with(&[(Registers::CTRL_REG2, 0b0001_0000)]);
    let mut driver = LPS22HB::new(bank);
    driver.enable_one_shot().unwrap();
    let bank = driver.destroy();
    assert_eq!(bank.register(Registers::CTRL_REG2.addr()), 0b0001_0001);
}

#[test]
fn one_shot_forces_power_down_then_sets_the_bit() {
    let bank = bank_with(&[
        (Registers::CTRL_REG1, 0b0101_0010),
        (Registers::CTRL_REG2, 0b0001_0000),
    ]);
    let mut driver = LPS22HB::new(bank);
    driver.one_shot().unwrap();
    let bank = driver.destroy();
    assert_eq!(bank.register(Registers::CTRL_REG1.addr()), 0b0000_0010);
    assert_eq!(bank.register(Registers::CTRL_REG2.addr()), 0b0001_0001);
}
