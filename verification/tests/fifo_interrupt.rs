//! FIFO and interrupt operations, run against the in-memory register bank.

use lps22hb::bank::RegisterBank;
use lps22hb::fifo::FIFOConfig;
use lps22hb::interface::Interface;
use lps22hb::interrupt::{IntStatus, InterruptConfig};
use lps22hb::register::{Bitmasks, Registers};
use lps22hb::{FIFOMode, FIFOOn, Flag, IntActive, IntDrdy, IntPin, LPS22HB};

#[test]
fn fifo_config_default_values() {
    let config = FIFOConfig::default();
    assert!(matches!(config.enable_watermark, Flag::Disabled));
    assert!(matches!(config.fifo_mode, FIFOMode::Bypass));
    assert_eq!(config.watermark_level, 32);
}

#[test]
fn fifo_config_packs_mode_and_watermark() {
    let config = FIFOConfig {
        enable_watermark: Flag::Enabled,
        fifo_mode: FIFOMode::Stream,
        watermark_level: 4,
    };
    assert_eq!(config.f_fifo_ctrl(), 0b0100_0100);
}

#[test]
fn configure_fifo_enables_and_writes_control_byte() {
    let bank = RegisterBank::new();
    let mut driver = LPS22HB::new(bank);
    let config = FIFOConfig {
        enable_watermark: Flag::Enabled,
        fifo_mode: FIFOMode::FIFO,
        watermark_level: 10,
    };
    driver.configure_fifo(FIFOOn::Enabled, config).unwrap();
    let bank = driver.destroy();
    assert_eq!(
        bank.register(Registers::CTRL_REG2.addr()),
        Bitmasks::FIFO_EN | Bitmasks::STOP_ON_FTH
    );
    assert_eq!(bank.register(Registers::FIFO_CTRL.addr()), 0b0010_1010);
}

#[test]
fn configure_fifo_disables_and_clears_bits() {
    let mut bank = RegisterBank::new();
    bank.write(Registers::CTRL_REG2.addr(), 0b0110_0000).unwrap();
    let mut driver = LPS22HB::new(bank);
    let config = FIFOConfig {
        enable_watermark: Flag::Disabled,
        fifo_mode: FIFOMode::Bypass,
        watermark_level: 0,
    };
    driver.configure_fifo(FIFOOn::Disabled, config).unwrap();
    let bank = driver.destroy();
    assert_eq!(bank.register(Registers::CTRL_REG2.addr()), 0);
    assert_eq!(bank.register(Registers::FIFO_CTRL.addr()), 0);
}

#[test]
fn fifo_status_empty_iff_level_zero_for_all_levels() {
    for level in 0u8..64 {
        let mut bank = RegisterBank::new();
        bank.write(Registers::FIFO_STATUS.addr(), level).unwrap();
        let mut driver = LPS22HB::new(bank);
        let status = driver.get_fifo_status().unwrap();
        assert_eq!(status.fifo_level, level);
        assert_eq!(status.fifo_empty, level == 0);
    }
}

#[test]
fn fifo_status_decodes_flags_and_level() {
    let mut bank = RegisterBank::new();
    bank.write(Registers::FIFO_STATUS.addr(), 0b1100_0001).unwrap();
    let mut driver = LPS22HB::new(bank);
    let status = driver.get_fifo_status().unwrap();
    assert!(status.fifo_thresh_reached);
    assert!(status.fifo_overrun);
    assert!(!status.fifo_empty);
    assert_eq!(status.fifo_level, 1);
}

#[test]
fn interrupt_config_default_values() {
    let config = InterruptConfig::default();
    assert!(matches!(config.active_high_or_low, IntActive::High));
    assert!(matches!(config.pushpull_or_opendrain, IntPin::PushPull));
    assert!(matches!(config.data_signal_config, IntDrdy::DataSignal));
    assert!(matches!(config.enable_fifo_full, Flag::Disabled));
    assert!(matches!(config.enable_fifo_fth, Flag::Disabled));
    assert!(matches!(config.enable_fifo_overrun, Flag::Disabled));
    assert!(matches!(config.enable_data_ready, Flag::Disabled));
    assert!(matches!(config.enable_latch_interrupt, Flag::Disabled));
    assert!(matches!(config.enable_low_event, Flag::Disabled));
    assert!(matches!(config.enable_high_event, Flag::Disabled));
    assert!(matches!(config.enable_differential, Flag::Disabled));
}

#[test]
fn interrupt_config_packs_both_register_bytes() {
    let config = InterruptConfig {
        active_high_or_low: IntActive::Low,
        pushpull_or_opendrain: IntPin::PushPull,
        data_signal_config: IntDrdy::PHigh,
        enable_fifo_full: Flag::Disabled,
        enable_fifo_fth: Flag::Enabled,
        enable_fifo_overrun: Flag::Disabled,
        enable_data_ready: Flag::Enabled,
        enable_latch_interrupt: Flag::Enabled,
        enable_low_event: Flag::Enabled,
        enable_high_event: Flag::Disabled,
        enable_differential: Flag::Enabled,
    };
    assert_eq!(config.int_ctrl_reg3(), 0b1001_0101);
    assert_eq!(config.int_interrupt_cfg(), 0b0000_1110);
}

#[test]
fn int_status_from_decodes_all_bits() {
    let status = IntStatus::from(0b0000_0111);
    assert!(status.interrupt_active);
    assert!(status.diff_press_low);
    assert!(status.diff_press_high);
    let status = IntStatus::from(0b0000_0000);
    assert!(!status.interrupt_active);
    assert!(!status.diff_press_low);
    assert!(!status.diff_press_high);
}

#[test]
fn get_int_status_reads_one_snapshot() {
    let mut bank = RegisterBank::new();
    bank.write(Registers::INT_SOURCE.addr(), 0b0000_0101).unwrap();
    let mut driver = LPS22HB::new(bank);
    let status = driver.get_int_status().unwrap();
    assert!(status.interrupt_active);
    assert!(!status.diff_press_low);
    assert!(status.diff_press_high);
}

#[test]
fn configure_interrupts_packs_control_register_3() {
    let bank = RegisterBank::new();
    let mut driver = LPS22HB::new(bank);
    let config = InterruptConfig {
        active_high_or_low: IntActive::Low,
        pushpull_or_opendrain: IntPin::OpenDrain,
        data_signal_config: IntDrdy::PLowOrHigh,
        enable_fifo_full: Flag::Enabled,
        enable_fifo_fth: Flag::Disabled,
        enable_fifo_overrun: Flag::Disabled,
        enable_data_ready: Flag::Enabled,
        enable_latch_interrupt: Flag::Disabled,
        enable_low_event: Flag::Disabled,
        enable_high_event: Flag::Disabled,
        enable_differential: Flag::Disabled,
    };
    driver.configure_interrupts(config).unwrap();
    let bank = driver.destroy();
    assert_eq!(bank.register(Registers::CTRL_REG3.addr()), 0b1110_0111);
}

#[test]
fn configure_interrupts_preserves_high_nibble() {
    // AUTORIFP and AUTOZERO are set beforehand and must survive.
    let mut bank = RegisterBank::new();
    bank.write(Registers::INTERRUPT_CFG.addr(), 0b1010_0000)
        .unwrap();
    let mut driver = LPS22HB::new(bank);
    let config = InterruptConfig {
        enable_latch_interrupt: Flag::Enabled,
        enable_high_event: Flag::Enabled,
        ..InterruptConfig::default()
    };
    driver.configure_interrupts(config).unwrap();
    let bank = driver.destroy();
    assert_eq!(
        bank.register(Registers::INTERRUPT_CFG.addr()),
        0b1010_0101
    );
}

#[test]
fn configure_interrupts_overwrites_an_earlier_low_nibble() {
    let mut bank = RegisterBank::new();
    bank.write(Registers::INTERRUPT_CFG.addr(), 0b0101_1111)
        .unwrap();
    let mut driver = LPS22HB::new(bank);
    let config = InterruptConfig {
        enable_differential: Flag::Enabled,
        ..InterruptConfig::default()
    };
    driver.configure_interrupts(config).unwrap();
    let bank = driver.destroy();
    assert_eq!(
        bank.register(Registers::INTERRUPT_CFG.addr()),
        0b0101_1000
    );
}
