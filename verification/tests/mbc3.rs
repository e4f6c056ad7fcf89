use rustyboy::cartridge::cartridge_capability::CartridgeCapability;
use rustyboy::cartridge::mbc::mbc3::{MBC3Mode, MBC3};
use rustyboy::cartridge::mbc::real_time_clock::RTCRegister;
use rustyboy::cartridge::mbc::MemoryBankController;
use rustyboy::cartridge::{Cartridge, CartridgeMetadata};

#[test]
fn rom_bank_switching() {
    let mut mbc = MBC3::new(&vec![]);
    mbc.write_rom(0x2000, 0x7F);
    assert_eq!(mbc.rom_bank(), 0x7F);
}

#[test]
fn rom_bank_switching_zero() {
    let mut mbc = MBC3::new(&vec![]);
    mbc.write_rom(0x2000, 0);
    assert_eq!(mbc.rom_bank(), 1);
}

#[test]
fn set_mode() {
    let mut mbc = MBC3::new(&vec![CartridgeCapability::Timer]);

    mbc.write_rom(0x4000, 8);
    assert_eq!(mbc.mode(), &MBC3Mode::RTC);

    mbc.write_rom(0x4000, 7);
    assert_eq!(mbc.mode(), &MBC3Mode::RAM);
}

#[test]
fn enable_ram() {
    let mut mbc = MBC3::new(&vec![]);
    mbc.write_rom(0, 0x0A);
    assert!(mbc.ram_enabled());
}

#[test]
fn ram_bank_default() {
    let mbc = MBC3::new(&vec![]);
    assert_eq!(mbc.relative_ram_address(0xA000), 0);
}

#[test]
fn ram_bank_switching() {
    let mut mbc = MBC3::new(&vec![]);
    mbc.set_ram_enabled(true);
    mbc.write_rom(0x4000, 7);
    assert_eq!(mbc.ram_bank(), 7);
}

#[test]
fn rtc_register_switching() {
    let mut mbc = MBC3::new(&vec![CartridgeCapability::Timer]);
    mbc.set_ram_enabled(true);
    mbc.write_rom(0x4000, 8);
    if let Some(clock) = mbc.clock() {
        assert_eq!(clock.active_register(), &RTCRegister::Seconds);
    }
}

#[test]
fn rtc_register_follows_the_value_written() {
    let mut mbc = MBC3::new(&vec![CartridgeCapability::Timer]);
    mbc.write_rom(0x4000, 0x0A);
    assert_eq!(mbc.clock().as_ref().unwrap().active_register(), &RTCRegister::Hours);
    mbc.write_rom(0x5FFF, 0x0C);
    assert_eq!(mbc.clock().as_ref().unwrap().active_register(), &RTCRegister::DayHigh);
    mbc.write_rom(0x4000, 0x0D);
    assert_eq!(mbc.clock().as_ref().unwrap().active_register(), &RTCRegister::DayHigh);
    assert_eq!(mbc.mode(), &MBC3Mode::RTC);
}

#[test]
fn rtc_selection_without_a_clock_changes_nothing() {
    let mut mbc = MBC3::new(&vec![CartridgeCapability::RAM]);
    mbc.write_rom(0x4000, 8);
    assert_eq!(mbc.mode(), &MBC3Mode::RAM);
    assert!(mbc.clock().is_none());
}

#[test]
fn ram_is_disabled_by_any_other_value() {
    let mut mbc = MBC3::new(&vec![]);
    mbc.write_rom(0x1FFF, 0x0A);
    assert!(mbc.ram_enabled());
    mbc.write_rom(0x0100, 0x0B);
    assert!(!mbc.ram_enabled());
}

#[test]
fn rom_bank_keeps_seven_bits() {
    let mut mbc = MBC3::new(&vec![]);
    mbc.write_rom(0x3FFF, 0x85);
    assert_eq!(mbc.rom_bank(), 0x05);
    mbc.write_rom(0x2000, 0x80);
    assert_eq!(mbc.rom_bank(), 1);
}

#[test]
fn writes_above_the_bank_ranges_change_nothing() {
    let mut mbc = MBC3::new(&vec![CartridgeCapability::Timer]);
    mbc.write_rom(0x6000, 0x0A);
    mbc.write_rom(0x7FFF, 0x05);
    mbc.write_rom(0x8000, 0x05);
    assert_eq!(mbc.rom_bank(), 1);
    assert_eq!(mbc.ram_bank(), 0);
    assert!(!mbc.ram_enabled());
    assert_eq!(mbc.mode(), &MBC3Mode::RAM);
}

#[test]
fn read_ram_reads_behind_the_rom() {
    let mut buffer = vec![0u8; 0x8000 + 4 * 0x2000];
    buffer[0x8000 + 2 * 0x2000 + 0x10] = 0x5A;
    let cartridge = Cartridge { buffer, metadata: CartridgeMetadata { rom_size: 0x8000 } };
    let mut mbc = MBC3::new(&vec![CartridgeCapability::Timer]);
    mbc.write_rom(0x4000, 2);
    assert_eq!(mbc.relative_ram_address(0xA010), 2 * 0x2000 + 0x10);
    assert_eq!(mbc.read_ram(0xA010, &cartridge), 0x5A);
    mbc.write_rom(0x4000, 0x09);
    assert_eq!(mbc.read_ram(0xA010, &cartridge), 0);
}
