use emulator_core::cartridge::mbc1::BankingMode;
use emulator_core::cartridge::mbc3::RegisterSelect;
use emulator_core::Days;
use emulator_core::ROMSize;
use emulator_core::MBC1;
use emulator_core::MBC3;
use emulator_core::RTC;

/// The 4 MiB MBC1 board the bank-switching tests use: 128 ROM banks, 32 KiB
/// of RAM.
fn mock_mbc1() -> MBC1 {
    let mut rom = vec![0; 0x8000 * 128];
    rom[0x147] = 0x01;
    rom[0x148] = 0x06;
    rom[0x149] = 0x03;

    MBC1::new(rom, None)
}

/// The smaller MBC1 board the control-register tests use, declaring the
/// largest ROM and RAM sizes in its header.
fn small_mock_mbc1() -> MBC1 {
    let mut rom = vec![0; 0x16000];
    rom[0x147] = 0x01;
    rom[0x148] = 0x08;
    rom[0x149] = 0x05;

    MBC1::new(rom, None)
}

fn mock_mbc3() -> MBC3 {
    let mut rom = vec![0; 0x8000 * 128];
    rom[0x147] = 0x01;
    rom[0x148] = 0x06;
    rom[0x149] = 0x03;

    MBC3::new(rom, None)
}

#[test]
fn mbc1_read_ram_ram_disabled() {
    let mbc1 = mock_mbc1();

    assert_eq!(mbc1.read_ram(0xA000), 0xFF);
}

#[test]
fn mbc1_write_ram_ram_disabled() {
    let mut mbc1 = mock_mbc1();

    mbc1.write_ram(0xA000, 0x42);

    // Enable RAM
    mbc1.write_rom(0x0000, 0x0A);

    assert_eq!(mbc1.read_ram(0xA000), 0);
}

#[test]
fn can_read_and_write_ram_banks_in_ram_banking_mode() {
    let mut mbc1 = mock_mbc1();

    // Enable RAM
    mbc1.write_rom(0x0000, 0x0A);

    // Switch to RAM banking mode
    mbc1.write_rom(0x6000, 1);

    // write to each bank
    for i in 0..3 {
        mbc1.ram_bank = i;
        mbc1.write_ram(0xA000, i);
    }

    // read from each bank
    for i in 0..3 {
        mbc1.ram_bank = i;
        assert_eq!(mbc1.read_ram(0xA000), i);
    }
}

#[test]
fn only_first_ram_bank_available_in_rom_banking_mode() {
    let mut mbc1 = mock_mbc1();
    mbc1.ram = vec![0; 0x2000 * 4];

    // Enable RAM
    mbc1.write_rom(0x0000, 0x0A);

    // Switch to ROM banking mode
    mbc1.write_rom(0x6000, 0);

    // write to each bank selector; in ROM-banking mode every write lands in
    // the always-visible bank 0
    for i in 0..3 {
        mbc1.ram_bank = i;
        mbc1.write_ram(0xA000, i);
    }

    // Switch to ROM banking mode
    mbc1.write_rom(0x6000, 0);

    // whatever the selector says, reads see bank 0: the last byte written
    for i in 0..3 {
        mbc1.ram_bank = i;
        assert_eq!(mbc1.read_ram(0xA000), 2);
    }
}

#[test]
fn ignores_writes_to_ram_banks_out_of_range() {
    let mut rom = vec![0; 0x8000 * 128];
    rom[0x147] = 0x01;
    rom[0x148] = 0x06;
    // only KB2 of ram
    rom[0x149] = 0x01;
    let mut mbc1 = MBC1::new(rom, None);

    mbc1.ram = vec![0; 0x2000 * 4];

    // Enable RAM
    mbc1.write_rom(0x0000, 0x0A);

    // Switch to RAM banking mode
    mbc1.write_rom(0x6000, 0);

    mbc1.write_rom(0x4000, 3);

    assert_eq!(mbc1.ram_bank, 0);
}

#[test]
fn mbc1_read_static_rom_memory() {
    let mut mbc1 = mock_mbc1();
    mbc1.rom[0x0000] = 0x42;

    assert_eq!(mbc1.read_rom(0x0000), 0x42);
}

#[test]
fn mbc1_read_rom_banked_memory() {
    let mut mbc1 = mock_mbc1();

    // Write known values to each bank
    for i in 1..4 {
        mbc1.rom[i * 0x4000] = i as u8;
    }

    for i in 1..4 {
        // Switch to ith bank
        mbc1.write_rom(0x2000, i as u8);
        assert_eq!(mbc1.read_rom(0x4000), i as u8);
    }
}

#[test]
fn mbc1_change_rom_bank_to_zero() {
    let mut mbc1 = mock_mbc1();

    // The first rom bank is fixed so trying to set the banked rom to 0
    // sets it to 1.
    mbc1.write_rom(0x2000, 0x00);
    assert_eq!(mbc1.rom_bank, 1);
}

#[test]
fn mbc1_change_rom_bank_to_value_larger_than_banks_available() {
    // If the ROM Bank Number is set to a higher value
    // than the number of banks in the cart, the bank number
    // is masked to the required number of bits.
    let mut mbc1 = mock_mbc1();
    mbc1.header.rom_size = ROMSize::KB64;
    mbc1.write_rom(0x2000, 0b11111111);
    assert_eq!(mbc1.rom_bank, 3);

    mbc1.header.rom_size = ROMSize::KB32;
    mbc1.write_rom(0x2000, 0b11111111);
    assert_eq!(mbc1.rom_bank, 1);
}

#[test]
fn change_rom_bank_to_zero_edge_case() {
    let mut mbc1 = mock_mbc1();
    mbc1.header.rom_size = ROMSize::KB64;

    // Even with smaller ROMs that use less than 5 bits for bank selection,
    // the full 5-bit register is still compared for the bank 00->01
    // translation. As a result, on a ROM of 256 KiB or smaller it is
    // possible to map bank 0 into the 4000-7FFF region: setting the fifth
    // bit prevents the translation (the register reads 0x10, not 0x00),
    // while the bits the size mask keeps are all zero, selecting bank 0.
    mbc1.write_rom(0x2000, 0b10000);
    assert_eq!(mbc1.rom_bank, 0);
}

#[test]
fn in_rom_banking_mode_higher_banks_are_available() {
    let mut mbc1 = mock_mbc1();
    mbc1.rom = vec![0; 0x4000 * 130];
    mbc1.rom[0x4000 * 0b1111111] = 0x42;

    // Switch to ROM banking mode
    mbc1.write_rom(0x6000, 0);

    mbc1.write_rom(0x2000, 0b11111);
    mbc1.write_rom(0x4000, 0b11);
    assert_eq!(mbc1.read_rom(0x4000), 0x42);
}

#[test]
fn in_ram_banking_mode_higher_bits_are_ignored() {
    let mut mbc1 = mock_mbc1();
    mbc1.rom = vec![0; 0x4000 * 130];

    // Switch to RAM banking mode
    mbc1.write_rom(0x6000, 1);

    mbc1.write_rom(0x2000, 0b11111);
    mbc1.write_rom(0x4000, 0b11);
    assert_eq!(mbc1.read_rom(0x4000), 0);
}

#[test]
fn write_rom_ram_enabled() {
    let mut mbc1 = small_mock_mbc1();

    for i in 0..=0x1fff {
        mbc1.write_rom(i, 0x0A);
        assert_eq!(mbc1.ram_enabled, true);
        mbc1.write_rom(i, 0xFF);
        assert_eq!(mbc1.ram_enabled, false);
    }
}

#[test]
fn write_rom_bank() {
    let mut mbc1 = small_mock_mbc1();

    for i in 0x2000..=0x3fff {
        mbc1.write_rom(i, 0x42);
        assert_eq!(mbc1.rom_bank, 66);
    }
}

#[test]
fn write_rom_zero_to_one_translation_logic() {
    let mut mbc1 = small_mock_mbc1();

    mbc1.write_rom(0x2000, 0x00);
    assert_eq!(mbc1.rom_bank, 1);
}

#[test]
fn write_rom_zero_to_one_translation_logic_masking() {
    let mut mbc1 = small_mock_mbc1();
    mbc1.header.rom_size = ROMSize::KB64;

    // The 00->01 translation examines the raw 5-bit register before the
    // cartridge-size mask, so on a small ROM a write of 0b10000 selects
    // bank 0.
    mbc1.write_rom(0x2000, 0b10000);
    assert_eq!(mbc1.rom_bank, 0);
}

#[test]
fn write_rom_bank_number_masked_to_min_bits_for_cartridge_size() {
    let mut mbc1 = small_mock_mbc1();
    mbc1.header.rom_size = ROMSize::KB64;
    mbc1.write_rom(0x2000, 0b11111111);
    assert_eq!(mbc1.rom_bank, 3);

    mbc1.header.rom_size = ROMSize::KB32;
    mbc1.write_rom(0x2000, 0b11111111);
    assert_eq!(mbc1.rom_bank, 1);
}

#[test]
fn higher_banks_available_in_rom_bank_mode() {
    let mut mbc1 = small_mock_mbc1();
    mbc1.rom = vec![0; 0x4000 * 130];
    mbc1.rom[0x4000 * 0b1111111] = 0x42;
    mbc1.banking_mode = BankingMode::Rom;

    mbc1.write_rom(0x2000, 0b11111);
    mbc1.write_rom(0x4000, 0b11);
    assert_eq!(mbc1.read_rom(0x4000), 0x42);
}

#[test]
fn higher_bits_ignored_in_ram_bank_mode() {
    let mut mbc1 = small_mock_mbc1();
    mbc1.rom = vec![0; 0x4000 * 130];
    mbc1.banking_mode = BankingMode::Ram;

    mbc1.write_rom(0x2000, 0b11111);
    mbc1.write_rom(0x4000, 0b11);
    assert_eq!(mbc1.read_rom(0x4000), 0);
}

#[test]
fn mbc3_read_ram_ram_disabled() {
    let mbc3 = mock_mbc3();

    assert_eq!(mbc3.read_ram(0xA000), 0xFF);
}

#[test]
fn mbc3_write_ram_ram_disabled() {
    let mut mbc3 = mock_mbc3();

    mbc3.write_ram(0xA000, 0x42);

    // Enable RAM
    mbc3.write_rom(0x0000, 0x0A);

    assert_eq!(mbc3.read_ram(0xA000), 0);
}

#[test]
fn can_read_and_write_ram_banks_when_enabled() {
    let mut mbc3 = mock_mbc3();

    // Enable RAM
    mbc3.write_rom(0x0000, 0x0A);

    // write to each bank
    for i in 0..3 {
        mbc3.register_select = RegisterSelect::RamBank(i);
        mbc3.write_ram(0xA000, i);
    }

    // read from each bank
    for i in 0..3 {
        mbc3.register_select = RegisterSelect::RamBank(i);
        assert_eq!(mbc3.read_ram(0xA000), i);
    }
}

#[test]
fn mbc3_read_static_rom_memory() {
    let mut mbc3 = mock_mbc3();
    mbc3.rom[0x0000] = 0x42;

    assert_eq!(mbc3.read_rom(0x0000), 0x42);
}

#[test]
fn mbc3_read_rom_banked_memory() {
    let mut mbc3 = mock_mbc3();

    // Write known values to each bank
    for i in 1..4 {
        mbc3.rom[i * 0x4000] = i as u8;
    }

    for i in 1..4 {
        // Switch to ith bank
        mbc3.write_rom(0x2000, i as u8);
        assert_eq!(mbc3.read_rom(0x4000), i as u8);
    }
}

#[test]
fn mbc3_change_rom_bank_to_zero() {
    let mut mbc3 = mock_mbc3();

    // The first rom bank is fixed so trying to set the banked rom to 0
    // sets it to 1.
    mbc3.write_rom(0x2000, 0x00);
    assert_eq!(mbc3.rom_bank, 1);
}

#[test]
fn mbc3_change_rom_bank_to_value_larger_than_banks_available() {
    // If the ROM Bank Number is set to a higher value
    // than the number of banks in the cart, the bank number
    // is masked to the required number of bits.
    let mut mbc3 = mock_mbc3();
    mbc3.header.rom_size = ROMSize::KB64;
    mbc3.write_rom(0x2000, 0b11111111);
    assert_eq!(mbc3.rom_bank, 3);

    mbc3.header.rom_size = ROMSize::KB32;
    mbc3.write_rom(0x2000, 0b11111111);
    assert_eq!(mbc3.rom_bank, 1);
}

#[test]
fn live_registers_returned_when_never_latch() {
    let now: u64 = 1_000_000_000;

    let later = now + 10 + 60 * 10 + 3600 * 10 + 3600 * 24 * 10;

    let mut rtc = RTC::new(now);

    assert_eq!(rtc.read_seconds(), 0);
    assert_eq!(rtc.read_minutes(), 0);
    assert_eq!(rtc.read_hours(), 0);
    assert_eq!(rtc.read_days_lower(), 0);
    assert_eq!(rtc.read_days_upper(), 0);

    // Clock the RTC forward to later
    rtc.update(later);

    assert_eq!(rtc.read_seconds(), 10);
    assert_eq!(rtc.read_minutes(), 10);
    assert_eq!(rtc.read_hours(), 10);
    assert_eq!(rtc.read_days_lower(), 10);
    assert_eq!(rtc.read_days_upper(), 0);
}

#[test]
fn latched_registers_returned_when_latched() {
    let now: u64 = 1_000_000_000;

    let later = now + 10 + 60 * 10 + 3600 * 10 + 3600 * 24 * 10;

    let mut rtc = RTC::new(now);

    assert_eq!(rtc.read_seconds(), 0);
    assert_eq!(rtc.read_minutes(), 0);
    assert_eq!(rtc.read_hours(), 0);
    assert_eq!(rtc.read_days_lower(), 0);
    assert_eq!(rtc.read_days_upper(), 0);

    rtc.latch();

    // Clock the RTC forward to later
    rtc.update(later);

    assert_eq!(rtc.read_seconds(), 0);
    assert_eq!(rtc.read_minutes(), 0);
    assert_eq!(rtc.read_hours(), 0);
    assert_eq!(rtc.read_days_lower(), 0);
    assert_eq!(rtc.read_days_upper(), 0);
}

#[test]
fn relatching_clock_updates_registers() {
    let now: u64 = 1_000_000_000;

    let later = now + 10 + 60 * 10 + 3600 * 10 + 3600 * 24 * 10;

    let mut rtc = RTC::new(now);

    assert_eq!(rtc.read_seconds(), 0);
    assert_eq!(rtc.read_minutes(), 0);
    assert_eq!(rtc.read_hours(), 0);
    assert_eq!(rtc.read_days_lower(), 0);
    assert_eq!(rtc.read_days_upper(), 0);

    rtc.latch();

    // Clock the RTC forward to later
    rtc.update(later);

    // Relatch the clock after update
    rtc.latch();

    assert_eq!(rtc.read_seconds(), 10);
    assert_eq!(rtc.read_minutes(), 10);
    assert_eq!(rtc.read_hours(), 10);
    assert_eq!(rtc.read_days_lower(), 10);
    assert_eq!(rtc.read_days_upper(), 0);
}

#[test]
fn test_write_seconds() {
    let now: u64 = 1_000_000_000;
    let mut rtc = RTC::new(now);

    let now = now + 50;

    rtc.write_seconds(now, 10);

    rtc.update(now);

    assert_eq!(rtc.read_seconds(), 10);
}

#[test]
fn test_write_minutes() {
    let now: u64 = 1_000_000_000;
    let mut rtc = RTC::new(now);

    let now = now + 100 * 60;

    rtc.write_minutes(now, 45);

    rtc.update(now);

    assert_eq!(rtc.read_minutes(), 45);
}

#[test]
fn test_write_hours() {
    let now: u64 = 1_000_000_000;
    let mut rtc = RTC::new(now);

    let now = now + 20 * 3600;

    rtc.write_hours(now, 22);

    rtc.update(now);

    assert_eq!(rtc.read_hours(), 22);
}

#[test]
fn test_write_days() {
    let now: u64 = 1_000_000_000;
    let mut rtc = RTC::new(now);

    let now = now + 100 * 3600 * 24;

    rtc.write_days_lower(now, 100);
    rtc.write_days_upper(now, 100);

    rtc.update(now);

    assert_eq!(rtc.read_days_lower(), 100);
    assert_eq!(rtc.read_days_upper(), 100);
}

#[test]
fn test_registers_halted() {
    let now: u64 = 1_000_000_000;
    let mut rtc = RTC::new(now);

    // Halt the RTC
    rtc.write_days_upper(now, 0b01000000);

    let now = now + 100 * 250;

    rtc.update(now);

    assert_eq!(rtc.read_seconds(), 0);
    assert_eq!(rtc.read_minutes(), 0);
}

// The RTC registers must not jump when unhalting the RTC.
#[test]
fn test_halted_then_unhalt() {
    let now: u64 = 1_000_000_000;
    let mut rtc = RTC::new(now);

    // Halt the RTC
    rtc.write_days_upper(now, 0b010000000);

    let now = now + 100 * 250;

    // Unhalt the RTC some time later
    rtc.write_days_upper(now, 0);

    let later = now + 10 * 60;

    rtc.update(later);

    assert_eq!(rtc.read_minutes(), 10);
    assert_eq!(rtc.read_seconds(), 0);
}

#[test]
fn test_days_overflow() {
    let now: u64 = 1_000_000_000;
    let mut rtc = RTC::new(now);

    rtc.write_days_lower(now, 0xFF);
    rtc.write_days_upper(now, 0b1);

    let now = now + 24 * 3600;

    // Update RTC to a day later
    rtc.update(now);

    assert_eq!(rtc.read_days_lower(), 0);
    assert_eq!(rtc.read_days_upper(), 0b10000000);
}

#[test]
fn set_and_get_lower() {
    let mut days = Days::new();
    days.set_lower(10);

    assert_eq!(days.lower(), 10)
}

#[test]
fn set_and_get_upper() {
    let mut days = Days::new();
    days.set_upper(39);
    assert_eq!(days.upper(), 39);
}

#[test]
fn update_and_get_days() {
    let mut days = Days::new();
    days.update_days(100);

    assert_eq!(days.days(), 100);

    days.update_days(200);

    assert_eq!(days.days(), 200);
}

#[test]
fn update_days_overflow() {
    let mut days = Days::new();

    days.update_days(600);

    assert_eq!(days.days(), 88);
    assert!(days.overflow());
}

#[test]
fn halt() {
    let mut days = Days::new();

    days.set_halted(true);

    assert_eq!(days.upper(), 0b01000000);
    assert!(days.halted());

    days.set_halted(false);
    assert_eq!(days.upper(), 0);
    assert!(!days.halted());
}
