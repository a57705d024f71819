use gba_core::mem::bus::MemoryRegion;
use gba_core::mem::carts::{EepRom, EepRomState, Sram};

#[test]
fn sram_is_read_from_work_ram_only() {
    let mut cart = Sram::new(vec![10, 20, 30]);
    cart.write(0x0E00_0010, 0x55, true);
    assert_eq!(cart.sram[0x10], 0x55);
    assert_eq!(cart.read(0x0E00_0010, MemoryRegion::WramBoard, true), Some(0x55));
    assert_eq!(cart.read(0x0E00_0010, MemoryRegion::WramChip, true), Some(0x55));
    assert_eq!(cart.read(0x0E00_0010, MemoryRegion::Rom, true), None);
    assert_eq!(cart.read(0x0800_0001, MemoryRegion::Rom, false), Some(20));
    assert_eq!(cart.read(0x0D00_0002, MemoryRegion::Bios, false), Some(30));
}

fn eeprom() -> EepRom {
    EepRom {
        rom: vec![7; 16],
        eeprom: [false; 0x8000],
        is_8kb_eeprom: false,
        is_32mb_rom: false,
        address: 0,
        state: EepRomState::TransferRequest,
        is_reading: false,
        amount_completed: 0,
        previous_write: false,
    }
}

#[test]
fn eeprom_write_request_then_data() {
    let mut e = eeprom();
    // "10": a write request, then six address bits 000001
    for bit in [1u8, 0, 0, 0, 0, 0, 0, 1] {
        e.write(0x0D00_0000, bit, true);
    }
    assert!(!e.is_reading);
    assert_eq!(e.state, EepRomState::TransferData);
    // the received 0b1000_0001, shifted down, keeps its two top set bits
    assert_eq!(e.address, 0x40);
    for i in 0..64u32 {
        e.write(0x0D00_0000, (i % 2) as u8, true);
    }
    assert_eq!(e.state, EepRomState::TransferRequest);
    assert_eq!(e.amount_completed, 64);
    assert!(!e.eeprom[0x1000]);
    assert!(e.eeprom[0x1001]);
    assert!(e.eeprom[0x103F]);
}

#[test]
fn eeprom_ignores_other_addresses() {
    let mut e = eeprom();
    e.write(0x0800_0000, 1, true);
    assert_eq!(e.address, 0);
    assert_eq!(e.state, EepRomState::TransferRequest);
    assert_eq!(e.read(0x0800_0003, MemoryRegion::Rom, true), Some(7));
}

#[test]
fn eeprom_read_starts_with_four_zero_bits() {
    let mut e = eeprom();
    e.is_reading = true;
    e.address = 1;
    e.eeprom[0x40 + 1] = true;
    for _ in 0..4 {
        assert_eq!(e.read(0x0D00_0000, MemoryRegion::Rom, true), Some(0));
    }
    assert_eq!(e.read(0x0D00_0000, MemoryRegion::Rom, true), Some(1));
    assert_eq!(e.read(0x0D00_0000, MemoryRegion::Rom, true), Some(0));
    assert_eq!(e.amount_completed, 6);
}

#[test]
fn large_cartridge_eeprom_lives_at_the_top_of_odd_regions() {
    let mut e = eeprom();
    e.is_32mb_rom = true;
    e.write(0x0D00_0000, 1, true);
    assert_eq!(e.address, 0);
    e.write(0x0DFF_FF00, 1, true);
    assert_eq!(e.address, 1);
}
