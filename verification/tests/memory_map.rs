use gba_core::mem::memory::{create_memory, dma_tick, update_timer, InternalMemory};
use gba_core::mem::{
    get_memory_ranges, has_read_lock, has_write_lock, is_in_video_memory, lil_end_combine_u16,
    lil_end_combine_u32, lil_end_split_u16, lil_end_split_u32, split_memory_address,
};

fn memory_with_rom(rom: Vec<u8>) -> Box<InternalMemory> {
    create_memory(vec![0xAA; 0x4000], rom).unwrap()
}

fn memory() -> Box<InternalMemory> {
    memory_with_rom(vec![1, 2, 3, 4, 5, 6, 7, 8])
}

#[test]
fn create_memory_checks_the_images() {
    assert!(create_memory(vec![0; 0x3FFF], vec![1]).is_none());
    assert!(create_memory(vec![0; 0x4000], Vec::new()).is_some());
    let m = create_memory(vec![7; 0x4000], vec![9]).unwrap();
    assert_eq!(m.bios.len(), 0x4000);
    assert_eq!(m.rom, vec![9]);
    assert!(m.ewram.iter().all(|b| *b == 0));
    assert!(m.io_reg.iter().all(|b| *b == 0));
    assert_eq!(m.timer_reload_values, [0; 4]);
}

#[test]
fn split_address_into_region_and_offset() {
    assert_eq!(split_memory_address(0x0803_1234), (8, 0x03_1234));
    assert_eq!(split_memory_address(0xFE12_3456), (0xE, 0x12_3456));
    assert_eq!(split_memory_address(0), (0, 0));
}

#[test]
fn little_endian_round_trips() {
    assert_eq!(lil_end_combine_u16(0x34, 0x12), 0x1234);
    assert_eq!(lil_end_split_u16(0xBEEF), (0xEF, 0xBE));
    assert_eq!(lil_end_combine_u32(0x78, 0x56, 0x34, 0x12), 0x1234_5678);
    assert_eq!(lil_end_split_u32(0xDEAD_BEEF), (0xEF, 0xBE, 0xAD, 0xDE));
    let (a, b, c, d) = lil_end_split_u32(0x0102_0304);
    assert_eq!(lil_end_combine_u32(a, b, c, d), 0x0102_0304);
    let (lo, hi) = lil_end_split_u16(0xA55A);
    assert_eq!(lil_end_combine_u16(lo, hi), 0xA55A);
}

#[test]
fn video_memory_regions() {
    assert!(!is_in_video_memory(4));
    assert!(is_in_video_memory(5));
    assert!(is_in_video_memory(6));
    assert!(is_in_video_memory(7));
    assert!(!is_in_video_memory(8));
}

#[test]
fn read_and_write_locked_registers() {
    // BG0HOFS is write-only, DISPCNT readable
    assert!(has_read_lock(0x0400_0010));
    assert!(has_read_lock(0x0400_0011));
    assert!(!has_read_lock(0x0400_0000));
    assert!(!has_read_lock(0x0300_0010));
    // VCOUNT and KEYINPUT cannot be written by the processor
    assert!(has_write_lock(0x0400_0006));
    assert!(has_write_lock(0x0400_0131));
    assert!(!has_write_lock(0x0400_0004));
}

#[test]
fn memory_ranges_cover_the_map() {
    let ranges = get_memory_ranges();
    assert_eq!(ranges[0], 0x0000_0000..0x0000_4000);
    assert_eq!(ranges[1].start, 0x0200_0000);
    assert_eq!(ranges[3].start, 0x0400_0000);
}

#[test]
fn byte_write_then_read() {
    let mut m = memory();
    m.sys_write_u8(0x0200_0010, 0x5A);
    assert_eq!(m.sys_read_u8(0x0200_0010), 0x5A);
    // the on-board RAM is mirrored every 256 KB
    assert_eq!(m.sys_read_u8(0x0204_0010), 0x5A);
    // a write elsewhere leaves it alone
    m.sys_write_u8(0x0300_0010, 0x11);
    assert_eq!(m.sys_read_u8(0x0200_0010), 0x5A);
    assert_eq!(m.sys_read_u8(0x0300_0010), 0x11);
}

#[test]
fn halfword_and_word_reads_are_little_endian() {
    let mut m = memory();
    m.sys_write_u16(0x0300_0000, 0xBEEF);
    m.sys_write_u16(0x0300_0002, 0xDEAD);
    assert_eq!(m.sys_read_u8(0x0300_0000), 0xEF);
    assert_eq!(m.sys_read_u16(0x0300_0001), 0xBEEF);
    assert_eq!(m.sys_read_u32(0x0300_0000), 0xDEAD_BEEF);
    assert_eq!(m.sys_read_u32(0x0300_0003), 0xDEAD_BEEF);
}

#[test]
fn bios_and_rom_are_read_only() {
    let mut m = memory();
    m.sys_write_u8(0x0000_0010, 0x00);
    assert_eq!(m.sys_read_u8(0x0000_0010), 0xAA);
    m.sys_write_u16(0x0800_0000, 0xFFFF);
    assert_eq!(m.sys_read_u16(0x0800_0000), 0x0201);
    // the cartridge repeats through its region
    assert_eq!(m.sys_read_u8(0x0800_0009), 2);
}

#[test]
fn unmapped_region_reads_zero() {
    let m = memory();
    assert_eq!(m.sys_read_u8(0x0100_0000), 0);
    assert_eq!(m.sys_read_u32(0x0F00_0000), 0);
    // only four bits of the top byte name the region
    assert_eq!(m.sys_read_u8(0xF000_0000), 0xAA);
}

#[test]
fn processor_reads_refuse_locked_and_missing_addresses() {
    let mut m = memory();
    m.sys_write_u16(0x0400_0010, 0x1234);
    assert_eq!(m.cpu_read(0x0400_0010), None);
    assert_eq!(m.cpu_read(0x0000_4000), None);
    assert_eq!(m.cpu_read(0x0000_0001), Some(0xAA));
    assert_eq!(m.cpu_read(0x0800_0002), Some(3));
    // the unmapped regions are refused too
    assert_eq!(m.cpu_read(0x0100_0000), None);
    assert_eq!(m.cpu_read(0x0F00_0000), None);
}

#[test]
fn writing_interrupt_flags_acknowledges_them() {
    let mut m = memory();
    m.sys_write_u16(0x0400_0202, 0x00FF);
    m.cpu_write(0x0400_0202, 0x0F, true);
    assert_eq!(m.sys_read_u16(0x0400_0202), 0x00F0);
}

#[test]
fn keypad_register_is_write_locked() {
    let mut m = memory();
    m.sys_write_u16(0x0400_0130, 0x03FF);
    m.cpu_write(0x0400_0130, 0x00, true);
    assert_eq!(m.sys_read_u16(0x0400_0130), 0x03FF);
}

#[test]
fn timer_reload_is_loaded_on_enable() {
    let mut m = memory();
    m.cpu_write(0x0400_0100, 0x34, true);
    m.cpu_write(0x0400_0101, 0x12, true);
    assert_eq!(m.timer_reload_values[0], 0x1234);
    // the counter itself is not written by the reload bytes
    assert_eq!(m.sys_read_u16(0x0400_0100), 0);
    m.cpu_write(0x0400_0102, 0x80, true);
    assert_eq!(m.sys_read_u16(0x0400_0100), 0x1234);
    assert_eq!(m.sys_read_u16(0x0400_0102), 0x0080);
}

#[test]
fn byte_writes_to_palette_write_both_bytes() {
    let mut m = memory();
    m.cpu_write(0x0500_0001, 0x3C, true);
    assert_eq!(m.sys_read_u16(0x0500_0000), 0x3C3C);
    // OAM ignores byte writes
    m.cpu_write(0x0700_0000, 0x3C, true);
    assert_eq!(m.sys_read_u16(0x0700_0000), 0);
}

#[test]
fn timer_overflow_reloads_and_requests_interrupt() {
    let mut m = memory();
    m.sys_write_u16(0x0400_0100, 0xFFF0);
    m.sys_write_u16(0x0400_0102, 0x00C0);
    let mut cycles = 0u32;
    update_timer(&mut m, &mut cycles, 20);
    assert_eq!(cycles, 20);
    assert_eq!(m.sys_read_u16(0x0400_0100), 0);
    assert_eq!(m.sys_read_u16(0x0400_0202), 1 << 3);
}

#[test]
fn timer_counts_at_its_frequency() {
    let mut m = memory();
    // frequency 64
    m.sys_write_u16(0x0400_0102, 0x0081);
    let mut cycles = 1000u32;
    update_timer(&mut m, &mut cycles, 100);
    // 1100 / 64 - 1000 / 64 = 17 - 15
    assert_eq!(m.sys_read_u16(0x0400_0100), 2);
    assert_eq!(cycles, 1100 % 1024);
}

#[test]
fn cascading_timer_counts_overflows() {
    let mut m = memory();
    m.sys_write_u16(0x0400_0100, 0xFFFF);
    m.sys_write_u16(0x0400_0102, 0x0080);
    m.sys_write_u16(0x0400_0106, 0x0084);
    let mut cycles = 0u32;
    update_timer(&mut m, &mut cycles, 1);
    assert_eq!(m.sys_read_u16(0x0400_0104), 1);
}

#[test]
fn immediate_dma_copies_words() {
    let mut m = memory();
    m.sys_write_u16(0x0200_0000, 0x1111);
    m.sys_write_u16(0x0200_0002, 0x2222);
    m.sys_write_u16(0x0200_0004, 0x3333);
    m.sys_write_u16(0x0200_0006, 0x4444);
    // channel 3: source, destination, two words, enabled, 32-bit, immediate
    m.sys_write_u16(0x0400_00D4, 0x0000);
    m.sys_write_u16(0x0400_00D6, 0x0200);
    m.sys_write_u16(0x0400_00D8, 0x0000);
    m.sys_write_u16(0x0400_00DA, 0x0300);
    m.sys_write_u16(0x0400_00DC, 2);
    m.sys_write_u16(0x0400_00DE, 0x8400);
    assert!(dma_tick(&mut m));
    assert_eq!(m.sys_read_u32(0x0300_0000), 0x2222_1111);
    assert!(!dma_tick(&mut m));
    assert_eq!(m.sys_read_u32(0x0300_0004), 0x4444_3333);
    // the channel switched itself off
    assert_eq!(m.sys_read_u16(0x0400_00DE), 0x0400);
    assert!(!dma_tick(&mut m));
}

#[test]
fn dma_with_interrupt_flags_its_channel() {
    let mut m = memory();
    m.sys_write_u16(0x0200_0000, 0xABCD);
    m.sys_write_u16(0x0400_00B4, 0x0000);
    m.sys_write_u16(0x0400_00B6, 0x0300);
    m.sys_write_u16(0x0400_00B8, 1);
    m.sys_write_u16(0x0400_00B0, 0x0000);
    m.sys_write_u16(0x0400_00B2, 0x0200);
    m.sys_write_u16(0x0400_00BA, 0xC000);
    assert!(!dma_tick(&mut m));
    assert_eq!(m.sys_read_u16(0x0300_0000), 0xABCD);
    assert_eq!(m.sys_read_u16(0x0400_0202), 1 << 8);
}

#[test]
fn dma_waiting_for_vblank_does_nothing() {
    let mut m = memory();
    m.sys_write_u16(0x0400_00BA, 0x9000);
    assert!(!dma_tick(&mut m));
    assert_eq!(m.sys_read_u16(0x0400_00BA), 0x9000);
}

#[test]
fn halfword_write_touches_only_its_two_bytes() {
    let mut m = memory();
    for address in [0x0200_0FFEu32, 0x0200_1001, 0x0200_1002, 0x0200_1004] {
        m.sys_write_u8(address, 0x55);
    }
    m.sys_write_u16(0x0200_1003, 0xBEEF); // the halfword at 0x0200_1002
    assert_eq!(m.sys_read_u16(0x0200_1002), 0xBEEF);
    assert_eq!(m.sys_read_u8(0x0200_1001), 0x55);
    assert_eq!(m.sys_read_u8(0x0200_1004), 0x55);
    assert_eq!(m.sys_read_u8(0x0200_0FFE), 0x55);
    // the mirror of the same cell sees the write
    assert_eq!(m.sys_read_u16(0x0204_1002), 0xBEEF);
}
