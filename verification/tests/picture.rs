use gba_core::mem::bus::{Bus, PpuInterface};
use gba_core::mem::memory::create_memory;
use gba_core::ppu::accumulate::{accumulate_and_palette, LineLayers};
use gba_core::ppu::bitmaps::{bg_mode_3, bg_mode_4, bg_mode_5};
use gba_core::ppu::obj::oam_scan;
use gba_core::ppu::tiles::{bg_mode_0, bg_mode_1, bg_mode_2, text_mode_scanline};
use gba_core::ppu::window::window_line;
use gba_core::ppu::{convert_palette_winit, tick_ppu, Ppu, PpuError};

fn bus() -> Bus {
    Bus::new(create_memory(vec![0; 0x4000], vec![0; 0x100]).unwrap(), true)
}

/// Ticks until the first line has been drawn.
fn draw_first_line(ppu: &mut Ppu, b: &mut Bus) -> Result<(), PpuError> {
    for _ in 0..308 {
        tick_ppu(ppu, b)?;
    }
    tick_ppu(ppu, b)
}

#[test]
fn new_and_acknowledged_ppu_are_empty() {
    let mut ppu = Ppu::new();
    assert!(!ppu.new_screen);
    assert_eq!(ppu.elapsed_time, 0);
    assert!(ppu.stored_screen.is_empty());
    ppu.new_screen = true;
    ppu.elapsed_time = 1000;
    ppu.stored_screen.push(5);
    ppu.acknowledge_frame();
    assert!(!ppu.new_screen);
    assert_eq!(ppu.elapsed_time, 0);
    assert!(ppu.stored_screen.is_empty());
}

#[test]
fn a_line_is_drawn_when_the_dot_counter_moves_on() {
    let mut ppu = Ppu::new();
    let mut b = bus();
    for _ in 0..308 {
        tick_ppu(&mut ppu, &mut b).unwrap();
    }
    assert_eq!(ppu.elapsed_time, 308);
    assert!(ppu.stored_screen.is_empty());
    tick_ppu(&mut ppu, &mut b).unwrap();
    assert_eq!(ppu.stored_screen.len(), 240);
    assert_eq!(b.read_vram_u16(0x0400_0006), 1);
    assert_eq!(ppu.elapsed_time, 309);
}

#[test]
fn horizontal_and_vertical_blank_flags() {
    let mut ppu = Ppu::new();
    let mut b = bus();
    // dot 239 of line 0 becomes dot 240: horizontal blank
    ppu.elapsed_time = 239;
    tick_ppu(&mut ppu, &mut b).unwrap();
    assert_eq!(b.read_vram_u16(0x0400_0004) & 0b11, 0b10);
    // the last dot of line 159 becomes line 160: vertical blank
    let mut ppu = Ppu::new();
    let mut b = bus();
    b.sys_write_u16(0x0400_0006, 159);
    ppu.elapsed_time = 160 * 308 - 1;
    tick_ppu(&mut ppu, &mut b).unwrap();
    assert_eq!(b.read_vram_u16(0x0400_0004) & 0b11, 0b01);
    assert_eq!(b.read_vram_u16(0x0400_0202) & 1, 1);
}

#[test]
fn vcount_match_flag() {
    let mut ppu = Ppu::new();
    let mut b = bus();
    // LYC = 0 and VCOUNT = 0
    tick_ppu(&mut ppu, &mut b).unwrap();
    assert_eq!(b.read_vram_u16(0x0400_0004) & 0b100, 0b100);
    b.sys_write_u16(0x0400_0004, 5 << 8);
    tick_ppu(&mut ppu, &mut b).unwrap();
    assert_eq!(b.read_vram_u16(0x0400_0004) & 0b100, 0);
}

#[test]
fn frame_wraps_after_the_last_line() {
    let mut ppu = Ppu::new();
    let mut b = bus();
    b.sys_write_u16(0x0400_0006, 227);
    ppu.elapsed_time = 70223;
    // the dot counter wraps first
    tick_ppu(&mut ppu, &mut b).unwrap();
    assert_eq!(ppu.elapsed_time, 0);
    assert!(!ppu.new_screen);
    // then VCOUNT follows it back to 0 and the frame is new
    tick_ppu(&mut ppu, &mut b).unwrap();
    assert!(ppu.new_screen);
    assert_eq!(b.read_vram_u16(0x0400_0006), 0);
    assert_eq!(ppu.elapsed_time, 1);
}

#[test]
fn mode_3_shows_vram_colours() {
    let mut ppu = Ppu::new();
    let mut b = bus();
    b.sys_write_u16(0x0400_0000, 0x0403);
    b.sys_write_u16(0x0600_0000, 0x7FFF);
    b.sys_write_u16(0x0600_0002, 0x001F);
    draw_first_line(&mut ppu, &mut b).unwrap();
    assert_eq!(&ppu.stored_screen[0..3], &[0x7FFF, 0x001F, 0]);
}

#[test]
fn mode_0_text_background() {
    let mut ppu = Ppu::new();
    let mut b = bus();
    b.sys_write_u16(0x0400_0000, 0x0100); // mode 0, BG0 on
    b.sys_write_u16(0x0400_0008, 0x0100); // BG0: char block 0, screen block 1, 4-bit
    b.sys_write_u16(0x0600_0800, 0x0001); // first map entry: tile 1, palette 0
    b.sys_write_u16(0x0600_0020, 0x0021); // tile 1, row 0: pixels 1, 2
    b.sys_write_u16(0x0500_0002, 0x001F);
    b.sys_write_u16(0x0500_0004, 0x03E0);
    b.sys_write_u16(0x0500_0000, 0x1111);
    draw_first_line(&mut ppu, &mut b).unwrap();
    assert_eq!(&ppu.stored_screen[0..4], &[0x001F, 0x03E0, 0x1111, 0x1111]);

    let entries = text_mode_scanline(0, 0, &b);
    assert_eq!(entries.len(), 240);
    assert_eq!(&entries[0..3], &[1, 2, 0]);
    // scrolled one pixel left
    b.sys_write_u16(0x0400_0010, 1);
    let entries = text_mode_scanline(0, 0, &b);
    assert_eq!(&entries[0..2], &[2, 0]);
}

#[test]
fn sprite_over_empty_background() {
    let mut ppu = Ppu::new();
    let mut b = bus();
    b.sys_write_u16(0x0400_0000, 0x0003); // mode 3, no background
    b.sys_write_u16(0x0700_0004, 0x0001); // sprite 0: 8x8 at (0, 0), tile 1
    b.sys_write_u16(0x0601_0020, 0x0003); // its first pixel is entry 3
    b.sys_write_u16(0x0500_0202, 0x1234);
    draw_first_line(&mut ppu, &mut b).unwrap();
    assert_eq!(ppu.stored_screen[0], 0x1234);
    assert_eq!(ppu.stored_screen[1], 0);
}

#[test]
fn oam_scan_fills_the_sprite_layer() {
    let mut b = bus();
    b.sys_write_u16(0x0700_0000, 0x0000);
    b.sys_write_u16(0x0700_0002, 0x0004); // x = 4
    b.sys_write_u16(0x0700_0004, 0x0801); // tile 1, priority 2
    b.sys_write_u16(0x0601_0020, 0x0050); // pixels 0, 5
    let mut layers = LineLayers::blank();
    oam_scan(&mut layers, &b, 0, 0).unwrap();
    assert_eq!(layers.obj[4], 0);
    assert_eq!(layers.obj[5], 5);
    assert_eq!(layers.obj_priorities[5], 2);
    assert_eq!(layers.obj_priorities[4], 0xF0);
}

#[test]
fn invalid_background_mode_is_an_error() {
    let mut ppu = Ppu::new();
    let mut b = bus();
    b.sys_write_u16(0x0400_0000, 0x0006);
    for _ in 0..308 {
        tick_ppu(&mut ppu, &mut b).unwrap();
    }
    assert_eq!(tick_ppu(&mut ppu, &mut b), Err(PpuError::InvalidBgMode(6)));
    // nothing moved
    assert_eq!(ppu.elapsed_time, 308);
    assert!(ppu.stored_screen.is_empty());
    assert_eq!(b.read_vram_u16(0x0400_0006), 0);
}

#[test]
fn affine_backgrounds_are_errors() {
    let mut ppu = Ppu::new();
    let mut b = bus();
    b.sys_write_u16(0x0400_0000, 0x0002);
    assert_eq!(draw_first_line(&mut ppu, &mut b), Err(PpuError::AffineBackground));

    let mut layers = LineLayers::blank();
    b.sys_write_u16(0x0400_0000, 0x0401); // mode 1 with BG2
    assert_eq!(bg_mode_1(&mut layers, &b, 0), Err(PpuError::AffineBackground));
    b.sys_write_u16(0x0400_0000, 0x0301); // mode 1 with BG0 and BG1
    assert_eq!(bg_mode_1(&mut layers, &b, 0), Ok(()));
    assert_eq!(bg_mode_2(&mut layers, &b, 0), Err(PpuError::AffineBackground));
}

#[test]
fn affine_and_shapeless_sprites_are_errors() {
    let mut layers = LineLayers::blank();
    let mut b = bus();
    b.sys_write_u16(0x0700_0000, 0x0100); // rotation flag
    assert_eq!(oam_scan(&mut layers, &b, 0, 0), Err(PpuError::AffineSprite));
    b.sys_write_u16(0x0700_0000, 0xC000); // shape 3
    assert_eq!(oam_scan(&mut layers, &b, 0, 0), Err(PpuError::InvalidObjShape));
    b.sys_write_u16(0x0700_0000, 0x0200); // switched off
    assert_eq!(oam_scan(&mut layers, &b, 0, 0), Ok(()));
}

#[test]
fn bitmap_modes_fill_background_2() {
    let mut b = bus();
    let mut layers = LineLayers::blank();
    b.sys_write_u16(0x0600_01E0, 0x0ABC); // line 1, pixel 0 of mode 3
    bg_mode_3(&mut layers, &b, 1);
    assert_eq!(layers.bgs[2][0], 0x0ABC);

    let mut layers = LineLayers::blank();
    b.sys_write_u16(0x0600_0000, 0x0302); // mode 4 indices 2, 3
    b.sys_write_u16(0x0500_0004, 0x2222);
    b.sys_write_u16(0x0500_0006, 0x3333);
    bg_mode_4(&mut layers, &b, 0);
    assert_eq!(&layers.bgs[2][0..2], &[0x2222, 0x3333]);

    let mut layers = LineLayers::blank();
    b.sys_write_u16(0x0600_0140, 0x0555); // mode 5, line 1 starts 320 bytes in
    bg_mode_5(&mut layers, &b, 1);
    assert_eq!(layers.bgs[2][0], 0x0555);
    assert_eq!(layers.bgs[2][200], 0);
    let mut layers = LineLayers::blank();
    layers.bgs[2][0] = 9;
    bg_mode_5(&mut layers, &b, 128);
    assert_eq!(layers.bgs[2][0], 9);
}

#[test]
fn accumulate_keeps_the_higher_priority() {
    let mut b = bus();
    b.sys_write_u16(0x0400_0000, 0x0303); // mode 3, BG0 and BG1 on
    b.sys_write_u16(0x0400_0008, 0x0001); // BG0 priority 1
    b.sys_write_u16(0x0400_000A, 0x0000); // BG1 priority 0
    let mut layers = LineLayers::blank();
    layers.bgs[0][0] = 0x10;
    layers.bgs[1][0] = 0x20;
    layers.bgs[0][1] = 0x30;
    let line = accumulate_and_palette(&layers, &b);
    assert_eq!(&line[0..3], &[0x20, 0x30, 0]);
}

#[test]
fn mode_0_only_draws_switched_on_backgrounds() {
    let mut b = bus();
    b.sys_write_u16(0x0400_0000, 0x0000);
    let mut layers = LineLayers::blank();
    layers.bgs[0][0] = 7;
    bg_mode_0(&mut layers, &b, 0);
    assert_eq!(layers.bgs[0][0], 7);
}

#[test]
fn windows_cover_nothing() {
    let (covered, priorities) = window_line();
    assert_eq!(covered, vec![0; 240]);
    assert_eq!(priorities, vec![3; 240]);
}

#[test]
fn palette_colours_become_pixels() {
    assert_eq!(convert_palette_winit(0x001F), 0x00F8_0000);
    assert_eq!(convert_palette_winit(0x03E0), 0x0000_F800);
    assert_eq!(convert_palette_winit(0x7C00), 0x0000_00F8);
    assert_eq!(convert_palette_winit(0x7FFF), 0x00F8_F8F8);
    // the unused top bit is dropped
    assert_eq!(convert_palette_winit(0x8000), 0);
}

#[test]
fn sprite_covers_its_height_and_no_more() {
    let mut b = bus();
    b.sys_write_u16(0x0700_0000, 0x0000); // y = 0, 8x8
    b.sys_write_u16(0x0700_0002, 0x0000); // x = 0
    b.sys_write_u16(0x0700_0004, 0x0001); // tile 1
    b.sys_write_u16(0x0601_0020, 0x0050); // row 0: pixels 0, 5
    b.sys_write_u16(0x0601_003C, 0x0006); // row 7: pixel 6
    let mut layers = LineLayers::blank();
    oam_scan(&mut layers, &b, 7, 0).unwrap();
    assert_eq!(layers.obj[0], 6);
    // line 8 lies below the sprite
    let mut layers = LineLayers::blank();
    oam_scan(&mut layers, &b, 8, 0).unwrap();
    assert!(layers.obj.iter().all(|p| *p == 0));
    // flipped vertically, the first line shows the last row
    b.sys_write_u16(0x0700_0002, 0x2000);
    let mut layers = LineLayers::blank();
    oam_scan(&mut layers, &b, 0, 0).unwrap();
    assert_eq!(layers.obj[0], 6);
    let mut layers = LineLayers::blank();
    oam_scan(&mut layers, &b, 7, 0).unwrap();
    assert_eq!(layers.obj[1], 5);
}
