//! The picture processing unit: one dot per tick, one line of the screen
//! drawn at the start of each visible line.

pub mod accumulate;
pub mod bitmaps;
pub mod obj;
pub mod tiles;
pub mod window;

use vstd::prelude::*;
use crate::mem::region_of;
use crate::mem::bus::{Bus, PpuInterface, spec_ppu_address};
use crate::mem::memory::{lemma_sys_write_read_u16, lemma_sys_write_u16_frame};
use crate::ppu::accumulate::{LayersView, LineLayers, accumulate_and_palette, spec_blank_layers, spec_bg_enabled, spec_line_colors};
use crate::ppu::bitmaps::{MODE_5_HEIGHT, bg_mode_3, bg_mode_4, bg_mode_5, spec_mode_3_row, spec_mode_4_row, spec_mode_5_row};
use crate::ppu::obj::{oam_scan, spec_oam_upto};
use crate::ppu::tiles::{bg_mode_0, bg_mode_1, bg_mode_2, spec_text_layers};

verus! {

pub const LCD_HEIGHT: usize = 160;
pub const LCD_WIDTH: usize = 240;
pub const VRAM_BASE: u32 = 0x6000000;
pub const PALETTE_BASE: u32 = 0x5000000;
/// (240 + 68) dots per line, (160 + 68) lines per frame
pub const DOTS_PER_FRAME: usize = 70224;

/// An address inside region `r` (4 to 7) is one the PPU may access.
pub proof fn lemma_ppu_address(address: u32, r: u32)
    requires
        4 <= r <= 7,
        r * 0x100_0000 <= address < (r + 1) * 0x100_0000,
    ensures
        spec_ppu_address(address),
        region_of(address) == r,
{
    crate::mem::lemma_region_of(address, r);
}

/// An address in the I/O registers or the video memories is one the PPU may access.
pub proof fn lemma_video_address(address: u32)
    requires
        0x400_0000 <= address < 0x800_0000,
    ensures
        spec_ppu_address(address),
{
    if address < 0x500_0000 {
        crate::mem::lemma_region_of(address, 4);
    } else if address < 0x600_0000 {
        crate::mem::lemma_region_of(address, 5);
    } else if address < 0x700_0000 {
        crate::mem::lemma_region_of(address, 6);
    } else {
        crate::mem::lemma_region_of(address, 7);
    }
}

/// A 15-bit BGR colour as a `0x00RRGGBB` pixel, each channel widened to
/// eight bits by shifting it up three places.
pub open spec fn spec_convert_palette(palette: u16) -> u32 {
    let r = (palette & 0x1F) as u32;
    let g = ((palette >> 5u16) & 0x1F) as u32;
    let b = ((palette >> 10u16) & 0x1F) as u32;
    ((r * 8) * 0x1_0000 + (g * 8) * 0x100 + b * 8) as u32
}

/// Turns a colour of the stored screen into a pixel for the window.
pub fn convert_palette_winit(palette: u16) -> (r: u32)
    ensures
        r == spec_convert_palette(palette),
{
    let (r, g, b) = (palette & 0x1F, (palette >> 5) & 0x1F, (palette >> 10) & 0x1F);
    proof {
        crate::bits::lemma_and_bound_u16(palette, 0x1F);
        crate::bits::lemma_and_bound_u16(palette >> 5u16, 0x1F);
        crate::bits::lemma_and_bound_u16(palette >> 10u16, 0x1F);
        lemma_colour_channels(r as u32, g as u32, b as u32);
    }
    ((r as u32) << 3) << 16 | ((g as u32) << 3) << 8 | ((b as u32) << 3)
}

/// Channels of five bits, shifted into place, do not overlap.
proof fn lemma_colour_channels(r: u32, g: u32, b: u32)
    by (bit_vector)
    requires
        r <= 0x1F,
        g <= 0x1F,
        b <= 0x1F,
    ensures
        (r << 3u32) << 16u32 | (g << 3u32) << 8u32 | (b << 3u32) == (r * 8) * 0x1_0000 + (g * 8) * 0x100 + b * 8,
{
}

/// What the picture processing unit cannot draw.
#[derive(PartialEq, Eq, Structural, Clone, Copy, Debug)]
pub enum PpuError {
    /// DISPCNT selects a background mode above 5 (the mode is given).
    InvalidBgMode(u16),
    /// A rotated and scaled background is switched on (mode 2, or background 2 in mode 1).
    AffineBackground,
    /// A sprite has its rotation and scaling flag set.
    AffineSprite,
    /// A sprite has the shape value 3, which no sprite size belongs to.
    InvalidObjShape,
}

pub enum PpuRegisters {
    DispCnt,
    DispStat,
    VCount,
    BGCnt,
    BgHOffset,
    BgVOffset,
    BgRotationBase,
}

impl PpuRegisters {
    pub open spec fn spec_address(&self) -> u32 {
        match self {
            PpuRegisters::DispCnt => 0x4000000,
            PpuRegisters::DispStat => 0x4000004,
            PpuRegisters::VCount => 0x4000006,
            PpuRegisters::BGCnt => 0x4000008,
            PpuRegisters::BgHOffset => 0x4000010,
            PpuRegisters::BgVOffset => 0x4000012,
            PpuRegisters::BgRotationBase => 0x4000020,
        }
    }

    pub fn address(&self) -> (r: u32)
        ensures r == self.spec_address(),
    {
        match self {
            PpuRegisters::DispCnt => 0x4000000,
            PpuRegisters::DispStat => 0x4000004,
            PpuRegisters::VCount => 0x4000006,
            PpuRegisters::BGCnt => 0x4000008,
            PpuRegisters::BgHOffset => 0x4000010,
            PpuRegisters::BgVOffset => 0x4000012,
            PpuRegisters::BgRotationBase => 0x4000020,
        }
    }
}

/// Dots in one line: 240 drawn and 68 of horizontal blank.
pub const DOTS_PER_LINE: usize = 308;
/// Lines in one frame: 160 drawn and 68 of vertical blank.
pub const LINES_PER_FRAME: u16 = 228;

pub struct Ppu {
    pub new_screen: bool,
    /// represents the number of dots elapsed in the frame
    pub elapsed_time: usize,
    /// the colours of the lines drawn since the frame was last acknowledged
    pub stored_screen: Vec<u16>,
}

/// The state of the PPU as a value.
pub struct PpuView {
    pub new_screen: bool,
    pub elapsed_time: nat,
    pub stored_screen: Seq<u16>,
}

impl Ppu {
    pub open spec fn view(&self) -> PpuView {
        PpuView {
            new_screen: self.new_screen,
            elapsed_time: self.elapsed_time as nat,
            stored_screen: self.stored_screen@,
        }
    }

    /// The dot counter stays inside one frame.
    pub open spec fn wf(&self) -> bool {
        self.elapsed_time < DOTS_PER_FRAME
    }

    pub fn new() -> (r: Self)
        ensures
            r.wf(),
            r.view() == (PpuView { new_screen: false, elapsed_time: 0, stored_screen: Seq::empty() }),
    {
        Self {
            new_screen: false,
            elapsed_time: 0,
            stored_screen: Vec::new(),
        }
    }

    /// Takes note that the finished frame was shown: the next one starts empty.
    pub fn acknowledge_frame(&mut self)
        ensures
            final(self).wf(),
            final(self).view() == (PpuView { new_screen: false, elapsed_time: 0, stored_screen: Seq::empty() }),
    {
        self.new_screen = false;
        self.elapsed_time = 0;
        self.stored_screen.clear();
    }
}

/// The background layers of line `vcount` in the mode that DISPCNT selects.
pub open spec fn spec_draw_backgrounds<P: PpuInterface>(memory: P, vcount: u16) -> Result<LayersView, PpuError> {
    let dispcnt = memory.spec_read_vram_u16(0x4000000);
    let bg_mode = dispcnt & 0x7;
    let blank = spec_blank_layers();
    if bg_mode == 0 {
        Ok(spec_text_layers(blank, memory, vcount as u32, 4))
    } else if bg_mode == 1 {
        if spec_bg_enabled(dispcnt, 2) {
            Err(PpuError::AffineBackground)
        } else {
            Ok(spec_text_layers(blank, memory, vcount as u32, 2))
        }
    } else if bg_mode == 2 {
        Err(PpuError::AffineBackground)
    } else if bg_mode == 3 {
        Ok(blank.with_bg(2, spec_mode_3_row(memory, vcount)))
    } else if bg_mode == 4 {
        Ok(blank.with_bg(2, spec_mode_4_row(memory, vcount)))
    } else if bg_mode == 5 {
        if vcount < MODE_5_HEIGHT {
            Ok(blank.with_bg(2, spec_mode_5_row(memory, vcount, blank.bgs[2])))
        } else {
            Ok(blank)
        }
    } else {
        Err(PpuError::InvalidBgMode(bg_mode))
    }
}

/// The colours of line `vcount`: the backgrounds, then the sprites over them,
/// merged and looked up in the palettes.
pub open spec fn spec_draw_line<P: PpuInterface>(memory: P, vcount: u16) -> Result<Seq<u16>, PpuError> {
    match spec_draw_backgrounds(memory, vcount) {
        Err(e) => Err(e),
        Ok(layers) => match spec_oam_upto(layers, memory, vcount, memory.spec_read_vram_u16(0x4000000), 128) {
            Err(e) => Err(e),
            Ok(all) => Ok(spec_line_colors(all, memory)),
        },
    }
}

/// DISPSTAT with bit `bit` set where `on` holds and cleared where not.
pub open spec fn spec_set_bit(value: u16, bit: u16, on: bool) -> u16 {
    if on { value | (1u16 << bit) } else { value & !(1u16 << bit) }
}

/// One dot later: the dot counter moves on (back to 0 after the last dot of
/// the frame, which also clears the blank flags), DISPSTAT's V-blank,
/// H-blank and V-counter match flags follow the counter and `vcount`, and
/// the low three bits of 0x4000202 take those three flags.
pub open spec fn spec_update_registers<P: PpuInterface>(ppu: PpuView, memory: P, dispstat: u16, vcount: u16) -> (PpuView, P) {
    let next = ppu.elapsed_time + 1;
    let (elapsed, d0) = if next >= DOTS_PER_FRAME { (0nat, dispstat & !0b11u16) } else { (next as nat, dispstat) };
    let d1 = spec_set_bit(d0, 0, elapsed / 308 >= 160);
    let d2 = spec_set_bit(d1, 1, elapsed % 308 >= 240);
    let d3 = spec_set_bit(d2, 2, vcount == (d2 >> 8u16) & 0xFF);
    let ie = (memory.spec_read_vram_u16(0x4000202) & !0b111u16) | (d3 & 0b111);
    let m1 = memory.spec_write_vram_u16(0x4000202, ie);
    (PpuView { elapsed_time: elapsed, ..ppu }, m1.spec_write_vram_u16(0x4000004, d3))
}

/// One dot of the PPU. When the dot counter has moved into another line than
/// VCOUNT names, a visible line is drawn onto the stored screen and VCOUNT
/// moves on (back to 0 after the last line, which marks the frame new).
pub open spec fn spec_tick_ppu<P: PpuInterface>(ppu: PpuView, memory: P) -> Result<(PpuView, P), PpuError> {
    let dispstat = memory.spec_read_vram_u16(0x4000004);
    let vcount = memory.spec_read_vram_u16(0x4000006);
    if ppu.elapsed_time / 308 != vcount {
        let drawn = if vcount < 160 { spec_draw_line(memory, vcount) } else { Ok(Seq::empty()) };
        match drawn {
            Err(e) => Err(e),
            Ok(line) => {
                let next: u16 = if vcount == 0xFFFF { 0 } else { (vcount + 1) as u16 };
                let (vcount2, new_screen) = if next >= LINES_PER_FRAME { (0u16, true) } else { (next, ppu.new_screen) };
                let p1 = PpuView { new_screen, stored_screen: ppu.stored_screen + line, ..ppu };
                Ok(spec_update_registers(p1, memory.spec_write_vram_u16(0x4000006, vcount2), dispstat, vcount2))
            },
        }
    } else {
        Ok(spec_update_registers(ppu, memory, dispstat, vcount))
    }
}

/// Draws the backgrounds of line `vcount`.
fn draw_backgrounds<P: PpuInterface>(layers: &mut LineLayers, memory: &P, vcount: u16) -> (r: Result<(), PpuError>)
    requires
        memory.inv(),
        old(layers).view() == spec_blank_layers(),
    ensures
        match r {
            Ok(_) => spec_draw_backgrounds(*memory, vcount) == Ok::<LayersView, PpuError>(final(layers).view()),
            Err(e) => spec_draw_backgrounds(*memory, vcount) == Err::<LayersView, PpuError>(e),
        },
{
    proof { lemma_video_address(0x4000000); }
    let dispcnt = memory.read_vram_u16(PpuRegisters::DispCnt.address());
    let bg_mode = dispcnt & 0b111;
    if bg_mode == 0 {
        bg_mode_0(layers, memory, vcount as u32);
        Ok(())
    } else if bg_mode == 1 {
        bg_mode_1(layers, memory, vcount as u32)
    } else if bg_mode == 2 {
        bg_mode_2(layers, memory, vcount as u32)
    } else if bg_mode == 3 {
        bg_mode_3(layers, memory, vcount);
        Ok(())
    } else if bg_mode == 4 {
        bg_mode_4(layers, memory, vcount);
        Ok(())
    } else if bg_mode == 5 {
        bg_mode_5(layers, memory, vcount);
        Ok(())
    } else {
        Err(PpuError::InvalidBgMode(bg_mode))
    }
}

/// The colours of line `vcount`.
fn draw_line<P: PpuInterface>(memory: &P, vcount: u16) -> (r: Result<Vec<u16>, PpuError>)
    requires
        memory.inv(),
    ensures
        match r {
            Ok(v) => spec_draw_line(*memory, vcount) == Ok::<Seq<u16>, PpuError>(v@),
            Err(e) => spec_draw_line(*memory, vcount) == Err::<Seq<u16>, PpuError>(e),
        },
{
    proof { lemma_video_address(0x4000000); }
    let dispcnt = memory.read_vram_u16(PpuRegisters::DispCnt.address());
    let mut layers = LineLayers::blank();
    match draw_backgrounds(&mut layers, memory, vcount) {
        Ok(_) => {},
        Err(e) => { return Err(e); },
    }
    match oam_scan(&mut layers, memory, vcount, dispcnt) {
        Ok(_) => {},
        Err(e) => { return Err(e); },
    }
    Ok(accumulate_and_palette(&layers, memory))
}

fn update_registers<P: PpuInterface>(ppu: &mut Ppu, memory: &mut P, dispstat: u16, vcount: u16)
    requires
        old(ppu).wf(),
        old(memory).inv(),
    ensures
        final(ppu).wf(),
        final(memory).inv(),
        final(ppu).stored_screen == old(ppu).stored_screen,
        (final(ppu).view(), *final(memory)) == spec_update_registers(old(ppu).view(), *old(memory), dispstat, vcount),
{
    let mut dispstat = dispstat;
    ppu.elapsed_time += 1;

    // new frame
    if ppu.elapsed_time >= DOTS_PER_FRAME {
        ppu.elapsed_time = 0;
        dispstat &= !(0b11u16);
    }

    // V-blank flag
    let in_vblank = ppu.elapsed_time / (LCD_WIDTH + 68) >= LCD_HEIGHT;
    if in_vblank { dispstat |= 1u16 << 0u16; } else { dispstat &= !(1u16 << 0u16); }

    // H-blank flag
    let in_hblank = ppu.elapsed_time % (LCD_WIDTH + 68) >= LCD_WIDTH;
    if in_hblank { dispstat |= 1u16 << 1u16; } else { dispstat &= !(1u16 << 1u16); }

    let vcount_lyc = (dispstat >> 8) & 0xFF;
    let vcounter_match = vcount == vcount_lyc;
    if vcounter_match { dispstat |= 1u16 << 2u16; } else { dispstat &= !(1u16 << 2u16); }

    proof { lemma_video_address(0x4000202); lemma_video_address(0x4000004); }
    let mut ie = memory.read_vram_u16(0x4000202);
    ie &= !0b111u16;
    ie |= dispstat & 0b111;

    memory.write_vram_u16(0x4000202, ie);
    memory.write_vram_u16(PpuRegisters::DispStat.address(), dispstat);
}

/// One dot of the PPU (see `spec_tick_ppu`). A line that cannot be drawn is
/// an error, and then neither the PPU nor the memory changes.
pub fn tick_ppu<P: PpuInterface>(ppu: &mut Ppu, memory: &mut P) -> (r: Result<(), PpuError>)
    requires
        old(ppu).wf(),
        old(memory).inv(),
    ensures
        final(ppu).wf(),
        final(memory).inv(),
        match r {
            Ok(_) => spec_tick_ppu(old(ppu).view(), *old(memory)) == Ok::<(PpuView, P), PpuError>((final(ppu).view(), *final(memory))),
            Err(e) => spec_tick_ppu(old(ppu).view(), *old(memory)) == Err::<(PpuView, P), PpuError>(e)
                && *final(ppu) == *old(ppu) && *final(memory) == *old(memory),
        },
        // the dot counter moves on by one, around the frame
        r is Ok ==> final(ppu).elapsed_time == (old(ppu).elapsed_time + 1) % DOTS_PER_FRAME as int,
        // the stored screen only ever grows by a whole line
        r is Ok ==> final(ppu).stored_screen@.subrange(0, old(ppu).stored_screen@.len() as int) == old(ppu).stored_screen@,
        r is Ok ==> final(ppu).stored_screen@.len() == old(ppu).stored_screen@.len()
            || final(ppu).stored_screen@.len() == old(ppu).stored_screen@.len() + LCD_WIDTH,
{
    // the line count we had last time, doesnt match the one this time
    proof { lemma_video_address(0x4000004); lemma_video_address(0x4000006); }
    let dispstat = memory.read_vram_u16(PpuRegisters::DispStat.address());
    let mut vcount = memory.read_vram_u16(PpuRegisters::VCount.address());

    let new_line = ppu.elapsed_time / (LCD_WIDTH + 68) != vcount as usize;
    let ghost drawn: Seq<u16> = Seq::empty();
    if new_line {
        if vcount < LCD_HEIGHT as u16 {
            let combo = match draw_line(memory, vcount) {
                Ok(combo) => combo,
                Err(e) => { return Err(e); },
            };
            let ghost before = ppu.stored_screen@;
            let mut i: usize = 0;
            while i < combo.len()
                invariant
                    i <= combo.len(),
                    ppu.elapsed_time == old(ppu).elapsed_time,
                    ppu.new_screen == old(ppu).new_screen,
                    ppu.stored_screen@ =~= before + combo@.subrange(0, i as int),
                decreases combo.len() - i,
            {
                ppu.stored_screen.push(combo[i]);
                i += 1;
            }
            proof { drawn = combo@; }
        }
        assert(ppu.stored_screen@ =~= old(ppu).stored_screen@ + drawn);
        // a VCOUNT that was written out of range wraps around
        vcount = if vcount == 0xFFFF { 0 } else { vcount + 1 };
        if vcount >= LINES_PER_FRAME {
            vcount = 0;
            ppu.new_screen = true;
        }
        memory.write_vram_u16(PpuRegisters::VCount.address(), vcount);
    }

    update_registers(ppu, memory, dispstat, vcount);
    Ok(())
}

/// After the three flag updates, bit 0 and bit 1 of DISPSTAT hold the
/// V-blank and H-blank flags that were set into them.
proof fn lemma_blank_bits(d: u16, vblank: bool, hblank: bool, vmatch: bool)
    by (bit_vector)
    ensures
        (spec_set_bit(spec_set_bit(spec_set_bit(d, 0, vblank), 1, hblank), 2, vmatch) & 1 == 1) == vblank,
        ((spec_set_bit(spec_set_bit(spec_set_bit(d, 0, vblank), 1, hblank), 2, vmatch) >> 1u16) & 1 == 1) == hblank,
{
}

/// The halfword at `address` (in the I/O registers) as the memory holds it
/// after `tick_ppu`'s writes to IF (0x4000202) and DISPSTAT, provided it
/// shares no byte with them.
proof fn lemma_io_kept(m: crate::mem::memory::InternalMemory, ie: u16, dispstat: u16, address: u32)
    requires
        address == 0x4000006,
    ensures
        m.spec_sys_write_u16(0x4000202, ie).spec_sys_write_u16(0x4000004, dispstat).spec_sys_read_u16(address)
            == m.spec_sys_read_u16(address),
{
    crate::mem::lemma_region_of(0x4000006, 4);
    crate::mem::lemma_region_of(0x4000007, 4);
    crate::mem::lemma_region_of(0x4000202, 4);
    crate::mem::lemma_region_of(0x4000203, 4);
    crate::mem::lemma_region_of(0x4000004, 4);
    crate::mem::lemma_region_of(0x4000005, 4);
    let m2 = m.spec_sys_write_u16(0x4000202, ie);
    lemma_sys_write_u16_frame(m, 0x4000202, ie, 0x4000006);
    lemma_sys_write_u16_frame(m, 0x4000202, ie, 0x4000007);
    lemma_sys_write_u16_frame(m2, 0x4000004, dispstat, 0x4000006);
    lemma_sys_write_u16_frame(m2, 0x4000004, dispstat, 0x4000007);
}

/// One dot of the PPU on the machine's bus, with VCOUNT (0x4000006) on a
/// line of the frame: the dot counter moves on by one around the frame, and
/// DISPSTAT's V-blank and H-blank bits follow it. When the counter has left
/// the line that VCOUNT names, VCOUNT moves on to the next line (around the
/// frame), a visible line adds its 240 colours to the stored screen, and
/// leaving the last line marks the frame new; otherwise VCOUNT, the stored
/// screen and the frame mark stay. The step fails only in drawing a visible
/// line.
pub proof fn lemma_tick_ppu_step(ppu: PpuView, bus: Bus)
    requires
        bus.wf(),
        ppu.elapsed_time < DOTS_PER_FRAME,
        bus.mem.spec_sys_read_u16(0x4000006) < LINES_PER_FRAME,
    ensures
        ({
            let v = bus.mem.spec_sys_read_u16(0x4000006);
            let new_line = ppu.elapsed_time / 308 != v;
            &&& spec_tick_ppu(ppu, bus) is Err ==> new_line && v < 160
            &&& spec_tick_ppu(ppu, bus) matches Ok((p2, b2)) ==> {
                &&& p2.elapsed_time == (ppu.elapsed_time + 1) % (DOTS_PER_FRAME as nat)
                &&& (b2.mem.spec_sys_read_u16(0x4000004) & 1 == 1) == (p2.elapsed_time / 308 >= 160)
                &&& ((b2.mem.spec_sys_read_u16(0x4000004) >> 1u16) & 1 == 1) == (p2.elapsed_time % 308 >= 240)
                &&& new_line ==> {
                    &&& b2.mem.spec_sys_read_u16(0x4000006) == (v + 1) % (LINES_PER_FRAME as int)
                    &&& p2.stored_screen.len() == ppu.stored_screen.len() + if v < 160 { 240int } else { 0int }
                    &&& p2.stored_screen.subrange(0, ppu.stored_screen.len() as int) == ppu.stored_screen
                    &&& p2.new_screen == (ppu.new_screen || v == 227)
                }
                &&& !new_line ==> {
                    &&& b2.mem.spec_sys_read_u16(0x4000006) == v
                    &&& p2.stored_screen == ppu.stored_screen
                    &&& p2.new_screen == ppu.new_screen
                }
            }
        }),
{
    let m0 = *bus.mem;
    let dispstat = m0.spec_sys_read_u16(0x4000004);
    let v = m0.spec_sys_read_u16(0x4000006);
    crate::mem::lemma_region_of(0x4000006, 4);
    crate::mem::lemma_region_of(0x4000202, 4);
    crate::mem::lemma_region_of(0x4000004, 4);
    if let Ok((p2, b2)) = spec_tick_ppu(ppu, bus) {
        let (p1, b1) = if ppu.elapsed_time / 308 != v {
            let line = if v < 160 { spec_draw_line(bus, v) } else { Ok(Seq::empty()) };
            let l = line->Ok_0;
            let vcount2: u16 = if v + 1 >= 228 { 0 } else { (v + 1) as u16 };
            assert(line is Ok);
            if v < 160 {
                assert(l.len() == 240);
            }
            lemma_sys_write_read_u16(m0, 0x4000006, vcount2);
            let p1 = PpuView {
                new_screen: if v + 1 >= 228 { true } else { ppu.new_screen },
                stored_screen: ppu.stored_screen + l,
                ..ppu
            };
            assert(p1.stored_screen.subrange(0, ppu.stored_screen.len() as int) =~= ppu.stored_screen);
            (p1, bus.spec_write_vram_u16(0x4000006, vcount2))
        } else {
            (ppu, bus)
        };
        let m1 = *b1.mem;
        let next = ppu.elapsed_time + 1;
        let (elapsed, d0) = if next >= DOTS_PER_FRAME { (0nat, dispstat & !0b11u16) } else { (next as nat, dispstat) };
        let vc = m1.spec_sys_read_u16(0x4000006);
        let d1 = spec_set_bit(d0, 0, elapsed / 308 >= 160);
        let d2 = spec_set_bit(d1, 1, elapsed % 308 >= 240);
        let d3 = spec_set_bit(d2, 2, vc == (d2 >> 8u16) & 0xFF);
        lemma_blank_bits(d0, elapsed / 308 >= 160, elapsed % 308 >= 240, vc == (d2 >> 8u16) & 0xFF);
        let ie2 = (m1.spec_sys_read_u16(0x4000202) & !0b111u16) | (d3 & 0b111);
        let m2 = m1.spec_sys_write_u16(0x4000202, ie2);
        lemma_sys_write_read_u16(m2, 0x4000004, d3);
        lemma_io_kept(m1, ie2, d3, 0x4000006);
        assert(*b2.mem == m2.spec_sys_write_u16(0x4000004, d3));
        assert(p2.elapsed_time == elapsed);
    }
}

} // verus!
