//! The tiled modes: text backgrounds built from 8x8 tiles.

use vstd::prelude::*;
use crate::bits::{lemma_and_bound_u16, lemma_and_bound_u32, lemma_and_bound_u8};
use crate::mem::bus::PpuInterface;
use crate::ppu::{LCD_WIDTH, PpuError, PpuRegisters, VRAM_BASE, lemma_video_address};
use crate::ppu::accumulate::{LayersView, LineLayers, spec_bg_enabled, spec_bg_priority};

verus! {

/// The size in pixels of a text background for its two size bits.
pub open spec fn spec_bg_dims(screen_size: u16) -> (u32, u32) {
    if screen_size == 0 {
        (256, 256)
    } else if screen_size == 1 {
        (512, 256)
    } else if screen_size == 2 {
        (256, 512)
    } else {
        (512, 512)
    }
}

/// Which of the up to four 32x32-tile screens holds tile (`x_tile`, `y_tile`).
pub open spec fn spec_used_screen(width: u32, height: u32, x_tile: u32, y_tile: u32) -> u32 {
    if width == 256 && height == 256 {
        0
    } else if width == 512 && height == 256 {
        if x_tile >= 32 { 1 } else { 0 }
    } else if width == 256 && height == 512 {
        if y_tile >= 32 { 1 } else { 0 }
    } else {
        ((if x_tile >= 32 { 1u32 } else { 0u32 }) + (if y_tile >= 32 { 2u32 } else { 0u32 })) as u32
    }
}

/// The eight palette entries of one row of a tile, left to right: 8-bit tiles
/// hold one entry per byte, 4-bit tiles two per byte (low nibble first) in
/// the tile's 16-colour palette, where 0 stays transparent.
pub open spec fn spec_tile_row<P: PpuInterface>(memory: P, tile: u16, char_address: u32, y_tile_offset: u32, is_8_bit: bool) -> Seq<u8> {
    let tile_number = (tile & 0x3FF) as u32;
    let hor_flip = (tile >> 10u16) & 1 == 1;
    let ver_flip = (tile >> 11u16) & 1 == 1;
    let palette_number = ((tile >> 12u16) & 0xF) as u8;
    let needed_row = if ver_flip { (7 - y_tile_offset) as u32 } else { y_tile_offset };
    if is_8_bit {
        let line_address = char_address + tile_number * 0x40 + needed_row * 0x8;
        Seq::new(8, |q: int| {
            let pixel = if hor_flip { 7 - q } else { q };
            memory.spec_read_vram_u8((line_address + pixel) as u32)
        })
    } else {
        let line_address = char_address + tile_number * 0x20 + needed_row * 0x4;
        Seq::new(8, |q: int| {
            let pixel = if hor_flip { 3 - q / 2 } else { q / 2 };
            let data = memory.spec_read_vram_u8((line_address + pixel) as u32);
            let nibble = if (q % 2 == 0) != hor_flip { data & 0xF } else { (data >> 4u8) & 0xF };
            if nibble == 0 { 0u8 } else { (palette_number * 0x10 + nibble) as u8 }
        })
    }
}

/// The settings of text background `bg` that a line is drawn with.
pub struct TextSettings {
    pub char_address: u32,
    pub is_8_bit: bool,
    pub sc0_address: u32,
    pub width: u32,
    pub height: u32,
    pub x_tile: u32,
    pub x_tile_offset: u32,
    pub y_tile: u32,
    pub y_tile_offset: u32,
}

pub open spec fn spec_text_settings<P: PpuInterface>(memory: P, line: u32, bg: u32) -> TextSettings {
    let bg_cnt = memory.spec_read_vram_u16((0x4000008 + bg * 2) as u32);
    let char_block = ((bg_cnt >> 2u16) & 0x3) as u32;
    let screen_base = ((bg_cnt >> 8u16) & 0x1F) as u32;
    let (width, height) = spec_bg_dims((bg_cnt >> 14u16) & 0x3);
    let x_offset = (memory.spec_read_vram_u16((0x4000010 + bg * 4) as u32) as u32) & (0x1FFu32 % width);
    let y_offset = (memory.spec_read_vram_u16((0x4000012 + bg * 4) as u32) as u32) & (0x1FFu32 % height);
    TextSettings {
        char_address: (VRAM_BASE + char_block * 0x4000) as u32,
        is_8_bit: (bg_cnt >> 7u16) & 1 == 1,
        sc0_address: (VRAM_BASE + screen_base * 0x800) as u32,
        width,
        height,
        x_tile: x_offset / 8,
        x_tile_offset: x_offset % 8,
        y_tile: (((y_offset + line) / 8) % ((height / 8) as int)) as u32,
        y_tile_offset: ((y_offset + line) % 8) as u32,
    }
}

/// The tile map entry of the `t`-th tile drawn on the line.
pub open spec fn spec_line_tile<P: PpuInterface>(memory: P, s: TextSettings, t: int) -> u16 {
    let x_tile = ((s.x_tile + t) % (s.width / 8) as int) as u32;
    let used_screen = spec_used_screen(s.width, s.height, x_tile, s.y_tile);
    let tile_address = s.sc0_address + used_screen * 0x800 + (x_tile % 32) * 2 + (s.y_tile % 32) * 0x40;
    memory.spec_read_vram_u16(tile_address as u32)
}

/// The 256 entries of the tiles that cover the line, from the tile under the
/// left edge of the screen on.
pub open spec fn spec_text_row<P: PpuInterface>(memory: P, line: u32, bg: u32) -> Seq<u8> {
    let s = spec_text_settings(memory, line, bg);
    Seq::new(256, |p: int| spec_tile_row(memory, spec_line_tile(memory, s, p / 8), s.char_address,
        s.y_tile_offset, s.is_8_bit)[p % 8])
}

/// The 240 palette entries of background `bg` on the line, scrolled by its
/// horizontal offset.
pub open spec fn spec_text_line<P: PpuInterface>(memory: P, line: u32, bg: u32) -> Seq<u8> {
    let s = spec_text_settings(memory, line, bg);
    spec_text_row(memory, line, bg).subrange(s.x_tile_offset as int, s.x_tile_offset + 240)
}

fn bg_dims(screen_size: u16) -> (r: (u32, u32))
    ensures r == spec_bg_dims(screen_size),
{
    if screen_size == 0 {
        (256, 256)
    } else if screen_size == 1 {
        (512, 256)
    } else if screen_size == 2 {
        (256, 512)
    } else {
        (512, 512)
    }
}

/// Pushes the eight entries of one row of `tile`.
fn push_tile_row<P: PpuInterface>(scanline: &mut Vec<u8>, memory: &P, tile: u16, char_address: u32, y_tile_offset: u32, is_8_bit: bool)
    requires
        memory.inv(),
        y_tile_offset < 8,
        VRAM_BASE <= char_address <= VRAM_BASE + 0xC000,
    ensures
        final(scanline)@ == old(scanline)@ + spec_tile_row(*memory, tile, char_address, y_tile_offset, is_8_bit),
{
    let ghost row = spec_tile_row(*memory, tile, char_address, y_tile_offset, is_8_bit);
    let ghost start = scanline@;
    // all the information stored in the tile
    let tile_number = (tile & 0x3FF) as u32;
    let hor_flip = (tile >> 10) & 1 == 1;
    let ver_flip = (tile >> 11) & 1 == 1;
    let palette_number = ((tile >> 12) & 0xF) as u8;
    proof { lemma_and_bound_u16(tile, 0x3FF); lemma_and_bound_u16(tile >> 12u16, 0xF); }

    let needed_row = if ver_flip { 7 - y_tile_offset } else { y_tile_offset };
    if is_8_bit {
        let line_address = char_address + (tile_number * 0x40) + (needed_row * 0x8);
        assert(row.len() == 8);
        assert forall|q: int| 0 <= q < 8 implies row[q]
            == memory.spec_read_vram_u8((line_address + (if hor_flip { 7 - q } else { q })) as u32) by {}
        let mut pixel: u32 = 0;
        while pixel < 8
            invariant
                pixel <= 8,
                memory.inv(),
                line_address + 7 < 0x700_0000,
                line_address >= 0x600_0000,
                row.len() == 8,
                forall|q: int| 0 <= q < 8 ==> row[q]
                    == memory.spec_read_vram_u8((line_address + (if hor_flip { 7 - q } else { q })) as u32),
                scanline@ =~= start + row.subrange(0, pixel as int),
            decreases 8 - pixel,
        {
            let p = if hor_flip { 7 - pixel } else { pixel };
            proof { lemma_video_address((line_address + p) as u32); }
            let palette_index = memory.read_vram_u8(line_address + p);
            scanline.push(palette_index);
            pixel += 1;
        }
    } else {
        let line_address = char_address + (tile_number * 0x20) + (needed_row * 0x4);
        assert(row.len() == 8);
        assert forall|q: int| 0 <= q < 8 implies row[q] == ({
            let data = memory.spec_read_vram_u8((line_address + (if hor_flip { 3 - q / 2 } else { q / 2 })) as u32);
            let nibble = if (q % 2 == 0) != hor_flip { data & 0xF } else { (data >> 4u8) & 0xF };
            if nibble == 0 { 0u8 } else { (palette_number * 0x10 + nibble) as u8 }
        }) by {}
        let mut pixel: u32 = 0;
        while pixel < 4
            invariant
                pixel <= 4,
                memory.inv(),
                line_address + 3 < 0x700_0000,
                line_address >= 0x600_0000,
                palette_number <= 15,
                row.len() == 8,
                forall|q: int| 0 <= q < 8 ==> row[q] == ({
                    let data = memory.spec_read_vram_u8((line_address + (if hor_flip { 3 - q / 2 } else { q / 2 })) as u32);
                    let nibble = if (q % 2 == 0) != hor_flip { data & 0xF } else { (data >> 4u8) & 0xF };
                    if nibble == 0 { 0u8 } else { (palette_number * 0x10 + nibble) as u8 }
                }),
                scanline@ =~= start + row.subrange(0, 2 * pixel as int),
            decreases 4 - pixel,
        {
            let p = if hor_flip { 3 - pixel } else { pixel };
            proof { lemma_video_address((line_address + p) as u32); }
            let formatted_data = memory.read_vram_u8(line_address + p);

            let left = if hor_flip { (formatted_data >> 4) & 0xF } else { formatted_data & 0xF };
            proof { lemma_and_bound_u8(formatted_data >> 4u8, 0xF); lemma_and_bound_u8(formatted_data, 0xF); }
            if left == 0 {
                scanline.push(0);
            } else {
                scanline.push((palette_number * 0x10) + left);
            }

            let right = if hor_flip { formatted_data & 0xF } else { (formatted_data >> 4) & 0xF };
            if right == 0 {
                scanline.push(0);
            } else {
                scanline.push((palette_number * 0x10) + right);
            }
            proof {
                let q0 = 2 * pixel as int;
                assert(q0 / 2 == pixel as int && q0 % 2 == 0);
                assert((q0 + 1) / 2 == pixel as int && (q0 + 1) % 2 == 1);
            }
            pixel += 1;
        }
    }
    assert(scanline@ =~= start + row);
}

/// The palette entries of text background `bg` on `line`.
pub fn text_mode_scanline<P: PpuInterface>(line: u32, bg: u32, memory: &P) -> (r: Vec<u8>)
    requires
        memory.inv(),
        bg < 4,
    ensures
        r@ == spec_text_line(*memory, line, bg),
{
    let ghost s = spec_text_settings(*memory, line, bg);
    proof { lemma_video_address((0x4000008 + bg * 2) as u32); }
    let bg_cnt = memory.read_vram_u16(PpuRegisters::BGCnt.address() + bg * 2);

    // all the variables stored within the bg_cnt register
    // (not all of their functionality have been implemented yet)
    let char_block = ((bg_cnt >> 2) & 0x3) as u32;
    let is_8_bit = (bg_cnt >> 7) & 1 == 1;
    let screen_base = ((bg_cnt >> 8) & 0x1F) as u32;
    let screen_size = (bg_cnt >> 14) & 0x3;
    proof { lemma_and_bound_u16(bg_cnt >> 2u16, 0x3); lemma_and_bound_u16(bg_cnt >> 8u16, 0x1F); }

    let (width, height) = bg_dims(screen_size);

    let sc0_address = VRAM_BASE + (screen_base * 0x800);
    let char_address = VRAM_BASE + (char_block * 0x4000);

    // all the needed knowledge of positions that we are rendering to
    // x_tile and y_tile are 0->32, offsets are 0->8
    proof { lemma_video_address((0x4000010 + bg * 4) as u32); }
    proof { lemma_video_address((0x4000012 + bg * 4) as u32); }
    let x_mask: u32 = 0x1FF % width;
    let y_mask: u32 = 0x1FF % height;
    let h_raw = memory.read_vram_u16(PpuRegisters::BgHOffset.address() + (bg * 4)) as u32;
    let v_raw = memory.read_vram_u16(PpuRegisters::BgVOffset.address() + (bg * 4)) as u32;
    let x_offset = h_raw & x_mask;
    let y_offset = v_raw & y_mask;
    proof { lemma_and_bound_u32(h_raw, x_mask); lemma_and_bound_u32(v_raw, y_mask); }
    assert(x_mask < width && y_mask < height);

    let mut x_tile = x_offset / 8;
    let x_tile_offset = x_offset % 8;
    // the sum is taken in 64 bits, so that every line has its row
    let y_line = y_offset as u64 + line as u64;
    let y_tile = ((y_line / 8) % (height / 8) as u64) as u32;
    let y_tile_offset = (y_line % 8) as u32;
    proof { vstd::arithmetic::div_mod::lemma_small_mod(x_tile as nat, (width / 8) as nat); }
    assert(s.x_tile == x_tile && s.y_tile == y_tile && s.y_tile_offset == y_tile_offset
        && s.x_tile_offset == x_tile_offset && s.width == width && s.height == height);

    // I reserve 256 as I want the list to have two tiles width
    // extra on each side, so that it accounts for scrolling
    // so 240 + (8 * 2) = 256
    let ghost row = spec_text_row(*memory, line, bg);
    let mut scanline: Vec<u8> = Vec::new();
    let mut t: u32 = 0;
    while scanline.len() <= 248
        invariant
            memory.inv(),
            t <= 32,
            scanline@.len() == 8 * t,
            s == spec_text_settings(*memory, line, bg),
            row == spec_text_row(*memory, line, bg),
            width == s.width && height == s.height && y_tile == s.y_tile && y_tile_offset == s.y_tile_offset,
            char_address == s.char_address && sc0_address == s.sc0_address && is_8_bit == s.is_8_bit,
            width == 256 || width == 512,
            height == 256 || height == 512,
            y_tile < height / 8,
            y_tile_offset < 8,
            VRAM_BASE <= char_address <= VRAM_BASE + 0xC000,
            VRAM_BASE <= sc0_address <= VRAM_BASE + 0xF800,
            s.x_tile < width / 8,
            x_tile < width / 8,
            x_tile == (s.x_tile + t) % (width / 8) as int,
            scanline@ =~= row.subrange(0, 8 * t as int),
        decreases 256 - scanline@.len(),
    {
        // first figure out which screen it is rendering to
        let used_screen: u32 = if width == 256 && height == 256 {
            0 // it can only be SC0
        } else if width == 512 && height == 256 {
            if x_tile >= 32 { 1 } else { 0 } // if its wide
        } else if width == 256 && height == 512 {
            if y_tile >= 32 { 1 } else { 0 } // if its tall
        } else {
            (if x_tile >= 32 { 1u32 } else { 0u32 }) + (if y_tile >= 32 { 2u32 } else { 0u32 })
        };

        // the memory address of the tile we need to get
        let tile_address = sc0_address + // baseline address all others work off
            (used_screen * 0x800) + // the screen we need to read from
            ((x_tile % 32) * 2) +  // the x_row of the tile (doubled as u16 -> u32)
            ((y_tile % 32) * 0x40); // the row being used

        proof { lemma_video_address(tile_address); }
        let tile = memory.read_vram_u16(tile_address);
        assert(tile == spec_line_tile(*memory, s, t as int));

        let ghost before = scanline@;
        push_tile_row(&mut scanline, memory, tile, char_address, y_tile_offset, is_8_bit);
        assert forall|p: int| 8 * t <= p < 8 * t + 8 implies scanline@[p] == row[p] by {
            assert(p / 8 == t as int);
            assert(p % 8 == p - 8 * t);
        }
        assert(scanline@ =~= row.subrange(0, 8 * (t + 1) as int));

        proof {
            vstd::arithmetic::div_mod::lemma_add_mod_noop(s.x_tile + t as int, 1, (width / 8) as int);
            vstd::arithmetic::div_mod::lemma_small_mod(1, (width / 8) as nat);
        }
        x_tile += 1;
        x_tile %= width / 8;
        t += 1;
    }
    assert(t == 32);

    // the visible part of the line starts at the horizontal offset in the first tile
    let mut visible: Vec<u8> = Vec::new();
    let mut i: usize = 0;
    while i < LCD_WIDTH
        invariant
            i <= 240,
            x_tile_offset < 8,
            scanline@ == row,
            row.len() == 256,
            visible@ =~= row.subrange(x_tile_offset as int, x_tile_offset + i),
        decreases 240 - i,
    {
        visible.push(scanline[x_tile_offset as usize + i]);
        i += 1;
    }
    return visible;
}

/// The entries of text background `bg` on the line, as a layer holds them.
pub open spec fn spec_text_bg_row<P: PpuInterface>(memory: P, line: u32, bg: int) -> Seq<u16> {
    spec_text_line(memory, line, bg as u32).map_values(|e: u8| e as u16)
}

/// The layers after each of the text backgrounds `0 .. count` that DISPCNT
/// switches on is drawn into its layer; the other layers keep what they held.
pub open spec fn spec_text_layers<P: PpuInterface>(layers: LayersView, memory: P, line: u32, count: int) -> LayersView {
    let dispcnt = memory.spec_read_vram_u16(0x4000000);
    LayersView {
        bgs: Seq::new(4, |b: int| if b < count && spec_bg_enabled(dispcnt, b) {
            spec_text_bg_row(memory, line, b)
        } else {
            layers.bgs[b]
        }),
        ..layers
    }
}

/// Draws text background `bg` into its layer.
fn fill_text_bg<P: PpuInterface>(layers: &mut LineLayers, memory: &P, line: u32, bg: usize)
    requires
        memory.inv(),
        bg < 4,
    ensures
        final(layers).view() == old(layers).view().with_bg(bg as int, spec_text_bg_row(*memory, line, bg as int)),
{
    broadcast use vstd::array::group_array_axioms;
    let read_line = text_mode_scanline(line, bg as u32, memory);
    let ghost row = spec_text_bg_row(*memory, line, bg as int);
    let mut i: usize = 0;
    while i < LCD_WIDTH
        invariant
            i <= 240,
            bg < 4,
            read_line@ == spec_text_line(*memory, line, bg as u32),
            row == spec_text_bg_row(*memory, line, bg as int),
            forall|b: int| 0 <= b < 4 && b != bg ==> layers.bgs@[b] == old(layers).bgs@[b],
            layers.obj == old(layers).obj,
            layers.obj_priorities == old(layers).obj_priorities,
            forall|j: int| 0 <= j < i ==> layers.bgs@[bg as int]@[j] == row[j],
        decreases 240 - i,
    {
        layers.bgs[bg][i] = read_line[i] as u16;
        i += 1;
    }
    assert(layers.view().bgs =~= old(layers).view().with_bg(bg as int, row).bgs) by {
        assert(layers.bgs@[bg as int]@ =~= row);
    }
}

/// The backgrounds among the first `n` of `available` that DISPCNT switches
/// on and whose priority is `p`, in their order, each with its priority.
pub open spec fn spec_priority_bucket<P: PpuInterface>(memory: P, available: Seq<u32>, p: u16, n: nat) -> Seq<(u8, u8)>
    decreases n,
{
    if n == 0 {
        Seq::empty()
    } else {
        let before = spec_priority_bucket(memory, available, p, (n - 1) as nat);
        let bg = available[n - 1];
        if spec_bg_enabled(memory.spec_read_vram_u16(0x4000000), bg as int) && spec_bg_priority(memory, bg as int) == p {
            before.push((bg as u8, p as u8))
        } else {
            before
        }
    }
}

/// The buckets of the priorities below `p`, highest priority (0) first.
pub open spec fn spec_priority_buckets<P: PpuInterface>(memory: P, available: Seq<u32>, p: nat) -> Seq<(u8, u8)>
    decreases p,
{
    if p == 0 {
        Seq::empty()
    } else {
        spec_priority_buckets(memory, available, (p - 1) as nat)
            + spec_priority_bucket(memory, available, (p - 1) as u16, available.len())
    }
}

/// The backgrounds of `available` that are switched on, in the order in
/// which they are drawn: by priority, and in the order of `available` among
/// equal priorities; each with its priority.
pub open spec fn spec_background_priorities<P: PpuInterface>(memory: P, available: Seq<u32>) -> Seq<(u8, u8)> {
    spec_priority_buckets(memory, available, 4)
}

/// returns all the backgrounds in order of priority
/// first number is the background number, second is its priority
fn get_background_priorities<P: PpuInterface>(memory: &P, available_bgs: Vec<u32>) -> (r: Vec<(u8, u8)>)
    requires
        memory.inv(),
        forall|i: int| 0 <= i < available_bgs@.len() ==> available_bgs@[i] < 4,
    ensures
        r@ == spec_background_priorities(*memory, available_bgs@),
{
    proof { lemma_video_address(0x4000000); }
    let disp_cnt = memory.read_vram_u16(PpuRegisters::DispCnt.address());

    let mut priorities: Vec<(u8, u8)> = Vec::new();
    let mut priority: u16 = 0;
    while priority < 4
        invariant
            priority <= 4,
            memory.inv(),
            disp_cnt == memory.spec_read_vram_u16(0x4000000),
            forall|i: int| 0 <= i < available_bgs@.len() ==> available_bgs@[i] < 4,
            priorities@ == spec_priority_buckets(*memory, available_bgs@, priority as nat),
        decreases 4 - priority,
    {
        let ghost start = priorities@;
        let mut k: usize = 0;
        while k < available_bgs.len()
            invariant
                k <= available_bgs@.len(),
                priority < 4,
                memory.inv(),
                disp_cnt == memory.spec_read_vram_u16(0x4000000),
                forall|i: int| 0 <= i < available_bgs@.len() ==> available_bgs@[i] < 4,
                start == spec_priority_buckets(*memory, available_bgs@, priority as nat),
                priorities@ == start + spec_priority_bucket(*memory, available_bgs@, priority, k as nat),
            decreases available_bgs@.len() - k,
        {
            let bg = available_bgs[k];
            if (disp_cnt >> (8 + bg) as u16) & 1 != 0 {
                proof { lemma_video_address((0x4000008 + bg * 2) as u32); }
                let bg_cnt = memory.read_vram_u16(PpuRegisters::BGCnt.address() + bg * 2) & 0b11;
                if bg_cnt == priority {
                    priorities.push((bg as u8, bg_cnt as u8));
                }
            }
            assert(priorities@ =~= start + spec_priority_bucket(*memory, available_bgs@, priority, (k + 1) as nat));
            k += 1;
        }
        priority += 1;
    }
    priorities
}

/// Whether background `b` is in a list of backgrounds with priorities.
pub open spec fn spec_lists(list: Seq<(u8, u8)>, b: int) -> bool {
    exists|i: int| 0 <= i < list.len() && list[i].0 == b
}

proof fn lemma_lists_push(list: Seq<(u8, u8)>, x: (u8, u8), b: int)
    ensures
        spec_lists(list.push(x), b) <==> spec_lists(list, b) || x.0 == b,
{
    if spec_lists(list.push(x), b) {
        let i = choose|i: int| 0 <= i < list.push(x).len() && list.push(x)[i].0 == b;
        if i < list.len() {
            assert(list[i].0 == b);
        }
    }
    if spec_lists(list, b) {
        let i = choose|i: int| 0 <= i < list.len() && list[i].0 == b;
        assert(list.push(x)[i].0 == b);
    }
    if x.0 == b {
        assert(list.push(x)[list.len() as int].0 == b);
    }
}

proof fn lemma_lists_concat(a: Seq<(u8, u8)>, c: Seq<(u8, u8)>, b: int)
    ensures
        spec_lists(a + c, b) <==> spec_lists(a, b) || spec_lists(c, b),
{
    if spec_lists(a + c, b) {
        let i = choose|i: int| 0 <= i < (a + c).len() && (a + c)[i].0 == b;
        if i < a.len() {
            assert(a[i].0 == b);
        } else {
            assert(c[i - a.len()].0 == b);
        }
    }
    if spec_lists(a, b) {
        let i = choose|i: int| 0 <= i < a.len() && a[i].0 == b;
        assert((a + c)[i].0 == b);
    }
    if spec_lists(c, b) {
        let i = choose|i: int| 0 <= i < c.len() && c[i].0 == b;
        assert((a + c)[a.len() + i].0 == b);
    }
}

/// With the backgrounds `0 .. m` available, the bucket of priority `p` over
/// the first `n` lists exactly those below `n` that show with priority `p`.
proof fn lemma_bucket_lists<P: PpuInterface>(memory: P, m: nat, p: u16, n: nat, b: int)
    requires
        m <= 4,
        n <= m,
    ensures
        spec_lists(spec_priority_bucket(memory, Seq::new(m, |i: int| i as u32), p, n), b)
            <==> (0 <= b < n && spec_bg_enabled(memory.spec_read_vram_u16(0x4000000), b)
                && spec_bg_priority(memory, b) == p),
    decreases n,
{
    let available = Seq::new(m, |i: int| i as u32);
    if n == 0 {
    } else {
        let before = spec_priority_bucket(memory, available, p, (n - 1) as nat);
        lemma_bucket_lists(memory, m, p, (n - 1) as nat, b);
        let bg = available[n - 1];
        assert(bg == n - 1);
        if spec_bg_enabled(memory.spec_read_vram_u16(0x4000000), bg as int) && spec_bg_priority(memory, bg as int) == p {
            lemma_lists_push(before, (bg as u8, p as u8), b);
        }
    }
}

/// With the backgrounds `0 .. m` available, the buckets of the priorities
/// below `p` list exactly those that are switched on with such a priority.
proof fn lemma_buckets_list<P: PpuInterface>(memory: P, m: nat, p: nat, b: int)
    requires
        m <= 4,
    ensures
        spec_lists(spec_priority_buckets(memory, Seq::new(m, |i: int| i as u32), p), b)
            <==> (0 <= b < m && spec_bg_enabled(memory.spec_read_vram_u16(0x4000000), b)
                && spec_bg_priority(memory, b) < p),
    decreases p,
{
    let available = Seq::new(m, |i: int| i as u32);
    if p > 0 {
        lemma_buckets_list(memory, m, (p - 1) as nat, b);
        lemma_bucket_lists(memory, m, (p - 1) as u16, m, b);
        lemma_lists_concat(spec_priority_buckets(memory, available, (p - 1) as nat),
            spec_priority_bucket(memory, available, (p - 1) as u16, available.len()), b);
    }
}

/// Draws, in the order of their priorities, the text backgrounds among
/// `0 .. m` that DISPCNT switches on.
fn draw_text_backgrounds<P: PpuInterface>(layers: &mut LineLayers, memory: &P, line: u32, available_bgs: Vec<u32>)
    requires
        memory.inv(),
        available_bgs@.len() <= 4,
        available_bgs@ == Seq::new(available_bgs@.len(), |i: int| i as u32),
    ensures
        final(layers).view() == spec_text_layers(old(layers).view(), *memory, line, available_bgs@.len() as int),
{
    let ghost m = available_bgs@.len();
    let ghost dispcnt = memory.spec_read_vram_u16(0x4000000);
    let backgrounds = get_background_priorities(memory, available_bgs);
    let ghost list = backgrounds@;
    let ghost target = spec_text_layers(old(layers).view(), *memory, line, m as int);
    assert forall|b: int| #![trigger spec_lists(list, b)] spec_lists(list, b) <==> (0 <= b < m && spec_bg_enabled(dispcnt, b)) by {
        lemma_buckets_list(*memory, m, 4, b);
        crate::bits::lemma_and_bound_u16(memory.spec_read_vram_u16((0x4000008 + 2 * b) as u32), 0x3);
    }

    let mut j: usize = 0;
    while j < backgrounds.len()
        invariant
            j <= backgrounds@.len(),
            memory.inv(),
            m <= 4,
            backgrounds@ == list,
            dispcnt == memory.spec_read_vram_u16(0x4000000),
            target == spec_text_layers(old(layers).view(), *memory, line, m as int),
            forall|b: int| #![trigger spec_lists(list, b)] spec_lists(list, b) <==> (0 <= b < m && spec_bg_enabled(dispcnt, b)),
            layers.view().obj == old(layers).view().obj,
            layers.view().obj_priorities == old(layers).view().obj_priorities,
            layers.view().bgs.len() == 4,
            forall|b: int| 0 <= b < 4 ==> layers.view().bgs[b] == if spec_lists(list.take(j as int), b) {
                spec_text_bg_row(*memory, line, b)
            } else {
                old(layers).view().bgs[b]
            },
        decreases backgrounds@.len() - j,
    {
        let bg = backgrounds[j].0;
        proof {
            assert(spec_lists(list, bg as int));
            assert(list.take(j + 1) =~= list.take(j as int).push(list[j as int]));
            assert forall|b: int| 0 <= b < 4 implies spec_lists(list.take(j + 1), b)
                <==> (spec_lists(list.take(j as int), b) || b == bg) by {
                lemma_lists_push(list.take(j as int), list[j as int], b);
            }
        }
        fill_text_bg(layers, memory, line, bg as usize);
        j += 1;
    }
    proof {
        assert(list.take(list.len() as int) =~= list);
        assert forall|b: int| 0 <= b < 4 implies layers.view().bgs[b] == target.bgs[b] by {
            assert(spec_lists(list, b) <==> (0 <= b < m && spec_bg_enabled(dispcnt, b)));
        }
        assert(layers.view().bgs =~= target.bgs);
    }
}

/// Mode 0: four text backgrounds.
pub fn bg_mode_0<P: PpuInterface>(layers: &mut LineLayers, memory: &P, line: u32)
    requires
        memory.inv(),
    ensures
        final(layers).view() == spec_text_layers(old(layers).view(), *memory, line, 4),
{
    let available: Vec<u32> = vec![0, 1, 2, 3];
    assert(available@ =~= Seq::new(4, |i: int| i as u32));
    draw_text_backgrounds(layers, memory, line, available);
}

/// Mode 1: backgrounds 0 and 1 are text, background 2 is rotated and
/// scaled, which is not drawn: switching it on is an error.
pub fn bg_mode_1<P: PpuInterface>(layers: &mut LineLayers, memory: &P, line: u32) -> (r: Result<(), PpuError>)
    requires
        memory.inv(),
    ensures
        r is Err <==> spec_bg_enabled(memory.spec_read_vram_u16(0x4000000), 2),
        r is Err ==> r == Err::<(), PpuError>(PpuError::AffineBackground) && *final(layers) == *old(layers),
        r is Ok ==> final(layers).view() == spec_text_layers(old(layers).view(), *memory, line, 2),
{
    proof { lemma_video_address(0x4000000); }
    let dispcnt = memory.read_vram_u16(PpuRegisters::DispCnt.address());
    // background 2 would be the rotated one
    if (dispcnt >> 10u16) & 1 != 0 {
        return Err(PpuError::AffineBackground);
    }
    let available: Vec<u32> = vec![0, 1, 2];
    assert(available@ =~= Seq::new(3, |i: int| i as u32));
    draw_text_backgrounds(layers, memory, line, available);
    assert(spec_text_layers(old(layers).view(), *memory, line, 3).bgs
        =~= spec_text_layers(old(layers).view(), *memory, line, 2).bgs);
    Ok(())
}

/// Mode 2: two rotated and scaled backgrounds, which are not drawn: the mode
/// is an error and the layers are left as they are.
pub fn bg_mode_2<P: PpuInterface>(layers: &mut LineLayers, memory: &P, line: u32) -> (r: Result<(), PpuError>)
    ensures
        r == Err::<(), PpuError>(PpuError::AffineBackground),
        *final(layers) == *old(layers),
{
    Err(PpuError::AffineBackground)
}

/// The flip bits of a tile map entry: bit 10 mirrors the tile left to right
/// within the same row (entry `q` is entry `7 - q` of the unflipped row),
/// and bit 11 turns it upside down (row `y` shows row `7 - y`, not mirrored).
pub proof fn lemma_tile_flips<P: PpuInterface>(memory: P, tile: u16, char_address: u32, y: u32, is_8_bit: bool)
    requires
        y < 8,
    ensures
        (tile >> 10u16) & 1 == 1 ==> forall|q: int| 0 <= q < 8 ==>
            #[trigger] spec_tile_row(memory, tile, char_address, y, is_8_bit)[q]
                == spec_tile_row(memory, tile & !0x400u16, char_address, y, is_8_bit)[7 - q],
        (tile >> 11u16) & 1 == 1 ==>
            spec_tile_row(memory, tile, char_address, y, is_8_bit)
                == spec_tile_row(memory, tile & !0x800u16, char_address, (7 - y) as u32, is_8_bit),
        spec_tile_row(memory, tile, char_address, y, is_8_bit).len() == 8,
{
    let t1 = tile & !0x400u16;
    let t2 = tile & !0x800u16;
    assert({
        &&& t1 & 0x3FF == tile & 0x3FF && t2 & 0x3FF == tile & 0x3FF
        &&& (t1 >> 10u16) & 1 == 0 && (t1 >> 11u16) & 1 == (tile >> 11u16) & 1
        &&& (t2 >> 11u16) & 1 == 0 && (t2 >> 10u16) & 1 == (tile >> 10u16) & 1
        &&& (t1 >> 12u16) & 0xF == (tile >> 12u16) & 0xF && (t2 >> 12u16) & 0xF == (tile >> 12u16) & 0xF
    }) by (bit_vector)
        requires t1 == tile & !0x400u16, t2 == tile & !0x800u16;
    if (tile >> 11u16) & 1 == 1 {
        assert(spec_tile_row(memory, tile, char_address, y, is_8_bit)
            =~= spec_tile_row(memory, t2, char_address, (7 - y) as u32, is_8_bit));
    }
    if (tile >> 10u16) & 1 == 1 {
        assert forall|q: int| 0 <= q < 8 implies
            #[trigger] spec_tile_row(memory, tile, char_address, y, is_8_bit)[q]
                == spec_tile_row(memory, t1, char_address, y, is_8_bit)[7 - q] by {
            assert((7 - q) / 2 == 3 - q / 2);
            assert(((7 - q) % 2 == 0) == (q % 2 == 1));
        }
    }
}

} // verus!
