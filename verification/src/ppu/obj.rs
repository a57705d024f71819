//! Sprites: the objects of OAM drawn into the sprite layer of a line.

use vstd::prelude::*;
use crate::bits::{lemma_and_bound_u16, lemma_and_bound_u8};
use crate::mem::bus::PpuInterface;
use crate::ppu::{LCD_WIDTH, PpuError, lemma_video_address};
use crate::ppu::accumulate::{LayersView, LineLayers};

verus! {

pub const OAM: u32 = 0x7000000;
pub const TILE_CHAR_BLOCK: u32 = 0x6010000;

/// The width and height of a sprite for its size and shape bits; shape 3
/// has no size.
pub open spec fn spec_size_grid(obj_size: u16, obj_shape: u16) -> Option<(u16, u16)> {
    if obj_shape == 0 {
        if obj_size == 0 { Some((8, 8)) } else if obj_size == 1 { Some((16, 16)) }
        else if obj_size == 2 { Some((32, 32)) } else { Some((64, 64)) }
    } else if obj_shape == 1 {
        if obj_size == 0 { Some((16, 8)) } else if obj_size == 1 { Some((32, 8)) }
        else if obj_size == 2 { Some((32, 16)) } else { Some((64, 32)) }
    } else if obj_shape == 2 {
        if obj_size == 0 { Some((8, 16)) } else if obj_size == 1 { Some((8, 32)) }
        else if obj_size == 2 { Some((16, 32)) } else { Some((32, 64)) }
    } else {
        None
    }
}

fn size_grid(obj_size: u16, obj_shape: u16) -> (r: Option<(u16, u16)>)
    requires
        obj_size < 4,
    ensures
        r == spec_size_grid(obj_size, obj_shape),
{
    if obj_shape == 0 {
        if obj_size == 0 { Some((8, 8)) } else if obj_size == 1 { Some((16, 16)) }
        else if obj_size == 2 { Some((32, 32)) } else { Some((64, 64)) }
    } else if obj_shape == 1 {
        if obj_size == 0 { Some((16, 8)) } else if obj_size == 1 { Some((32, 8)) }
        else if obj_size == 2 { Some((32, 16)) } else { Some((64, 32)) }
    } else if obj_shape == 2 {
        if obj_size == 0 { Some((8, 16)) } else if obj_size == 1 { Some((8, 32)) }
        else if obj_size == 2 { Some((16, 32)) } else { Some((32, 64)) }
    } else {
        None
    }
}

/// The eight pixels of one row of a sprite tile that starts at `line_address`:
/// 8-bit tiles hold one palette index per byte; 4-bit tiles two per byte
/// (low nibble first), offset by 0x20 per palette number, where 0 stays
/// transparent.
pub open spec fn spec_obj_tile_row<P: PpuInterface>(memory: P, line_address: u32, is_8_bit: bool, palette_number: u16) -> Seq<u16> {
    Seq::new(8, |p: int| {
        if is_8_bit {
            memory.spec_read_vram_u8((line_address + p) as u32) as u16
        } else {
            let data = memory.spec_read_vram_u8((line_address + p / 2) as u32);
            let nibble = if p % 2 == 0 { data & 0xF } else { (data >> 4u8) & 0xF };
            if nibble == 0 { 0u16 } else { (palette_number * 0x20 + nibble) as u16 }
        }
    })
}

/// Where the row `row_needed` of the `i`-th tile of a sprite line starts.
pub open spec fn spec_obj_line_address(tile_wanted: u16, i: int, row_needed: u16, is_8_bit: bool) -> u32 {
    if is_8_bit {
        (TILE_CHAR_BLOCK + (tile_wanted + i) * 0x40 + row_needed * 0x8) as u32
    } else {
        (TILE_CHAR_BLOCK + (tile_wanted + i) * 0x20 + row_needed * 0x4) as u32
    }
}

/// The `width` pixels of a sprite line, tile after tile, before any flip.
pub open spec fn spec_obj_pixels<P: PpuInterface>(memory: P, tile_wanted: u16, row_needed: u16, width: u16, is_8_bit: bool, palette_number: u16) -> Seq<u16> {
    Seq::new(width as nat, |k: int| spec_obj_tile_row(memory,
        spec_obj_line_address(tile_wanted, k / 8, row_needed, is_8_bit), is_8_bit, palette_number)[k % 8])
}

/// The row of pixels that the sprite with attributes `obj0`, `obj1`, `obj2`
/// puts on line `vcount`, from its left edge on: empty where the sprite is
/// switched off or does not cross the line. A sprite at `y` covers the lines
/// `y` to `y + height - 1`; flipped vertically, its first line shows its last
/// row. Rotated and scaled sprites, and
/// the shape without a size, are errors.
pub open spec fn spec_load_obj<P: PpuInterface>(memory: P, obj0: u16, obj1: u16, obj2: u16, vcount: u16, two_dimensional: bool) -> Result<Seq<u16>, PpuError> {
    match spec_size_grid((obj1 >> 14u16) & 0x3, (obj0 >> 14u16) & 0x3) {
        None => Err(PpuError::InvalidObjShape),
        Some((width, height)) => {
            if (obj0 >> 8u16) & 1 == 1 {
                Err(PpuError::AffineSprite)
            } else if (obj0 >> 9u16) & 1 == 1 {
                Ok(Seq::empty())
            } else {
                let y_coord = obj0 & 0xFF;
                if y_coord > vcount || y_coord + height <= vcount {
                    Ok(Seq::empty())
                } else {
                    let is_8_bit = (obj0 >> 13u16) & 1 == 1;
                    let tile_number = if is_8_bit { obj2 & 0x3FF & 0xFFFE } else { obj2 & 0x3FF };
                    let row_needed = if (obj1 >> 13u16) & 1 == 1 {
                        (height - 1 - (vcount - y_coord)) as u16
                    } else {
                        (vcount - y_coord) as u16
                    };
                    let tile_row = row_needed / 8;
                    let rows_below: int = if two_dimensional { 0x20 * tile_row } else { tile_row * (width / 8 - 1) };
                    let tile_wanted = (tile_number + rows_below) as u16;
                    let pixels = spec_obj_pixels(memory, tile_wanted, row_needed, width, is_8_bit, (obj2 >> 12u16) & 0xF);
                    let flipped = if (obj1 >> 12u16) & 1 == 1 { pixels.reverse() } else { pixels };
                    Ok(flipped)
                }
            }
        }
    }
}

/// Pushes the eight pixels of one row of a sprite tile.
fn push_obj_tile_row<P: PpuInterface>(row: &mut Vec<u16>, memory: &P, line_address: u32, is_8_bit: bool, palette_number: u16)
    requires
        memory.inv(),
        0x600_0000 <= line_address,
        line_address + 8 < 0x700_0000,
        palette_number < 16,
    ensures
        final(row)@ == old(row)@ + spec_obj_tile_row(*memory, line_address, is_8_bit, palette_number),
{
    let ghost tile_row = spec_obj_tile_row(*memory, line_address, is_8_bit, palette_number);
    let ghost start = row@;
    if is_8_bit {
        let mut pixel: u32 = 0;
        while pixel < 8
            invariant
                pixel <= 8,
                memory.inv(),
                0x600_0000 <= line_address,
                line_address + 8 < 0x700_0000,
                is_8_bit,
                tile_row == spec_obj_tile_row(*memory, line_address, is_8_bit, palette_number),
                row@ =~= start + tile_row.subrange(0, pixel as int),
            decreases 8 - pixel,
        {
            proof { lemma_video_address((line_address + pixel) as u32); }
            let palette_index = memory.read_vram_u8(line_address + pixel);
            row.push(palette_index as u16);
            pixel += 1;
        }
    } else {
        let mut pixel: u32 = 0;
        while pixel < 4
            invariant
                pixel <= 4,
                memory.inv(),
                0x600_0000 <= line_address,
                line_address + 8 < 0x700_0000,
                !is_8_bit,
                palette_number < 16,
                tile_row == spec_obj_tile_row(*memory, line_address, is_8_bit, palette_number),
                row@ =~= start + tile_row.subrange(0, 2 * pixel as int),
            decreases 4 - pixel,
        {
            proof { lemma_video_address((line_address + pixel) as u32); }
            let formatted_data = memory.read_vram_u8(line_address + pixel);
            proof { lemma_and_bound_u8(formatted_data >> 4u8, 0xF); lemma_and_bound_u8(formatted_data, 0xF); }

            let left = formatted_data & 0xF;
            if left == 0 {
                row.push(0);
            } else {
                row.push((palette_number * 0x20) + left as u16);
            }

            let right = (formatted_data >> 4) & 0xF;
            if right == 0 {
                row.push(0);
            } else {
                row.push((palette_number * 0x20) + right as u16);
            }
            proof {
                let q0 = 2 * pixel as int;
                assert(q0 / 2 == pixel as int && q0 % 2 == 0);
                assert((q0 + 1) / 2 == pixel as int && (q0 + 1) % 2 == 1);
            }
            pixel += 1;
        }
    }
    assert(row@ =~= start + tile_row);
}

/// The pixels of a sprite line in reverse order.
fn reversed(row: &Vec<u16>) -> (r: Vec<u16>)
    ensures
        r@ == row@.reverse(),
{
    let mut out: Vec<u16> = Vec::new();
    let mut i: usize = row.len();
    while i > 0
        invariant
            i <= row.len(),
            out@ =~= row@.reverse().subrange(0, row.len() - i),
        decreases i,
    {
        i -= 1;
        out.push(row[i]);
    }
    out
}

/// The row of pixels that the sprite with attributes `obj0`, `obj1`, `obj2`
/// puts on line `vcount` (see `spec_load_obj`).
fn load_obj<P: PpuInterface>(memory: &P, obj0: u16, obj1: u16, obj2: u16, vcount: u16, two_dimensional: bool) -> (r: Result<Vec<u16>, PpuError>)
    requires
        memory.inv(),
    ensures
        match r {
            Ok(v) => spec_load_obj(*memory, obj0, obj1, obj2, vcount, two_dimensional) == Ok::<Seq<u16>, PpuError>(v@),
            Err(e) => spec_load_obj(*memory, obj0, obj1, obj2, vcount, two_dimensional) == Err::<Seq<u16>, PpuError>(e),
        },
{
    let rotation_flag = (obj0 >> 8) & 1 == 1;
    let is_8_bit = (obj0 >> 13) & 1 == 1;

    assert(!(0b1u16) == 0xFFFEu16) by (bit_vector);
    proof { lemma_and_bound_u16(obj2, 0x3FF); lemma_and_bound_u16(obj2 & 0x3FFu16, 0xFFFE); }
    let mut tile_number = obj2 & 0x3FF;
    if is_8_bit { // the lowest bit is ignored in 8-bit depth
        tile_number &= !(0b1u16);
    }
    assert(tile_number <= 0x3FF);

    let palette_number = (obj2 >> 12) & 0xF;
    let y_coord = obj0 & 0xFF;
    proof {
        lemma_and_bound_u16(obj2 >> 12u16, 0xF);
        lemma_and_bound_u16(obj0, 0xFF);
        lemma_and_bound_u16(obj1 >> 14u16, 0x3);
    }

    let (width, height) = {
        let obj_shape = (obj0 >> 14) & 0x3;
        let obj_size = (obj1 >> 14) & 0x3;
        match size_grid(obj_size, obj_shape) {
            Some(dims) => dims,
            None => { return Err(PpuError::InvalidObjShape); }
        }
    };

    assert(8 <= width <= 64 && 8 <= height <= 64 && width % 8 == 0);
    if rotation_flag {
        return Err(PpuError::AffineSprite);
    }
    // just not being drawn
    let disable = (obj0 >> 9) & 1 == 1;
    if disable {
        return Ok(Vec::new());
    }

    let hor_flip = (obj1 >> 12) & 1 == 1;
    let ver_flip = (obj1 >> 13) & 1 == 1;

    // not this lines responsibility to draw
    // the sprite covers lines y_coord up to y_coord + height - 1
    if y_coord > vcount || y_coord + height <= vcount {
        return Ok(Vec::new());
    }

    // its being rendered (even if offscreen x-wise); flipped, the first line
    // shows the last row
    let row_needed = if ver_flip { height - 1 - (vcount - y_coord) } else { vcount - y_coord };

    // the tile it needs to complete the row
    let tile_row = row_needed / 8;
    assert(row_needed <= 64 && tile_row <= 8);
    assert(tile_row * ((width / 8) - 1) <= 56) by (nonlinear_arith)
        requires tile_row <= 8, 1 <= width / 8 <= 8;

    // the tile in the top row of the sprite, then the rows below it: 32 tiles
    // apart in the two-dimensional mapping, one sprite width apart otherwise
    let tile_wanted = tile_number + if two_dimensional { 0x20 * tile_row } else { tile_row * ((width / 8) - 1) };

    let ghost pixels = spec_obj_pixels(*memory, tile_wanted, row_needed, width, is_8_bit, palette_number);
    let mut row_of_pixels: Vec<u16> = Vec::new();
    let mut i: u16 = 0;
    while i < width / 8
        invariant
            memory.inv(),
            i <= width / 8,
            width <= 64,
            row_needed <= 64,
            tile_wanted <= 0x3FF + 0x100,
            palette_number < 16,
            pixels == spec_obj_pixels(*memory, tile_wanted, row_needed, width, is_8_bit, palette_number),
            row_of_pixels@ =~= pixels.subrange(0, 8 * i as int),
        decreases width / 8 - i,
    {
        let line_address = if is_8_bit {
            TILE_CHAR_BLOCK + ((tile_wanted + i) as u32 * 0x40) + (row_needed as u32 * 0x8)
        } else {
            TILE_CHAR_BLOCK + ((tile_wanted + i) as u32 * 0x20) + (row_needed as u32 * 0x4)
        };
        assert(line_address == spec_obj_line_address(tile_wanted, i as int, row_needed, is_8_bit));
        push_obj_tile_row(&mut row_of_pixels, memory, line_address, is_8_bit, palette_number);
        assert forall|k: int| 8 * i <= k < 8 * i + 8 implies row_of_pixels@[k] == pixels[k] by {
            assert(k / 8 == i as int);
            assert(k % 8 == k - 8 * i);
        }
        i += 1;
    }
    assert(8 * (width / 8) == width);
    assert(row_of_pixels@ =~= pixels);

    if hor_flip {
        return Ok(reversed(&row_of_pixels));
    }
    Ok(row_of_pixels)
}

/// The layers after a sprite line is drawn from column `x` on: each pixel that
/// is not transparent and lies on the screen replaces the sprite layer's entry
/// and priority.
pub open spec fn spec_draw_obj(layers: LayersView, pixels: Seq<u16>, x: int, priority: u8) -> LayersView {
    let shown = |j: int| x <= j < x + pixels.len() && pixels[j - x] != 0;
    LayersView {
        obj: Seq::new(240, |j: int| if shown(j) { pixels[j - x] } else { layers.obj[j] }),
        obj_priorities: Seq::new(240, |j: int| if shown(j) { priority } else { layers.obj_priorities[j] }),
        ..layers
    }
}

/// The attributes of OAM entry `obj`.
pub open spec fn spec_obj_attrs<P: PpuInterface>(memory: P, obj: int) -> (u16, u16, u16) {
    (memory.spec_read_vram_u16((OAM + obj * 8) as u32),
     memory.spec_read_vram_u16((OAM + obj * 8 + 2) as u32),
     memory.spec_read_vram_u16((OAM + obj * 8 + 4) as u32))
}

/// The layers after OAM entries `0 .. n` are drawn in turn; entries whose
/// attributes are all zero are skipped.
pub open spec fn spec_oam_upto<P: PpuInterface>(layers: LayersView, memory: P, vcount: u16, dispcnt: u16, n: nat) -> Result<LayersView, PpuError>
    decreases n,
{
    if n == 0 {
        Ok(layers)
    } else {
        match spec_oam_upto(layers, memory, vcount, dispcnt, (n - 1) as nat) {
            Err(e) => Err(e),
            Ok(before) => {
                let obj = n - 1;
                let (obj0, obj1, obj2) = spec_obj_attrs(memory, obj);
                if obj0 == 0 && obj1 == 0 && obj2 == 0 {
                    Ok(before)
                } else {
                    match spec_load_obj(memory, obj0, obj1, obj2, vcount, (dispcnt >> 6u16) & 1 == 0) {
                        Err(e) => Err(e),
                        Ok(pixels) => Ok(spec_draw_obj(before, pixels, (obj1 & 0x1FF) as int,
                            ((obj2 >> 10u16) & 0x3) as u8)),
                    }
                }
            }
        }
    }
}

/// Once an entry is an error, the scan stays that error.
proof fn lemma_oam_error_stays<P: PpuInterface>(layers: LayersView, memory: P, vcount: u16, dispcnt: u16, n: nat, m: nat, e: PpuError)
    requires
        n <= m,
        spec_oam_upto(layers, memory, vcount, dispcnt, n) == Err::<LayersView, PpuError>(e),
    ensures
        spec_oam_upto(layers, memory, vcount, dispcnt, m) == Err::<LayersView, PpuError>(e),
    decreases m - n,
{
    if n < m {
        lemma_oam_error_stays(layers, memory, vcount, dispcnt, n, (m - 1) as nat, e);
    }
}

/// Draws a sprite line into the sprite layer from column `x_coord` on.
fn draw_obj(layers: &mut LineLayers, new: &Vec<u16>, x_coord: usize, priority: u8)
    requires
        x_coord <= 0x1FF,
    ensures
        final(layers).view() == spec_draw_obj(old(layers).view(), new@, x_coord as int, priority),
{
    broadcast use vstd::array::group_array_axioms;
    let ghost target = spec_draw_obj(old(layers).view(), new@, x_coord as int, priority);
    let mut i: usize = 0;
    while i < new.len()
        invariant_except_break
            i <= new.len(),
            i == 0 || x_coord + i <= 240,
            forall|j: int| 0 <= j < 240 && j < x_coord + i ==> layers.obj@[j] == target.obj[j]
                && layers.obj_priorities@[j] == target.obj_priorities[j],
            forall|j: int| 0 <= j < 240 && j >= x_coord + i ==> layers.obj@[j] == old(layers).obj@[j]
                && layers.obj_priorities@[j] == old(layers).obj_priorities@[j],
            layers.bgs == old(layers).bgs,
            target == spec_draw_obj(old(layers).view(), new@, x_coord as int, priority),
            x_coord <= 0x1FF,
        ensures
            forall|j: int| 0 <= j < 240 ==> layers.obj@[j] == target.obj[j]
                && layers.obj_priorities@[j] == target.obj_priorities[j],
            layers.bgs == old(layers).bgs,
        decreases new.len() - i,
    {
        // its not going to be shown
        // (and will cause an out of bounds error)
        if x_coord + i >= LCD_WIDTH {
            break;
        }

        let pixel = new[i];
        if pixel != 0 {
            layers.obj[x_coord + i] = pixel;
            layers.obj_priorities[x_coord + i] = priority;
        }
        i += 1;
    }
    assert(layers.view().obj =~= target.obj);
    assert(layers.view().obj_priorities =~= target.obj_priorities);
    assert(layers.view().bgs =~= target.bgs);
}

/// Runs through all of the objects inside OAM and draws those that cross line
/// `vcount` into the sprite layer, later objects over earlier ones.
pub fn oam_scan<P: PpuInterface>(layers: &mut LineLayers, memory: &P, vcount: u16, dispcnt: u16) -> (r: Result<(), PpuError>)
    requires
        memory.inv(),
    ensures
        match r {
            Ok(_) => spec_oam_upto(old(layers).view(), *memory, vcount, dispcnt, 128)
                == Ok::<LayersView, PpuError>(final(layers).view()),
            Err(e) => spec_oam_upto(old(layers).view(), *memory, vcount, dispcnt, 128)
                == Err::<LayersView, PpuError>(e),
        },
{
    let two_dimensional_mapping = (dispcnt >> 6) & 1 == 0;

    let mut obj: u32 = 0;
    while obj <= 127
        invariant
            obj <= 128,
            memory.inv(),
            two_dimensional_mapping == ((dispcnt >> 6u16) & 1 == 0),
            spec_oam_upto(old(layers).view(), *memory, vcount, dispcnt, obj as nat)
                == Ok::<LayersView, PpuError>(layers.view()),
        decreases 128 - obj,
    {
        // all of the attributes held by the OAMs (the 4th one isn't used yet)
        proof {
            lemma_video_address((OAM + obj * 8) as u32);
            lemma_video_address((OAM + obj * 8 + 2) as u32);
            lemma_video_address((OAM + obj * 8 + 4) as u32);
        }
        let obj_attr0 = memory.read_vram_u16(OAM + (obj * 8) + 0);
        let obj_attr1 = memory.read_vram_u16(OAM + (obj * 8) + 2);
        let obj_attr2 = memory.read_vram_u16(OAM + (obj * 8) + 4);

        if obj_attr0 == 0 && obj_attr1 == 0 && obj_attr2 == 0 {
            obj += 1;
            continue;
        }
        // these are defined here as they don't impact the reading of the tile
        // just impact if / where it is placed
        let priority = ((obj_attr2 >> 10) & 0x3) as u8;
        let x_coord = (obj_attr1 & 0x1FF) as usize;
        proof { lemma_and_bound_u16(obj_attr1, 0x1FF); }

        // this can be any amount of lines
        let new = match load_obj(memory, obj_attr0, obj_attr1, obj_attr2, vcount, two_dimensional_mapping) {
            Ok(new) => new,
            Err(e) => {
                proof { lemma_oam_error_stays(old(layers).view(), *memory, vcount, dispcnt, (obj + 1) as nat, 128, e); }
                return Err(e);
            }
        };
        draw_obj(layers, &new, x_coord, priority);
        obj += 1;
    }
    Ok(())
}

} // verus!
