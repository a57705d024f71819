//! The bitmap modes (3, 4 and 5): the line is read straight out of VRAM.

use vstd::prelude::*;
use crate::mem::bus::PpuInterface;
use crate::ppu::{LCD_WIDTH, PALETTE_BASE, PpuRegisters, lemma_video_address};
use crate::ppu::accumulate::{LayersView, LineLayers};

verus! {

/// Mode 3: one 240 x 160 frame of 16-bit colours.
pub open spec fn spec_mode_3_row<P: PpuInterface>(memory: P, line: u16) -> Seq<u16> {
    Seq::new(240, |i: int| memory.spec_read_vram_u16((0x6000000 + line * 480 + i * 2) as u32))
}

/// The start of the displayed frame of modes 4 and 5 (DISPCNT bit 4 picks the second).
pub open spec fn spec_frame_base<P: PpuInterface>(memory: P) -> u32 {
    if (memory.spec_read_vram_u16(0x4000000) >> 4u16) & 1 == 1 { 0x600A000 } else { 0x6000000 }
}

/// Mode 4: two frames of 8-bit palette indices.
pub open spec fn spec_mode_4_row<P: PpuInterface>(memory: P, line: u16) -> Seq<u16> {
    Seq::new(240, |i: int| {
        let index = memory.spec_read_vram_u8((spec_frame_base(memory) + line * 240 + i) as u32);
        memory.spec_read_vram_u16((PALETTE_BASE + index * 2) as u32)
    })
}

pub const MODE_5_HEIGHT: u16 = 128;
pub const MODE_5_WIDTH: u32 = 160;

/// Mode 5: two 160 x 128 frames of colours; the rest of the line keeps what it held.
pub open spec fn spec_mode_5_row<P: PpuInterface>(memory: P, line: u16, old_row: Seq<u16>) -> Seq<u16> {
    Seq::new(240, |i: int| {
        if i < 160 {
            memory.spec_read_vram_u16((spec_frame_base(memory) + line * 320 + i * 2) as u32)
        } else {
            old_row[i]
        }
    })
}

pub fn bg_mode_3<P: PpuInterface>(layers: &mut LineLayers, memory: &P, line: u16)
    requires
        memory.inv(),
    ensures
        final(layers).view() == old(layers).view().with_bg(2, spec_mode_3_row(*memory, line)),
{
    broadcast use vstd::array::group_array_axioms;
    let start = 0x6000000 + (line as u32 * 480); // screen width * 2
    let mut i: usize = 0;
    while i < LCD_WIDTH
        invariant
            i <= 240,
            memory.inv(),
            start == 0x6000000 + line * 480,
            forall|b: int| 0 <= b < 4 && b != 2 ==> layers.bgs@[b] == old(layers).bgs@[b],
            layers.obj == old(layers).obj,
            layers.obj_priorities == old(layers).obj_priorities,
            forall|j: int| 0 <= j < i ==> layers.bgs@[2]@[j] == spec_mode_3_row(*memory, line)[j],
            forall|j: int| i <= j < 240 ==> layers.bgs@[2]@[j] == old(layers).bgs@[2]@[j],
        decreases 240 - i,
    {
        proof { lemma_video_address((start + i * 2) as u32); }
        let pixel = memory.read_vram_u16(start + i as u32 * 2);
        layers.bgs[2][i] = pixel;
        i += 1;
    }
    assert(layers.view().bgs =~= old(layers).view().with_bg(2, spec_mode_3_row(*memory, line)).bgs) by {
        assert(layers.bgs@[2]@ =~= spec_mode_3_row(*memory, line));
    }
}

pub fn bg_mode_4<P: PpuInterface>(layers: &mut LineLayers, memory: &P, line: u16)
    requires
        memory.inv(),
    ensures
        final(layers).view() == old(layers).view().with_bg(2, spec_mode_4_row(*memory, line)),
{
    broadcast use vstd::array::group_array_axioms;
    proof { lemma_video_address(0x4000000); }
    let dispcnt = memory.read_vram_u16(PpuRegisters::DispCnt.address());
    let displayed_frame = (dispcnt >> 4) & 1 == 1;

    let mut address: u32 = if displayed_frame { 0x600A000 } else { 0x6000000 };
    address += line as u32 * LCD_WIDTH as u32;
    let ghost start = address;

    let mut i: usize = 0;
    while i < LCD_WIDTH
        invariant
            i <= 240,
            memory.inv(),
            start == spec_frame_base(*memory) + line * 240,
            address == start + i,
            forall|b: int| 0 <= b < 4 && b != 2 ==> layers.bgs@[b] == old(layers).bgs@[b],
            layers.obj == old(layers).obj,
            layers.obj_priorities == old(layers).obj_priorities,
            forall|j: int| 0 <= j < i ==> layers.bgs@[2]@[j] == spec_mode_4_row(*memory, line)[j],
            forall|j: int| i <= j < 240 ==> layers.bgs@[2]@[j] == old(layers).bgs@[2]@[j],
        decreases 240 - i,
    {
        proof { lemma_video_address(address); }
        let palette_index = memory.read_vram_u8(address);
        proof { lemma_video_address((PALETTE_BASE + palette_index * 2) as u32); }
        let pixel = memory.read_vram_u16(PALETTE_BASE + (palette_index as u32 * 2));
        layers.bgs[2][i] = pixel;
        address += 1;
        i += 1;
    }
    assert(layers.view().bgs =~= old(layers).view().with_bg(2, spec_mode_4_row(*memory, line)).bgs) by {
        assert(layers.bgs@[2]@ =~= spec_mode_4_row(*memory, line));
    }
}

pub fn bg_mode_5<P: PpuInterface>(layers: &mut LineLayers, memory: &P, line: u16)
    requires
        memory.inv(),
    ensures
        line >= MODE_5_HEIGHT ==> *final(layers) == *old(layers),
        line < MODE_5_HEIGHT ==> final(layers).view()
            == old(layers).view().with_bg(2, spec_mode_5_row(*memory, line, old(layers).view().bgs[2])),
{
    broadcast use vstd::array::group_array_axioms;
    if line >= MODE_5_HEIGHT {
        return;
    }
    proof { lemma_video_address(0x4000000); }
    let dispcnt = memory.read_vram_u16(PpuRegisters::DispCnt.address());
    let displayed_frame = (dispcnt >> 4) & 1 == 1;

    let mut address: u32 = if displayed_frame { 0x600A000 } else { 0x6000000 };
    address += line as u32 * 2 * MODE_5_WIDTH;

    let mut i: u32 = 0;
    while i < MODE_5_WIDTH
        invariant
            i <= 160,
            line < 128,
            memory.inv(),
            address == spec_frame_base(*memory) + line * 320,
            forall|b: int| 0 <= b < 4 && b != 2 ==> layers.bgs@[b] == old(layers).bgs@[b],
            layers.obj == old(layers).obj,
            layers.obj_priorities == old(layers).obj_priorities,
            forall|j: int| 0 <= j < i ==> layers.bgs@[2]@[j]
                == spec_mode_5_row(*memory, line, old(layers).view().bgs[2])[j],
            forall|j: int| i <= j < 240 ==> layers.bgs@[2]@[j] == old(layers).bgs@[2]@[j],
        decreases 160 - i,
    {
        proof { lemma_video_address((address + i * 2) as u32); }
        let pixel = memory.read_vram_u16(address + i * 2);
        layers.bgs[2][i as usize] = pixel;
        i += 1;
    }
    assert(layers.view().bgs =~= old(layers).view().with_bg(2,
        spec_mode_5_row(*memory, line, old(layers).view().bgs[2])).bgs) by {
        assert(layers.bgs@[2]@ =~= spec_mode_5_row(*memory, line, old(layers).view().bgs[2]));
    }
}

} // verus!
