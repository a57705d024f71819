//! Merging the background and sprite layers of a line into its colours.

use vstd::prelude::*;
use crate::mem::bus::{PpuInterface, spec_ppu_address};
use crate::ppu::{LCD_WIDTH, PALETTE_BASE, PpuRegisters, lemma_ppu_address};

verus! {

pub const OBJ_PALL: u32 = 0x5000200;

pub struct LineLayers {
    /// the palette entries (or, in the bitmap modes, the colours) of the four backgrounds
    pub bgs: [[u16; 240]; 4],
    /// the palette entries of the sprites: a 4-bit sprite's entry is its
    /// palette number times 0x20 plus its colour index, up to 0x1EF, so an
    /// entry takes 16 bits
    pub obj: [u16; 240],
    /// object priorites store
    /// 7654|32|10|
    /// 0000|md|pr|
    /// any of the 0 bits being full means its invalid and shouldnt be shown
    pub obj_priorities: [u8; 240],
}

/// The contents of a line's layers.
pub struct LayersView {
    pub bgs: Seq<Seq<u16>>,
    pub obj: Seq<u16>,
    pub obj_priorities: Seq<u8>,
}

impl LayersView {
    /// The layers with background `bg` replaced.
    pub open spec fn with_bg(self, bg: int, row: Seq<u16>) -> LayersView {
        LayersView { bgs: self.bgs.update(bg, row), ..self }
    }
}

/// The layers of a line before anything is drawn.
pub open spec fn spec_blank_layers() -> LayersView {
    LayersView {
        bgs: Seq::new(4, |b: int| Seq::new(240, |i: int| 0u16)),
        obj: Seq::new(240, |i: int| 0u16),
        obj_priorities: Seq::new(240, |i: int| 0xF0u8),
    }
}

impl LineLayers {
    pub open spec fn view(&self) -> LayersView {
        LayersView {
            bgs: Seq::new(4, |b: int| self.bgs@[b]@),
            obj: self.obj@,
            obj_priorities: self.obj_priorities@,
        }
    }

    pub fn blank() -> (r: Self)
        ensures r.view() == spec_blank_layers(),
    {
        broadcast use vstd::array::group_array_axioms;
        let r = Self {
            // the palette entries for bg's and obj's are stored, not the pixel values
            bgs: [[0; LCD_WIDTH]; 4],
            obj: [0; LCD_WIDTH],
            obj_priorities: [0xF0; LCD_WIDTH],
        };
        assert forall|b: int| 0 <= b < 4 implies r.view().bgs[b] =~= spec_blank_layers().bgs[b] by {
            assert(r.bgs@[b]@ =~= Seq::new(240, |i: int| 0u16));
        }
        assert(r.view().bgs =~= spec_blank_layers().bgs);
        assert(r.view().obj =~= spec_blank_layers().obj);
        assert(r.view().obj_priorities =~= spec_blank_layers().obj_priorities);
        r
    }
}

/// Whether background `bg` is switched on in DISPCNT.
pub open spec fn spec_bg_enabled(dispcnt: u16, bg: int) -> bool {
    (dispcnt >> (8 + bg) as u16) & 1 != 0
}

/// The priority of background `bg` (the low two bits of its BGCNT).
pub open spec fn spec_bg_priority<P: PpuInterface>(memory: P, bg: int) -> u16 {
    memory.spec_read_vram_u16((0x4000008 + 2 * bg) as u32) & 0x3
}

/// Pixel `i` after backgrounds `0 .. n` are merged: the entry shown and its
/// priority (4 where nothing is shown). A background shows where its entry is
/// not zero and its priority beats what is there.
pub open spec fn spec_merge_bgs<P: PpuInterface>(layers: LayersView, memory: P, dispcnt: u16, i: int, n: nat) -> (u16, u16)
    decreases n,
{
    if n == 0 {
        (0, 4)
    } else {
        let (combo, prio) = spec_merge_bgs(layers, memory, dispcnt, i, (n - 1) as nat);
        let bg = n - 1;
        let new_pixel = layers.bgs[bg][i];
        let priority = spec_bg_priority(memory, bg);
        if !spec_bg_enabled(dispcnt, bg) || new_pixel == 0 || priority >= prio {
            (combo, prio)
        } else {
            (new_pixel, priority)
        }
    }
}

/// Pixel `i` of the merged line: the entry shown and whether it is a sprite's.
pub open spec fn spec_accumulate_pixel<P: PpuInterface>(layers: LayersView, memory: P, i: int) -> (u16, bool) {
    let dispcnt = memory.spec_read_vram_u16(0x4000000);
    let (combo, prio) = spec_merge_bgs(layers, memory, dispcnt, i, 4);
    let obj_pixel = layers.obj[i];
    let obj_prio = layers.obj_priorities[i] & 0x3;
    if obj_pixel == 0 || obj_prio == 4 || (obj_prio as u16 > prio && combo != 0) {
        (combo, false)
    } else {
        (obj_pixel, true)
    }
}

/// The colour of pixel `i`: sprites and the tiled modes look their entry up
/// in a palette, the bitmap modes store colours.
pub open spec fn spec_pixel_color<P: PpuInterface>(layers: LayersView, memory: P, i: int) -> u16 {
    let bg_mode = memory.spec_read_vram_u16(0x4000000) & 0x7;
    let (entry, is_obj) = spec_accumulate_pixel(layers, memory, i);
    if is_obj {
        memory.spec_read_vram_u16((OBJ_PALL + entry) as u32)
    } else if bg_mode <= 2 {
        memory.spec_read_vram_u16((PALETTE_BASE + entry * 2) as u32)
    } else {
        entry
    }
}

pub open spec fn spec_line_colors<P: PpuInterface>(layers: LayersView, memory: P) -> Seq<u16> {
    Seq::new(240, |i: int| spec_pixel_color(layers, memory, i))
}

pub fn accumulate_and_palette<P: PpuInterface>(layers: &LineLayers, memory: &P) -> (r: Vec<u16>)
    requires
        memory.inv(),
    ensures
        r@ == spec_line_colors(layers.view(), *memory),
{
    proof {
        lemma_ppu_address(0x4000000, 4);
    }
    let bg_mode = memory.read_vram_u16(PpuRegisters::DispCnt.address()) & 0x7;
    let (palette_entries, is_obj) = accumulate(layers, memory);

    let mut combo: Vec<u16> = Vec::new();
    let mut i: usize = 0;
    while i < LCD_WIDTH
        invariant
            i <= 240,
            memory.inv(),
            bg_mode == memory.spec_read_vram_u16(0x4000000) & 0x7,
            palette_entries@.len() == 240,
            is_obj@.len() == 240,
            forall|j: int| 0 <= j < 240 ==> (palette_entries@[j], is_obj@[j])
                == spec_accumulate_pixel(layers.view(), *memory, j),
            combo@ =~= Seq::new(i as nat, |j: int| spec_pixel_color(layers.view(), *memory, j)),
        decreases 240 - i,
    {
        let entry = palette_entries[i];
        let color = if is_obj[i] {
            proof { lemma_ppu_address((OBJ_PALL + entry) as u32, 5); }
            memory.read_vram_u16(OBJ_PALL + (entry as u32))
        } else if bg_mode <= 2 {
            proof { lemma_ppu_address((PALETTE_BASE + entry * 2) as u32, 5); }
            memory.read_vram_u16(PALETTE_BASE + (entry as u32 * 2))
        } else {
            entry
        };
        combo.push(color);
        i += 1;
    }

    return combo;
}

// just more convenient to mix them all together in one location
fn accumulate<P: PpuInterface>(layers: &LineLayers, memory: &P) -> (r: (Vec<u16>, Vec<bool>))
    requires
        memory.inv(),
    ensures
        r.0@.len() == 240,
        r.1@.len() == 240,
        forall|j: int| 0 <= j < 240 ==> (r.0@[j], r.1@[j]) == spec_accumulate_pixel(layers.view(), *memory, j),
{
    let ghost view = layers.view();
    let mut combo: Vec<u16> = vec![0; LCD_WIDTH];
    let mut prios: Vec<u16> = vec![4; LCD_WIDTH];
    proof { lemma_ppu_address(0x4000000, 4); }
    let dispcnt = memory.read_vram_u16(PpuRegisters::DispCnt.address());

    // for now just get it to be the same as before, just with all layers
    let mut bg: usize = 0;
    while bg <= 3
        invariant
            bg <= 4,
            memory.inv(),
            view == layers.view(),
            dispcnt == memory.spec_read_vram_u16(0x4000000),
            combo@.len() == 240,
            prios@.len() == 240,
            forall|j: int| 0 <= j < 240 ==> (combo@[j], prios@[j])
                == spec_merge_bgs(view, *memory, dispcnt, j, bg as nat),
        decreases 4 - bg,
    {
        // the display bit says its not even on
        if (dispcnt >> (8 + bg) as u16) & 1 == 0 {
            assert forall|j: int| 0 <= j < 240 implies (combo@[j], prios@[j])
                == spec_merge_bgs(view, *memory, dispcnt, j, (bg + 1) as nat) by {
                assert(spec_merge_bgs(view, *memory, dispcnt, j, (bg + 1) as nat)
                    == spec_merge_bgs(view, *memory, dispcnt, j, bg as nat));
            }
            bg += 1;
            continue;
        }

        proof { lemma_ppu_address((0x4000008 + 2 * bg) as u32, 4); }
        let priority = memory.read_vram_u16(PpuRegisters::BGCnt.address() + (0x2 * bg as u32)) & 0x3;
        let mut i: usize = 0;
        while i < LCD_WIDTH
            invariant
                bg <= 3,
                i <= 240,
                view == layers.view(),
                combo@.len() == 240,
                prios@.len() == 240,
                spec_bg_enabled(dispcnt, bg as int),
                priority == spec_bg_priority(*memory, bg as int),
                forall|j: int| 0 <= j < i ==> (combo@[j], prios@[j])
                    == spec_merge_bgs(view, *memory, dispcnt, j, (bg + 1) as nat),
                forall|j: int| i <= j < 240 ==> (combo@[j], prios@[j])
                    == spec_merge_bgs(view, *memory, dispcnt, j, bg as nat),
            decreases 240 - i,
        {
            let new_pixel = layers.bgs[bg][i];
            assert(new_pixel == view.bgs[bg as int][i as int]);
            let ghost before_c = combo@;
            let ghost before_p = prios@;
            assert(spec_merge_bgs(view, *memory, dispcnt, i as int, bg as nat) == (before_c[i as int], before_p[i as int]));
            assert(spec_merge_bgs(view, *memory, dispcnt, i as int, (bg + 1) as nat) == {
                let (c, p) = spec_merge_bgs(view, *memory, dispcnt, i as int, bg as nat);
                if !spec_bg_enabled(dispcnt, bg as int) || view.bgs[bg as int][i as int] == 0
                    || spec_bg_priority(*memory, bg as int) >= p {
                    (c, p)
                } else {
                    (view.bgs[bg as int][i as int], spec_bg_priority(*memory, bg as int))
                }
            });
            if new_pixel == 0 {
            } else if priority >= prios[i] {
            } else {
                combo.set(i, new_pixel);
                prios.set(i, priority);
            }
            assert((combo@[i as int], prios@[i as int])
                == spec_merge_bgs(view, *memory, dispcnt, i as int, (bg + 1) as nat));
            assert forall|j: int| 0 <= j < 240 && j != i implies combo@[j] == before_c[j] && prios@[j] == before_p[j] by {}
            i += 1;
        }
        bg += 1;
    }

    // now mix that with the objs
    let mut is_obj: Vec<bool> = vec![false; LCD_WIDTH];
    let mut i: usize = 0;
    while i < LCD_WIDTH
        invariant
            i <= 240,
            view == layers.view(),
            dispcnt == memory.spec_read_vram_u16(0x4000000),
            combo@.len() == 240,
            prios@.len() == 240,
            is_obj@.len() == 240,
            forall|j: int| 0 <= j < i ==> (combo@[j], is_obj@[j]) == spec_accumulate_pixel(view, *memory, j),
            forall|j: int| i <= j < 240 ==> (combo@[j], prios@[j]) == spec_merge_bgs(view, *memory, dispcnt, j, 4)
                && !is_obj@[j],
        decreases 240 - i,
    {
        let obj_pixel = layers.obj[i];
        let obj_prio = layers.obj_priorities[i] & 0x3;
        let ghost before_c = combo@;
        let ghost before_o = is_obj@;

        if obj_pixel == 0 || obj_prio == 4 {
        } else if obj_prio as u16 > prios[i] && combo[i] != 0 {
        } else {
            combo.set(i, obj_pixel);
            is_obj.set(i, true);
        }
        assert((combo@[i as int], is_obj@[i as int]) == spec_accumulate_pixel(view, *memory, i as int));
        assert forall|j: int| 0 <= j < 240 && j != i implies combo@[j] == before_c[j] && is_obj@[j] == before_o[j] by {}
        i += 1;
    }

    return (combo, is_obj);
}

} // verus!
