//! The emulated memories and the system-side accesses to them.

use crate::bits::{lemma_and_bound_u16, lemma_and_bound_u32};
use vstd::prelude::*;
use vstd::array::spec_array_update;
use crate::mem::{
    combine_u16, combine_u32, byte_of, region_of, offset_of, has_read_lock, has_write_lock,
    is_in_video_memory, lil_end_combine_u16, lil_end_combine_u32, lil_end_split_u16,
    split_memory_address, spec_has_read_lock, spec_has_write_lock, spec_is_in_video_memory,
};

verus! {

/// The sizes of the memories.
pub struct MemLengths;

impl MemLengths {
    pub const BIOS: usize = 0x4000;
    pub const EWRAM: usize = 0x40000;
    pub const IWRAM: usize = 0x8000;
    pub const IO: usize = 0x3FF;
    pub const OBJ: usize = 0x400;
    pub const VRAM: usize = 0x18000;
    pub const OAM: usize = 0x400;
    pub const MAX_SRAM: usize = 0x10000;
}

pub struct InternalMemory {
    /// the boot ROM, 16 KB
    pub bios: Vec<u8>,
    /// WRAM - On-board Work RAM
    pub ewram: [u8; 0x40000],
    /// WRAM - On-chip Work RAM
    pub iwram: [u8; 0x8000],
    /// 96 KB - 16 bit bus
    pub vram: [u8; 0x18000],
    pub io_reg: [u8; 0x3FF],
    pub obj_pall: [u8; 0x400],
    pub oam: [u8; 0x400],
    pub rom: Vec<u8>,
    pub sram: [u8; 0x10000],
    pub timer_reload_values: [u16; 4],
    pub dma_completions: [u32; 4],
}

/// A memory fresh from power-on: every RAM, register and counter is zero.
pub open spec fn spec_zeroed(m: InternalMemory) -> bool {
    &&& forall|i: int| 0 <= i < 0x40000 ==> m.ewram@[i] == 0
    &&& forall|i: int| 0 <= i < 0x8000 ==> m.iwram@[i] == 0
    &&& forall|i: int| 0 <= i < 0x18000 ==> m.vram@[i] == 0
    &&& forall|i: int| 0 <= i < 0x3FF ==> m.io_reg@[i] == 0
    &&& forall|i: int| 0 <= i < 0x400 ==> m.obj_pall@[i] == 0
    &&& forall|i: int| 0 <= i < 0x400 ==> m.oam@[i] == 0
    &&& forall|i: int| 0 <= i < 0x10000 ==> m.sram@[i] == 0
    &&& forall|i: int| 0 <= i < 4 ==> m.timer_reload_values@[i] == 0
    &&& forall|i: int| 0 <= i < 4 ==> m.dma_completions@[i] == 0
}

/// The memory of a machine that boots `bios` and runs the cartridge `rom`
/// (of any length, empty too); `None` unless the BIOS is 16 KB.
pub fn create_memory(bios: Vec<u8>, rom: Vec<u8>) -> (r: Option<Box<InternalMemory>>)
    ensures
        r is Some <==> bios@.len() == 0x4000,
        r matches Some(m) ==> m.wf() && m.counters_wf() && m.bios@ == bios@ && m.rom@ == rom@
            && spec_zeroed(*m),
{
    broadcast use vstd::array::group_array_axioms;
    if bios.len() != MemLengths::BIOS {
        return None;
    }
    Some(Box::new(InternalMemory {
        bios,
        ewram: [0; 0x40000],
        iwram: [0; 0x8000],
        vram: [0; 0x18000],
        io_reg: [0; 0x3FF],
        obj_pall: [0; 0x400],
        oam: [0; 0x400],
        rom,
        sram: [0; 0x10000],
        timer_reload_values: [0; 4],
        dma_completions: [0; 4],
    }))
}

/// Where an offset inside the VRAM region lands: 64 KB, then 32 KB mirrored
/// once more, the whole 128 KB mirrored through the region.
pub open spec fn vram_index(low: int) -> int {
    let base = low % 0x20000;
    if base >= 0x10000 { 0x10000 + base % 0x8000 } else { base }
}

pub open spec fn halfword_base(address: u32) -> u32 {
    (address as int - address as int % 2) as u32
}

pub open spec fn word_base(address: u32) -> u32 {
    (address as int - address as int % 4) as u32
}

pub proof fn lemma_bases(address: u32)
    ensures
        address & !1u32 == halfword_base(address),
        address & !3u32 == word_base(address),
        region_of(halfword_base(address)) == region_of(address),
        region_of((halfword_base(address) + 1) as u32) == region_of(address),
        region_of(word_base(address)) == region_of(address),
        region_of((word_base(address) + 1) as u32) == region_of(address),
        region_of((word_base(address) + 2) as u32) == region_of(address),
        region_of((word_base(address) + 3) as u32) == region_of(address),
        halfword_base(address) % 2 == 0,
        word_base(address) % 4 == 0,
        halfword_base(address) + 1 <= u32::MAX,
        word_base(address) + 3 <= u32::MAX,
        offset_of((halfword_base(address) + 1) as u32) == offset_of(halfword_base(address)) + 1,
        offset_of(halfword_base(address)) % 2 == 0,
{
    let h = address & !1u32;
    let w = address & !3u32;
    assert({
        &&& address & !1u32 == address - address % 2
        &&& address & !3u32 == address - address % 4
        &&& (h >> 24u32) & 0xF == (address >> 24u32) & 0xF
        &&& ((h + 1) as u32 >> 24u32) & 0xF == (address >> 24u32) & 0xF
        &&& (w >> 24u32) & 0xF == (address >> 24u32) & 0xF
        &&& ((w + 1) as u32 >> 24u32) & 0xF == (address >> 24u32) & 0xF
        &&& ((w + 2) as u32 >> 24u32) & 0xF == (address >> 24u32) & 0xF
        &&& ((w + 3) as u32 >> 24u32) & 0xF == (address >> 24u32) & 0xF
        &&& ((h + 1) as u32) & 0xFF_FFFFu32 == (h & 0xFF_FFFFu32) + 1
        &&& (h & 0xFF_FFFFu32) % 2 == 0
    }) by (bit_vector)
        requires h == address & !1u32, w == address & !3u32;
}

impl InternalMemory {
    /// The lengths that the memory map relies on.
    pub open spec fn wf(&self) -> bool {
        &&& self.bios@.len() == 0x4000
    }

    /// The DMA counters stay within the longest transfer (0x10000 words).
    pub open spec fn counters_wf(&self) -> bool {
        forall|i: int| 0 <= i < 4 ==> self.dma_completions@[i] <= 0x40000
    }

    /// The byte that the system side reads at an address. Each memory repeats
    /// through its region; regions 1 and 15, where nothing is mapped, read 0,
    /// and so does the cartridge space when the cartridge is empty.
    pub open spec fn spec_sys_read_u8(&self, address: u32) -> u8 {
        let upp = region_of(address);
        let low = offset_of(address);
        if upp == 0 {
            self.bios@[low % 0x4000]
        } else if upp == 2 {
            self.ewram@[low % 0x40000]
        } else if upp == 3 {
            self.iwram@[low % 0x8000]
        } else if upp == 4 {
            self.io_reg@[low % 0x3FF]
        } else if upp == 5 {
            self.obj_pall@[low % 0x400]
        } else if upp == 6 {
            self.vram@[vram_index(low)]
        } else if upp == 7 {
            self.oam@[low % 0x400]
        } else if 8 <= upp <= 0xD {
            if self.rom@.len() == 0 {
                0
            } else if upp % 2 == 1 {
                self.rom@[(low + 0x100_0000) % self.rom@.len() as int]
            } else {
                self.rom@[low % self.rom@.len() as int]
            }
        } else if upp == 0xE {
            self.sram@[low % 0x10000]
        } else {
            0
        }
    }

    pub open spec fn spec_sys_read_u16(&self, address: u32) -> u16 {
        let base = halfword_base(address);
        combine_u16(self.spec_sys_read_u8(base), self.spec_sys_read_u8((base + 1) as u32))
    }

    pub open spec fn spec_sys_read_u32(&self, address: u32) -> u32 {
        let base = word_base(address);
        combine_u32(
            self.spec_sys_read_u8(base),
            self.spec_sys_read_u8((base + 1) as u32),
            self.spec_sys_read_u8((base + 2) as u32),
            self.spec_sys_read_u8((base + 3) as u32),
        )
    }

    /// The memory after the system side writes a byte. The BIOS and the ROM
    /// cannot be written; a write there changes nothing.
    pub open spec fn spec_sys_write_u8(&self, address: u32, data: u8) -> InternalMemory {
        let upp = region_of(address);
        let low = offset_of(address);
        if upp == 2 {
            InternalMemory { ewram: spec_array_update(self.ewram, low % 0x40000, data), ..*self }
        } else if upp == 3 {
            InternalMemory { iwram: spec_array_update(self.iwram, low % 0x8000, data), ..*self }
        } else if upp == 4 {
            InternalMemory { io_reg: spec_array_update(self.io_reg, low % 0x3FF, data), ..*self }
        } else if upp == 5 {
            InternalMemory { obj_pall: spec_array_update(self.obj_pall, low % 0x400, data), ..*self }
        } else if upp == 6 {
            InternalMemory { vram: spec_array_update(self.vram, vram_index(low), data), ..*self }
        } else if upp == 7 {
            InternalMemory { oam: spec_array_update(self.oam, low % 0x400, data), ..*self }
        } else if upp == 0xE {
            InternalMemory { sram: spec_array_update(self.sram, low % 0x10000, data), ..*self }
        } else {
            *self
        }
    }

    pub open spec fn spec_sys_write_u16(&self, address: u32, data: u16) -> InternalMemory {
        let base = halfword_base(address);
        self.spec_sys_write_u8(base, (data as int % 0x100) as u8)
            .spec_sys_write_u8((base + 1) as u32, (data as int / 0x100) as u8)
    }

    /// this provides unchecked reading,
    /// so should only be used by the PPU (which technically owns all
    /// of its memory and registers)
    pub fn sys_read_u8(&self, address: u32) -> (r: u8)
        requires
            self.wf(),
        ensures
            r == self.spec_sys_read_u8(address),
    {
        let (upp, low) = split_memory_address(address);
        if upp == 0x0 {
            self.bios[low % MemLengths::BIOS]
        } else if upp == 0x2 {
            self.ewram[low % MemLengths::EWRAM]
        } else if upp == 0x3 {
            self.iwram[low % MemLengths::IWRAM]
        } else if upp == 0x4 {
            self.io_reg[low % MemLengths::IO]
        } else if upp == 0x5 {
            self.obj_pall[low % MemLengths::OBJ]
        } else if upp == 0x6 {
            let base = low % 0x20000;
            if base >= 0x10000 {
                return self.vram[0x10000 + (base % 0x8000)];
            }
            self.vram[base]
        } else if upp == 0x7 {
            self.oam[low % MemLengths::OAM]
        } else if 0x8 <= upp && upp <= 0xD {
            if self.rom.len() == 0 {
                return 0;
            }
            if upp % 2 == 1 {
                return self.rom[(low + 0x1000000) % self.rom.len()];
            }
            self.rom[low % self.rom.len()]
        } else if upp == 0xE {
            self.sram[low % MemLengths::MAX_SRAM]
        } else {
            // nothing is mapped at 0x1 and 0xF
            0
        }
    }

    pub fn sys_read_u16(&self, address: u32) -> (r: u16)
        requires
            self.wf(),
        ensures
            r == self.spec_sys_read_u16(address),
    {
        proof { lemma_bases(address); }
        let base = address & !(0b1);
        lil_end_combine_u16(self.sys_read_u8(base + 0), self.sys_read_u8(base + 1))
    }

    pub fn sys_read_u32(&self, address: u32) -> (r: u32)
        requires
            self.wf(),
        ensures
            r == self.spec_sys_read_u32(address),
    {
        proof { lemma_bases(address); }
        let base = address & !(0b11);
        lil_end_combine_u32(
            self.sys_read_u8(base + 0),
            self.sys_read_u8(base + 1),
            self.sys_read_u8(base + 2),
            self.sys_read_u8(base + 3),
        )
    }

    pub fn sys_write_u8(&mut self, address: u32, data: u8)
        ensures
            final(self).bios == old(self).bios,
            final(self).rom == old(self).rom,
            final(self).dma_completions == old(self).dma_completions,
            final(self).timer_reload_values == old(self).timer_reload_values,
            *final(self) == old(self).spec_sys_write_u8(address, data),
    {
        broadcast use vstd::array::group_array_axioms;
        let (upp, low) = split_memory_address(address);
        if upp == 0x2 {
            self.ewram[low % MemLengths::EWRAM] = data;
            assert(self.ewram =~= spec_array_update(old(self).ewram, low as int % 0x40000, data));
        } else if upp == 0x3 {
            self.iwram[low % MemLengths::IWRAM] = data;
            assert(self.iwram =~= spec_array_update(old(self).iwram, low as int % 0x8000, data));
        } else if upp == 0x4 {
            self.io_reg[low % MemLengths::IO] = data;
            assert(self.io_reg =~= spec_array_update(old(self).io_reg, low as int % 0x3FF, data));
        } else if upp == 0x5 {
            self.obj_pall[low % MemLengths::OBJ] = data;
            assert(self.obj_pall =~= spec_array_update(old(self).obj_pall, low as int % 0x400, data));
        } else if upp == 0x6 {
            // 64k-32k (then the 32k is mirrored again) (then everything is mirrored again)
            let base = low % 0x20000;
            if base >= 0x10000 {
                self.vram[0x10000 + (base % 0x8000)] = data;
            } else {
                self.vram[base] = data;
            }
            assert(self.vram =~= spec_array_update(old(self).vram, vram_index(low as int), data));
        } else if upp == 0x7 {
            self.oam[low % MemLengths::OAM] = data;
            assert(self.oam =~= spec_array_update(old(self).oam, low as int % 0x400, data));
        } else if upp == 0xE {
            self.sram[low % MemLengths::MAX_SRAM] = data;
            assert(self.sram =~= spec_array_update(old(self).sram, low as int % 0x10000, data));
        }
        // the BIOS, the ROM and the unmapped regions cannot be written
    }

    pub fn sys_write_u16(&mut self, address: u32, data: u16)
        ensures
            final(self).bios == old(self).bios,
            final(self).rom == old(self).rom,
            final(self).dma_completions == old(self).dma_completions,
            final(self).timer_reload_values == old(self).timer_reload_values,
            *final(self) == old(self).spec_sys_write_u16(address, data),
    {
        proof { lemma_bases(address); }
        let base = address & !(0b1);
        let split = lil_end_split_u16(data);
        self.sys_write_u8(base + 0, split.0);
        self.sys_write_u8(base + 1, split.1);
    }

    /// What the processor reads at an address: `None` where the read is refused
    /// (a write-only register, past the end of the BIOS, the unmapped regions
    /// 1 and 15).
    pub open spec fn spec_cpu_read(&self, address: u32) -> Option<u8> {
        let upp = region_of(address);
        if spec_has_read_lock(address) {
            None
        } else if upp == 0 && offset_of(address) >= 0x4000 {
            None
        } else if upp == 1 || upp > 0xE {
            None
        } else {
            Some(self.spec_sys_read_u8(address))
        }
    }

    /// The new reload value of a timer after the processor writes one byte of it.
    pub open spec fn spec_reload_with_byte(old_value: u16, data: u8, upper: bool) -> u16 {
        if upper {
            (old_value & 0x00FF) | ((data as u16) << 8u16)
        } else {
            (old_value & 0xFF00) | (data as u16)
        }
    }

    /// The memory after the processor writes a byte.
    pub open spec fn spec_cpu_write(&self, address: u32, data: u8, is_8_bit: bool) -> InternalMemory {
        let upp = region_of(address);
        let low = offset_of(address);
        if spec_has_write_lock(address) {
            *self
        } else if address == 0x4000202 || address == 0x4000203 {
            // writing a one acknowledges (clears) an interrupt request
            let i = address - 0x4000000;
            InternalMemory { io_reg: spec_array_update(self.io_reg, i, self.io_reg@[i] & !data), ..*self }
        } else if 0x4000100 <= address <= 0x400010E {
            let t = (address - 0x4000100) / 4;
            if address % 4 == 2 {
                let started = if (data >> 7u8) & 1 == 1 {
                    self.spec_sys_write_u16((address - 2) as u32, self.timer_reload_values@[t])
                } else {
                    *self
                };
                started.spec_sys_write_u16(address, data as u16)
            } else if address % 4 == 3 {
                *self
            } else {
                let reload = Self::spec_reload_with_byte(self.timer_reload_values@[t], data, address % 2 == 1);
                InternalMemory {
                    timer_reload_values: spec_array_update(self.timer_reload_values, t, reload),
                    ..*self
                }
            }
        } else if spec_is_in_video_memory(upp) && is_8_bit {
            let bitmap = (self.io_reg@[0] & 7) >= 4;
            let write_both = (upp == 6 && (if bitmap { low <= 0xFFFF } else { low <= 0x13FFF })) || upp == 5;
            if upp == 7 || !write_both {
                *self
            } else {
                let base = halfword_base(address);
                self.spec_sys_write_u8(base, data).spec_sys_write_u8((base + 1) as u32, data)
            }
        } else {
            self.spec_sys_write_u8(address, data)
        }
    }

    pub fn cpu_read(&self, address: u32) -> (r: Option<u8>)
        requires
            self.wf(),
        ensures
            r == self.spec_cpu_read(address),
    {
        if has_read_lock(address) {
            return None;
        }
        let (upp, low) = split_memory_address(address);
        if upp == 0x0 && low >= MemLengths::BIOS {
            return None;
        }
        if upp == 0x1 || upp > 0xE {
            return None;
        }
        return Some(self.sys_read_u8(address));
    }

    pub fn cpu_write(&mut self, address: u32, data: u8, is_8_bit: bool)
        ensures
            *final(self) == old(self).spec_cpu_write(address, data, is_8_bit),
        decreases
            if is_8_bit { 1int } else { 0int },
    {
        broadcast use vstd::array::group_array_axioms;
        if has_write_lock(address) {
            return;
        }
        if address == 0x4000202 || address == 0x4000203 {
            let i = (address - 0x4000000) as usize;
            self.io_reg[i] = self.io_reg[i] & !data;
            assert(self.io_reg =~= spec_array_update(old(self).io_reg, i as int, old(self).io_reg@[i as int] & !data));
            return;
        }

        // writing to a timer register
        if address >= 0x4000100 && address <= 0x400010E {
            let timer_specified = ((address - 0x4000100) / 4) as usize;
            // check if its enabling the timer
            if address % 4 == 2 {
                let enable_bit = data >> 7 & 1 == 1;
                if enable_bit {
                    let timer_reload = self.timer_reload_values[timer_specified];
                    self.sys_write_u16(address - 2, timer_reload);
                }
                self.sys_write_u16(address, data as u16);
                return;
            }
            if address % 4 >= 2 {
                return;
            }

            // this rounds down anyways which is good
            let write_upper_byte = address & 1 == 1;
            assert(address & 1 == 1 <==> address % 2 == 1) by (bit_vector);
            let data = data as u16;
            let old_reload = self.timer_reload_values[timer_specified];
            let new_reload = if write_upper_byte {
                (old_reload & 0x00FF) | (data << 8)
            } else {
                (old_reload & 0xFF00) | data
            };
            self.timer_reload_values[timer_specified] = new_reload;
            assert(self.timer_reload_values =~= spec_array_update(old(self).timer_reload_values,
                timer_specified as int, new_reload));
            return;
        }

        let (upp_add, low_add) = split_memory_address(address);
        // why do the video memory buffers not allow 8-bit writes??
        // no clue but it does
        if is_in_video_memory(upp_add) && is_8_bit {
            // no chance of a write happening
            if upp_add == 7 {
                return;
            }

            // why is this a thing
            let bg = self.io_reg[0] & 0x7;
            let bitmap = bg >= 4;
            let mut write_both = false;
            if upp_add == 0x6 {
                if bitmap {
                    write_both = write_both || low_add <= 0xFFFF;
                } else {
                    write_both = write_both || low_add <= 0x13FFF;
                }
            }
            // pallete
            write_both = write_both || upp_add == 0x5;

            if !write_both {
                return;
            }

            // just mirrors it up and down
            // since should be recursive as is_8_bit will be set to false
            proof {
                lemma_bases(address);
                let h = halfword_base(address);
                assert(((h >> 24u32) & 0xFu32 >= 5 ==> h >= 0x500_0000)
                    && (((h + 1) as u32 >> 24u32) & 0xFu32 >= 5 ==> (h + 1) as u32 >= 0x500_0000)) by (bit_vector);
            }
            let halfword_aligned = address & !0b1;
            self.cpu_write(halfword_aligned + 0, data, false);
            self.cpu_write(halfword_aligned + 1, data, false);
            return;
        }

        self.sys_write_u8(address, data);
    }
}

/// The registers of the four DMA channels (channel `i` is `0xC * i` further on).
pub enum DMARegisters {
    SAD,
    DAD,
    Amount,
    Control,
}

impl DMARegisters {
    pub open spec fn spec_address(&self) -> u32 {
        match self {
            DMARegisters::SAD => 0x40000B0,
            DMARegisters::DAD => 0x40000B4,
            DMARegisters::Amount => 0x40000B8,
            DMARegisters::Control => 0x40000BA,
        }
    }

    /// The address of this register for channel 0.
    pub fn address(&self) -> (r: u32)
        ensures r == self.spec_address(),
    {
        match self {
            DMARegisters::SAD => 0x40000B0,
            DMARegisters::DAD => 0x40000B4,
            DMARegisters::Amount => 0x40000B8,
            DMARegisters::Control => 0x40000BA,
        }
    }
}

pub open spec fn dma_register(reg: DMARegisters, i: u32) -> u32 {
    (reg.spec_address() + i * 0xC) as u32
}

/// Whether channel `i` has its enable bit set.
pub open spec fn spec_dma_enabled(m: InternalMemory, i: u32) -> bool {
    (m.spec_sys_read_u16(dma_register(DMARegisters::Control, i)) >> 15u16) & 1 == 1
}

/// The enabled channel of highest priority (0 first).
pub open spec fn spec_active_dma(m: InternalMemory) -> Option<u32> {
    if spec_dma_enabled(m, 0) {
        Some(0)
    } else if spec_dma_enabled(m, 1) {
        Some(1)
    } else if spec_dma_enabled(m, 2) {
        Some(2)
    } else if spec_dma_enabled(m, 3) {
        Some(3)
    } else {
        None
    }
}

pub open spec fn with_completion(m: InternalMemory, i: u32, v: u32) -> InternalMemory {
    InternalMemory { dma_completions: spec_array_update(m.dma_completions, i as int, v), ..m }
}

/// One step of DMA channel `i`: the memory after it, and whether the channel
/// still holds the bus.
pub open spec fn spec_dma_step(m: InternalMemory, i: u32) -> (InternalMemory, bool) {
    let cnt = m.spec_sys_read_u16(dma_register(DMARegisters::Control, i));
    let base_src = m.spec_sys_read_u32(dma_register(DMARegisters::SAD, i)) & 0x0FFF_FFFF;
    let base_dst = m.spec_sys_read_u32(dma_register(DMARegisters::DAD, i)) & 0x0FFF_FFFF;
    let cnt_l = m.spec_sys_read_u16(dma_register(DMARegisters::Amount, i)) as u32;
    let amount: u32 = if cnt_l == 0 { if i == 3 { 0x10000 } else { 0x4000 } } else { cnt_l };
    let dst_ctrl = (cnt >> 5u16) & 0x3;
    let src_ctrl = (cnt >> 7u16) & 0x3;
    let repeat = (cnt >> 9u16) & 1 == 1;
    let word = (cnt >> 10u16) & 1 == 1;
    let dma_start = (cnt >> 12u16) & 0x3;
    let irq_call = (cnt >> 14u16) & 1 == 1;
    let dispstat = m.spec_sys_read_u16(0x4000004);
    let stop_cnt = cnt & 0x7FFF;
    if dma_start == 1 && dispstat & 1 == 0 {
        (m, false)
    } else if dma_start == 2 && (dispstat >> 1u16) & 1 == 0 {
        (m, false)
    } else if dma_start == 3 {
        (m.spec_sys_write_u16(dma_register(DMARegisters::Control, i), stop_cnt), false)
    } else if src_ctrl == 3 {
        (m, false)
    } else {
        let done = m.dma_completions@[i as int];
        let src: u32 = if src_ctrl == 0 {
            (base_src + done) as u32
        } else if src_ctrl == 1 {
            base_src.wrapping_sub(done)
        } else {
            base_src
        };
        let dst: u32 = if dst_ctrl == 1 {
            base_dst.wrapping_sub(done)
        } else if dst_ctrl == 2 {
            base_dst
        } else {
            (base_dst + done) as u32
        };
        let step: u32 = if word { 4 } else { 2 };
        let moved = if word {
            let read = m.spec_sys_read_u32(src);
            m.spec_sys_write_u16(dst, read as u16).spec_sys_write_u16(
                dst.wrapping_add(2),
                (read >> 16u32) as u16,
            )
        } else {
            m.spec_sys_write_u16(dst, m.spec_sys_read_u16(src))
        };
        let completed = (done + step) as u32;
        let counted = with_completion(moved, i, completed);
        if completed >= (amount * step) as u32 {
            let flagged = if irq_call {
                counted.spec_sys_write_u16(
                    0x4000202,
                    counted.spec_sys_read_u16(0x4000202) | (1u16 << (8 + i) as u16),
                )
            } else {
                counted
            };
            let reset = with_completion(flagged, i, 0);
            if repeat {
                (reset, true)
            } else {
                (reset.spec_sys_write_u16(dma_register(DMARegisters::Control, i), stop_cnt), false)
            }
        } else {
            (counted, true)
        }
    }
}

/// What one DMA tick does: the memory after it and whether a DMA holds the bus.
pub open spec fn spec_dma_tick(m: InternalMemory) -> (InternalMemory, bool) {
    match spec_active_dma(m) {
        None => (m, false),
        Some(i) => spec_dma_step(m, i),
    }
}

/// A write by the system side keeps the lengths and the DMA counters.
pub proof fn lemma_sys_write_wf(m: InternalMemory, address: u32, data: u16)
    requires m.wf(),
    ensures
        m.spec_sys_write_u16(address, data).wf(),
        m.counters_wf() ==> m.spec_sys_write_u16(address, data).counters_wf(),
        m.spec_sys_write_u16(address, data).dma_completions == m.dma_completions,
        m.spec_sys_write_u16(address, data).bios == m.bios,
        m.spec_sys_write_u16(address, data).rom == m.rom,
{
}

// since DMA takes several cycles, its best to just have it be its own thing
pub fn dma_tick(mem: &mut Box<InternalMemory>) -> (r: bool)
    requires
        old(mem).wf(),
        old(mem).counters_wf(),
    ensures
        final(mem).wf(),
        final(mem).counters_wf(),
        (**final(mem), r) == spec_dma_tick(**old(mem)),
{
    broadcast use vstd::array::group_array_axioms;
    let control = DMARegisters::Control.address();
    let mut dma_transfer: Option<(u32, u16)> = None;
    let mut i: u32 = 0;
    while i <= 3 && dma_transfer.is_none()
        invariant
            i <= 4,
            mem.wf(),
            mem.counters_wf(),
            control == 0x40000BA,
            dma_transfer is None ==> forall|j: u32| j < i ==> !spec_dma_enabled(**mem, j),
            dma_transfer matches Some((k, c)) ==> {
                &&& k < 4
                &&& spec_dma_enabled(**mem, k)
                &&& forall|j: u32| j < k ==> !spec_dma_enabled(**mem, j)
                &&& c == mem.spec_sys_read_u16(dma_register(DMARegisters::Control, k))
            },
        decreases 4 - i + (if dma_transfer is None { 1int } else { 0int }),
    {
        let cnt = mem.sys_read_u16(control + (i * 0xC));
        let is_on = (cnt >> 15) & 1 == 1;
        // highest priority goes 0 -> 3
        if is_on {
            dma_transfer = Some((i, cnt));
        } else {
            i += 1;
        }
    }
    proof {
        match dma_transfer {
            None => {
                assert(!spec_dma_enabled(**mem, 0) && !spec_dma_enabled(**mem, 1));
                assert(!spec_dma_enabled(**mem, 2) && !spec_dma_enabled(**mem, 3));
            },
            Some((k, _)) => {
                if k >= 1 { assert(!spec_dma_enabled(**mem, 0)); }
                if k >= 2 { assert(!spec_dma_enabled(**mem, 1)); }
                if k >= 3 { assert(!spec_dma_enabled(**mem, 2)); }
                assert(spec_active_dma(**mem) == Some(k));
            },
        }
    }

    // no dma transfer active rn
    if dma_transfer.is_none() {
        return false;
    }
    let (i, cnt) = dma_transfer.unwrap();
    run_dma_channel(mem, i, cnt)
}

/// Moves one unit (a halfword or a word) on channel `i`, whose control
/// register holds `cnt`.
#[verifier::rlimit(40)]
fn run_dma_channel(mem: &mut Box<InternalMemory>, i: u32, cnt: u16) -> (r: bool)
    requires
        old(mem).wf(),
        old(mem).counters_wf(),
        i < 4,
        cnt == old(mem).spec_sys_read_u16(dma_register(DMARegisters::Control, i)),
    ensures
        final(mem).wf(),
        final(mem).counters_wf(),
        (**final(mem), r) == spec_dma_step(**old(mem), i),
{
    broadcast use vstd::array::group_array_axioms;
    let control = DMARegisters::Control.address();

    // top bits ignored
    let base_src_address = mem.sys_read_u32(DMARegisters::SAD.address() + (i * 0xC)) & 0x0FFFFFFF;
    let base_dst_address = mem.sys_read_u32(DMARegisters::DAD.address() + (i * 0xC)) & 0x0FFFFFFF;
    let cnt_l = mem.sys_read_u16(DMARegisters::Amount.address() + (i * 0xC)) as u32;
    let amount: u32 = if i == 3 {
        if cnt_l == 0 { 0x10000 } else { cnt_l }
    } else {
        if cnt_l == 0 { 0x4000 } else { cnt_l }
    };

    let dst_ctrl = (cnt >> 5) & 0x3;
    let src_ctrl = (cnt >> 7) & 0x3;

    let repeat = (cnt >> 9) & 1 == 1;
    let quantities = (cnt >> 10) & 1 == 1;

    let dma_start = (cnt >> 12) & 0x3;
    let irq_call = (cnt >> 14) & 1 == 1;

    let dispstat = mem.sys_read_u16(0x4000004);
    if dma_start == 1 {
        if dispstat & 1 == 0 {
            return false;
        }
    } else if dma_start == 2 {
        if (dispstat >> 1) & 1 == 0 {
            return false;
        }
    } else if dma_start == 3 {
        // special, so the channel is turned off
        mem.sys_write_u16(control + i * 0xC, cnt & 0x7FFF);
        return false;
    }

    // a source that both counts and is prohibited moves nothing
    if src_ctrl == 3 {
        return false;
    }

    let done_already = mem.dma_completions[i as usize];
    assert(base_src_address <= 0x0FFF_FFFF && base_dst_address <= 0x0FFF_FFFF) by {
        let a = mem.spec_sys_read_u32(dma_register(DMARegisters::SAD, i));
        let b = mem.spec_sys_read_u32(dma_register(DMARegisters::DAD, i));
        lemma_and_bound_u32(a, 0x0FFF_FFFF);
        lemma_and_bound_u32(b, 0x0FFF_FFFF);
    }
    let src_address = if src_ctrl == 0 {
        base_src_address + done_already
    } else if src_ctrl == 1 {
        base_src_address.wrapping_sub(done_already)
    } else {
        base_src_address
    };
    let dst_address = if dst_ctrl == 1 {
        base_dst_address.wrapping_sub(done_already)
    } else if dst_ctrl == 2 {
        base_dst_address
    } else {
        base_dst_address + done_already
    };

    let step: u32 = if quantities {
        // 32-bit
        let read = mem.sys_read_u32(src_address);
        mem.sys_write_u16(dst_address, read as u16);
        mem.sys_write_u16(dst_address.wrapping_add(2), (read >> 16) as u16);
        4
    } else {
        // 16-bit
        let read = mem.sys_read_u16(src_address);
        mem.sys_write_u16(dst_address, read);
        2
    };
    let completed = done_already + step;
    mem.dma_completions[i as usize] = completed;
    assert(mem.dma_completions =~= spec_array_update(old(mem).dma_completions, i as int, completed));

    // DMA is finished
    let final_amount = amount * step;
    if completed >= final_amount {
        if irq_call {
            let mut i_flag = mem.sys_read_u16(0x4000202);
            i_flag = i_flag | (1 << (8 + i) as u16);
            mem.sys_write_u16(0x4000202, i_flag);
        }
        let ghost before_reset = **mem;
        mem.dma_completions[i as usize] = 0;
        assert(mem.dma_completions =~= spec_array_update(before_reset.dma_completions, i as int, 0));
        if repeat {
            return true;
        }
        // clear the top bit
        mem.sys_write_u16(control + i * 0xC, cnt & 0x7FFF);
        return false;
    }
    return true;
}

pub const BASE_TIMER_ADDRESS: u32 = 0x4000100;

/// The prescaler selected by the two frequency bits of a timer's control.
pub open spec fn spec_timer_frequency(bits: u16) -> u32 {
    if bits == 0 { 1 } else if bits == 1 { 64 } else if bits == 2 { 256 } else { 1024 }
}

fn timer_frequency(bits: u16) -> (r: u32)
    requires bits < 4,
    ensures r == spec_timer_frequency(bits),
{
    if bits == 0 { 1 } else if bits == 1 { 64 } else if bits == 2 { 256 } else { 1024 }
}

/// One timer's update: the memory after it and whether the timer overflowed.
pub open spec fn spec_timer_step(
    m: InternalMemory,
    timer: u32,
    prev_cascade: bool,
    old_cycles: u32,
    total_cycles: u32,
) -> (InternalMemory, bool) {
    let timer_address = (BASE_TIMER_ADDRESS + timer * 4) as u32;
    let control = m.spec_sys_read_u16((timer_address + 2) as u32);
    if (control >> 7u16) & 1 != 1 {
        (m, false)
    } else {
        let frequency = spec_timer_frequency(control & 0b11);
        let timer_cycles = m.spec_sys_read_u16(timer_address);
        let to_add: int = if (control >> 2u16) & 1 == 1 {
            if prev_cascade { 1 } else { 0 }
        } else {
            ((total_cycles / frequency - old_cycles / frequency) as u32) as u16 as int
        };
        let overflow = timer_cycles as int + to_add > 0xFFFF;
        let flagged = if overflow && (control >> 6u16) & 1 == 1 {
            m.spec_sys_write_u16(0x4000202, m.spec_sys_read_u16(0x4000202) | (1u16 << (timer + 3) as u16))
        } else {
            m
        };
        let written = if overflow {
            flagged.spec_sys_write_u16(timer_address, flagged.timer_reload_values@[timer as int])
        } else {
            flagged.spec_sys_write_u16(timer_address, (timer_cycles as int + to_add) as u16)
        };
        (written, overflow)
    }
}

/// The first `n` timers updated in order, each cascading into the next.
pub open spec fn spec_timers_upto(m: InternalMemory, n: nat, old_cycles: u32, total_cycles: u32) -> (InternalMemory, bool)
    decreases n,
{
    if n == 0 {
        (m, false)
    } else {
        let (before, cascade) = spec_timers_upto(m, (n - 1) as nat, old_cycles, total_cycles);
        spec_timer_step(before, (n - 1) as u32, cascade, old_cycles, total_cycles)
    }
}

pub fn update_timer(memory: &mut Box<InternalMemory>, old_cycles: &mut u32, new_cycles: u32)
    requires
        old(memory).wf(),
        *old(old_cycles) + new_cycles <= u32::MAX,
    ensures
        final(memory).wf(),
        old(memory).counters_wf() ==> final(memory).counters_wf(),
        **final(memory) == spec_timers_upto(**old(memory), 4, *old(old_cycles),
            (*old(old_cycles) + new_cycles) as u32).0,
        *final(old_cycles) == (*old(old_cycles) + new_cycles) % 1024,
{
    let total_cycles = *old_cycles + new_cycles;
    let mut prev_cascade = false;
    let ghost m0 = **memory;
    let ghost oc = *old_cycles;

    let mut timer: u32 = 0;
    while timer <= 3
        invariant
            timer <= 4,
            memory.wf(),
            m0.counters_wf() ==> memory.counters_wf(),
            total_cycles == oc + new_cycles,
            *old_cycles == oc,
            (**memory, prev_cascade) == spec_timers_upto(m0, timer as nat, oc, total_cycles),
        decreases 4 - timer,
    {
        let ghost before = **memory;
        let ghost cascade_in = prev_cascade;
        // the address
        let timer_address = BASE_TIMER_ADDRESS + (timer * 4);
        let control = memory.sys_read_u16(timer_address + 2);

        // its not turned on
        let timer_enable = (control >> 7) & 1 == 1;
        if !timer_enable {
            prev_cascade = false;
            timer += 1;
            continue;
        }

        // get the frequency
        let frequency_bits = control & 0b11;
        proof { lemma_and_bound_u16(control, 0b11); }
        let frequency = timer_frequency(frequency_bits);

        // cycles already done
        let timer_cycles = memory.sys_read_u16(timer_address);

        let count_up_timer = (control >> 2) & 1 == 1;
        let to_add: u16 = if count_up_timer {
            if prev_cascade { 1 } else { 0 }
        } else {
            // everytime the total cycles passes a multiple of the frequency, then add 1 no?
            assert(total_cycles / frequency >= *old_cycles / frequency) by (nonlinear_arith)
                requires total_cycles >= *old_cycles, frequency > 0;
            let cycles_to_add = total_cycles / frequency - *old_cycles / frequency;
            cycles_to_add as u16
        };
        let sum = timer_cycles as u32 + to_add as u32;
        let overflow = sum > 0xFFFF;
        let new_timer_cycles = sum as u16;
        prev_cascade = overflow;

        let interrupt_flag = (control >> 6) & 1 == 1;

        // we need to call the interrupt
        if overflow && interrupt_flag {
            let mut interrupt_flag = memory.sys_read_u16(0x4000202);
            interrupt_flag = interrupt_flag | (1 << (timer + 3) as u16);
            memory.sys_write_u16(0x4000202, interrupt_flag);
        }

        if overflow {
            let reload = memory.timer_reload_values[timer as usize];
            memory.sys_write_u16(timer_address, reload);
        } else {
            memory.sys_write_u16(timer_address, new_timer_cycles);
        }
        assert((**memory, prev_cascade) == spec_timer_step(before, timer, cascade_in, oc, total_cycles));
        timer += 1;
    }

    *old_cycles = total_cycles % 1024;
}

/// The regions that the system side can write.
pub open spec fn spec_writable(address: u32) -> bool {
    let upp = region_of(address);
    2 <= upp <= 7 || upp == 0xE
}

/// A byte that the system side writes to a writable region reads back.
pub proof fn lemma_sys_write_read_u8(m: InternalMemory, address: u32, data: u8)
    requires
        spec_writable(address),
    ensures
        m.spec_sys_write_u8(address, data).spec_sys_read_u8(address) == data,
{
    broadcast use vstd::array::group_array_axioms;
}

/// A byte that the system side writes leaves every other region as it was.
pub proof fn lemma_sys_write_other_region(m: InternalMemory, address: u32, data: u8, other: u32)
    requires
        region_of(address) != region_of(other),
    ensures
        m.spec_sys_write_u8(address, data).spec_sys_read_u8(other) == m.spec_sys_read_u8(other),
{
    broadcast use vstd::array::group_array_axioms;
}

/// A halfword that the system side writes to a writable region reads back.
pub proof fn lemma_sys_write_read_u16(m: InternalMemory, address: u32, data: u16)
    requires
        spec_writable(address),
    ensures
        m.spec_sys_write_u16(address, data).spec_sys_read_u16(address) == data,
{
    broadcast use vstd::array::group_array_axioms;
    lemma_bases(address);
    let base = halfword_base(address);
    let next = (base + 1) as u32;
    let lo = (data as int % 0x100) as u8;
    let hi = (data as int / 0x100) as u8;
    let m1 = m.spec_sys_write_u8(base, lo);
    let m2 = m1.spec_sys_write_u8(next, hi);
    lemma_sys_write_read_u8(m1, next, hi);
    let l = offset_of(base);
    assert(offset_of(next) == l + 1);
    assert(l % 2 == 0);
    // the two bytes land in different cells
    assert(l % 0x3FF != (l + 1) % 0x3FF);
    assert(vram_index(l) != vram_index(l + 1));
    assert(m2.spec_sys_read_u8(base) == lo);
    crate::mem::lemma_u16_split_combine(data);
}

/// The memory cell that the system side reaches at an address: the region,
/// and the index into that region's memory after mirroring.
pub open spec fn spec_sys_cell(address: u32) -> (u32, int) {
    let upp = region_of(address);
    let low = offset_of(address);
    let index = if upp == 2 {
        low % 0x40000
    } else if upp == 3 {
        low % 0x8000
    } else if upp == 4 {
        low % 0x3FF
    } else if upp == 5 || upp == 7 {
        low % 0x400
    } else if upp == 6 {
        vram_index(low)
    } else if upp == 0xE {
        low % 0x10000
    } else {
        low
    };
    (upp, index)
}

/// A byte that the system side writes reaches one cell: every address that
/// names another cell reads as before.
pub proof fn lemma_sys_write_other_cell(m: InternalMemory, address: u32, data: u8, other: u32)
    requires
        spec_sys_cell(address) != spec_sys_cell(other),
    ensures
        m.spec_sys_write_u8(address, data).spec_sys_read_u8(other) == m.spec_sys_read_u8(other),
{
    broadcast use vstd::array::group_array_axioms;
    if region_of(address) != region_of(other) {
        lemma_sys_write_other_region(m, address, data, other);
    }
}

/// A halfword that the system side writes to a writable region reads back,
/// and only the two byte cells of the halfword change: every address naming
/// another cell reads as before, and the BIOS, the cartridge, the timer
/// reloads and the DMA counters stay as they were.
pub proof fn lemma_sys_write_u16_frame(m: InternalMemory, address: u32, data: u16, other: u32)
    requires
        spec_writable(address),
        spec_sys_cell(other) != spec_sys_cell(halfword_base(address)),
        spec_sys_cell(other) != spec_sys_cell((halfword_base(address) + 1) as u32),
    ensures
        m.spec_sys_write_u16(address, data).spec_sys_read_u16(address) == data,
        m.spec_sys_write_u16(address, data).spec_sys_read_u8(other) == m.spec_sys_read_u8(other),
        m.spec_sys_write_u16(address, data).bios == m.bios,
        m.spec_sys_write_u16(address, data).rom == m.rom,
        m.spec_sys_write_u16(address, data).timer_reload_values == m.timer_reload_values,
        m.spec_sys_write_u16(address, data).dma_completions == m.dma_completions,
{
    lemma_bases(address);
    lemma_sys_write_read_u16(m, address, data);
    let base = halfword_base(address);
    let next = (base + 1) as u32;
    let m1 = m.spec_sys_write_u8(base, (data as int % 0x100) as u8);
    lemma_sys_write_other_cell(m, base, (data as int % 0x100) as u8, other);
    lemma_sys_write_other_cell(m1, next, (data as int / 0x100) as u8, other);
}

/// Writing a byte twice to one address leaves the second value.
proof fn lemma_sys_write_u8_twice(m: InternalMemory, a: u32, x: u8, y: u8)
    ensures
        m.spec_sys_write_u8(a, x).spec_sys_write_u8(a, y) == m.spec_sys_write_u8(a, y),
{
    broadcast use vstd::array::group_array_axioms;
    let r1 = m.spec_sys_write_u8(a, x).spec_sys_write_u8(a, y);
    let r2 = m.spec_sys_write_u8(a, y);
    assert(r1.ewram =~= r2.ewram);
    assert(r1.iwram =~= r2.iwram);
    assert(r1.io_reg =~= r2.io_reg);
    assert(r1.obj_pall =~= r2.obj_pall);
    assert(r1.vram =~= r2.vram);
    assert(r1.oam =~= r2.oam);
    assert(r1.sram =~= r2.sram);
}

/// Writing a byte that an address already reads changes nothing.
proof fn lemma_sys_write_u8_same(m: InternalMemory, a: u32)
    requires
        spec_writable(a),
    ensures
        m.spec_sys_write_u8(a, m.spec_sys_read_u8(a)) == m,
{
    broadcast use vstd::array::group_array_axioms;
    let r = m.spec_sys_write_u8(a, m.spec_sys_read_u8(a));
    assert(r.ewram =~= m.ewram);
    assert(r.iwram =~= m.iwram);
    assert(r.io_reg =~= m.io_reg);
    assert(r.obj_pall =~= m.obj_pall);
    assert(r.vram =~= m.vram);
    assert(r.oam =~= m.oam);
    assert(r.sram =~= m.sram);
}

/// Two bytes written to different cells can be written in either order.
proof fn lemma_sys_write_u8_commute(m: InternalMemory, a: u32, x: u8, b: u32, y: u8)
    requires
        spec_sys_cell(a) != spec_sys_cell(b),
    ensures
        m.spec_sys_write_u8(a, x).spec_sys_write_u8(b, y) == m.spec_sys_write_u8(b, y).spec_sys_write_u8(a, x),
{
    broadcast use vstd::array::group_array_axioms;
    let r1 = m.spec_sys_write_u8(a, x).spec_sys_write_u8(b, y);
    let r2 = m.spec_sys_write_u8(b, y).spec_sys_write_u8(a, x);
    assert(r1.ewram =~= r2.ewram);
    assert(r1.iwram =~= r2.iwram);
    assert(r1.io_reg =~= r2.io_reg);
    assert(r1.obj_pall =~= r2.obj_pall);
    assert(r1.vram =~= r2.vram);
    assert(r1.oam =~= r2.oam);
    assert(r1.sram =~= r2.sram);
}

/// The two bytes of a halfword in a writable region lie in different cells.
proof fn lemma_halfword_cells_differ(address: u32)
    requires
        spec_writable(address),
    ensures
        spec_sys_cell(halfword_base(address)) != spec_sys_cell((halfword_base(address) + 1) as u32),
        spec_writable(halfword_base(address)),
        spec_writable((halfword_base(address) + 1) as u32),
{
    lemma_bases(address);
    let l = offset_of(halfword_base(address));
    assert(l % 0x3FF != (l + 1) % 0x3FF);
    assert(vram_index(l) != vram_index(l + 1));
}

/// A halfword written to a writable region, and then another written to the
/// same place, leave the memory as the second write alone does; writing back
/// the halfword that is there changes nothing.
pub proof fn lemma_sys_write_u16_overwrite(m: InternalMemory, address: u32, first: u16, second: u16)
    requires
        spec_writable(address),
    ensures
        m.spec_sys_write_u16(address, first).spec_sys_write_u16(address, second) == m.spec_sys_write_u16(address, second),
        m.spec_sys_write_u16(address, m.spec_sys_read_u16(address)) == m,
{
    lemma_halfword_cells_differ(address);
    let a = halfword_base(address);
    let b = (a + 1) as u32;
    let (x0, x1) = ((first as int % 0x100) as u8, (first as int / 0x100) as u8);
    let (y0, y1) = ((second as int % 0x100) as u8, (second as int / 0x100) as u8);
    let m1 = m.spec_sys_write_u8(a, x0);
    lemma_sys_write_u8_commute(m1, b, x1, a, y0);
    lemma_sys_write_u8_twice(m, a, x0, y0);
    lemma_sys_write_u8_twice(m.spec_sys_write_u8(a, y0), b, x1, y1);
    let v = m.spec_sys_read_u16(address);
    crate::mem::lemma_u16_combine_split(m.spec_sys_read_u8(a), m.spec_sys_read_u8(b));
    lemma_sys_write_u8_same(m, a);
    lemma_sys_write_u8_same(m, b);
}

/// A halfword written to the I/O registers leaves every halfword of another
/// region as it was.
proof fn lemma_io_write_keeps_other_region(m: InternalMemory, a: u32, v: u16, other: u32)
    requires
        region_of(a) == 4,
        region_of(other) != 4,
    ensures
        m.spec_sys_write_u16(a, v).spec_sys_read_u16(other) == m.spec_sys_read_u16(other),
{
    lemma_bases(a);
    lemma_bases(other);
    let o = halfword_base(other);
    lemma_sys_write_u16_frame(m, a, v, o);
    lemma_sys_write_u16_frame(m, a, v, (o + 1) as u32);
}

/// One unit of a DMA transfer of halfwords that starts at once: it copies
/// the halfword at the source to the destination. The source is SAD moved
/// on (source control 0) or back (1) by the units already done, or SAD
/// itself every time (2, a fill); the destination is DAD moved on by the
/// units done, or DAD itself (destination control 2). With a destination
/// outside the I/O registers, the copied halfword is still there after the
/// step.
#[verifier::spinoff_prover]
#[verifier::rlimit(30)]
pub proof fn lemma_dma_halfword_unit(m: InternalMemory, i: u32)
    requires
        i < 4,
        (m.spec_sys_read_u16(dma_register(DMARegisters::Control, i)) >> 7u16) & 0x3 != 3,
        (m.spec_sys_read_u16(dma_register(DMARegisters::Control, i)) >> 12u16) & 0x3 == 0,
        (m.spec_sys_read_u16(dma_register(DMARegisters::Control, i)) >> 10u16) & 1 == 0,
        (m.spec_sys_read_u16(dma_register(DMARegisters::Control, i)) >> 5u16) & 0x3 == 0
            || (m.spec_sys_read_u16(dma_register(DMARegisters::Control, i)) >> 5u16) & 0x3 == 2,
        ({
            let base_dst = m.spec_sys_read_u32(dma_register(DMARegisters::DAD, i)) & 0x0FFF_FFFF;
            let dst: u32 = if (m.spec_sys_read_u16(dma_register(DMARegisters::Control, i)) >> 5u16) & 0x3 == 2 {
                base_dst
            } else {
                (base_dst + m.dma_completions@[i as int]) as u32
            };
            spec_writable(dst) && region_of(dst) != 4
        }),
    ensures
        ({
            let base_src = m.spec_sys_read_u32(dma_register(DMARegisters::SAD, i)) & 0x0FFF_FFFF;
            let base_dst = m.spec_sys_read_u32(dma_register(DMARegisters::DAD, i)) & 0x0FFF_FFFF;
            let dst: u32 = if (m.spec_sys_read_u16(dma_register(DMARegisters::Control, i)) >> 5u16) & 0x3 == 2 {
                base_dst
            } else {
                (base_dst + m.dma_completions@[i as int]) as u32
            };
            let done = m.dma_completions@[i as int];
            let src_ctrl = (m.spec_sys_read_u16(dma_register(DMARegisters::Control, i)) >> 7u16) & 0x3;
            let src: u32 = if src_ctrl == 0 {
                (base_src + done) as u32
            } else if src_ctrl == 1 {
                base_src.wrapping_sub(done)
            } else {
                base_src
            };
            &&& spec_dma_step(m, i).0.spec_sys_read_u16(dst) == m.spec_sys_read_u16(src)
            &&& src_ctrl == 2 ==> spec_dma_step(m, i).0.spec_sys_read_u16(dst) == m.spec_sys_read_u16(base_src)
        }),
{
    let cnt = m.spec_sys_read_u16(dma_register(DMARegisters::Control, i));
    let base_src = m.spec_sys_read_u32(dma_register(DMARegisters::SAD, i)) & 0x0FFF_FFFF;
    let base_dst = m.spec_sys_read_u32(dma_register(DMARegisters::DAD, i)) & 0x0FFF_FFFF;
    let done = m.dma_completions@[i as int];
    let dst: u32 = if (cnt >> 5u16) & 0x3 == 2 { base_dst } else { (base_dst + done) as u32 };
    let src_ctrl = (cnt >> 7u16) & 0x3;
    let src: u32 = if src_ctrl == 0 {
        (base_src + done) as u32
    } else if src_ctrl == 1 {
        base_src.wrapping_sub(done)
    } else {
        base_src
    };
    let moved = m.spec_sys_write_u16(dst, m.spec_sys_read_u16(src));
    lemma_sys_write_read_u16(m, dst, m.spec_sys_read_u16(src));
    let control = dma_register(DMARegisters::Control, i);
    crate::mem::lemma_region_of(control, 4);
    crate::mem::lemma_region_of(0x4000202, 4);
    let completed = (done + 2) as u32;
    let counted = with_completion(moved, i, completed);
    assert(counted.spec_sys_read_u16(dst) == moved.spec_sys_read_u16(dst));
    let v = counted.spec_sys_read_u16(0x4000202) | (1u16 << (8 + i) as u16);
    let flagged = counted.spec_sys_write_u16(0x4000202, v);
    lemma_io_write_keeps_other_region(counted, 0x4000202, v, dst);
    let reset = with_completion(flagged, i, 0);
    lemma_io_write_keeps_other_region(reset, control, cnt & 0x7FFF, dst);
    lemma_io_write_keeps_other_region(with_completion(counted, i, 0), control, cnt & 0x7FFF, dst);
}

} // verus!
