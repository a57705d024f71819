//! The bus between the processor (or the PPU) and the memories.

use vstd::prelude::*;
use crate::bits::{ror, spec_ror};
use crate::mem::{
    combine_u16, combine_u32, byte_of, region_of, offset_of, is_in_video_memory, lil_end_combine_u16,
    lil_end_combine_u32, lil_end_split_u16, lil_end_split_u32, split_memory_address,
    spec_is_in_video_memory,
};
use crate::mem::memory::{
    InternalMemory, halfword_base, word_base, lemma_bases, vram_index, spec_writable, spec_sys_cell,
    lemma_sys_write_read_u16, lemma_sys_write_u16_frame,
};
use crate::mem::{spec_has_read_lock, spec_has_write_lock};

verus! {

/// What the processor sees of memory. The processor's reads do not change
/// the memory; its writes are described by the `spec_write_*` functions.
pub trait CpuInterface: Sized {
    /// The state in which the accesses are defined.
    spec fn inv(&self) -> bool;

    spec fn spec_read_u8(&self, address: u32) -> u8;

    spec fn spec_read_u16(&self, address: u32) -> u16;

    spec fn spec_read_u32_unrotated(&self, address: u32) -> u32;

    spec fn spec_read_u32_rotated(&self, address: u32) -> u32;

    spec fn spec_write_u8(&self, address: u32, data: u8) -> Self;

    spec fn spec_write_u16(&self, address: u32, data: u16) -> Self;

    spec fn spec_write_u32(&self, address: u32, data: u32) -> Self;

    fn read_u8(&self, address: u32) -> (r: u8)
        requires
            self.inv(),
        ensures
            r == self.spec_read_u8(address),
    ;

    fn read_u16(&self, address: u32) -> (r: u16)
        requires
            self.inv(),
        ensures
            r == self.spec_read_u16(address),
    ;

    fn read_u32_unrotated(&self, address: u32) -> (r: u32)
        requires
            self.inv(),
        ensures
            r == self.spec_read_u32_unrotated(address),
    ;

    fn read_u32_rotated(&self, address: u32) -> (r: u32)
        requires
            self.inv(),
        ensures
            r == self.spec_read_u32_rotated(address),
    ;

    fn write_u8(&mut self, address: u32, data: u8)
        requires
            old(self).inv(),
        ensures
            final(self).inv(),
            *final(self) == old(self).spec_write_u8(address, data),
    ;

    fn write_u16(&mut self, address: u32, data: u16)
        requires
            old(self).inv(),
        ensures
            final(self).inv(),
            *final(self) == old(self).spec_write_u16(address, data),
    ;

    fn write_u32(&mut self, address: u32, data: u32)
        requires
            old(self).inv(),
        ensures
            final(self).inv(),
            *final(self) == old(self).spec_write_u32(address, data),
    ;
}

/// The regions that the PPU reads and writes: the video memories and the I/O registers.
pub open spec fn spec_ppu_address(address: u32) -> bool {
    spec_is_in_video_memory(region_of(address)) || region_of(address) == 4
}

/// What the PPU sees of memory.
pub trait PpuInterface: Sized {
    spec fn inv(&self) -> bool;

    spec fn spec_read_vram_u8(&self, address: u32) -> u8;

    spec fn spec_read_vram_u16(&self, address: u32) -> u16;

    spec fn spec_read_vram_u32(&self, address: u32) -> u32;

    spec fn spec_write_vram_u16(&self, address: u32, data: u16) -> Self;

    fn read_vram_u8(&self, address: u32) -> (r: u8)
        requires
            self.inv(),
            spec_ppu_address(address),
        ensures
            r == self.spec_read_vram_u8(address),
    ;

    fn read_vram_u16(&self, address: u32) -> (r: u16)
        requires
            self.inv(),
            spec_ppu_address(address),
        ensures
            r == self.spec_read_vram_u16(address),
    ;

    fn read_vram_u32(&self, address: u32) -> (r: u32)
        requires
            self.inv(),
            spec_ppu_address(address),
        ensures
            r == self.spec_read_vram_u32(address),
    ;

    fn write_vram_u16(&mut self, address: u32, data: u16)
        requires
            old(self).inv(),
            spec_ppu_address(address),
        ensures
            final(self).inv(),
            *final(self) == old(self).spec_write_vram_u16(address, data),
    ;
}

// the area that it writes/reads from can affect
// what to do with the data so this is a nice abstraction
#[derive(PartialEq, Eq, Structural, Clone, Copy, Debug)]
pub enum MemoryRegion {
    Bios,
    WramBoard,
    WramChip,
    IoReg,
    Rom,
    Sram,
}

/// The regions that code can run from.
pub open spec fn spec_executable_region(pc: u32) -> bool {
    let up = region_of(pc);
    up == 0 || up == 2 || up == 3 || up == 4 || (8 <= up <= 0xE)
}

impl MemoryRegion {
    pub open spec fn spec_from_pc(pc: u32) -> MemoryRegion {
        let up = region_of(pc);
        if up == 0 {
            MemoryRegion::Bios
        } else if up == 2 {
            MemoryRegion::WramBoard
        } else if up == 3 {
            MemoryRegion::WramChip
        } else if up == 4 {
            MemoryRegion::IoReg
        } else if up == 0xE {
            MemoryRegion::Sram
        } else {
            MemoryRegion::Rom
        }
    }

    pub fn from_pc(pc: u32) -> (r: MemoryRegion)
        requires
            spec_executable_region(pc),
        ensures
            r == Self::spec_from_pc(pc),
    {
        let (up, _) = split_memory_address(pc);
        if up == 0 {
            MemoryRegion::Bios
        } else if up == 2 {
            MemoryRegion::WramBoard
        } else if up == 3 {
            MemoryRegion::WramChip
        } else if up == 4 {
            MemoryRegion::IoReg
        } else if up == 0xE {
            MemoryRegion::Sram
        } else {
            MemoryRegion::Rom
        }
    }
}

pub struct Bus {
    /// The opcode most recently fetched from the BIOS.
    pub last_bios_fetch: u32,
    /// The region of the most recent opcode fetch.
    pub pc_fetched_area: MemoryRegion,
    /// The opcode that a refused read returns (rotated).
    pub last_fetched_opcode: u32,
    pub mem: Box<InternalMemory>,
    /// Whether a write to HALTCNT is pending.
    pub should_halt_cpu: bool,
}

impl Bus {
    pub open spec fn wf(&self) -> bool {
        self.mem.wf() && self.mem.counters_wf()
    }

    /// The byte that the processor reads: refused reads give back a byte of
    /// the last fetched opcode.
    pub open spec fn spec_cpu_read(&self, address: u32) -> u8 {
        match self.mem.spec_cpu_read(address) {
            Some(data) => data,
            None => spec_ror(self.last_fetched_opcode, ((address & 0x3) * 8) as u32) as u8,
        }
    }

    pub open spec fn with_mem(&self, mem: InternalMemory) -> Bus {
        Bus { mem: Box::new(mem), ..*self }
    }

    pub fn new(mem: Box<InternalMemory>, from_bios: bool) -> (r: Self)
        requires
            mem.wf(),
            mem.counters_wf(),
        ensures
            r.wf(),
            *r.mem == *mem,
            !r.should_halt_cpu,
            from_bios ==> r.last_bios_fetch == 0 && r.last_fetched_opcode == 0
                && r.pc_fetched_area == MemoryRegion::Bios,
            !from_bios ==> r.last_bios_fetch == mem.spec_sys_read_u32(0xE4)
                && r.last_fetched_opcode == mem.spec_sys_read_u32(0xE4)
                && r.pc_fetched_area == MemoryRegion::Bios,
    {
        let mut default = Self {
            last_bios_fetch: 0x0,
            pc_fetched_area: MemoryRegion::Bios,
            last_fetched_opcode: 0x0,
            mem,
            should_halt_cpu: false,
        };

        // starting from the bios
        if from_bios {
            return default;
        }

        proof { crate::mem::lemma_region_of(0xE4, 0); }
        let last_fetched = default.fetch_arm_opcode(0xDC + 8);
        default.last_bios_fetch = last_fetched;
        default.last_fetched_opcode = last_fetched;
        return default;
    }

    pub fn fetch_arm_opcode(&mut self, pc: u32) -> (r: u32)
        requires
            old(self).wf(),
            spec_executable_region(pc),
        ensures
            final(self).wf(),
            r == old(self).mem.spec_sys_read_u32(pc),
            final(self).mem == old(self).mem,
            final(self).pc_fetched_area == MemoryRegion::spec_from_pc(pc),
            final(self).last_bios_fetch == if MemoryRegion::spec_from_pc(pc) == MemoryRegion::Bios {
                r
            } else {
                old(self).last_bios_fetch
            },
            final(self).last_fetched_opcode == old(self).last_fetched_opcode,
            final(self).should_halt_cpu == old(self).should_halt_cpu,
    {
        self.pc_fetched_area = MemoryRegion::from_pc(pc);
        let opcode = self.mem.sys_read_u32(pc);
        if self.pc_fetched_area == MemoryRegion::Bios {
            self.last_bios_fetch = opcode;
        }
        return opcode;
    }

    pub fn fetch_thumb_opcode(&mut self, pc: u32) -> (r: u16)
        requires
            old(self).wf(),
            spec_executable_region(pc),
        ensures
            final(self).wf(),
            r == old(self).mem.spec_sys_read_u16(pc),
            final(self).mem == old(self).mem,
            final(self).pc_fetched_area == MemoryRegion::spec_from_pc(pc),
            final(self).last_bios_fetch == if MemoryRegion::spec_from_pc(pc) == MemoryRegion::Bios {
                r as u32
            } else {
                old(self).last_bios_fetch
            },
            final(self).last_fetched_opcode == old(self).last_fetched_opcode,
            final(self).should_halt_cpu == old(self).should_halt_cpu,
    {
        self.pc_fetched_area = MemoryRegion::from_pc(pc);
        let opcode = self.mem.sys_read_u16(pc);
        if self.pc_fetched_area == MemoryRegion::Bios {
            self.last_bios_fetch = opcode as u32;
        }
        return opcode;
    }

    pub fn sys_write_u16(&mut self, address: u32, data: u16)
        requires
            old(self).wf(),
        ensures
            final(self).wf(),
            *final(self) == old(self).with_mem(old(self).mem.spec_sys_write_u16(address, data)),
    {
        self.mem.sys_write_u16(address, data);
    }

    /// Reports whether the processor asked to halt, and forgets the request.
    pub fn should_halt_cpu(&mut self) -> (r: bool)
        ensures
            r == old(self).should_halt_cpu,
            *final(self) == (Bus { should_halt_cpu: false, ..*old(self) }),
    {
        let stored = self.should_halt_cpu;
        self.should_halt_cpu = false;
        return stored;
    }

    pub fn cpu_read(&self, address: u32) -> (r: u8)
        requires
            self.wf(),
        ensures
            r == self.spec_cpu_read(address),
    {
        if let Some(data) = self.mem.cpu_read(address) {
            return data;
        }

        // reaching here means the address was invalid
        // and so most recent opcode fetch should be done
        proof { crate::bits::lemma_and_bound_u32(address, 0x3); }
        let rotation_amount = (address & 0x3) * 8;
        let rotated_op = ror(self.last_fetched_opcode, rotation_amount);
        return rotated_op as u8;
    }

    pub fn cpu_write(&mut self, address: u32, data: u8, is_8_bit: bool)
        requires
            old(self).wf(),
        ensures
            final(self).wf(),
            *final(self) == old(self).with_mem(old(self).mem.spec_cpu_write(address, data, is_8_bit)),
    {
        self.mem.cpu_write(address, data, is_8_bit);
        proof { lemma_cpu_write_wf(*old(self).mem, address, data, is_8_bit); }
    }
}

/// A write by the processor keeps the lengths and the DMA counters.
pub proof fn lemma_cpu_write_wf(m: InternalMemory, address: u32, data: u8, is_8_bit: bool)
    requires m.wf(), m.counters_wf(),
    ensures
        m.spec_cpu_write(address, data, is_8_bit).wf(),
        m.spec_cpu_write(address, data, is_8_bit).counters_wf(),
{
}

/// The regions whose memory the processor reads back as it wrote it in
/// halfwords and words: the work RAMs, palette RAM, VRAM, OAM and SRAM.
pub open spec fn spec_ram_region(address: u32) -> bool {
    let upp = region_of(address);
    upp == 2 || upp == 3 || upp == 5 || upp == 6 || upp == 7 || upp == 0xE
}

/// The four bytes of the word at an address: in its region, one after another.
proof fn lemma_word_bytes(address: u32)
    ensures
        offset_of(word_base(address)) % 4 == 0,
        offset_of((word_base(address) + 1) as u32) == offset_of(word_base(address)) + 1,
        offset_of((word_base(address) + 2) as u32) == offset_of(word_base(address)) + 2,
        offset_of((word_base(address) + 3) as u32) == offset_of(word_base(address)) + 3,
{
    lemma_bases(address);
    let w = address & !3u32;
    assert({
        &&& (w & 0xFF_FFFFu32) % 4 == 0
        &&& ((w + 1) as u32) & 0xFF_FFFFu32 == (w & 0xFF_FFFFu32) + 1
        &&& ((w + 2) as u32) & 0xFF_FFFFu32 == (w & 0xFF_FFFFu32) + 2
        &&& ((w + 3) as u32) & 0xFF_FFFFu32 == (w & 0xFF_FFFFu32) + 3
    }) by (bit_vector)
        requires w == address & !3u32;
}

/// What a processor write does to memory in a RAM region: a plain write.
proof fn lemma_cpu_write_ram(m: InternalMemory, address: u32, data: u8)
    requires
        spec_ram_region(address),
    ensures
        m.spec_cpu_write(address, data, false) == m.spec_sys_write_u8(address, data),
{
    assert(address < 0x400_0000 || address >= 0x500_0000) by {
        if 0x400_0000 <= address < 0x500_0000 {
            crate::mem::lemma_region_of(address, 4);
        }
    }
}

/// The cell of its memory that an address in a RAM region names.
pub open spec fn spec_cell(address: u32) -> int {
    let upp = region_of(address);
    let low = offset_of(address);
    if upp == 2 {
        low % 0x40000
    } else if upp == 3 {
        low % 0x8000
    } else if upp == 5 || upp == 7 {
        low % 0x400
    } else if upp == 6 {
        vram_index(low)
    } else {
        low % 0x10000
    }
}

/// A write to one cell of a RAM region leaves the other cells of the region.
proof fn lemma_ram_write_other_cell(m: InternalMemory, a: u32, data: u8, b: u32)
    requires
        spec_ram_region(a),
        region_of(b) == region_of(a),
        spec_cell(a) != spec_cell(b),
    ensures
        m.spec_sys_write_u8(a, data).spec_sys_read_u8(b) == m.spec_sys_read_u8(b),
{
    broadcast use vstd::array::group_array_axioms;
}

/// Within a block of `4 * q` bytes, the bytes of an aligned word follow one another.
proof fn lemma_aligned_mod(l: int, k: int, q: int)
    requires
        0 <= l,
        l % 4 == 0,
        0 <= k < 4,
        q > 0,
    ensures
        (l + k) % (4 * q) == l % (4 * q) + k,
{
    let n = 4 * q;
    let r = l % n;
    let d = l / n;
    vstd::arithmetic::div_mod::lemma_fundamental_div_mod(l, n);
    vstd::arithmetic::div_mod::lemma_mod_pos_bound(l, n);
    vstd::arithmetic::div_mod::lemma_fundamental_div_mod(l, 4);
    vstd::arithmetic::mul::lemma_mul_is_associative(4, q, d);
    let e = l / 4 - q * d;
    assert(r == 4 * e);
    assert(r + k < n);
    assert(l + k == d * n + (r + k)) by {
        vstd::arithmetic::mul::lemma_mul_is_commutative(n, d);
    }
    vstd::arithmetic::div_mod::lemma_fundamental_div_mod_converse(l + k, n, d, r + k);
}

/// The four bytes of an aligned word land in distinct cells of each memory.
proof fn lemma_word_cells(l: int, k1: int, k2: int)
    requires
        0 <= l,
        l % 4 == 0,
        0 <= k1 < k2 < 4,
    ensures
        (l + k1) % 0x40000 != (l + k2) % 0x40000,
        (l + k1) % 0x8000 != (l + k2) % 0x8000,
        (l + k1) % 0x400 != (l + k2) % 0x400,
        (l + k1) % 0x10000 != (l + k2) % 0x10000,
        vram_index(l + k1) != vram_index(l + k2),
{
    lemma_aligned_mod(l, k1, 0x10000);
    lemma_aligned_mod(l, k2, 0x10000);
    lemma_aligned_mod(l, k1, 0x2000);
    lemma_aligned_mod(l, k2, 0x2000);
    lemma_aligned_mod(l, k1, 0x100);
    lemma_aligned_mod(l, k2, 0x100);
    lemma_aligned_mod(l, k1, 0x4000);
    lemma_aligned_mod(l, k2, 0x4000);
    lemma_aligned_mod(l, k1, 0x8000);
    lemma_aligned_mod(l, k2, 0x8000);
    let base = l % 0x20000;
    assert(base % 4 == 0);
    if base >= 0x10000 {
        lemma_aligned_mod(base, k1, 0x2000);
        lemma_aligned_mod(base, k2, 0x2000);
    }
}

/// A word that the processor writes to RAM, it reads back.
#[verifier::rlimit(30)]
pub proof fn lemma_cpu_write_read_u32(bus: Bus, address: u32, data: u32)
    requires
        bus.wf(),
        spec_ram_region(address),
    ensures
        bus.spec_write_u32(address, data).spec_read_u32_unrotated(address) == data,
{
    lemma_bases(address);
    lemma_word_bytes(address);
    let w = word_base(address);
    let a = seq![w, (w + 1) as u32, (w + 2) as u32, (w + 3) as u32];
    let l = offset_of(w);
    assert forall|k1: int, k2: int| 0 <= k1 < k2 < 4 implies spec_cell(a[k1]) != spec_cell(a[k2]) by {
        lemma_word_cells(l, k1, k2);
    }
    let m0 = *bus.mem;
    let m1 = m0.spec_cpu_write(a[0], byte_of(data, 0), false);
    let m2 = m1.spec_cpu_write(a[1], byte_of(data, 1), false);
    let m3 = m2.spec_cpu_write(a[2], byte_of(data, 2), false);
    let m4 = m3.spec_cpu_write(a[3], byte_of(data, 3), false);
    lemma_cpu_write_ram(m0, a[0], byte_of(data, 0));
    lemma_cpu_write_ram(m1, a[1], byte_of(data, 1));
    lemma_cpu_write_ram(m2, a[2], byte_of(data, 2));
    lemma_cpu_write_ram(m3, a[3], byte_of(data, 3));
    // each byte reads back from the write that put it there, and the later
    // writes, to other cells, leave it
    crate::mem::memory::lemma_sys_write_read_u8(m0, a[0], byte_of(data, 0));
    lemma_ram_write_other_cell(m1, a[1], byte_of(data, 1), a[0]);
    lemma_ram_write_other_cell(m2, a[2], byte_of(data, 2), a[0]);
    lemma_ram_write_other_cell(m3, a[3], byte_of(data, 3), a[0]);
    crate::mem::memory::lemma_sys_write_read_u8(m1, a[1], byte_of(data, 1));
    lemma_ram_write_other_cell(m2, a[2], byte_of(data, 2), a[1]);
    lemma_ram_write_other_cell(m3, a[3], byte_of(data, 3), a[1]);
    crate::mem::memory::lemma_sys_write_read_u8(m2, a[2], byte_of(data, 2));
    lemma_ram_write_other_cell(m3, a[3], byte_of(data, 3), a[2]);
    crate::mem::memory::lemma_sys_write_read_u8(m3, a[3], byte_of(data, 3));
    crate::mem::lemma_u32_split_combine(data);
}

/// The two bytes of an aligned halfword land in distinct cells of each memory.
proof fn lemma_halfword_cells(l: int)
    requires
        0 <= l,
        l % 2 == 0,
    ensures
        l % 0x40000 != (l + 1) % 0x40000,
        l % 0x8000 != (l + 1) % 0x8000,
        l % 0x400 != (l + 1) % 0x400,
        l % 0x10000 != (l + 1) % 0x10000,
        vram_index(l) != vram_index(l + 1),
{
    let base = l % 0x20000;
    assert((l + 1) % 0x20000 == base + 1);
    if base >= 0x10000 {
        assert((base + 1) % 0x8000 == base % 0x8000 + 1);
    }
}

/// A halfword that the processor writes to RAM, it reads back.
pub proof fn lemma_cpu_write_read_u16(bus: Bus, address: u32, data: u16)
    requires
        bus.wf(),
        spec_ram_region(address),
    ensures
        bus.spec_write_u16(address, data).spec_read_u16(address) == data,
{
    lemma_bases(address);
    let h = halfword_base(address);
    let h1 = (h + 1) as u32;
    lemma_halfword_cells(offset_of(h));
    let lo = (data as int % 0x100) as u8;
    let hi = (data as int / 0x100) as u8;
    let m0 = *bus.mem;
    let m1 = m0.spec_cpu_write(h, lo, false);
    lemma_cpu_write_ram(m0, h, lo);
    lemma_cpu_write_ram(m1, h1, hi);
    crate::mem::memory::lemma_sys_write_read_u8(m0, h, lo);
    lemma_ram_write_other_cell(m1, h1, hi, h);
    crate::mem::memory::lemma_sys_write_read_u8(m1, h1, hi);
    crate::mem::lemma_u16_split_combine(data);
}

/// A byte that the processor writes to work RAM or SRAM, it reads back.
pub proof fn lemma_cpu_write_read_u8(bus: Bus, address: u32, data: u8)
    requires
        bus.wf(),
        region_of(address) == 2 || region_of(address) == 3 || region_of(address) == 0xE,
    ensures
        bus.spec_write_u8(address, data).spec_read_u8(address) == data,
{
    assert(address != 0x4000301) by {
        if address == 0x4000301 {
            crate::mem::lemma_region_of(address, 4);
        }
    }
    lemma_cpu_write_ram(*bus.mem, address, data);
    assert(bus.mem.spec_cpu_write(address, data, true) == bus.mem.spec_sys_write_u8(address, data));
    crate::mem::memory::lemma_sys_write_read_u8(*bus.mem, address, data);
}

impl CpuInterface for Bus {
    open spec fn inv(&self) -> bool {
        self.wf()
    }

    open spec fn spec_read_u8(&self, address: u32) -> u8 {
        self.spec_cpu_read(address)
    }

    open spec fn spec_read_u16(&self, address: u32) -> u16 {
        let base = halfword_base(address);
        combine_u16(self.spec_cpu_read(base), self.spec_cpu_read((base + 1) as u32))
    }

    open spec fn spec_read_u32_unrotated(&self, address: u32) -> u32 {
        let base = word_base(address);
        combine_u32(
            self.spec_cpu_read(base),
            self.spec_cpu_read((base + 1) as u32),
            self.spec_cpu_read((base + 2) as u32),
            self.spec_cpu_read((base + 3) as u32),
        )
    }

    open spec fn spec_read_u32_rotated(&self, address: u32) -> u32 {
        spec_ror(self.spec_read_u32_unrotated(address), ((address & 0b11) * 8) as u32)
    }

    open spec fn spec_write_u8(&self, address: u32, data: u8) -> Self {
        if address == 0x4000301 {
            Bus { should_halt_cpu: true, ..*self }
        } else {
            self.with_mem(self.mem.spec_cpu_write(address, data, true))
        }
    }

    open spec fn spec_write_u16(&self, address: u32, data: u16) -> Self {
        let base = halfword_base(address);
        self.with_mem(
            self.mem.spec_cpu_write(base, (data as int % 0x100) as u8, false)
                .spec_cpu_write((base + 1) as u32, (data as int / 0x100) as u8, false),
        )
    }

    open spec fn spec_write_u32(&self, address: u32, data: u32) -> Self {
        let base = word_base(address);
        self.with_mem(
            self.mem.spec_cpu_write(base, byte_of(data, 0), false)
                .spec_cpu_write((base + 1) as u32, byte_of(data, 1), false)
                .spec_cpu_write((base + 2) as u32, byte_of(data, 2), false)
                .spec_cpu_write((base + 3) as u32, byte_of(data, 3), false),
        )
    }

    fn read_u8(&self, address: u32) -> (r: u8) {
        self.cpu_read(address)
    }

    fn read_u16(&self, address: u32) -> (r: u16) {
        proof { lemma_bases(address); }
        let base_address = address & !(0b1);
        lil_end_combine_u16(self.cpu_read(base_address + 0), self.cpu_read(base_address + 1))
    }

    // I am not too sure if these two functions are needed
    // i may eventually get ride of them
    fn read_u32_unrotated(&self, address: u32) -> (r: u32) {
        proof { lemma_bases(address); }
        let base_address = address & !(0b11);
        lil_end_combine_u32(
            self.cpu_read(base_address + 0),
            self.cpu_read(base_address + 1),
            self.cpu_read(base_address + 2),
            self.cpu_read(base_address + 3),
        )
    }

    fn read_u32_rotated(&self, address: u32) -> (r: u32) {
        proof { crate::bits::lemma_and_bound_u32(address, 0b11); }
        ror(self.read_u32_unrotated(address), (address & 0b11) * 8)
    }

    fn write_u16(&mut self, address: u32, data: u16) {
        proof { lemma_bases(address); }
        let split = lil_end_split_u16(data);
        let address = address & !(0b1);
        self.cpu_write(address + 0, split.0, false);
        self.cpu_write(address + 1, split.1, false);
    }

    fn write_u32(&mut self, address: u32, data: u32) {
        proof { lemma_bases(address); }
        let split = lil_end_split_u32(data);
        let address = address & !(0b11);
        self.cpu_write(address + 0, split.0, false);
        self.cpu_write(address + 1, split.1, false);
        self.cpu_write(address + 2, split.2, false);
        self.cpu_write(address + 3, split.3, false);
    }

    fn write_u8(&mut self, address: u32, data: u8) {
        if address == 0x4000301 {
            self.should_halt_cpu = true;
            return;
        }
        self.cpu_write(address, data, true);
    }
}

impl PpuInterface for Bus {
    open spec fn inv(&self) -> bool {
        self.wf()
    }

    open spec fn spec_read_vram_u8(&self, address: u32) -> u8 {
        self.mem.spec_sys_read_u8(address)
    }

    open spec fn spec_read_vram_u16(&self, address: u32) -> u16 {
        self.mem.spec_sys_read_u16(address)
    }

    open spec fn spec_read_vram_u32(&self, address: u32) -> u32 {
        self.mem.spec_sys_read_u32(address)
    }

    open spec fn spec_write_vram_u16(&self, address: u32, data: u16) -> Self {
        self.with_mem(self.mem.spec_sys_write_u16(address, data))
    }

    fn read_vram_u16(&self, address: u32) -> (r: u16) {
        self.mem.sys_read_u16(address)
    }

    fn read_vram_u32(&self, address: u32) -> (r: u32) {
        self.mem.sys_read_u32(address)
    }

    fn read_vram_u8(&self, address: u32) -> (r: u8) {
        self.mem.sys_read_u8(address)
    }

    fn write_vram_u16(&mut self, address: u32, data: u16) {
        self.mem.sys_write_u16(address, data);
    }
}

/// One write of the processor: a byte, a halfword or a word (`size` 1, 2,
/// anything else), of `data` cut to that width.
pub open spec fn spec_cpu_write_sized(bus: Bus, size: u32, address: u32, data: u32) -> Bus {
    if size == 1 {
        bus.spec_write_u8(address, data as u8)
    } else if size == 2 {
        bus.spec_write_u16(address, data as u16)
    } else {
        bus.spec_write_u32(address, data)
    }
}

/// The bus after the processor's writes `(size, address, data)`, in order.
pub open spec fn spec_cpu_writes(bus: Bus, writes: Seq<(u32, u32, u32)>) -> Bus
    decreases writes.len(),
{
    if writes.len() == 0 {
        bus
    } else {
        let (size, address, data) = writes.last();
        spec_cpu_write_sized(spec_cpu_writes(bus, writes.drop_last()), size, address, data)
    }
}

/// The halt request: after the flag was last cleared (by `Bus::new` or by
/// `should_halt_cpu`), it is set exactly when one of the processor's writes
/// since was a byte write to HALTCNT (0x4000301); such a write leaves the
/// memory as it was.
pub proof fn lemma_halt_request(bus: Bus, writes: Seq<(u32, u32, u32)>)
    requires
        !bus.should_halt_cpu,
    ensures
        spec_cpu_writes(bus, writes).should_halt_cpu
            <==> exists|i: int| 0 <= i < writes.len() && #[trigger] writes[i].0 == 1 && writes[i].1 == 0x4000301,
    decreases writes.len(),
{
    if writes.len() > 0 {
        let rest = writes.drop_last();
        lemma_halt_request(bus, rest);
        let last = writes.len() - 1;
        if spec_cpu_writes(bus, rest).should_halt_cpu {
            let i = choose|i: int| 0 <= i < rest.len() && #[trigger] rest[i].0 == 1 && rest[i].1 == 0x4000301;
            assert(writes[i] == rest[i]);
        }
        if spec_cpu_writes(bus, writes).should_halt_cpu && !spec_cpu_writes(bus, rest).should_halt_cpu {
            assert(writes[last].0 == 1 && writes[last].1 == 0x4000301);
        }
        if exists|i: int| 0 <= i < writes.len() && #[trigger] writes[i].0 == 1 && writes[i].1 == 0x4000301 {
            let i = choose|i: int| 0 <= i < writes.len() && #[trigger] writes[i].0 == 1 && writes[i].1 == 0x4000301;
            if i < last {
                assert(rest[i] == writes[i]);
            }
        }
    }
}

/// A byte written to HALTCNT asks for a halt and changes no memory.
pub proof fn lemma_halt_write(bus: Bus, data: u8)
    ensures
        bus.spec_write_u8(0x4000301, data) == (Bus { should_halt_cpu: true, ..bus }),
{
}

/// The halfwords that a processor write stores as they are: in a region the
/// system side can write, not a read-only register, not IF (where a write
/// acknowledges requests) and not the timer registers (where it sets the
/// reload value).
pub open spec fn spec_plain_halfword(address: u32) -> bool {
    let base = halfword_base(address);
    &&& spec_writable(address)
    &&& !spec_has_write_lock(base)
    &&& base != 0x4000202
    &&& !(0x4000100 <= base <= 0x400010E)
}

/// The low bit of an address is the low bit of its offset in the region.
proof fn lemma_offset_halfword(address: u32)
    ensures
        offset_of(halfword_base(address)) == offset_of(address) - offset_of(address) % 2,
{
    lemma_bases(address);
    let h = address & !1u32;
    assert((h & 0xFF_FFFFu32) as int == (address & 0xFF_FFFFu32) as int - (address & 0xFF_FFFFu32) as int % 2)
        by (bit_vector)
        requires h == address & !1u32;
}

/// A halfword that the processor writes where it is stored as it is: the
/// write is the system side's halfword write, so it changes the two bytes of
/// the halfword and no other cell, and the processor reads it back unless
/// the register is write-only.
pub proof fn lemma_cpu_write_u16_frame(bus: Bus, address: u32, data: u16, other: u32)
    requires
        bus.wf(),
        spec_plain_halfword(address),
    ensures
        bus.spec_write_u16(address, data) == bus.with_mem(bus.mem.spec_sys_write_u16(address, data)),
        !spec_has_read_lock(address) ==> bus.spec_write_u16(address, data).spec_read_u16(address) == data,
        spec_sys_cell(other) != spec_sys_cell(halfword_base(address))
            && spec_sys_cell(other) != spec_sys_cell((halfword_base(address) + 1) as u32)
            ==> bus.spec_write_u16(address, data).mem.spec_sys_read_u8(other) == bus.mem.spec_sys_read_u8(other),
{
    lemma_bases(address);
    lemma_offset_halfword(address);
    let h = halfword_base(address);
    let h1 = (h + 1) as u32;
    let lo = (data as int % 0x100) as u8;
    let hi = (data as int / 0x100) as u8;
    let m0 = *bus.mem;
    let m1 = m0.spec_cpu_write(h, lo, false);
    assert(!spec_has_write_lock(h1));
    assert(m1 == m0.spec_sys_write_u8(h, lo));
    assert(m1.spec_cpu_write(h1, hi, false) == m1.spec_sys_write_u8(h1, hi));
    let written = bus.spec_write_u16(address, data);
    assert(*written.mem == m0.spec_sys_write_u16(address, data));
    lemma_sys_write_read_u16(m0, address, data);
    if !spec_has_read_lock(address) {
        assert(!spec_has_read_lock(h) && !spec_has_read_lock(h1));
        assert(written.spec_read_u16(address) == written.mem.spec_sys_read_u16(address));
    }
    if spec_sys_cell(other) != spec_sys_cell(h) && spec_sys_cell(other) != spec_sys_cell(h1) {
        lemma_sys_write_u16_frame(m0, address, data, other);
    }
}

} // verus!
