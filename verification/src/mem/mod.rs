//! The memory map: address decoding and little-endian byte assembly.

pub mod memory;
pub mod bus;
pub mod carts;

use vstd::prelude::*;

verus! {

/// The region number of an address (bits 24..27).
pub open spec fn region_of(address: u32) -> u32 {
    (address >> 24u32) & 0xFu32
}

/// The offset of an address inside its region (bits 0..23).
pub open spec fn offset_of(address: u32) -> int {
    (address & 0xFF_FFFFu32) as int
}

/// Two bytes, least significant first, as a halfword.
pub open spec fn combine_u16(a: u8, b: u8) -> u16 {
    (a as int + b as int * 0x100) as u16
}

/// Four bytes, least significant first, as a word.
pub open spec fn combine_u32(a: u8, b: u8, c: u8, d: u8) -> u32 {
    (a as int + b as int * 0x100 + c as int * 0x1_0000 + d as int * 0x100_0000) as u32
}

/// The byte of `x` at position `i` (0 is the least significant).
pub open spec fn byte_of(x: u32, i: int) -> u8 {
    ((x as int / pow256(i)) % 0x100) as u8
}

pub open spec fn pow256(i: int) -> int {
    if i <= 0 { 1 } else if i == 1 { 0x100 } else if i == 2 { 0x1_0000 } else { 0x100_0000 }
}

/// An address inside the region `r` decodes to region `r` and its distance from the region's start.
pub proof fn lemma_region_of(address: u32, r: u32)
    requires
        r < 16,
        r * 0x100_0000 <= address < (r + 1) * 0x100_0000,
    ensures
        region_of(address) == r,
        offset_of(address) == address - r * 0x100_0000,
{
    assert((address >> 24u32) & 0xFu32 == r && (address & 0xFF_FFFFu32) == address - r * 0x100_0000)
        by (bit_vector)
        requires
            r < 16,
            r * 0x100_0000 <= address,
            address < (r + 1) * 0x100_0000;
}

/// output => 0bBBBBBBBBAAAAAAAA
pub fn lil_end_combine_u16(a: u8, b: u8) -> (r: u16)
    ensures
        r == combine_u16(a, b),
        r as int == a as int + b as int * 0x100,
{
    assert(((b as u16) << 8u16) == (b as u16) * 0x100) by (bit_vector);
    ((b as u16) << 8) + a as u16
}

/// input => 0bBBBBBBBBBAAAAAAAA, output => (0bAAAAAAAA, 0bBBBBBBBB)
pub fn lil_end_split_u16(a: u16) -> (r: (u8, u8))
    ensures
        r.0 as int == a as int % 0x100,
        r.1 as int == a as int / 0x100,
{
    assert((a as u8) as int == a as int % 0x100 && ((a >> 8u16) as u8) as int == a as int / 0x100) by (bit_vector);
    (a as u8, (a >> 8) as u8)
}

/// output => 0bDDDDDDDDCCCCCCCCBBBBBBBBAAAAAAAA
pub fn lil_end_combine_u32(a: u8, b: u8, c: u8, d: u8) -> (r: u32)
    ensures
        r == combine_u32(a, b, c, d),
        r as int == a as int + b as int * 0x100 + c as int * 0x1_0000 + d as int * 0x100_0000,
{
    let (a, b, c, d) = (a as u32, b as u32, c as u32, d as u32);
    assert(a < 0x100 && b < 0x100 && c < 0x100 && d < 0x100);
    assert((d << 24u32) | (c << 16u32) | (b << 8u32) | a
        == a + b * 0x100 + c * 0x1_0000 + d * 0x100_0000) by (bit_vector)
        requires a < 0x100u32, b < 0x100u32, c < 0x100u32, d < 0x100u32;
    (d << 24) | (c << 16) | (b << 8) | (a)
}

/// input => 0bDDDDDDDDCCCCCCCCBBBBBBBBAAAAAAAA, output => (A, B, C, D)
pub fn lil_end_split_u32(a: u32) -> (r: (u8, u8, u8, u8))
    ensures
        r.0 == byte_of(a, 0),
        r.1 == byte_of(a, 1),
        r.2 == byte_of(a, 2),
        r.3 == byte_of(a, 3),
{
    assert((a as u8) as int == a as int % 0x100
        && ((a >> 8u32) as u8) as int == (a as int / 0x100) % 0x100
        && ((a >> 16u32) as u8) as int == (a as int / 0x1_0000) % 0x100
        && ((a >> 24u32) as u8) as int == (a as int / 0x100_0000) % 0x100) by (bit_vector);
    (a as u8, (a >> 8) as u8, (a >> 16) as u8, (a >> 24) as u8)
}

/// Splits an address into its region number and its offset inside that region.
pub fn split_memory_address(address: u32) -> (r: (u32, usize))
    ensures
        r.0 == region_of(address),
        r.1 as int == offset_of(address),
        r.0 < 16,
        r.1 < 0x100_0000,
{
    proof {
        crate::bits::lemma_and_bound_u32(address >> 24u32, 0xF);
        crate::bits::lemma_and_bound_u32(address, 0xFF_FFFF);
    }
    ((address >> 24) & 0xF, (address & 0xFFFFFF) as usize)
}

/// Whether a region number is one of the video memories (palette, VRAM, OAM).
pub open spec fn spec_is_in_video_memory(upp_add: u32) -> bool {
    upp_add == 5 || upp_add == 6 || upp_add == 7
}

pub fn is_in_video_memory(upp_add: u32) -> (r: bool)
    ensures r == spec_is_in_video_memory(upp_add),
{
    upp_add == 0x5 || upp_add == 0x6 || upp_add == 0x7
}

/// The I/O registers that the processor cannot read: the halfword at the
/// address (its low bit cleared) is write-only.
pub open spec fn spec_has_read_lock(address: u32) -> bool {
    let lo = offset_of(address) - offset_of(address) % 2;
    &&& region_of(address) == 4
    &&& {
        ||| 0x10 <= lo <= 0x46
        ||| lo == 0x4C
        ||| lo == 0x54
        ||| 0xA0 <= lo <= 0xB8
        ||| 0xBC <= lo <= 0xC4
        ||| 0xC8 <= lo <= 0xD0
        ||| 0xD4 <= lo <= 0xDC
    }
}

/// The I/O registers that the processor cannot write.
pub open spec fn spec_has_write_lock(address: u32) -> bool {
    let lo = offset_of(address) - offset_of(address) % 2;
    region_of(address) == 4 && (lo == 0x6 || lo == 0x130)
}

proof fn lemma_clear_low_bit(lo: usize)
    requires lo < 0x100_0000,
    ensures (lo & !1usize) as int == lo as int - lo as int % 2,
{
    assert((lo & !1usize) as int == lo as int - lo as int % 2) by (bit_vector)
        requires lo < 0x100_0000usize;
}

pub fn has_read_lock(address: u32) -> (r: bool)
    ensures r == spec_has_read_lock(address),
{
    let (hi, lo) = split_memory_address(address);
    if hi != 4 {
        return false;
    }
    proof { lemma_clear_low_bit(lo); }
    let lo = lo & !1usize;
    if 0x10 <= lo && lo <= 0x46 {
        true
    } else if lo == 0x4C || lo == 0x54 {
        true
    } else if 0xA0 <= lo && lo <= 0xB8 {
        true
    } else if 0xBC <= lo && lo <= 0xC4 {
        true
    } else if 0xC8 <= lo && lo <= 0xD0 {
        true
    } else if 0xD4 <= lo && lo <= 0xDC {
        true
    } else {
        // 0x301 can never be matched, as the low bit is cleared
        false
    }
}

pub fn has_write_lock(address: u32) -> (r: bool)
    ensures r == spec_has_write_lock(address),
{
    let (hi, lo) = split_memory_address(address);
    if hi != 4 {
        return false;
    }
    proof { lemma_clear_low_bit(lo); }
    // remove final bit as not important
    let lo = lo & !1usize;
    lo == 0x6 || lo == 0x130
}

/// The address ranges of the mapped regions, in order.
pub fn get_memory_ranges() -> (r: [std::ops::Range<u32>; 9])
    ensures
        r[0].start == 0 && r[0].end == 0x4000,
        r[1].start == 0x0200_0000 && r[1].end == 0x0204_0000,
        r[2].start == 0x0300_0000 && r[2].end == 0x0300_8000,
        r[3].start == 0x0400_0000 && r[3].end == 0x0400_03FF,
        r[4].start == 0x0500_0000 && r[4].end == 0x0500_0400,
        r[5].start == 0x0600_0000 && r[5].end == 0x0601_8000,
        r[6].start == 0x0700_0000 && r[6].end == 0x0700_0400,
        r[7].start == 0x0800_0000 && r[7].end == 0x0A00_0000,
        r[8].start == 0x0E00_0000 && r[8].end == 0x0E01_0000,
{
    [
        0..0x00004000,
        0x02000000..0x02040000,
        0x03000000..0x03008000,
        0x04000000..0x040003FF,
        0x05000000..0x05000400,
        0x06000000..0x06018000,
        0x07000000..0x07000400,
        0x08000000..0x0A000000,
        0x0E000000..0x0E010000,
    ]
}

/// Splitting a halfword into bytes and combining them gives it back.
pub proof fn lemma_u16_split_combine(x: u16)
    ensures combine_u16((x as int % 0x100) as u8, (x as int / 0x100) as u8) == x,
{
}

/// Combining two bytes and splitting the halfword gives them back.
pub proof fn lemma_u16_combine_split(a: u8, b: u8)
    ensures
        combine_u16(a, b) as int % 0x100 == a,
        combine_u16(a, b) as int / 0x100 == b,
{
}

/// Splitting a word into bytes and combining them gives it back.
pub proof fn lemma_u32_split_combine(x: u32)
    ensures combine_u32(byte_of(x, 0), byte_of(x, 1), byte_of(x, 2), byte_of(x, 3)) == x,
{
    assert(x == (x % 0x100) + ((x / 0x100) % 0x100) * 0x100 + ((x / 0x1_0000) % 0x100) * 0x1_0000
        + ((x / 0x100_0000) % 0x100) * 0x100_0000) by (bit_vector);
}

/// Combining four bytes and splitting the word gives them back.
pub proof fn lemma_u32_combine_split(a: u8, b: u8, c: u8, d: u8)
    ensures
        byte_of(combine_u32(a, b, c, d), 0) == a,
        byte_of(combine_u32(a, b, c, d), 1) == b,
        byte_of(combine_u32(a, b, c, d), 2) == c,
        byte_of(combine_u32(a, b, c, d), 3) == d,
{
    let (a32, b32, c32, d32) = (a as u32, b as u32, c as u32, d as u32);
    let x: u32 = (a32 + b32 * 0x100 + c32 * 0x1_0000 + d32 * 0x100_0000) as u32;
    assert(x == combine_u32(a, b, c, d));
    assert(x % 0x100 == a32 && (x / 0x100) % 0x100 == b32 && (x / 0x1_0000) % 0x100 == c32
        && (x / 0x100_0000) % 0x100 == d32) by (bit_vector)
        requires
            a32 < 0x100, b32 < 0x100, c32 < 0x100, d32 < 0x100,
            x == a32 + b32 * 0x100 + c32 * 0x1_0000 + d32 * 0x100_0000;
}

} // verus!
