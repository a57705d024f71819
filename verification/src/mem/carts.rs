//! Cartridge back-up memories: battery-backed SRAM, and the serial EEPROM
//! that is talked to one bit per access.

use vstd::prelude::*;
use vstd::array::spec_array_update;
use crate::mem::{offset_of, region_of, split_memory_address};
use crate::mem::bus::MemoryRegion;

verus! {

/// A cartridge with 32 KB of SRAM beside its ROM.
pub struct Sram {
    pub rom: Vec<u8>,
    pub sram: [u8; 0x8000],
}

/// Whether code running in `from` may read SRAM: only from the work RAMs.
pub open spec fn spec_reads_sram_from(from: MemoryRegion) -> bool {
    from == MemoryRegion::WramBoard || from == MemoryRegion::WramChip
}

impl Sram {
    /// A cartridge with the ROM `rom` and cleared SRAM.
    pub fn new(rom: Vec<u8>) -> (r: Self)
        ensures
            r.rom@ == rom@,
            forall|i: int| 0 <= i < 0x8000 ==> r.sram@[i] == 0,
    {
        broadcast use vstd::array::group_array_axioms;
        Self { rom, sram: [0; 0x8000] }
    }

    /// The accesses that the cartridge answers: byte reads of the first
    /// 32 KB of SRAM, and reads inside the ROM.
    pub open spec fn read_ok(&self, address: u32, from: MemoryRegion, is_8_bit: bool) -> bool {
        if region_of(address) == 0xE {
            is_8_bit && (spec_reads_sram_from(from) ==> offset_of(address) < 0x8000)
        } else {
            8 <= region_of(address) <= 0xD && offset_of(address) < self.rom@.len()
        }
    }

    /// SRAM (region 14) answers only code that runs from the work RAMs; the
    /// other cartridge regions read the ROM.
    pub open spec fn spec_read(&self, address: u32, from: MemoryRegion) -> Option<u8> {
        let low = offset_of(address);
        if region_of(address) == 0xE {
            if spec_reads_sram_from(from) { Some(self.sram@[low]) } else { None }
        } else {
            Some(self.rom@[low])
        }
    }

    pub fn read(&mut self, address: u32, from: MemoryRegion, is_8_bit: bool) -> (r: Option<u8>)
        requires
            old(self).read_ok(address, from, is_8_bit),
        ensures
            *final(self) == *old(self),
            r == old(self).spec_read(address, from),
    {
        let (upp, low) = split_memory_address(address);
        if upp == 0xE {
            if from != MemoryRegion::WramBoard && from != MemoryRegion::WramChip {
                return None;
            }
            return Some(self.sram[low]);
        }
        Some(self.rom[low])
    }

    /// Writes a byte of SRAM.
    pub fn write(&mut self, address: u32, data: u8, is_8_bit: bool)
        requires
            is_8_bit,
            region_of(address) == 0xE,
            offset_of(address) < 0x8000,
        ensures
            *final(self) == (Sram { sram: spec_array_update(old(self).sram, offset_of(address), data), ..*old(self) }),
    {
        broadcast use vstd::array::group_array_axioms;
        let (_upp, low) = split_memory_address(address);
        self.sram[low] = data;
        assert(self.sram =~= spec_array_update(old(self).sram, low as int, data));
    }
}

/// The bits of a transfer when it is a write: 64 of them.
pub const EEPROM_WRITE_END: usize = 64;

#[derive(PartialEq, Eq, Structural, Clone, Copy, Debug)]
pub enum EepRomState {
    /// the address (and the read or write request) is being sent
    TransferRequest,
    /// the data bits are being sent
    TransferData,
}

/// A cartridge with a serial EEPROM beside its ROM.
pub struct EepRom {
    pub rom: Vec<u8>,
    /// since bit transfers are how this communicates, everything is stored
    /// as booleans
    pub eeprom: [bool; 0x8000],
    pub is_8kb_eeprom: bool,
    pub is_32mb_rom: bool,
    pub address: u32,
    pub state: EepRomState,
    pub is_reading: bool,
    /// the bits of the current transfer done so far
    pub amount_completed: usize,
    pub previous_write: bool,
}

/// Whether an access goes to the EEPROM: the top 256 bytes of the odd
/// regions on a 32 MB cartridge, region 13 on a smaller one.
pub open spec fn spec_eeprom_access(is_32mb_rom: bool, address: u32) -> bool {
    if is_32mb_rom {
        region_of(address) % 2 == 1 && offset_of(address) >= 0xFFFF00
    } else {
        region_of(address) == 0xD
    }
}

/// Which bit of the address being received ends the request.
pub open spec fn spec_checked_bit(is_reading: bool, is_8kb_eeprom: bool) -> u32 {
    if is_reading {
        if is_8kb_eeprom { 16 } else { 8 }
    } else {
        if is_8kb_eeprom { 15 } else { 7 }
    }
}

/// The EEPROM after it receives one bit of a request: the bit is shifted
/// into the address (`10` so far marks a write, `11` a read); once the bit
/// that ends the request arrives, the data transfer starts and the address
/// keeps its two highest set bits of the received value shifted down once.
pub open spec fn spec_receive_request_bit(e: EepRom, bit: u32) -> EepRom {
    let address = (e.address << 1u32) | bit;
    let is_reading = if address == 2 { false } else if address == 3 { true } else { e.is_reading };
    let checked_bit = spec_checked_bit(is_reading, e.is_8kb_eeprom);
    if (address >> checked_bit) & 1 == 1 {
        let shifted = address >> 1u32;
        let top_bit = (31 - shifted.leading_zeros()) as u32;
        let mask = 0b11u32 << (top_bit - 1) as u32;
        EepRom { address: shifted & mask, is_reading, state: EepRomState::TransferData, ..e }
    } else {
        EepRom { address, is_reading, ..e }
    }
}

/// The EEPROM after it stores one data bit: the bit goes to the next place
/// of the 64-bit block at the address; the 64th bit ends the transfer.
pub open spec fn spec_receive_data_bit(e: EepRom, bit: u32) -> EepRom {
    let index = e.address * 0x40 + e.amount_completed;
    let completed = (e.amount_completed + 1) as usize;
    EepRom {
        eeprom: spec_array_update(e.eeprom, index, bit == 1),
        amount_completed: completed,
        state: if completed == EEPROM_WRITE_END { EepRomState::TransferRequest } else { EepRomState::TransferData },
        ..e
    }
}

/// The received address is two or more once the request ends.
proof fn lemma_request_end(address: u32, checked_bit: u32)
    by (bit_vector)
    requires
        7 <= checked_bit <= 16,
        (address >> checked_bit) & 1 == 1,
    ensures
        (address >> 1u32) >> 1u32 != 0,
        address >> 1u32 != 0,
{
}

impl EepRom {
    /// The accesses that the cartridge answers: reads inside the ROM, and
    /// EEPROM reads while a read is requested, inside the EEPROM.
    pub open spec fn read_ok(&self, address: u32) -> bool {
        if spec_eeprom_access(self.is_32mb_rom, address) {
            &&& self.is_reading
            &&& self.amount_completed < usize::MAX
            &&& self.amount_completed + 1 > 4 ==> self.address * 0x40 + self.amount_completed + 1 - 4 < 0x8000
        } else {
            offset_of(address) < self.rom@.len()
        }
    }

    /// The EEPROM answers four zero bits, then the bits of the block at the
    /// address; the rest of the cartridge reads the ROM.
    pub open spec fn spec_read(&self, address: u32) -> (EepRom, Option<u8>) {
        if spec_eeprom_access(self.is_32mb_rom, address) {
            let completed = (self.amount_completed + 1) as usize;
            let next = EepRom { amount_completed: completed, ..*self };
            if completed <= 4 {
                (next, Some(0))
            } else {
                (next, Some(if self.eeprom@[self.address * 0x40 + completed - 4] { 1u8 } else { 0u8 }))
            }
        } else {
            (*self, Some(self.rom@[offset_of(address)]))
        }
    }

    pub fn read(&mut self, address: u32, _from: MemoryRegion, _is_8_bit: bool) -> (r: Option<u8>)
        requires
            old(self).read_ok(address),
        ensures
            (*final(self), r) == old(self).spec_read(address),
    {
        let (upp, low) = split_memory_address(address);
        let reading_eeprom = if self.is_32mb_rom { upp % 2 == 1 && low >= 0xFFFF00 } else { upp == 0xD };

        if !reading_eeprom {
            return Some(self.rom[low]);
        }

        self.amount_completed += 1;
        if self.amount_completed <= 4 {
            return Some(0);
        }
        let base_address = self.address as usize * 0x40;
        Some(if self.eeprom[base_address + (self.amount_completed - 4)] { 1 } else { 0 })
    }

    /// The writes that the cartridge takes: outside the EEPROM anything (it
    /// is ignored), inside it a request bit, or a data bit of a write into
    /// the EEPROM.
    pub open spec fn write_ok(&self, address: u32) -> bool {
        spec_eeprom_access(self.is_32mb_rom, address) && self.state == EepRomState::TransferData ==> {
            &&& !self.is_reading
            &&& self.address * 0x40 + self.amount_completed < 0x8000
        }
    }

    /// What a write does: nothing outside the EEPROM; inside it, the lowest
    /// bit of the data is the next bit of the request or of the data.
    pub open spec fn spec_write(&self, address: u32, data: u8) -> EepRom {
        if !spec_eeprom_access(self.is_32mb_rom, address) {
            *self
        } else if self.state == EepRomState::TransferRequest {
            spec_receive_request_bit(*self, (data & 0x1) as u32)
        } else {
            spec_receive_data_bit(*self, (data & 0x1) as u32)
        }
    }

    pub fn write(&mut self, address: u32, data: u8, _is_8_bit: bool)
        requires
            old(self).write_ok(address),
        ensures
            *final(self) == old(self).spec_write(address, data),
    {
        broadcast use vstd::array::group_array_axioms;
        let (upp, low) = split_memory_address(address);
        // 'can be accessed anywhere between 0xD000000..=0xDFFFFF'
        let writing_eeprom = if self.is_32mb_rom { upp % 2 == 1 && low >= 0xFFFF00 } else { upp == 0xD };
        if !writing_eeprom {
            return;
        }

        // this is all the EEPROM would be able to see normally
        let masked_data = data & 0x1;
        proof { crate::bits::lemma_and_bound_u8(data, 0x1); }

        match self.state {
            EepRomState::TransferRequest => {
                // for now just add each bit onto the address
                self.address = (self.address << 1) | masked_data as u32;

                // the only way that the unconverted address can be two is if
                // a read request was made
                if self.address == 0x2 {
                    self.is_reading = false;
                } else if self.address == 0x3 {
                    self.is_reading = true;
                }

                let checked_bit: u32 = if self.is_reading {
                    if self.is_8kb_eeprom { 16 } else { 8 }
                } else {
                    if self.is_8kb_eeprom { 15 } else { 7 }
                };
                let finished = (self.address >> checked_bit) & 1 == 1;

                // the address has been fully recieved
                if finished {
                    self.state = EepRomState::TransferData;
                    proof {
                        lemma_request_end(self.address, checked_bit);
                        vstd::std_specs::bits::axiom_u32_leading_zeros(self.address >> 1u32);
                    }
                    // need to modify the data recieved to be the actual address
                    self.address >>= 1;
                    let top_bit = 31 - self.address.leading_zeros();
                    let mask = 0b11u32 << (top_bit - 1);
                    self.address &= mask;
                }
            },
            EepRomState::TransferData => {
                // 64 bit offset == 0x40
                let base_address = self.address as usize * 0x40;
                self.eeprom[base_address + self.amount_completed] = masked_data == 1;

                self.amount_completed += 1;
                if self.amount_completed == EEPROM_WRITE_END {
                    // transfer is finished
                    self.state = EepRomState::TransferRequest;
                }
            },
        }
    }
}

} // verus!
