//! The ARM7TDMI processor.

pub mod registers;
pub mod decode;
pub mod execute_arm;
pub mod execute_thumb;
pub mod interrupt;
pub mod assemblify;

use crate::bits::lemma_and_bound_u32;
use vstd::prelude::*;
use crate::bits::{ror, spec_ror};
use registers::Cpu;

verus! {

/// The barrel shifter: `rm` shifted by `amount` with the shift `shift_type`
/// (LSL, LSR, ASR, ROR), and the carry it produces. A zero amount taken from
/// a register leaves `rm` and the carry as they were. An immediate ROR #0 is
/// RRX: `rm` moves one bit right, the old carry enters bit 31, and bit 0 is
/// the carry out.
pub open spec fn spec_barrel_shift(rm: u32, amount: u32, shift_type: u32, by_register: bool, carry: bool) -> (u32, bool) {
    if by_register && amount == 0 {
        (rm, carry)
    } else if shift_type == 0 {
        if amount == 32 {
            (0, rm & 1 == 1)
        } else if amount > 32 {
            (0, false)
        } else if amount == 0 {
            (rm, carry)
        } else {
            (rm << amount, (rm << (amount - 1) as u32) >> 31u32 & 1 == 1)
        }
    } else if shift_type == 1 {
        if amount == 0 || amount == 32 {
            (0, (rm >> 31u32) & 1 == 1)
        } else if amount > 32 {
            (0, false)
        } else {
            (rm >> amount, rm >> (amount - 1) as u32 & 1 == 1)
        }
    } else if shift_type == 2 {
        if amount == 0 || amount >= 32 {
            let result: u32 = if (rm >> 31u32) & 1 == 1 { 0xFFFF_FFFF } else { 0 };
            (result, result != 0)
        } else {
            let sign: u32 = if (rm >> 31u32) & 1 == 1 { !(0xFFFF_FFFFu32 >> amount) } else { 0 };
            ((rm >> amount) | sign, rm >> (amount - 1) as u32 & 1 == 1)
        }
    } else {
        if amount == 0 {
            (((if carry { 1u32 } else { 0u32 }) << 31u32) | (rm >> 1u32), rm & 1 == 1)
        } else {
            let result = spec_ror(rm, amount);
            (result, (result >> 31u32) & 1 == 1)
        }
    }
}

/// The shifted register operand of an opcode (its low 12 bits), as `cpu` reads it.
pub open spec fn spec_shifted_value(cpu: Cpu, opcode: u32) -> (u32, bool) {
    let by_register = (opcode >> 4u32) & 1 == 1;
    let shift_type = (opcode >> 5u32) & 0b11;
    let amount: u32 = if by_register {
        cpu.reg(((opcode >> 8u32) & 0xF) as int) & 0xFF
    } else {
        (opcode >> 7u32) & 0x1F
    };
    let rm_index = (opcode & 0xF) as int;
    let rm = if by_register && rm_index == 15 {
        cpu.reg(rm_index).wrapping_add(4)
    } else {
        cpu.reg(rm_index)
    };
    spec_barrel_shift(rm, amount, shift_type, by_register, cpu.status.cpsr.c)
}

fn barrel_shift(rm: u32, shift_amount: u32, shift_type: u32, shift_id: bool, carry: bool) -> (r: (u32, bool))
    requires
        shift_type < 4,
    ensures
        r == spec_barrel_shift(rm, shift_amount, shift_type, shift_id, carry),
{
    // if 0 is from a register, then unchanged
    if shift_id && shift_amount == 0 {
        return (rm, carry);
    }

    if shift_type == 0b00 {
        if shift_amount == 32 {
            return (0, rm & 1 == 1);
        } else if shift_amount > 32 {
            return (0, false);
        } else if shift_amount == 0 {
            return (rm, carry);
        }
        let carry = (rm << (shift_amount - 1)) >> 31 & 1 == 1;
        return (rm << shift_amount, carry);
    } else if shift_type == 0b01 {
        if shift_amount == 0 || shift_amount == 32 {
            return (0, (rm >> 31) & 1 == 1);
        } else if shift_amount > 32 {
            return (0, false);
        }
        return (rm >> shift_amount, rm >> (shift_amount - 1) & 1 == 1);
    } else if shift_type == 0b10 {
        if shift_amount == 0 || shift_amount >= 32 {
            let result = if (rm >> 31) & 1 == 1 { u32::MAX } else { 0 };
            return (result, result != 0);
        }
        let mut temp = rm >> shift_amount;
        let sign: u32 = if (rm >> 31) & 1 == 1 { !(u32::MAX >> shift_amount) } else { 0 };
        temp = temp | sign;
        return (temp, rm >> (shift_amount - 1) & 1 == 1);
    } else {
        if shift_amount == 0 {
            let result = ((if carry { 1u32 } else { 0u32 }) << 31) | (rm >> 1);
            return (result, rm & 1 == 1);
        }
        let result = ror(rm, shift_amount);
        return (result, (result >> 31) & 1 == 1);
    }
}

/// several different instructions make use of this behaviour
/// both the shifted value and the carry flag are returned
///
/// opcode should be the 11 bits which represent the shift + register
pub fn get_shifted_value(cpu: &Cpu, opcode: u32) -> (r: (u32, bool))
    ensures
        r == spec_shifted_value(*cpu, opcode),
{
    let shift_id = (opcode >> 4) & 1 == 1;
    let shift_type = (opcode >> 5) & 0b11;
    proof {
        lemma_and_bound_u32(opcode >> 5u32, 0b11);
        lemma_and_bound_u32(opcode >> 8u32, 0xF);
        lemma_and_bound_u32(opcode, 0xF);
    }

    let shift_amount = if shift_id {
        let rs_index = ((opcode >> 8) & 0xF) as u8;
        cpu.get_register(rs_index) & 0xFF
    } else {
        (opcode >> 7) & 0x1F
    };

    let rm_index = (opcode & 0xF) as u8;
    let rm = if shift_id && rm_index == 15 {
        cpu.get_register(rm_index).wrapping_add(4)
    } else {
        cpu.get_register(rm_index)
    };

    barrel_shift(rm, shift_amount, shift_type, shift_id, cpu.status.cpsr.c)
}

/// `a + b + carry` as the ALU computes it: the result and the N, Z, C and V flags.
pub open spec fn spec_add_with_carry(a: u32, b: u32, carry: bool) -> (u32, bool, bool, bool, bool) {
    let sum = a as int + b as int + if carry { 1int } else { 0int };
    let result = (sum % 0x1_0000_0000) as u32;
    let a_neg = a >= 0x8000_0000;
    let b_neg = b >= 0x8000_0000;
    let r_neg = result >= 0x8000_0000;
    (result, r_neg, result == 0, sum >= 0x1_0000_0000, a_neg == b_neg && r_neg != a_neg)
}

pub fn add_with_carry(a: u32, b: u32, carry: bool) -> (r: (u32, bool, bool, bool, bool))
    ensures
        r == spec_add_with_carry(a, b, carry),
{
    let sum: u64 = a as u64 + b as u64 + if carry { 1u64 } else { 0u64 };
    let result = (sum % 0x1_0000_0000) as u32;
    let a_neg = a >= 0x8000_0000;
    let b_neg = b >= 0x8000_0000;
    let r_neg = result >= 0x8000_0000;
    (result, r_neg, result == 0, sum >= 0x1_0000_0000, a_neg == b_neg && r_neg != a_neg)
}

/// The bitwise complement of a word is its distance from 0xFFFF_FFFF.
pub proof fn lemma_not_u32(b: u32)
    ensures
        (!b) as int == 0xFFFF_FFFF - b,
{
    assert(!b == 0xFFFF_FFFFu32 - b) by (bit_vector);
}

} // verus!
