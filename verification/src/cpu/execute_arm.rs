//! Execution of ARM (32-bit) instructions.

use crate::bits::{lemma_and_bound_u32, lemma_top_nibble};
use vstd::prelude::*;
use crate::bits::{count_ones, ror, spec_count_ones, spec_ror, lemma_count_ones_bound};
use crate::cpu::{add_with_carry, get_shifted_value, lemma_not_u32, spec_add_with_carry, spec_shifted_value};
use crate::cpu::decode::{decode_arm, spec_decode_arm, DecodedArm};
use crate::cpu::registers::{
    check_condition, convert_cpsr_u32, spec_check_condition, spec_convert_cpsr_u32,
    spec_spsr_index, Cpsr, Cpu, CpuStatus, ProcessorMode,
};
use crate::mem::bus::CpuInterface;

verus! {

broadcast use crate::cpu::registers::group_register_lemmas;

pub open spec fn bit(opcode: u32, i: u32) -> bool {
    (opcode >> i) & 1 == 1
}

/// A register field of an opcode (four bits starting at `lo`).
pub open spec fn field(opcode: u32, lo: u32) -> int {
    ((opcode >> lo) & 0xF) as int
}

proof fn lemma_field_bound(opcode: u32, lo: u32)
    ensures (opcode >> lo) & 0xFu32 < 16,
{
    lemma_and_bound_u32(opcode >> lo, 0xF);
}

fn reg_field(opcode: u32, lo: u32) -> (r: u8)
    requires
        lo < 32,
    ensures
        r as int == field(opcode, lo),
        r < 16,
{
    proof { lemma_field_bound(opcode, lo); }
    ((opcode >> lo) & 0xF) as u8
}

/// A 24-bit branch offset: shifted left by two and sign-extended.
pub open spec fn spec_branch_offset(opcode: u32) -> u32 {
    let offset = (opcode & 0x00FF_FFFF) << 2u32;
    if bit(opcode, 23) { offset | 0xFC00_0000 } else { offset }
}

pub open spec fn spec_branch_link(cpu: Cpu, opcode: u32) -> Cpu {
    let linked = if bit(opcode, 24) {
        // it is 2 instructions ahead, we only want it 1
        cpu.with_reg(14, (cpu.reg(15) & !3u32).wrapping_sub(4))
    } else {
        cpu
    };
    linked.with_reg(15, linked.reg(15).wrapping_add(spec_branch_offset(opcode))).cleared()
}

fn branch_link(opcode: u32, cpu: &mut Cpu)
    ensures
        *final(cpu) == spec_branch_link(*old(cpu), opcode),
{
    let l_bit = (opcode >> 24) & 1 == 1;

    // the bottom 24-bits
    let mut offset = (opcode & 0x00FFFFFF) as u32;
    offset <<= 2;
    if (opcode >> 23) & 1 == 1 {
        offset |= 0xFC000000;
    }

    // link
    if l_bit {
        let prev_pc = cpu.get_register(15);
        let link = cpu.get_register_mut(14);
        *link = (prev_pc & !(0b11)).wrapping_sub(4);
    }

    let pc = cpu.get_register_mut(15);
    *pc = pc.wrapping_add(offset);
    cpu.clear_pipeline();
}

pub open spec fn spec_branch_exchange(cpu: Cpu, opcode: u32) -> Cpu {
    let rn = cpu.reg(field(opcode, 0));
    cpu.with_reg(15, rn & !1u32).with_cpsr(Cpsr { t: rn & 1 == 1, ..cpu.cpsr() }).cleared()
}

fn branch_exchange(opcode: u32, cpu: &mut Cpu)
    ensures
        *final(cpu) == spec_branch_exchange(*old(cpu), opcode),
{
    let rn_index = reg_field(opcode, 0);

    let rn = cpu.get_register(rn_index);
    let pc = cpu.get_register_mut(15);

    *pc = rn & !(0x1);
    cpu.status.cpsr.t = rn & 1 == 1;
    cpu.clear_pipeline();
}

/// The immediate second operand: eight bits rotated right by twice the
/// four rotate bits, and its carry.
pub open spec fn spec_immediate_operand(opcode: u32, carry: bool) -> (u32, bool) {
    let shift_amount = (opcode >> 8u32) & 0xF;
    let value = spec_ror(opcode & 0xFF, (shift_amount * 2) as u32);
    (value, if shift_amount == 0 { carry } else { (value >> 31u32) & 1 == 1 })
}

/// The sixteen ALU operations: the result, the carry out, and the new
/// overflow flag for the arithmetic ones.
pub open spec fn spec_alu(operation: u32, op1: u32, op2: u32, op2_carry: bool, carry: bool) -> (u32, bool, Option<bool>) {
    if operation == 0 || operation == 8 {
        (op1 & op2, op2_carry, None)
    } else if operation == 1 || operation == 9 {
        (op1 ^ op2, op2_carry, None)
    } else if operation == 2 || operation == 10 {
        let (r, _, _, c, v) = spec_add_with_carry(op1, !op2, true);
        (r, c, Some(v))
    } else if operation == 3 {
        let (r, _, _, c, v) = spec_add_with_carry(!op1, op2, true);
        (r, c, Some(v))
    } else if operation == 4 || operation == 11 {
        let (r, _, _, c, v) = spec_add_with_carry(op1, op2, false);
        (r, c, Some(v))
    } else if operation == 5 {
        let (r, _, _, c, v) = spec_add_with_carry(op1, op2, carry);
        (r, c, Some(v))
    } else if operation == 6 {
        let (r, _, _, c, v) = spec_add_with_carry(op1, !op2, carry);
        (r, c, Some(v))
    } else if operation == 7 {
        let (r, _, _, c, v) = spec_add_with_carry(!op1, op2, carry);
        (r, c, Some(v))
    } else if operation == 12 {
        (op1 | op2, op2_carry, None)
    } else if operation == 13 {
        (op2, op2_carry, None)
    } else if operation == 14 {
        (op1 & !op2, op2_carry, None)
    } else {
        (!op2, op2_carry, None)
    }
}

fn alu(operation: u32, op1: u32, op2: u32, op2_carry: bool, carry: bool) -> (r: (u32, bool, Option<bool>))
    requires
        operation < 16,
    ensures
        r == spec_alu(operation, op1, op2, op2_carry, carry),
{
    match operation {
        0b0000 | 0b1000 => (op1 & op2, op2_carry, None), // and, tst
        0b0001 | 0b1001 => (op1 ^ op2, op2_carry, None), // eor, teq
        0b0010 | 0b1010 => {
            let (result, _, _, c, v) = add_with_carry(op1, !op2, true);
            (result, c, Some(v))
        }, // sub, cmp
        0b0011 => {
            let (result, _, _, c, v) = add_with_carry(!op1, op2, true);
            (result, c, Some(v))
        }, // rsb
        0b0100 | 0b1011 => {
            let (result, _, _, c, v) = add_with_carry(op1, op2, false);
            (result, c, Some(v))
        }, // add, cmn
        0b0101 => {
            let (result, _, _, c, v) = add_with_carry(op1, op2, carry);
            (result, c, Some(v))
        }, // adc
        0b0110 => {
            let (result, _, _, c, v) = add_with_carry(op1, !op2, carry);
            (result, c, Some(v))
        }, // sbc
        0b0111 => {
            let (result, _, _, c, v) = add_with_carry(!op1, op2, carry);
            (result, c, Some(v))
        }, // rsc
        0b1100 => (op1 | op2, op2_carry, None), // orr
        0b1101 => (op2, op2_carry, None), // mov
        0b1110 => (op1 & !op2, op2_carry, None), // bic
        _ => (!op2, op2_carry, None), // mvn
    }
}

pub open spec fn spec_data_processing(cpu: Cpu, opcode: u32) -> Cpu {
    let s_bit = bit(opcode, 20);
    let operation = (opcode >> 21u32) & 0xF;
    if 8 <= operation <= 11 && !s_bit {
        // its a test one, but doesnt change cpsr, so psr transfer
        spec_psr_transfer(cpu, opcode)
    } else {
        let i_bit = bit(opcode, 25);
        let (op2, op2_carry) = spec_operand2(cpu, opcode);
        let rn_index = field(opcode, 16);
        let rd_index = field(opcode, 12);
        let op1 = if rn_index == 15 && !i_bit && bit(opcode, 4) {
            cpu.reg(15).wrapping_add(4)
        } else {
            cpu.reg(rn_index)
        };
        let (result, alu_carry, overflow) = spec_alu(operation, op1, op2, op2_carry, cpu.cpsr().c);
        let undo = 8 <= operation <= 11;
        let flagged = if s_bit {
            cpu.with_cpsr(spec_alu_flags(cpu.cpsr(), result, alu_carry, overflow))
        } else {
            cpu
        };
        spec_alu_store(flagged, rd_index, s_bit, undo, result)
    }
}

/// The second operand of a data processing opcode and the shifter's carry.
pub open spec fn spec_operand2(cpu: Cpu, opcode: u32) -> (u32, bool) {
    if bit(opcode, 25) {
        spec_immediate_operand(opcode, cpu.cpsr().c)
    } else {
        spec_shifted_value(cpu, opcode)
    }
}

fn operand2(opcode: u32, cpu: &Cpu) -> (r: (u32, bool))
    ensures
        r == spec_operand2(*cpu, opcode),
{
    let i_bit = (opcode >> 25) & 1 == 1;
    if i_bit {
        // operand 2 is an immediate value
        let imm = opcode & 0xFF;
        let shift_amount = (opcode >> 8) & 0xF;
        proof { lemma_and_bound_u32(opcode >> 8u32, 0xF); }
        let op2 = ror(imm, shift_amount * 2);
        // the carry works in the same way that the ROR carry works
        if shift_amount == 0 {
            (op2, cpu.status.cpsr.c)
        } else {
            (op2, (op2 >> 31) & 1 == 1)
        }
    } else {
        // operand 2 is a register
        get_shifted_value(cpu, opcode)
    }
}

/// The CPSR after an ALU operation that sets the flags.
pub open spec fn spec_alu_flags(cpsr: Cpsr, result: u32, alu_carry: bool, overflow: Option<bool>) -> Cpsr {
    Cpsr {
        z: result == 0,
        n: (result >> 31u32) & 1 == 1,
        c: alu_carry,
        v: match overflow { Some(v) => v, None => cpsr.v },
        ..cpsr
    }
}

fn set_alu_flags(cpsr: &mut Cpsr, result: u32, alu_carry: bool, overflow: Option<bool>)
    ensures
        *final(cpsr) == spec_alu_flags(*old(cpsr), result, alu_carry, overflow),
{
    if let Some(v) = overflow {
        cpsr.v = v;
    }
    cpsr.z = result == 0;
    cpsr.n = (result >> 31) & 1 == 1;
    cpsr.c = alu_carry;
}

/// Where the result of a data processing operation goes, once the flags are set.
pub open spec fn spec_alu_store(flagged: Cpu, rd_index: int, s_bit: bool, undo: bool, result: u32) -> Cpu {
    if rd_index == 15 && s_bit {
        let written = if !undo { flagged.with_reg(15, result).cleared() } else { flagged };
        written.with_cpsr(written.status.spec_get_spsr())
    } else if undo {
        flagged
    } else if rd_index == 15 {
        flagged.cleared().with_reg(rd_index, result)
    } else {
        flagged.with_reg(rd_index, result)
    }
}

fn store_alu_result(cpu: &mut Cpu, rd_index: u8, s_bit: bool, undo: bool, result: u32)
    requires
        rd_index < 16,
    ensures
        *final(cpu) == spec_alu_store(*old(cpu), rd_index as int, s_bit, undo, result),
{
    if rd_index == 15 && s_bit {
        if !undo {
            let pc = cpu.get_register_mut(rd_index);
            *pc = result;
            cpu.clear_pipeline();
        }
        cpu.status.cpsr = *cpu.status.get_spsr();
        return;
    }
    if undo {
        return;
    }

    if rd_index == 15 {
        cpu.clear_pipeline();
    }
    let dst = cpu.get_register_mut(rd_index);
    *dst = result;
}

fn data_processing(opcode: u32, cpu: &mut Cpu)
    ensures
        *final(cpu) == spec_data_processing(*old(cpu), opcode),
{
    let s_bit = (opcode >> 20) & 1 == 1;
    let operation = (opcode >> 21) & 0xF;
    proof { lemma_and_bound_u32(opcode >> 21u32, 0xF); }

    // its a test one, but doesnt change cpsr, so psr transfer
    if operation >= 8 && operation <= 11 && !s_bit {
        psr_transfer(opcode, cpu);
        return;
    }

    // there are so many edge cases and weird procedures that its easier to
    // have these predefined so they can be assigned whenever and exited
    let i_bit = (opcode >> 25) & 1 == 1;
    let (op2, op2_carry) = operand2(opcode, cpu);

    let rn_index = reg_field(opcode, 16);
    let rd_index = reg_field(opcode, 12);

    let op1 = if rn_index == 15 && !i_bit && (opcode >> 4) & 1 == 1 {
        cpu.get_register(15).wrapping_add(4)
    } else {
        cpu.get_register(rn_index)
    };

    let undo = operation >= 8 && operation <= 11;
    let (result, alu_carry, overflow) = alu(operation, op1, op2, op2_carry, cpu.status.cpsr.c);
    if s_bit {
        set_alu_flags(&mut cpu.status.cpsr, result, alu_carry, overflow);
    }
    store_alu_result(cpu, rd_index, s_bit, undo, result);
}

pub open spec fn spec_psr_operand(cpu: Cpu, opcode: u32) -> u32 {
    if bit(opcode, 25) {
        spec_ror(opcode & 0xFF, (((opcode >> 8u32) & 0xF) * 2) as u32)
    } else {
        cpu.reg(field(opcode, 0))
    }
}

pub open spec fn spec_msr_update(psr: Cpsr, opcode: u32, operand: u32) -> Cpsr {
    let flagged = if bit(opcode, 19) { psr.spec_set_flags(operand) } else { psr };
    if bit(opcode, 16) { flagged.spec_set_control(operand) } else { flagged }
}

pub open spec fn spec_psr_transfer(cpu: Cpu, opcode: u32) -> Cpu {
    if bit(opcode, 21) {
        // MSR
        let operand = spec_psr_operand(cpu, opcode);
        if bit(opcode, 22) {
            if cpu.cpsr().mode == ProcessorMode::User || cpu.cpsr().mode == ProcessorMode::System {
                cpu
            } else {
                let updated = spec_msr_update(cpu.status.spec_get_spsr(), opcode, operand);
                Cpu { status: cpu.status.spec_with_spsr(updated), ..cpu }
            }
        } else {
            let updated = cpu.with_cpsr(spec_msr_update(cpu.cpsr(), opcode, operand));
            if updated.cpsr().t != cpu.cpsr().t { updated.cleared() } else { updated }
        }
    } else {
        // MRS
        let psr = if bit(opcode, 22) { cpu.status.spec_get_spsr() } else { cpu.cpsr() };
        cpu.with_reg(field(opcode, 12), spec_convert_cpsr_u32(psr))
    }
}

fn psr_transfer(opcode: u32, cpu: &mut Cpu)
    ensures
        *final(cpu) == spec_psr_transfer(*old(cpu), opcode),
{
    let psr_bit = (opcode >> 22) & 1 == 1;
    let op = (opcode >> 21) & 1 == 1;

    if op {
        // MSR
        let i_bit = (opcode >> 25) & 1 == 1;
        let f_bit = (opcode >> 19) & 1 == 1;
        let c_bit = (opcode >> 16) & 1 == 1;

        let operand = if i_bit {
            let imm = opcode & 0xFF;
            let rotate = (opcode >> 8) & 0xF;
            proof { lemma_and_bound_u32(opcode >> 8u32, 0xF); }
            ror(imm, rotate * 2)
        } else {
            let rm_index = reg_field(opcode, 0);
            cpu.get_register(rm_index)
        };
        let starting_t = cpu.status.cpsr.t;
        if psr_bit {
            if cpu.status.cpsr.mode == ProcessorMode::User || cpu.status.cpsr.mode == ProcessorMode::System {
                return;
            }
            let psr = cpu.status.get_spsr_mut();
            if f_bit {
                psr.set_flags(operand);
            }
            if c_bit {
                psr.set_control(operand);
            }
        } else {
            let psr = &mut cpu.status.cpsr;
            if f_bit {
                psr.set_flags(operand);
            }
            if c_bit {
                psr.set_control(operand);
            }
        }
        if starting_t != cpu.status.cpsr.t {
            cpu.clear_pipeline();
        }
    } else {
        // MRS
        let psr = if psr_bit { cpu.status.get_spsr() } else { &cpu.status.cpsr };
        let result = convert_cpsr_u32(psr);
        let rd_index = reg_field(opcode, 12);
        let rd = cpu.get_register_mut(rd_index);
        *rd = result;
    }
}

pub open spec fn spec_multiply(cpu: Cpu, opcode: u32) -> Cpu {
    let rn = cpu.reg(field(opcode, 12));
    let rd_index = field(opcode, 16);
    let rs = cpu.reg(field(opcode, 8));
    let rm = cpu.reg(field(opcode, 0));
    let product = rm.wrapping_mul(rs);
    let result = if bit(opcode, 21) { product.wrapping_add(rn) } else { product };
    let written = if rd_index != 15 { cpu.with_reg(rd_index, result) } else { cpu };
    let flagged = if bit(opcode, 20) {
        written.with_cpsr(Cpsr { z: result == 0, n: (result >> 31u32) == 1, c: false, ..written.cpsr() })
    } else {
        written
    };
    if rd_index == 15 { flagged.cleared() } else { flagged }
}

fn multiply(opcode: u32, cpu: &mut Cpu)
    ensures
        *final(cpu) == spec_multiply(*old(cpu), opcode),
{
    let rn_index = reg_field(opcode, 12);
    let rd_index = reg_field(opcode, 16);
    let rs_index = reg_field(opcode, 8);
    let rm_index = reg_field(opcode, 0);

    let rn = cpu.get_register(rn_index);
    let rs = cpu.get_register(rs_index);
    let rm = cpu.get_register(rm_index);

    let mut result = rm.wrapping_mul(rs);
    let acc_bit = (opcode >> 21) & 1 == 1;
    if acc_bit {
        result = result.wrapping_add(rn);
    }
    if rd_index != 15 {
        let rd = cpu.get_register_mut(rd_index);
        *rd = result;
    }

    if (opcode >> 20) & 1 == 1 {
        cpu.status.cpsr.z = result == 0;
        cpu.status.cpsr.n = (result >> 31) == 1;
        cpu.status.cpsr.c = false;
    }

    if rd_index == 15 {
        cpu.clear_pipeline();
    }
}

/// A register widened to 64 bits, with its sign extended.
pub open spec fn spec_sign_extend_64(x: u32) -> u64 {
    if (x >> 31u32) & 1 == 1 { 0xFFFF_FFFF_0000_0000u64 | x as u64 } else { x as u64 }
}

pub open spec fn spec_multiply_long(cpu: Cpu, opcode: u32) -> Cpu {
    let rm = cpu.reg(field(opcode, 0));
    let rs = cpu.reg(field(opcode, 8));
    let rdl_index = field(opcode, 12);
    let rdh_index = field(opcode, 16);
    let product = spec_long_product(rm, rs, bit(opcode, 22));
    let result = if bit(opcode, 21) {
        product.wrapping_add(((cpu.reg(rdh_index) as u64) << 32u64) | cpu.reg(rdl_index) as u64)
    } else {
        product
    };
    let written = cpu.with_reg(rdl_index, result as u32).with_reg(rdh_index, (result >> 32u64) as u32);
    let flagged = if bit(opcode, 20) {
        written.with_cpsr(spec_long_flags(written.cpsr(), result))
    } else {
        written
    };
    if rdh_index == 15 || rdl_index == 15 { flagged.cleared() } else { flagged }
}

pub open spec fn spec_long_product(rm: u32, rs: u32, signed: bool) -> u64 {
    if signed {
        spec_sign_extend_64(rm).wrapping_mul(spec_sign_extend_64(rs))
    } else {
        (rm as u64).wrapping_mul(rs as u64)
    }
}

fn long_product(rm: u32, rs: u32, signed: bool) -> (r: u64)
    ensures r == spec_long_product(rm, rs, signed),
{
    if signed {
        let op1 = if (rm >> 31) & 1 == 1 { 0xFFFFFFFF00000000 | rm as u64 } else { rm as u64 };
        let op2 = if (rs >> 31) & 1 == 1 { 0xFFFFFFFF00000000 | rs as u64 } else { rs as u64 };
        op1.wrapping_mul(op2)
    } else {
        (rm as u64).wrapping_mul(rs as u64)
    }
}

pub open spec fn spec_long_flags(cpsr: Cpsr, result: u64) -> Cpsr {
    Cpsr { c: false, z: result == 0, n: (result >> 63u64) & 1 == 1, ..cpsr }
}

fn set_long_flags(cpsr: &mut Cpsr, result: u64)
    ensures *final(cpsr) == spec_long_flags(*old(cpsr), result),
{
    cpsr.c = false;
    cpsr.z = result == 0;
    cpsr.n = (result >> 63) & 1 == 1;
}

fn multiply_long(opcode: u32, cpu: &mut Cpu)
    ensures
        *final(cpu) == spec_multiply_long(*old(cpu), opcode),
{
    let rm_index = reg_field(opcode, 0);
    let rs_index = reg_field(opcode, 8);
    let rdl_index = reg_field(opcode, 12);
    let rdh_index = reg_field(opcode, 16);

    let rm = cpu.get_register(rm_index);
    let rs = cpu.get_register(rs_index);

    let u_bit = (opcode >> 22) & 1 == 1;

    let mut result = long_product(rm, rs, u_bit);

    let a_bit = (opcode >> 21) & 1 == 1;
    if a_bit {
        let low_acc = cpu.get_register(rdl_index) as u64;
        let hi_acc = cpu.get_register(rdh_index) as u64;
        result = result.wrapping_add((hi_acc << 32) | low_acc);
    }

    let rdl = cpu.get_register_mut(rdl_index);
    *rdl = result as u32;
    let rdh = cpu.get_register_mut(rdh_index);
    *rdh = (result >> 32) as u32;

    let s_bit = (opcode >> 20) & 1 == 1;
    if s_bit {
        set_long_flags(&mut cpu.status.cpsr, result);
    }
    if rdh_index == 15 || rdl_index == 15 {
        cpu.clear_pipeline();
    }
}

/// The SWI entry: the CPSR saved into SPSR_svc, Supervisor mode with IRQs
/// disabled, the return address in r14_svc and execution at 0x08.
pub open spec fn spec_software_interrupt(cpu: Cpu) -> Cpu {
    let saved = Cpu {
        status: CpuStatus {
            spsr: vstd::array::spec_array_update(cpu.status.spsr, 1, cpu.cpsr()),
            ..cpu.status
        },
        ..cpu
    };
    let svc = saved.with_cpsr(Cpsr { mode: ProcessorMode::Supervisor, ..saved.cpsr() });
    let linked = svc.with_reg(14, svc.reg(15).wrapping_sub(4));
    let jumped = linked.with_reg(15, 0x08);
    jumped.with_cpsr(Cpsr { i: true, ..jumped.cpsr() }).cleared()
}

/// this instruction shouldnt change any of the CPSR flags
fn software_interrupt(cpu: &mut Cpu)
    ensures
        *final(cpu) == spec_software_interrupt(*old(cpu)),
{
    // spsr_svc gets the old cpsr transferred into it
    let cpsr = cpu.status.cpsr;
    cpu.status.set_specific_spsr(cpsr, ProcessorMode::Supervisor);

    cpu.status.cpsr.mode = ProcessorMode::Supervisor;
    let pc = cpu.get_register(15);
    let save_pc = cpu.get_register_mut(14);
    *save_pc = pc.wrapping_sub(4);

    let change_pc = cpu.get_register_mut(15);
    *change_pc = 0x08;
    cpu.status.cpsr.i = true;
    cpu.clear_pipeline();
}

/// The base register written back after a transfer (r15 gets the address
/// plus four, and a write to it empties the pipeline).
pub open spec fn spec_write_back(cpu: Cpu, rn_index: int, address: u32, write_back: bool) -> Cpu {
    if write_back {
        if rn_index == 15 {
            cpu.with_reg(rn_index, address.wrapping_add(4)).cleared()
        } else {
            cpu.with_reg(rn_index, address)
        }
    } else {
        cpu
    }
}

fn write_back(cpu: &mut Cpu, rn_index: u8, address: u32, write_back: bool)
    requires
        rn_index < 16,
    ensures
        *final(cpu) == spec_write_back(*old(cpu), rn_index as int, address, write_back),
{
    if write_back {
        let rn = cpu.get_register_mut(rn_index);
        // this address has changed and is being written back
        *rn = address;
        if rn_index == 15 {
            *rn = rn.wrapping_add(4);
        }
        if rn_index == 15 {
            cpu.clear_pipeline();
        }
    }
}

/// `base` moved up or down by `offset`.
pub open spec fn spec_offset_address(base: u32, offset: u32, up: bool) -> u32 {
    if up { base.wrapping_add(offset) } else { base.wrapping_sub(offset) }
}

/// The value that a store reads from a register: r15 reads twelve bytes ahead.
pub open spec fn spec_store_value(cpu: Cpu, rd_index: int) -> u32 {
    if rd_index == 15 { cpu.reg(15).wrapping_add(4) } else { cpu.reg(rd_index) }
}

pub open spec fn spec_data_transfer<M: CpuInterface>(cpu: Cpu, memory: M, opcode: u32) -> (Cpu, M) {
    let rd_index = field(opcode, 12);
    let rn_index = field(opcode, 16);
    let offset = if bit(opcode, 25) { spec_shifted_value(cpu, opcode).0 } else { opcode & 0xFFF };
    let base = cpu.reg(rn_index);
    let pre_index = bit(opcode, 24);
    let moved = spec_offset_address(base, offset, bit(opcode, 23));
    let address = if pre_index { moved } else { base };
    let updates = bit(opcode, 21) || !pre_index;
    if bit(opcode, 20) {
        let data = if bit(opcode, 22) {
            memory.spec_read_u8(address) as u32
        } else {
            memory.spec_read_u32_rotated(address)
        };
        let loaded = cpu.with_reg(rd_index, data);
        let loaded = if rd_index == 15 { loaded.cleared() } else { loaded };
        if rn_index == rd_index {
            (loaded, memory)
        } else {
            (spec_write_back(loaded, rn_index, moved, updates), memory)
        }
    } else {
        let value = spec_store_value(cpu, rd_index);
        let stored = if bit(opcode, 22) {
            memory.spec_write_u8(address, value as u8)
        } else {
            memory.spec_write_u32(address, value)
        };
        (spec_write_back(cpu, rn_index, moved, updates), stored)
    }
}

fn data_transfer<M: CpuInterface>(opcode: u32, cpu: &mut Cpu, memory: &mut M)
    requires
        old(memory).inv(),
    ensures
        final(memory).inv(),
        (*final(cpu), *final(memory)) == spec_data_transfer(*old(cpu), *old(memory), opcode),
{
    let rd_index = reg_field(opcode, 12);
    let rn_index = reg_field(opcode, 16);

    let offset = if (opcode >> 25) & 1 == 1 {
        get_shifted_value(cpu, opcode).0
    } else {
        opcode & 0xFFF
    };

    let mut address = cpu.get_register(rn_index);

    let pre_index = (opcode >> 24) & 1 == 1;
    let add_offset = (opcode >> 23) & 1 == 1;
    if pre_index {
        if add_offset {
            address = address.wrapping_add(offset);
        } else {
            address = address.wrapping_sub(offset);
        }
    }

    let l_bit = (opcode >> 20) & 1 == 1;
    let b_bit = (opcode >> 22) & 1 == 1;
    if l_bit {
        let data = if b_bit {
            memory.read_u8(address) as u32
        } else {
            memory.read_u32_rotated(address)
        };
        let rd = cpu.get_register_mut(rd_index);
        *rd = data;

        if rd_index == 15 {
            cpu.clear_pipeline();
        }
        if rn_index == rd_index {
            return;
        }
    } else {
        let rd = if rd_index == 15 {
            cpu.get_register(rd_index).wrapping_add(4)
        } else {
            cpu.get_register(rd_index)
        };
        if b_bit {
            memory.write_u8(address, rd as u8);
        } else {
            memory.write_u32(address, rd);
        }
    }

    // have to post-update
    if !pre_index {
        if add_offset {
            address = address.wrapping_add(offset);
        } else {
            address = address.wrapping_sub(offset);
        }
    }

    let w_bit = (opcode >> 21) & 1 == 1;
    write_back(cpu, rn_index, address, w_bit || !pre_index);
}

/// A byte sign-extended to a word.
pub open spec fn spec_sign_extend_8(x: u32) -> u32 {
    if (x >> 7u32) & 1 == 1 { x | 0xFFFF_FF00 } else { x }
}

/// A halfword sign-extended to a word.
pub open spec fn spec_sign_extend_16(x: u32) -> u32 {
    if (x >> 15u32) & 1 == 1 { x | 0xFFFF_0000 } else { x }
}

/// What a halfword or signed load reads: LDRH (rotated when misaligned),
/// LDRSB, and LDRSH (a signed byte when misaligned).
pub open spec fn spec_halfword_load<M: CpuInterface>(memory: M, address: u32, signed: bool, half: bool) -> u32 {
    if !signed {
        spec_ror(memory.spec_read_u16(address) as u32, ((address & 1) * 8) as u32)
    } else if !half {
        spec_sign_extend_8(memory.spec_read_u8(address) as u32)
    } else if address & 1 == 1 {
        spec_sign_extend_8((memory.spec_read_u16(address) as u32) >> 8u32)
    } else {
        spec_sign_extend_16(memory.spec_read_u16(address) as u32)
    }
}

pub(crate) fn halfword_load<M: CpuInterface>(memory: &M, address: u32, signed: bool, half: bool) -> (r: u32)
    requires
        memory.inv(),
        signed || half,
    ensures
        r == spec_halfword_load(*memory, address, signed, half),
{
    proof { lemma_and_bound_u32(address, 1); }
    if !signed {
        ror(memory.read_u16(address) as u32, (address & 1) * 8)
    } else if !half {
        let mut raw_reading = memory.read_u8(address) as u32;
        if (raw_reading >> 7) & 1 == 1 {
            raw_reading |= 0xFFFFFF00;
        }
        raw_reading
    } else {
        let mut raw_reading;
        let is_aligned = address & 1 == 1;
        if is_aligned {
            raw_reading = (memory.read_u16(address) as u32) >> 8;
            if (raw_reading >> 7) & 1 == 1 {
                raw_reading |= 0xFFFFFF00;
            }
        } else {
            raw_reading = memory.read_u16(address) as u32;
            if (raw_reading >> 15) & 1 == 1 {
                raw_reading |= 0xFFFF0000;
            }
        }
        raw_reading
    }
}

pub open spec fn spec_halfword_transfer<M: CpuInterface>(cpu: Cpu, memory: M, opcode: u32) -> (Cpu, M) {
    let p_bit = bit(opcode, 24);
    let l_bit = bit(opcode, 20);
    let rd_index = field(opcode, 12);
    let rn_index = field(opcode, 16);
    let base = cpu.reg(rn_index);
    let offset = if bit(opcode, 22) {
        (opcode & 0xF) | ((opcode >> 4u32) & 0xF0)
    } else {
        cpu.reg(field(opcode, 0))
    };
    let moved = spec_offset_address(base, offset, bit(opcode, 23));
    let address = if p_bit { moved } else { base };
    let (done, memory2) = if !l_bit {
        let value = spec_store_value(cpu, rd_index);
        (cpu, memory.spec_write_u16(address, value as u16))
    } else {
        let pre = if rd_index == 15 { cpu.cleared() } else { cpu };
        let loaded = pre.with_reg(rd_index, spec_halfword_load(memory, address, bit(opcode, 6), bit(opcode, 5)));
        (if rd_index == 15 { loaded.cleared() } else { loaded }, memory)
    };
    if rd_index == rn_index && l_bit {
        (done, memory2)
    } else {
        (spec_write_back(done, rn_index, moved, bit(opcode, 21) || !p_bit), memory2)
    }
}

/// this function handles both the immediate and register offsets
/// Both pretty much have identical implementation besides for data acquisition
fn halfword_transfer<M: CpuInterface>(opcode: u32, cpu: &mut Cpu, memory: &mut M)
    requires
        old(memory).inv(),
        bit(opcode, 6) || bit(opcode, 5),
    ensures
        final(memory).inv(),
        (*final(cpu), *final(memory)) == spec_halfword_transfer(*old(cpu), *old(memory), opcode),
{
    let p_bit = (opcode >> 24) & 1 == 1;
    let u_bit = (opcode >> 23) & 1 == 1;
    let i_bit = (opcode >> 22) & 1 == 1;
    let w_bit = (opcode >> 21) & 1 == 1;
    let l_bit = (opcode >> 20) & 1 == 1;
    let s_bit = (opcode >> 6) & 1 == 1;
    let h_bit = (opcode >> 5) & 1 == 1;

    let rd_index = reg_field(opcode, 12);
    let rn_index = reg_field(opcode, 16);

    let mut address = cpu.get_register(rn_index);
    let offset = if i_bit {
        (opcode & 0xF) | ((opcode >> 4) & 0xF0)
    } else {
        cpu.get_register(reg_field(opcode, 0))
    };

    // pre-indexed
    if p_bit {
        if u_bit {
            address = address.wrapping_add(offset);
        } else {
            address = address.wrapping_sub(offset);
        }
    }

    // need to clear pipeline
    if l_bit && rd_index == 15 {
        cpu.clear_pipeline();
    }

    // the processing part
    if !l_bit {
        let rd = if rd_index == 15 {
            cpu.get_register(rd_index).wrapping_add(4)
        } else {
            cpu.get_register(rd_index)
        };
        memory.write_u16(address, rd as u16);
    } else {
        let data = halfword_load(memory, address, s_bit, h_bit);
        let rd = cpu.get_register_mut(rd_index);
        *rd = data;
        if rd_index == 15 {
            cpu.clear_pipeline();
        }
    }
    if !p_bit {
        if u_bit {
            address = address.wrapping_add(offset);
        } else {
            address = address.wrapping_sub(offset);
        }
    }
    if rd_index == rn_index && l_bit {
        return;
    }

    write_back(cpu, rn_index, address, w_bit || !p_bit);
}

pub open spec fn spec_single_swap<M: CpuInterface>(cpu: Cpu, memory: M, opcode: u32) -> (Cpu, M) {
    let rn_index = field(opcode, 16);
    let rd_index = field(opcode, 12);
    let address = spec_store_value(cpu, rn_index);
    let rm = spec_store_value(cpu, field(opcode, 0));
    let byte = bit(opcode, 22);
    let data = if byte { memory.spec_read_u8(address) as u32 } else { memory.spec_read_u32_rotated(address) };
    let loaded = cpu.with_reg(rd_index, data);
    let loaded = if rd_index == 15 { loaded.cleared() } else { loaded };
    let stored = if byte { memory.spec_write_u8(address, rm as u8) } else { memory.spec_write_u32(address, rm) };
    (loaded, stored)
}

fn single_swap<M: CpuInterface>(opcode: u32, cpu: &mut Cpu, memory: &mut M)
    requires
        old(memory).inv(),
    ensures
        final(memory).inv(),
        (*final(cpu), *final(memory)) == spec_single_swap(*old(cpu), *old(memory), opcode),
{
    // for now just have them happen at the same time
    let rn_index = reg_field(opcode, 16);
    let rm_index = reg_field(opcode, 0);
    let rd_index = reg_field(opcode, 12);

    let address = if rn_index == 15 {
        cpu.get_register(rn_index).wrapping_add(4)
    } else {
        cpu.get_register(rn_index)
    };
    let quantity_bit = (opcode >> 22) & 1 == 1;
    let rm = if rm_index == 15 {
        cpu.get_register(rm_index).wrapping_add(4)
    } else {
        cpu.get_register(rm_index)
    };

    let data = if quantity_bit {
        memory.read_u8(address) as u32
    } else {
        memory.read_u32_rotated(address)
    };

    let rd = cpu.get_register_mut(rd_index);
    *rd = data;
    if rd_index == 15 {
        cpu.clear_pipeline();
    }

    if quantity_bit {
        memory.write_u8(address, rm as u8);
    } else {
        memory.write_u32(address, rm);
    }
}

/// The fixed facts of a block transfer: the register list (r15 alone when
/// the opcode's list is empty), the bank the registers are taken from, and
/// the first address and the base's final value.
pub struct BlockPlan {
    pub rlist: u32,
    pub used_mode: ProcessorMode,
    pub start: u32,
    pub ending_base: u32,
}

pub open spec fn spec_block_plan(cpu: Cpu, opcode: u32) -> BlockPlan {
    let listed = opcode & 0xFFFF;
    let r15_in_list = (listed >> 15u32) & 1 == 1;
    let started_empty = listed == 0;
    let rlist = if started_empty { 0x8000u32 } else { listed };
    let l_bit = bit(opcode, 20);
    let s_bit = bit(opcode, 22);
    let u_bit = bit(opcode, 23);
    let rn = cpu.reg(field(opcode, 16));
    let used_mode = if (s_bit && r15_in_list && !l_bit) || (s_bit && !r15_in_list) {
        ProcessorMode::User
    } else {
        cpu.cpsr().mode
    };
    let size = (spec_count_ones(rlist, 32) * 4) as u32;
    let start = if u_bit {
        rn
    } else if started_empty {
        rn.wrapping_sub(0x40)
    } else {
        rn.wrapping_sub(size)
    };
    let ending_base = if u_bit { start.wrapping_add(size) } else { start };
    BlockPlan { rlist, used_mode, start, ending_base }
}

/// The state that the register loop carries: the processor, the memory, the
/// address, and whether no register was stored yet.
pub struct BlockState<M> {
    pub cpu: Cpu,
    pub memory: M,
    pub address: u32,
    pub first_run: bool,
}

/// The transfer of register `k` (when it is in the list).
pub open spec fn spec_block_step<M: CpuInterface>(st: BlockState<M>, plan: BlockPlan, opcode: u32, k: u32) -> BlockState<M> {
    let p_bit = bit(opcode, 24);
    let u_bit = bit(opcode, 23);
    let rn_index = field(opcode, 16);
    if (plan.rlist >> k) & 1 != 1 {
        st
    } else {
        let before = if p_bit == u_bit { st.address.wrapping_add(4) } else { st.address };
        let after = if p_bit != u_bit { before.wrapping_add(4) } else { before };
        if bit(opcode, 20) {
            // LDM with r15 in transfer list and s bit set (mode changes)
            let switched = if k == 15 {
                let c = if bit(opcode, 22) { st.cpu.with_cpsr(st.cpu.status.spec_get_spsr()) } else { st.cpu };
                c.cleared()
            } else {
                st.cpu
            };
            let loaded = switched.spec_with_reg(k as int, plan.used_mode, st.memory.spec_read_u32_unrotated(before));
            BlockState { cpu: loaded, memory: st.memory, address: after, first_run: st.first_run }
        } else {
            let rewritten = if !st.first_run && rn_index >= k && (plan.rlist >> rn_index as u32) & 1 == 1
                && bit(opcode, 21) {
                st.cpu.spec_with_reg(rn_index, plan.used_mode, plan.ending_base)
            } else {
                st.cpu
            };
            let value = if k == 15 {
                rewritten.spec_reg(15, plan.used_mode).wrapping_add(4)
            } else {
                rewritten.spec_reg(k as int, plan.used_mode)
            };
            BlockState {
                cpu: rewritten,
                memory: st.memory.spec_write_u32(before & !3u32, value),
                address: after,
                first_run: false,
            }
        }
    }
}

/// Registers 0 .. n-1 transferred in order.
pub open spec fn spec_block_upto<M: CpuInterface>(st: BlockState<M>, plan: BlockPlan, opcode: u32, n: nat) -> BlockState<M>
    decreases n,
{
    if n == 0 {
        st
    } else {
        spec_block_step(spec_block_upto(st, plan, opcode, (n - 1) as nat), plan, opcode, (n - 1) as u32)
    }
}

pub open spec fn spec_block_transfer<M: CpuInterface>(cpu: Cpu, memory: M, opcode: u32) -> (Cpu, M) {
    let plan = spec_block_plan(cpu, opcode);
    let rn_index = field(opcode, 16);
    let st = spec_block_upto(
        BlockState { cpu, memory, address: plan.start, first_run: true },
        plan,
        opcode,
        16,
    );
    if bit(opcode, 20) && (opcode >> rn_index as u32) & 1 == 1 {
        // rn was in the transfer
        (st.cpu, st.memory)
    } else if bit(opcode, 21) {
        let value = if opcode & 0xFFFF == 0 {
            if bit(opcode, 23) { plan.start.wrapping_add(0x40) } else { plan.start }
        } else if bit(opcode, 23) {
            st.address
        } else {
            plan.start
        };
        (st.cpu.with_reg(rn_index, value), st.memory)
    } else {
        (st.cpu, st.memory)
    }
}

fn block_plan(opcode: u32, cpu: &Cpu) -> (r: (u32, ProcessorMode, u32, u32))
    ensures
        ({
            let plan = spec_block_plan(*cpu, opcode);
            r == (plan.rlist, plan.used_mode, plan.start, plan.ending_base)
        }),
{
    let mut rlist = opcode & 0xFFFF;
    let r15_in_list = (rlist >> 15) & 1 == 1;
    let started_empty = rlist == 0;
    if started_empty {
        rlist |= 0x8000;
        assert(0u32 | 0x8000u32 == 0x8000u32) by (bit_vector);
    }

    let l_bit = (opcode >> 20) & 1 == 1;
    let s_bit = (opcode >> 22) & 1 == 1;
    let u_bit = (opcode >> 23) & 1 == 1;

    let rn_index = reg_field(opcode, 16);
    let rn = cpu.get_register(rn_index);

    let used_mode = if (s_bit && r15_in_list && !l_bit) || (s_bit && !r15_in_list) {
        // STM with R15 in transfer and S bit set, or R15 not in list and S bit set
        ProcessorMode::User
    } else {
        cpu.status.cpsr.mode
    };
    let ones = count_ones(rlist);
    proof { lemma_count_ones_bound(rlist, 32); }
    let size = ones * 4;
    let current_address = if u_bit {
        rn
    } else if started_empty {
        rn.wrapping_sub(0x40)
    } else {
        rn.wrapping_sub(size)
    };
    let ending_base = if u_bit { current_address.wrapping_add(size) } else { current_address };
    (rlist, used_mode, current_address, ending_base)
}

#[verifier::rlimit(40)]
fn block_transfer<M: CpuInterface>(opcode: u32, cpu: &mut Cpu, memory: &mut M)
    requires
        old(memory).inv(),
    ensures
        final(memory).inv(),
        (*final(cpu), *final(memory)) == spec_block_transfer(*old(cpu), *old(memory), opcode),
{
    let ghost plan = spec_block_plan(*cpu, opcode);
    let ghost st0 = BlockState { cpu: *cpu, memory: *memory, address: plan.start, first_run: true };
    let (rlist, used_mode, starting_base, ending_base) = block_plan(opcode, cpu);
    let started_empty = opcode & 0xFFFF == 0;

    let l_bit = (opcode >> 20) & 1 == 1;
    let w_bit = (opcode >> 21) & 1 == 1;
    let s_bit = (opcode >> 22) & 1 == 1;
    let u_bit = (opcode >> 23) & 1 == 1;
    let p_bit = (opcode >> 24) & 1 == 1;
    let rn_index = reg_field(opcode, 16);

    let mut current_address = starting_base;
    let mut first_run = true;
    let mut next_r: u32 = 0;
    while next_r < 16
        invariant
            next_r <= 16,
            memory.inv(),
            rn_index as int == field(opcode, 16),
            rn_index < 16,
            plan == spec_block_plan(st0.cpu, opcode),
            rlist == plan.rlist && used_mode == plan.used_mode && ending_base == plan.ending_base,
            l_bit == bit(opcode, 20) && w_bit == bit(opcode, 21) && s_bit == bit(opcode, 22),
            u_bit == bit(opcode, 23) && p_bit == bit(opcode, 24),
            spec_block_upto(st0, plan, opcode, next_r as nat)
                == (BlockState { cpu: *cpu, memory: *memory, address: current_address, first_run }),
        decreases 16 - next_r,
    {
        let ghost before_step = BlockState { cpu: *cpu, memory: *memory, address: current_address, first_run };
        if (rlist >> next_r) & 1 == 1 {
            if p_bit == u_bit {
                current_address = current_address.wrapping_add(4);
            }
            if l_bit {
                if next_r == 15 {
                    if s_bit {
                        cpu.status.cpsr = *cpu.status.get_spsr();
                    }
                    cpu.clear_pipeline();
                }
                let data = memory.read_u32_unrotated(current_address);
                let rb = cpu.get_register_mut_specific(next_r as u8, used_mode);
                *rb = data;
            } else {
                // why do the docs not make a mention of this???
                if !first_run && rn_index as u32 >= next_r && (rlist >> rn_index as u32) & 1 == 1 && w_bit {
                    let rn_mut = cpu.get_register_mut_specific(rn_index, used_mode);
                    *rn_mut = ending_base;
                }
                let rb = if next_r == 15 {
                    cpu.get_register_specific(15, used_mode).wrapping_add(4)
                } else {
                    cpu.get_register_specific(next_r as u8, used_mode)
                };
                memory.write_u32(current_address & !(0b11), rb);
                first_run = false;
            }
            if p_bit != u_bit {
                current_address = current_address.wrapping_add(4);
            }
        }
        assert(spec_block_step(before_step, plan, opcode, next_r)
            == (BlockState { cpu: *cpu, memory: *memory, address: current_address, first_run }));
        next_r += 1;
    }

    // was rn in the transfer?
    if l_bit && (opcode >> rn_index as u32) & 1 == 1 {
        return;
    }

    if w_bit {
        let rn_mut = cpu.get_register_mut(rn_index);
        if started_empty {
            if u_bit {
                *rn_mut = starting_base.wrapping_add(0x40);
            } else {
                // this one has already been accounted for
                *rn_mut = starting_base;
            }
            return;
        }
        if u_bit {
            *rn_mut = current_address;
        } else {
            *rn_mut = starting_base;
        }
    }
}

/// Whether the processor can run an ARM opcode: when its condition holds, it
/// decodes, and it is not a coprocessor instruction (the GBA has none).
pub open spec fn spec_arm_supported(opcode: u32, cpsr: Cpsr) -> bool {
    spec_check_condition(opcode >> 28u32, cpsr) ==> match spec_decode_arm(opcode) {
        Some(DecodedArm::CoprocDataOperation) => false,
        Some(DecodedArm::CoprocDataTransfer) => false,
        Some(DecodedArm::CoprocRegTransfer) => false,
        Some(_) => true,
        None => false,
    }
}

/// What one ARM instruction does to the processor and the memory.
pub open spec fn spec_execute_arm<M: CpuInterface>(cpu: Cpu, memory: M, opcode: u32) -> (Cpu, M) {
    if !spec_check_condition(opcode >> 28u32, cpu.cpsr()) {
        (cpu, memory)
    } else {
        match spec_decode_arm(opcode) {
            Some(DecodedArm::DataProcessing) => (spec_data_processing(cpu, opcode), memory),
            Some(DecodedArm::Multiply) => (spec_multiply(cpu, opcode), memory),
            Some(DecodedArm::MultiplyLong) => (spec_multiply_long(cpu, opcode), memory),
            Some(DecodedArm::SingleDataSwap) => spec_single_swap(cpu, memory, opcode),
            Some(DecodedArm::BranchExchange) => (spec_branch_exchange(cpu, opcode), memory),
            Some(DecodedArm::HalfwordTransferReg) => spec_halfword_transfer(cpu, memory, opcode),
            Some(DecodedArm::HalfwordTransferImm) => spec_halfword_transfer(cpu, memory, opcode),
            Some(DecodedArm::SingleDataTransfer) => spec_data_transfer(cpu, memory, opcode),
            Some(DecodedArm::BlockDataTransfer) => spec_block_transfer(cpu, memory, opcode),
            Some(DecodedArm::Branch) => (spec_branch_link(cpu, opcode), memory),
            Some(DecodedArm::Swi) => (spec_software_interrupt(cpu), memory),
            _ => (cpu, memory),
        }
    }
}

proof fn lemma_halfword_has_size(opcode: u32)
    requires
        spec_decode_arm(opcode) == Some(DecodedArm::HalfwordTransferReg)
            || spec_decode_arm(opcode) == Some(DecodedArm::HalfwordTransferImm),
    ensures
        bit(opcode, 6) || bit(opcode, 5),
{
    let o = opcode & crate::cpu::decode::REMOVE_CONDITION_MASK;
    assert((o >> 4u32) & 0xF != 0b1001);
    assert((o >> 4u32) & 0b1001 == 0b1001);
    assert(((opcode >> 6u32) & 1 == 1) || ((opcode >> 5u32) & 1 == 1)) by (bit_vector)
        requires
            o == opcode & 0b0000_1111_1111_1111_1111_1111_1111_1111u32,
            (o >> 4u32) & 0xF != 0b1001,
            (o >> 4u32) & 0b1001 == 0b1001;
}

pub fn execute_arm<M: CpuInterface>(opcode: u32, cpu: &mut Cpu, memory: &mut M)
    requires
        old(memory).inv(),
        spec_arm_supported(opcode, old(cpu).cpsr()),
    ensures
        final(memory).inv(),
        (*final(cpu), *final(memory)) == spec_execute_arm(*old(cpu), *old(memory), opcode),
{
    // first check if we even have to do it
    let condition = opcode >> 28;
    proof { lemma_top_nibble(opcode); }
    if !check_condition(condition, &cpu.status.cpsr) {
        return;
    }

    let instruction = decode_arm(opcode);
    match instruction {
        DecodedArm::DataProcessing => data_processing(opcode, cpu),
        DecodedArm::Multiply => multiply(opcode, cpu),
        DecodedArm::MultiplyLong => multiply_long(opcode, cpu),
        DecodedArm::SingleDataSwap => single_swap(opcode, cpu, memory),
        DecodedArm::BranchExchange => branch_exchange(opcode, cpu),
        DecodedArm::HalfwordTransferReg | DecodedArm::HalfwordTransferImm => {
            proof { lemma_halfword_has_size(opcode); }
            halfword_transfer(opcode, cpu, memory)
        },
        DecodedArm::SingleDataTransfer => data_transfer(opcode, cpu, memory),
        DecodedArm::Undefined => {},
        DecodedArm::BlockDataTransfer => block_transfer(opcode, cpu, memory),
        DecodedArm::Branch => branch_link(opcode, cpu),
        DecodedArm::Swi => software_interrupt(cpu),
        // coprocessor instructions are not handled for the GBA (excluded above)
        _ => {},
    }
}

/// What the arithmetic ALU operations compute, as integers modulo 2^32,
/// with the carry that ARM defines: the carry out of an addition, and "no
/// borrow" for a subtraction. SUB and CMP take `op1 - op2`, RSB `op2 - op1`,
/// ADD and CMN `op1 + op2`, ADC adds the carry in, SBC and RSC subtract one
/// more when the carry in is clear.
pub proof fn lemma_alu_arithmetic(op1: u32, op2: u32, op2_carry: bool, carry: bool)
    ensures
        ({
            let m = 0x1_0000_0000int;
            let cin: int = if carry { 1 } else { 0 };
            &&& spec_alu(2, op1, op2, op2_carry, carry).0 == (op1 - op2) % m
            &&& spec_alu(2, op1, op2, op2_carry, carry).1 == (op1 >= op2)
            &&& spec_alu(10, op1, op2, op2_carry, carry).0 == (op1 - op2) % m
            &&& spec_alu(10, op1, op2, op2_carry, carry).1 == (op1 >= op2)
            &&& spec_alu(3, op1, op2, op2_carry, carry).0 == (op2 - op1) % m
            &&& spec_alu(3, op1, op2, op2_carry, carry).1 == (op2 >= op1)
            &&& spec_alu(4, op1, op2, op2_carry, carry).0 == (op1 + op2) % m
            &&& spec_alu(4, op1, op2, op2_carry, carry).1 == (op1 + op2 >= m)
            &&& spec_alu(11, op1, op2, op2_carry, carry).0 == (op1 + op2) % m
            &&& spec_alu(11, op1, op2, op2_carry, carry).1 == (op1 + op2 >= m)
            &&& spec_alu(5, op1, op2, op2_carry, carry).0 == (op1 + op2 + cin) % m
            &&& spec_alu(5, op1, op2, op2_carry, carry).1 == (op1 + op2 + cin >= m)
            &&& spec_alu(6, op1, op2, op2_carry, carry).0 == (op1 - op2 - 1 + cin) % m
            &&& spec_alu(6, op1, op2, op2_carry, carry).1 == (op1 + cin >= op2 + 1)
            &&& spec_alu(7, op1, op2, op2_carry, carry).0 == (op2 - op1 - 1 + cin) % m
            &&& spec_alu(7, op1, op2, op2_carry, carry).1 == (op2 + cin >= op1 + 1)
        }),
{
    lemma_not_u32(op1);
    lemma_not_u32(op2);
    let m = 0x1_0000_0000int;
    assert(((op1 - op2 + m) % m) == (op1 - op2) % m) by {
        vstd::arithmetic::div_mod::lemma_mod_add_multiples_vanish(op1 - op2, m);
    }
    assert(((op2 - op1 + m) % m) == (op2 - op1) % m) by {
        vstd::arithmetic::div_mod::lemma_mod_add_multiples_vanish(op2 - op1, m);
    }
    assert(((op1 - op2 - 1 + m) % m) == (op1 - op2 - 1) % m) by {
        vstd::arithmetic::div_mod::lemma_mod_add_multiples_vanish(op1 - op2 - 1, m);
    }
    assert(((op2 - op1 - 1 + m) % m) == (op2 - op1 - 1) % m) by {
        vstd::arithmetic::div_mod::lemma_mod_add_multiples_vanish(op2 - op1 - 1, m);
    }
}

/// What the logical ALU operations compute, bit by bit: AND and TST keep
/// the bits set in both operands, EOR and TEQ those set in exactly one, ORR
/// those set in either, BIC those of `op1` not set in `op2`, MOV takes
/// `op2` and MVN its complement; their carry is the shifter's, and they set
/// no overflow.
pub proof fn lemma_alu_logical(op1: u32, op2: u32, op2_carry: bool, carry: bool)
    ensures
        forall|op: u32| #![trigger spec_alu(op, op1, op2, op2_carry, carry)]
            op == 0 || op == 1 || op == 8 || op == 9 || op >= 12 ==> {
                &&& spec_alu(op, op1, op2, op2_carry, carry).1 == op2_carry
                &&& spec_alu(op, op1, op2, op2_carry, carry).2 is None
            },
        spec_alu(0, op1, op2, op2_carry, carry).0 == op1 & op2,
        spec_alu(8, op1, op2, op2_carry, carry).0 == op1 & op2,
        spec_alu(1, op1, op2, op2_carry, carry).0 == op1 ^ op2,
        spec_alu(9, op1, op2, op2_carry, carry).0 == op1 ^ op2,
        spec_alu(1, op1, op2, op2_carry, carry).0 ^ op2 == op1,
        spec_alu(12, op1, op2, op2_carry, carry).0 == op1 | op2,
        spec_alu(13, op1, op2, op2_carry, carry).0 == op2,
        spec_alu(14, op1, op2, op2_carry, carry).0 == op1 & !op2,
        spec_alu(15, op1, op2, op2_carry, carry).0 == !op2,
        spec_alu(15, op1, op2, op2_carry, carry).0 as int == 0xFFFF_FFFF - op2,
{
    lemma_not_u32(op2);
    assert((op1 ^ op2) ^ op2 == op1) by (bit_vector);
}

/// A reverse subtract with an immediate, `RSB rd, rn, #imm` (always run, no
/// flags set): rd becomes `imm - rn` modulo 2^32, so adding rn back gives the
/// immediate; `RSB rd, rn, #0` negates rn. Nothing else but rd changes.
#[verifier::spinoff_prover]
#[verifier::rlimit(40)]
pub proof fn lemma_rsb_immediate<M: CpuInterface>(cpu: Cpu, mem: M, rn: u32, rd: u32, imm: u32)
    requires
        rn < 15,
        rd < 15,
        imm < 0x100,
    ensures
        ({
            let opcode = 0xE260_0000u32 | (rn << 16u32) | (rd << 12u32) | imm;
            let (after, mem2) = spec_execute_arm(cpu, mem, opcode);
            &&& mem2 == mem
            &&& after.reg(rd as int).wrapping_add(cpu.reg(rn as int)) == imm
            &&& after.reg(rd as int) as int == (imm - cpu.reg(rn as int)) % 0x1_0000_0000int
            &&& after == cpu.with_reg(rd as int, after.reg(rd as int))
        }),
{
    let opcode = 0xE260_0000u32 | (rn << 16u32) | (rd << 12u32) | imm;
    assert({
        &&& opcode >> 28u32 == 0xE
        &&& (opcode & crate::cpu::decode::REMOVE_CONDITION_MASK) >> 25u32 == 0b001
        &&& (opcode >> 21u32) & 0xF == 3
        &&& (opcode >> 20u32) & 1 == 0
        &&& (opcode >> 25u32) & 1 == 1
        &&& (opcode >> 16u32) & 0xF == rn
        &&& (opcode >> 12u32) & 0xF == rd
        &&& (opcode >> 8u32) & 0xF == 0
        &&& opcode & 0xFF == imm
    }) by (bit_vector)
        requires
            opcode == 0xE260_0000u32 | (rn << 16u32) | (rd << 12u32) | imm,
            rn < 15,
            rd < 15,
            imm < 0x100;
    assert(spec_decode_arm(opcode) == Some(DecodedArm::DataProcessing));
    assert(spec_check_condition(opcode >> 28u32, cpu.cpsr()));
    assert(spec_execute_arm(cpu, mem, opcode) == (spec_data_processing(cpu, opcode), mem));
    assert(spec_ror(imm, 0) == imm);
    assert(spec_operand2(cpu, opcode).0 == imm);
    let op1 = cpu.reg(rn as int);
    lemma_alu_arithmetic(op1, imm, cpu.cpsr().c, cpu.cpsr().c);
    let r = spec_alu(3, op1, imm, spec_operand2(cpu, opcode).1, cpu.cpsr().c).0;
    assert(r as int == (imm - op1) % 0x1_0000_0000int);
    assert(r.wrapping_add(op1) == imm);
    assert(spec_data_processing(cpu, opcode) == cpu.with_reg(rd as int, r));
}

} // verus!
