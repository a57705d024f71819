//! Execution of THUMB (16-bit) instructions.

use crate::bits::lemma_and_bound_u16;
use vstd::prelude::*;
use crate::bits::{count_ones, spec_count_ones, lemma_count_ones_bound};
use crate::cpu::{add_with_carry, get_shifted_value, lemma_not_u32, spec_add_with_carry, spec_shifted_value};
use crate::cpu::decode::{decode_thumb, spec_decode_thumb, DecodedThumb};
use crate::cpu::execute_arm::{halfword_load, spec_halfword_load, spec_software_interrupt};
use crate::cpu::registers::{
    check_condition, spec_check_condition, spec_same_register, lemma_register_layout, lemma_with_reg_same, Cpsr, Cpu, CpuStatus, Fde,
    ProcessorMode,
};
use crate::mem::bus::CpuInterface;

verus! {

broadcast use crate::cpu::registers::group_register_lemmas;

pub open spec fn tbit(opcode: u16, i: u16) -> bool {
    (opcode >> i) & 1 == 1
}

/// A low-register field of a THUMB opcode (three bits starting at `lo`).
pub open spec fn tfield(opcode: u16, lo: u16) -> int {
    ((opcode >> lo) & 0x7) as int
}

fn low_reg(opcode: u16, lo: u16) -> (r: u8)
    requires
        lo < 16,
    ensures
        r as int == tfield(opcode, lo),
        r < 8,
{
    proof { lemma_and_bound_u16(opcode >> lo, 0x7); }
    ((opcode >> lo) & 0x7) as u8
}

/// The CPSR with N and Z set from a result.
pub open spec fn spec_nz(cpsr: Cpsr, result: u32) -> Cpsr {
    Cpsr { z: result == 0, n: (result >> 31u32) & 1 == 1, ..cpsr }
}

fn set_nz(cpsr: &mut Cpsr, result: u32)
    ensures *final(cpsr) == spec_nz(*old(cpsr), result),
{
    cpsr.z = result == 0;
    cpsr.n = (result >> 31) & 1 == 1;
}

/// The ARM shift operand that a THUMB move-shifted opcode stands for.
pub open spec fn spec_move_shift_operand(opcode: u16) -> u32 {
    (tfield(opcode, 3) as u32) | ((((opcode >> 6u16) & 0x1F) as u32) << 7u32)
        | ((((opcode >> 11u16) & 0b11) as u32) << 5u32)
}

pub open spec fn spec_move_shifted(cpu: Cpu, opcode: u16) -> Cpu {
    let (result, carry) = spec_shifted_value(cpu, spec_move_shift_operand(opcode));
    cpu.with_cpsr(spec_nz(Cpsr { c: carry, ..cpu.cpsr() }, result)).with_reg(tfield(opcode, 0), result)
}

fn move_shifted(opcode: u16, cpu: &mut Cpu)
    ensures
        *final(cpu) == spec_move_shifted(*old(cpu), opcode),
{
    let rs_index = low_reg(opcode, 3);
    let imm = ((opcode >> 6) & 0x1F) as u32;
    let op = ((opcode >> 11) & 0b11) as u32;

    // convert this opcode into the arm version
    // its just easier than doing it all over again
    let shift = (rs_index as u32) | (imm << 7) | (op << 5);
    let (result, carry) = get_shifted_value(cpu, shift);

    cpu.status.cpsr.c = carry;
    set_nz(&mut cpu.status.cpsr, result);

    let rd_index = low_reg(opcode, 0);
    let rd = cpu.get_register_mut(rd_index);
    *rd = result;
}

/// The CPSR with all four flags from an addition.
pub open spec fn spec_nzcv(cpsr: Cpsr, sum: (u32, bool, bool, bool, bool)) -> Cpsr {
    Cpsr { n: sum.1, z: sum.2, c: sum.3, v: sum.4, ..cpsr }
}

pub open spec fn spec_add_sub(cpu: Cpu, opcode: u16) -> Cpu {
    let rs = cpu.reg(tfield(opcode, 3));
    let value = tfield(opcode, 6);
    let offset: u32 = if tbit(opcode, 10) { value as u32 } else { cpu.reg(value) };
    let sub = tbit(opcode, 9);
    let sum = spec_add_with_carry(rs, if sub { !offset } else { offset }, sub);
    cpu.with_cpsr(spec_nzcv(cpu.cpsr(), sum)).with_reg(tfield(opcode, 0), sum.0)
}

fn set_nzcv(cpsr: &mut Cpsr, sum: (u32, bool, bool, bool, bool))
    ensures *final(cpsr) == spec_nzcv(*old(cpsr), sum),
{
    cpsr.n = sum.1;
    cpsr.z = sum.2;
    cpsr.c = sum.3;
    cpsr.v = sum.4;
}

fn add_sub(opcode: u16, cpu: &mut Cpu)
    ensures
        *final(cpu) == spec_add_sub(*old(cpu), opcode),
{
    let rd_index = low_reg(opcode, 0);
    let rs_index = low_reg(opcode, 3);
    let rs = cpu.get_register(rs_index);
    let value = low_reg(opcode, 6);

    let i_bit = (opcode >> 10) & 1 == 1;
    let mut offset = if i_bit { value as u32 } else { cpu.get_register(value) };

    let op = (opcode >> 9) & 1 == 1;
    if op {
        offset = !offset;
    }

    // the op must be 1 for sub and 0 for add
    let sum = add_with_carry(rs, offset, op);
    set_nzcv(&mut cpu.status.cpsr, sum);

    let rd = cpu.get_register_mut(rd_index);
    *rd = sum.0;
}

pub open spec fn spec_alu_imm(cpu: Cpu, opcode: u16) -> Cpu {
    let rd_index = tfield(opcode, 8);
    let op = (opcode >> 11u16) & 0x3;
    let rd: u32 = if op == 0 { 0 } else { cpu.reg(rd_index) };
    let imm = (opcode & 0xFF) as u32;
    let offset = if op == 1 || op == 3 { !imm } else { imm };
    let sum = spec_add_with_carry(rd, offset, op & 1 == 1);
    let flagged = if op != 0 {
        Cpsr { n: sum.1, z: sum.2, c: sum.3, v: sum.4, ..cpu.cpsr() }
    } else {
        Cpsr { n: sum.1, z: sum.2, ..cpu.cpsr() }
    };
    let updated = cpu.with_cpsr(flagged);
    // CMP doesnt change the value
    if op == 1 { updated } else { updated.with_reg(rd_index, sum.0) }
}

fn alu_imm(opcode: u16, cpu: &mut Cpu)
    ensures
        *final(cpu) == spec_alu_imm(*old(cpu), opcode),
{
    let rd_index = low_reg(opcode, 8);

    let mut rd = cpu.get_register(rd_index);
    let mut offset = (opcode as u32) & 0xFF;
    assert((opcode as u32) & 0xFFu32 == (opcode & 0xFFu16) as u32) by (bit_vector);

    let op = (opcode >> 11) & 0x3;
    if op == 0 {
        // mov is the same as rd = 0 + offset
        rd = 0;
    } else if op == 1 || op == 3 {
        // subtraction
        offset = !offset;
    }
    let sum = add_with_carry(rd, offset, op & 1 == 1);

    if op != 0 {
        set_nzcv(&mut cpu.status.cpsr, sum);
    } else {
        cpu.status.cpsr.z = sum.2;
        cpu.status.cpsr.n = sum.1;
    }

    // CMP doesnt change the value
    if op == 1 {
        return;
    }
    let rd = cpu.get_register_mut(rd_index);
    *rd = sum.0;
}

/// The ARM register-shift operand for a THUMB shift of `rd` by `rs`.
pub open spec fn spec_alu_shift_operand(rs_index: int, code: u32, rd_index: int) -> u32 {
    ((rs_index as u32 & 0xF) << 8u32) | (code << 4u32) | (rd_index as u32 & 0xF)
}

/// The THUMB ALU operations: the result, the carry, and the new overflow
/// flag of the arithmetic ones.
pub open spec fn spec_thumb_alu(cpu: Cpu, op: u16, rd_index: int, rs_index: int) -> (u32, bool, Option<bool>) {
    let rd = cpu.reg(rd_index);
    let rs = cpu.reg(rs_index);
    let c = cpu.cpsr().c;
    if op == 0x0 || op == 0x8 {
        (rd & rs, c, None)
    } else if op == 0x1 {
        (rd ^ rs, c, None)
    } else if op == 0x2 || op == 0x3 || op == 0x4 || op == 0x7 {
        let code: u32 = if op == 0x2 { 0b0001 } else if op == 0x3 { 0b0011 } else if op == 0x4 { 0b0101 } else { 0b0111 };
        let (r, carry) = spec_shifted_value(cpu, spec_alu_shift_operand(rs_index, code, rd_index));
        (r, carry, None)
    } else if op == 0x5 {
        let (r, _, _, carry, v) = spec_add_with_carry(rs, rd, c);
        (r, carry, Some(v))
    } else if op == 0x6 {
        let (r, _, _, carry, v) = spec_add_with_carry(rd, !rs, c);
        (r, carry, Some(v))
    } else if op == 0x9 {
        let (r, _, _, carry, v) = spec_add_with_carry(0, !rs, true);
        (r, carry, Some(v))
    } else if op == 0xA {
        let (r, _, _, carry, v) = spec_add_with_carry(rd, !rs, true);
        (r, carry, Some(v))
    } else if op == 0xB {
        let (r, _, _, carry, v) = spec_add_with_carry(rd, rs, false);
        (r, carry, Some(v))
    } else if op == 0xC {
        (rd | rs, c, None)
    } else if op == 0xD {
        let product = rs as int * rd as int;
        ((product % 0x1_0000_0000) as u32, !(product > u32::MAX), None)
    } else if op == 0xE {
        (rd & !rs, c, None)
    } else {
        (!rs, c, None)
    }
}

fn thumb_alu(cpu: &Cpu, op: u16, rd_index: u8, rs_index: u8) -> (r: (u32, bool, Option<bool>))
    requires
        op < 16,
        rd_index < 8,
        rs_index < 8,
    ensures
        r == spec_thumb_alu(*cpu, op, rd_index as int, rs_index as int),
{
    let rd = cpu.get_register(rd_index);
    let rs = cpu.get_register(rs_index);
    let c = cpu.status.cpsr.c;
    if op == 0x0 || op == 0x8 {
        (rd & rs, c, None) // and, tst
    } else if op == 0x1 {
        (rd ^ rs, c, None) // eor
    } else if op == 0x2 || op == 0x3 || op == 0x4 || op == 0x7 {
        // lsl, lsr, asr and ror go through the barrel shifter
        let code: u32 = if op == 0x2 { 0b0001 } else if op == 0x3 { 0b0011 } else if op == 0x4 { 0b0101 } else { 0b0111 };
        let sent_opcode = (rs_index as u32 & 0xF) << 8 | code << 4 | rd_index as u32 & 0xF;
        let (r, carry) = get_shifted_value(cpu, sent_opcode);
        (r, carry, None)
    } else if op == 0x5 {
        let (result, _, _, carry, v) = add_with_carry(rs, rd, c);
        (result, carry, Some(v)) // adc
    } else if op == 0x6 {
        let (result, _, _, carry, v) = add_with_carry(rd, !rs, c);
        (result, carry, Some(v)) // sbc
    } else if op == 0x9 {
        let (result, _, _, carry, v) = add_with_carry(0, !rs, true);
        (result, carry, Some(v)) // neg
    } else if op == 0xA {
        let (result, _, _, carry, v) = add_with_carry(rd, !rs, true);
        (result, carry, Some(v)) // cmp
    } else if op == 0xB {
        let (result, _, _, carry, v) = add_with_carry(rd, rs, false);
        (result, carry, Some(v)) // cmn
    } else if op == 0xC {
        (rd | rs, c, None) // orr
    } else if op == 0xD {
        // mul
        assert(rs as u64 * rd as u64 <= u64::MAX) by (nonlinear_arith)
            requires rs <= u32::MAX, rd <= u32::MAX;
        let product = rs as u64 * rd as u64;
        ((product % 0x1_0000_0000) as u32, !(product > u32::MAX as u64), None)
    } else if op == 0xE {
        (rd & !rs, c, None) // bic
    } else {
        (!rs, c, None) // mvn
    }
}

/// The CPSR after a THUMB ALU operation (MUL leaves the carry alone).
pub open spec fn spec_thumb_alu_flags(cpsr: Cpsr, op: u16, result: u32, alu_carry: bool, overflow: Option<bool>) -> Cpsr {
    let with_v = match overflow { Some(v) => Cpsr { v, ..cpsr }, None => cpsr };
    let with_c = if op != 0xD { Cpsr { c: alu_carry, ..with_v } } else { with_v };
    spec_nz(with_c, result)
}

fn set_thumb_alu_flags(cpsr: &mut Cpsr, op: u16, result: u32, alu_carry: bool, overflow: Option<bool>)
    ensures *final(cpsr) == spec_thumb_alu_flags(*old(cpsr), op, result, alu_carry, overflow),
{
    if let Some(v) = overflow {
        cpsr.v = v;
    }
    // all of the instructions that could change the overflow flag already have
    if op != 0xD {
        cpsr.c = alu_carry;
    }
    set_nz(cpsr, result);
}

pub open spec fn spec_alu_ops(cpu: Cpu, opcode: u16) -> Cpu {
    let rd_index = tfield(opcode, 0);
    let rs_index = tfield(opcode, 3);
    let op = (opcode >> 6u16) & 0xF;
    let (result, alu_carry, overflow) = spec_thumb_alu(cpu, op, rd_index, rs_index);
    let flagged = cpu.with_cpsr(spec_thumb_alu_flags(cpu.cpsr(), op, result, alu_carry, overflow));
    if op == 0x8 || op == 0xA || op == 0xB { flagged } else { flagged.with_reg(rd_index, result) }
}

fn alu_ops(opcode: u16, cpu: &mut Cpu)
    ensures
        *final(cpu) == spec_alu_ops(*old(cpu), opcode),
{
    let rd_index = low_reg(opcode, 0);
    let rs_index = low_reg(opcode, 3);

    let op = (opcode >> 6) & 0xF;
    proof { lemma_and_bound_u16(opcode >> 6u16, 0xF); }
    let undo = op == 0x8 || op == 0xA || op == 0xB;
    let (result, alu_carry, overflow) = thumb_alu(cpu, op, rd_index, rs_index);
    set_thumb_alu_flags(&mut cpu.status.cpsr, op, result, alu_carry, overflow);
    if undo {
        return;
    }

    let rd = cpu.get_register_mut(rd_index);
    *rd = result;
}

/// BX: jump to `rs` with its low bit cleared; a clear low bit switches to ARM.
pub open spec fn spec_thumb_bx(cpu: Cpu, rs: u32) -> Cpu {
    let jumped = cpu.with_reg(15, rs & !1u32);
    let switched = if rs & 1 == 1 { jumped } else { jumped.with_cpsr(Cpsr { t: false, ..jumped.cpsr() }) };
    switched.cleared()
}

fn thumb_bx(cpu: &mut Cpu, rs: u32)
    ensures *final(cpu) == spec_thumb_bx(*old(cpu), rs),
{
    let pc = cpu.get_register_mut(15);
    *pc = rs & !(0x1);
    if rs & 1 != 1 {
        // swapping to arm mode
        cpu.status.cpsr.t = false;
    }
    cpu.clear_pipeline();
}

/// A write of a high-register operation: to r15 it is halfword aligned and
/// empties the pipeline.
pub open spec fn spec_hi_write(cpu: Cpu, rd_index: int, result: u32) -> Cpu {
    if rd_index == 15 {
        cpu.with_reg(rd_index, result & !1u32).cleared()
    } else {
        cpu.with_reg(rd_index, result)
    }
}

fn hi_write(cpu: &mut Cpu, rd_index: u8, result: u32)
    requires rd_index < 16,
    ensures *final(cpu) == spec_hi_write(*old(cpu), rd_index as int, result),
{
    let rd = cpu.get_register_mut(rd_index);
    *rd = result;
    if rd_index == 15 {
        *rd = *rd & !(0b1);
        cpu.clear_pipeline();
    }
}

pub open spec fn spec_hi_ops(cpu: Cpu, opcode: u16) -> Cpu {
    let rs_index = tfield(opcode, 3) + if tbit(opcode, 6) { 8int } else { 0int };
    let rd_index = tfield(opcode, 0) + if tbit(opcode, 7) { 8int } else { 0int };
    let op = (opcode >> 8u16) & 0b11;
    let rs = cpu.reg(rs_index);
    let rd = cpu.reg(rd_index);
    if op == 0b01 {
        cpu.with_cpsr(spec_nzcv(cpu.cpsr(), spec_add_with_carry(rd, !rs, true)))
    } else if op == 0b11 {
        spec_thumb_bx(cpu, rs)
    } else {
        spec_hi_write(cpu, rd_index, if op == 0b00 { rd.wrapping_add(rs) } else { rs })
    }
}

fn hi_ops(opcode: u16, cpu: &mut Cpu)
    ensures
        *final(cpu) == spec_hi_ops(*old(cpu), opcode),
{
    let mut rs_index = low_reg(opcode, 3);
    let mut rd_index = low_reg(opcode, 0);

    let h1 = (opcode >> 7) & 1 == 1;
    let h2 = (opcode >> 6) & 1 == 1;

    if h1 {
        rd_index += 8;
    }
    if h2 {
        rs_index += 8;
    }

    let op = (opcode >> 8) & 0b11;
    let rs = cpu.get_register(rs_index);
    let rd = cpu.get_register(rd_index);

    if op == 0b01 {
        let sum = add_with_carry(rd, !rs, true);
        set_nzcv(&mut cpu.status.cpsr, sum);
    } else if op == 0b11 {
        thumb_bx(cpu, rs);
    } else {
        let result = if op == 0b00 { rd.wrapping_add(rs) } else { rs };
        hi_write(cpu, rd_index, result);
    }
}

pub open spec fn spec_pc_relative_load<M: CpuInterface>(cpu: Cpu, memory: M, opcode: u16) -> Cpu {
    let imm = ((opcode & 0xFF) as u32) << 2u32;
    let address = (cpu.reg(15) & 0xFFFF_FFFC).wrapping_add(imm);
    cpu.with_reg(tfield(opcode, 8), memory.spec_read_u32_rotated(address))
}

fn pc_relative_load<M: CpuInterface>(opcode: u16, cpu: &mut Cpu, memory: &mut M)
    requires
        old(memory).inv(),
    ensures
        *final(memory) == *old(memory),
        *final(cpu) == spec_pc_relative_load(*old(cpu), *old(memory), opcode),
{
    let rd_index = low_reg(opcode, 8);
    let imm = ((opcode & 0xFF) as u32) << 2;

    let pc = cpu.get_register(15) & 0xFFFFFFFC;
    let address = pc.wrapping_add(imm);
    let read = memory.read_u32_rotated(address);

    let rd = cpu.get_register_mut(rd_index);
    *rd = read;
}

/// Load/store with a register or a five-bit immediate offset.
pub open spec fn spec_mem_offset<M: CpuInterface>(cpu: Cpu, memory: M, opcode: u16, uses_imm: bool) -> (Cpu, M) {
    let rd_index = tfield(opcode, 0);
    let rb = cpu.reg(tfield(opcode, 3));
    let l_bit = tbit(opcode, 11);
    let b_bit = if uses_imm { tbit(opcode, 12) } else { tbit(opcode, 10) };
    let address = if uses_imm {
        let imm = ((opcode >> 6u16) & 0b1_1111) as u32;
        if b_bit { rb.wrapping_add(imm) } else { rb.wrapping_add(imm << 2u32) }
    } else {
        rb.wrapping_add(cpu.reg(tfield(opcode, 6)))
    };
    if l_bit {
        let data = if b_bit { memory.spec_read_u8(address) as u32 } else { memory.spec_read_u32_rotated(address) };
        (cpu.with_reg(rd_index, data), memory)
    } else {
        let rd = cpu.reg(rd_index);
        (cpu, if b_bit { memory.spec_write_u8(address, rd as u8) } else { memory.spec_write_u32(address, rd) })
    }
}

fn mem_offset<M: CpuInterface>(opcode: u16, cpu: &mut Cpu, memory: &mut M, uses_imm: bool)
    requires
        old(memory).inv(),
    ensures
        final(memory).inv(),
        (*final(cpu), *final(memory)) == spec_mem_offset(*old(cpu), *old(memory), opcode, uses_imm),
{
    let rb_index = low_reg(opcode, 3);
    let rd_index = low_reg(opcode, 0);

    let rb = cpu.get_register(rb_index);

    let l_bit = (opcode >> 11) & 1 == 1;
    let (address, b_bit);
    if uses_imm {
        b_bit = (opcode >> 12) & 1 == 1;
        let imm = ((opcode >> 6) & 0b1_1111) as u32;
        if b_bit {
            address = rb.wrapping_add(imm);
        } else {
            address = rb.wrapping_add(imm << 2);
        }
    } else {
        b_bit = (opcode >> 10) & 1 == 1;
        let ro_index = low_reg(opcode, 6);
        let ro = cpu.get_register(ro_index);
        address = rb.wrapping_add(ro);
    }

    if l_bit {
        let data = if b_bit { memory.read_u8(address) as u32 } else { memory.read_u32_rotated(address) };
        let rd = cpu.get_register_mut(rd_index);
        *rd = data;
    } else {
        let rd = cpu.get_register(rd_index);
        if b_bit {
            memory.write_u8(address, rd as u8);
        } else {
            memory.write_u32(address, rd);
        }
    }
}

pub open spec fn spec_mem_sign_extended<M: CpuInterface>(cpu: Cpu, memory: M, opcode: u16) -> (Cpu, M) {
    let rd_index = tfield(opcode, 0);
    let address = cpu.reg(tfield(opcode, 6)).wrapping_add(cpu.reg(tfield(opcode, 3)));
    let sh = (opcode >> 10u16) & 0b11;
    if sh == 0b00 {
        // STRH
        (cpu, memory.spec_write_u16(address, cpu.reg(rd_index) as u16))
    } else {
        // LDRH, LDSB, LDSH
        (cpu.with_reg(rd_index, spec_halfword_load(memory, address, tbit(opcode, 10), tbit(opcode, 11))), memory)
    }
}

fn mem_sign_extended<M: CpuInterface>(opcode: u16, cpu: &mut Cpu, memory: &mut M)
    requires
        old(memory).inv(),
    ensures
        final(memory).inv(),
        (*final(cpu), *final(memory)) == spec_mem_sign_extended(*old(cpu), *old(memory), opcode),
{
    let ro_index = low_reg(opcode, 6);
    let rb_index = low_reg(opcode, 3);
    let rd_index = low_reg(opcode, 0);

    let ro = cpu.get_register(ro_index);
    let rb = cpu.get_register(rb_index);

    let address = ro.wrapping_add(rb);
    let sh = (opcode >> 10) & 0b11;
    if sh == 0b00 {
        // STRH
        let rd = cpu.get_register(rd_index);
        memory.write_u16(address, rd as u16);
    } else {
        assert(((opcode >> 10u16) & 0b11 != 0) ==> ((opcode >> 10u16) & 1 == 1 || (opcode >> 11u16) & 1 == 1))
            by (bit_vector);
        let data = halfword_load(memory, address, (opcode >> 10) & 1 == 1, (opcode >> 11) & 1 == 1);
        let rd = cpu.get_register_mut(rd_index);
        *rd = data;
    }
}

pub open spec fn spec_mem_halfword<M: CpuInterface>(cpu: Cpu, memory: M, opcode: u16) -> (Cpu, M) {
    let rd_index = tfield(opcode, 0);
    let imm = ((((opcode >> 6u16) & 0b11111) << 1u16) as u32);
    let address = cpu.reg(tfield(opcode, 3)).wrapping_add(imm);
    if tbit(opcode, 11) {
        (cpu.with_reg(rd_index, spec_halfword_load(memory, address, false, true)), memory)
    } else {
        (cpu, memory.spec_write_u16(address, cpu.reg(rd_index) as u16))
    }
}

fn mem_halfword<M: CpuInterface>(opcode: u16, cpu: &mut Cpu, memory: &mut M)
    requires
        old(memory).inv(),
    ensures
        final(memory).inv(),
        (*final(cpu), *final(memory)) == spec_mem_halfword(*old(cpu), *old(memory), opcode),
{
    let rd_index = low_reg(opcode, 0);
    let rb_index = low_reg(opcode, 3);

    let imm = ((opcode >> 6) & 0b11111) << 1;
    let rb = cpu.get_register(rb_index);

    let address = rb.wrapping_add(imm as u32);

    let l_bit = (opcode >> 11) & 1 == 1;
    if l_bit {
        let data = halfword_load(memory, address, false, true);
        let rd = cpu.get_register_mut(rd_index);
        *rd = data;
    } else {
        let rd = cpu.get_register(rd_index);
        memory.write_u16(address, rd as u16);
    }
}

pub open spec fn spec_mem_sp_relative<M: CpuInterface>(cpu: Cpu, memory: M, opcode: u16) -> (Cpu, M) {
    let rd_index = tfield(opcode, 8);
    let address = cpu.reg(13).wrapping_add(((opcode & 0xFF) << 2u16) as u32);
    if tbit(opcode, 11) {
        (cpu.with_reg(rd_index, memory.spec_read_u32_rotated(address)), memory)
    } else {
        (cpu, memory.spec_write_u32(address, cpu.reg(rd_index)))
    }
}

fn mem_sp_relative<M: CpuInterface>(opcode: u16, cpu: &mut Cpu, memory: &mut M)
    requires
        old(memory).inv(),
    ensures
        final(memory).inv(),
        (*final(cpu), *final(memory)) == spec_mem_sp_relative(*old(cpu), *old(memory), opcode),
{
    let rd_index = low_reg(opcode, 8);
    let imm = opcode & 0xFF;

    let sp = cpu.get_register(13);
    let address = sp.wrapping_add((imm << 2) as u32);

    let l_bit = (opcode >> 11) & 1 == 1;
    if l_bit {
        let data = memory.read_u32_rotated(address);
        let rd = cpu.get_register_mut(rd_index);
        *rd = data;
    } else {
        let rd = cpu.get_register(rd_index);
        memory.write_u32(address, rd);
    }
}

pub open spec fn spec_load_address(cpu: Cpu, opcode: u16) -> Cpu {
    let imm = ((opcode & 0xFF) << 2u16) as u32;
    let src = if tbit(opcode, 11) { cpu.reg(13) } else { cpu.reg(15) & !3u32 };
    cpu.with_reg(tfield(opcode, 8), src.wrapping_add(imm))
}

fn load_address(opcode: u16, cpu: &mut Cpu)
    ensures
        *final(cpu) == spec_load_address(*old(cpu), opcode),
{
    let imm = (opcode & 0xFF) << 2;
    let rd_index = low_reg(opcode, 8);

    let sp_bit = (opcode >> 11) & 1 == 1;
    let src = if sp_bit { cpu.get_register(13) } else { cpu.get_register(15) & !(0b11) };

    let address = src.wrapping_add(imm as u32);
    let rd = cpu.get_register_mut(rd_index);
    *rd = address;
}

pub open spec fn spec_offset_sp(cpu: Cpu, opcode: u16) -> Cpu {
    let offset = ((opcode as u32) & 0x7F) << 2u32;
    let sp = cpu.reg(13);
    cpu.with_reg(13, if tbit(opcode, 7) { sp.wrapping_sub(offset) } else { sp.wrapping_add(offset) })
}

fn offset_sp(opcode: u16, cpu: &mut Cpu)
    ensures
        *final(cpu) == spec_offset_sp(*old(cpu), opcode),
{
    let offset = (opcode as u32 & 0x7F) << 2;
    let s_bit = (opcode >> 7) & 1 == 1;

    let sp = cpu.get_register_mut(13);
    if s_bit {
        *sp = sp.wrapping_sub(offset);
    } else {
        *sp = sp.wrapping_add(offset);
    }
}

pub open spec fn spec_unconditional_branch(cpu: Cpu, opcode: u16) -> Cpu {
    let offset = ((opcode as u32) & 0x3FF) << 1u32;
    let offset = if tbit(opcode, 10) { offset | 0xFFFF_F800 } else { offset };
    cpu.with_reg(15, cpu.reg(15).wrapping_add_signed(offset as i32)).cleared()
}

fn unconditional_branch(opcode: u16, cpu: &mut Cpu)
    ensures
        *final(cpu) == spec_unconditional_branch(*old(cpu), opcode),
{
    let mut offset = (opcode as u32 & 0x3FF) << 1;
    if (opcode >> 10) & 1 == 1 {
        offset |= 0xFFFFF800;
    }

    let pc = cpu.get_register_mut(15);
    *pc = pc.wrapping_add_signed(offset as i32);
    cpu.clear_pipeline();
}

pub open spec fn spec_conditional_branch(cpu: Cpu, opcode: u16) -> Cpu {
    let condition = ((opcode >> 8u16) & 0xF) as u32;
    if !spec_check_condition(condition, cpu.cpsr()) {
        cpu
    } else {
        let offset = ((opcode & 0xFF) as u32) << 1u32;
        let offset = if (offset >> 8u32) & 1 == 1 { offset | 0xFFFF_FF00 } else { offset };
        cpu.with_reg(15, cpu.reg(15).wrapping_add_signed(offset as i32)).cleared()
    }
}

fn conditional_branch(opcode: u16, cpu: &mut Cpu)
    ensures
        *final(cpu) == spec_conditional_branch(*old(cpu), opcode),
{
    let condition = (opcode >> 8) & 0xF;
    proof { lemma_and_bound_u16(opcode >> 8u16, 0xF); }
    if !check_condition(condition as u32, &cpu.status.cpsr) {
        return;
    }

    let pc = cpu.get_register_mut(15);
    let mut offset = (opcode & 0xFF) as u32;
    offset <<= 1;
    if (offset >> 8) & 1 == 1 {
        offset |= 0xFFFFFF00;
    }
    *pc = pc.wrapping_add_signed(offset as i32);
    cpu.clear_pipeline();
}

pub open spec fn spec_long_branch_link(cpu: Cpu, opcode: u16) -> Cpu {
    let offset = (opcode as u32) & 0x7FF;
    if !tbit(opcode, 11) {
        let extended = if (offset >> 10u32) & 1 == 1 { offset | 0xFFFF_F800 } else { offset };
        cpu.with_reg(14, cpu.reg(15).wrapping_add(extended << 12u32))
    } else {
        let lr = cpu.reg(14);
        let temp = cpu.reg(15).wrapping_sub(2);
        let jumped = cpu.with_reg(15, lr.wrapping_add(offset << 1u32) & !1u32);
        jumped.with_reg(14, temp | 1).cleared()
    }
}

fn long_branch_link(opcode: u16, cpu: &mut Cpu)
    ensures
        *final(cpu) == spec_long_branch_link(*old(cpu), opcode),
{
    let mut offset = opcode as u32 & 0x7FF;
    let h_bit = (opcode >> 11) & 1 == 1;

    if !h_bit {
        if (offset >> 10) & 1 == 1 {
            offset |= 0xFFFFF800;
        }
        offset <<= 12;

        let pc = cpu.get_register(15);
        let lr = cpu.get_register_mut(14);
        *lr = pc.wrapping_add(offset);
    } else {
        offset <<= 1;
        let lr = cpu.get_register(14);
        let pc = cpu.get_register_mut(15);

        let temp = pc.wrapping_sub(2);
        *pc = lr.wrapping_add(offset);
        *pc = *pc & !1; // clear the last bit
        let lr = cpu.get_register_mut(14);
        *lr = temp | 1;
        cpu.clear_pipeline();
    }
}

/// The THUMB SWI: the ARM entry sequence, with the return address two bytes
/// back, and the processor switched to ARM.
pub open spec fn spec_thumb_software_interrupt(cpu: Cpu) -> Cpu {
    let saved = Cpu {
        status: CpuStatus {
            spsr: vstd::array::spec_array_update(cpu.status.spsr, 1, cpu.cpsr()),
            ..cpu.status
        },
        ..cpu
    };
    let svc = saved.with_cpsr(Cpsr { mode: ProcessorMode::Supervisor, i: true, ..saved.cpsr() });
    let linked = svc.with_reg(14, svc.reg(15).wrapping_sub(2));
    let jumped = linked.with_reg(15, 0x08).cleared();
    jumped.with_cpsr(Cpsr { t: false, ..jumped.cpsr() })
}

fn software_interrupt(cpu: &mut Cpu)
    ensures
        *final(cpu) == spec_thumb_software_interrupt(*old(cpu)),
{
    let cpsr = cpu.status.cpsr;
    cpu.status.set_specific_spsr(cpsr, ProcessorMode::Supervisor);
    cpu.status.cpsr.mode = ProcessorMode::Supervisor;
    cpu.status.cpsr.i = true;

    let pc = cpu.get_register(15);
    let lr = cpu.get_register_mut(14);
    *lr = pc.wrapping_sub(2);

    let pc = cpu.get_register_mut(15);
    *pc = 0x08;
    cpu.clear_pipeline();
    cpu.status.cpsr.t = false;
}

/// The state that the register loops of PUSH/POP and LDMIA/STMIA carry.
pub struct MultiState<M> {
    pub cpu: Cpu,
    pub memory: M,
    pub extra: u32,
    pub first_run: bool,
}

/// POP of register `k` (when it is in the list) from `rn + extra`.
pub open spec fn spec_pop_step<M: CpuInterface>(st: MultiState<M>, rlist: u16, rn: u32, k: u16) -> MultiState<M> {
    if (rlist >> k) & 1 != 1 {
        st
    } else {
        MultiState {
            cpu: st.cpu.with_reg(k as int, st.memory.spec_read_u32_unrotated(rn.wrapping_add(st.extra))),
            extra: st.extra.wrapping_add(4),
            ..st
        }
    }
}

pub open spec fn spec_pop_upto<M: CpuInterface>(st: MultiState<M>, rlist: u16, rn: u32, n: nat) -> MultiState<M>
    decreases n,
{
    if n == 0 { st } else { spec_pop_step(spec_pop_upto(st, rlist, rn, (n - 1) as nat), rlist, rn, (n - 1) as u16) }
}

/// PUSH of register `k` (when it is in the list) to `rn - extra`.
pub open spec fn spec_push_step<M: CpuInterface>(st: MultiState<M>, rlist: u16, rn: u32, k: u16) -> MultiState<M> {
    if (rlist >> k) & 1 != 1 {
        st
    } else {
        MultiState {
            memory: st.memory.spec_write_u32(rn.wrapping_sub(st.extra), st.cpu.reg(k as int)),
            extra: st.extra.wrapping_sub(4),
            ..st
        }
    }
}

pub open spec fn spec_push_upto<M: CpuInterface>(st: MultiState<M>, rlist: u16, rn: u32, n: nat) -> MultiState<M>
    decreases n,
{
    if n == 0 { st } else { spec_push_step(spec_push_upto(st, rlist, rn, (n - 1) as nat), rlist, rn, (n - 1) as u16) }
}

pub open spec fn spec_push_pop<M: CpuInterface>(cpu: Cpu, memory: M, opcode: u16) -> (Cpu, M) {
    let rlist = opcode & 0xFF;
    let l_bit = tbit(opcode, 11);
    let r_bit = tbit(opcode, 8);
    let rn = cpu.reg(13);
    if rlist == 0 && !r_bit {
        let jumped = if l_bit { cpu.with_reg(15, memory.spec_read_u32_unrotated(rn)).cleared() } else { cpu };
        let moved = jumped.with_reg(13, if l_bit { rn.wrapping_add(0x40) } else { rn.wrapping_sub(0x40) });
        let stored = if !l_bit { memory.spec_write_u32(rn.wrapping_sub(0x40), moved.reg(15).wrapping_add(2)) } else { memory };
        (moved, stored)
    } else if l_bit {
        let st = spec_pop_upto(MultiState { cpu, memory, extra: 0, first_run: true }, rlist, rn, 8);
        let (c, extra) = if r_bit {
            let change = st.memory.spec_read_u32_unrotated(rn.wrapping_add(st.extra));
            (st.cpu.with_reg(15, change & !1u32).cleared(), st.extra.wrapping_add(4))
        } else {
            (st.cpu, st.extra)
        };
        (c.with_reg(13, c.reg(13).wrapping_add(extra)), st.memory)
    } else {
        let saved = ((spec_count_ones(rlist as u32, 32) + if r_bit { 1nat } else { 0nat }) * 4) as u32;
        let st = spec_push_upto(MultiState { cpu, memory, extra: saved, first_run: true }, rlist, rn, 8);
        let m = if r_bit { st.memory.spec_write_u32(rn.wrapping_sub(st.extra), cpu.reg(14)) } else { st.memory };
        (cpu.with_reg(13, cpu.reg(13).wrapping_sub(saved)), m)
    }
}

#[verifier::rlimit(30)]
fn push_pop<M: CpuInterface>(opcode: u16, cpu: &mut Cpu, memory: &mut M)
    requires
        old(memory).inv(),
    ensures
        final(memory).inv(),
        (*final(cpu), *final(memory)) == spec_push_pop(*old(cpu), *old(memory), opcode),
{
    let rlist = opcode & 0xFF;
    let l_bit = (opcode >> 11) & 1 == 1;
    let r_bit = (opcode >> 8) & 1 == 1;

    let rn = cpu.get_register(13);
    if rlist == 0 && !r_bit {
        if l_bit {
            let new_pc = memory.read_u32_unrotated(rn);
            let pc = cpu.get_register_mut(15);
            *pc = new_pc;
            cpu.clear_pipeline();
        }
        let sp_mut = cpu.get_register_mut(13);
        *sp_mut = if l_bit { rn.wrapping_add(0x40) } else { rn.wrapping_sub(0x40) };
        if !l_bit {
            let pc = cpu.get_register(15);
            memory.write_u32(rn.wrapping_sub(0x40), pc.wrapping_add(2));
        }
        return;
    }

    let ghost cpu0 = *cpu;
    let ghost mem0 = *memory;
    let mut extra: u32 = 0;
    if l_bit {
        // pop increments
        let mut next_r: u16 = 0;
        while next_r < 8
            invariant
                next_r <= 8,
                memory.inv(),
                *memory == mem0,
                rlist == opcode & 0xFF,
                rn == cpu0.reg(13),
                spec_pop_upto(MultiState { cpu: cpu0, memory: mem0, extra: 0, first_run: true }, rlist, rn, next_r as nat)
                    == (MultiState { cpu: *cpu, memory: *memory, extra, first_run: true }),
            decreases 8 - next_r,
        {
            if (rlist >> next_r) & 1 == 1 {
                let change = memory.read_u32_unrotated(rn.wrapping_add(extra));
                let reg = cpu.get_register_mut(next_r as u8);
                *reg = change;
                extra = extra.wrapping_add(4);
            }
            next_r += 1;
        }
        if r_bit {
            let change = memory.read_u32_unrotated(rn.wrapping_add(extra));
            let reg = cpu.get_register_mut(15);
            *reg = change & !(1);
            cpu.clear_pipeline();
            extra = extra.wrapping_add(4);
        }
        let sp = cpu.get_register_mut(13);
        *sp = sp.wrapping_add(extra);
    } else {
        // push
        let ones = count_ones(rlist as u32);
        proof { lemma_count_ones_bound(rlist as u32, 32); }
        let saved = (ones + if r_bit { 1u32 } else { 0u32 }) * 4;
        extra = saved;

        let mut next_r: u16 = 0;
        while next_r < 8
            invariant
                next_r <= 8,
                memory.inv(),
                *cpu == cpu0,
                rlist == opcode & 0xFF,
                rn == cpu0.reg(13),
                spec_push_upto(MultiState { cpu: cpu0, memory: mem0, extra: saved, first_run: true }, rlist, rn, next_r as nat)
                    == (MultiState { cpu: *cpu, memory: *memory, extra, first_run: true }),
            decreases 8 - next_r,
        {
            if (rlist >> next_r) & 1 == 1 {
                let reg = cpu.get_register(next_r as u8);
                memory.write_u32(rn.wrapping_sub(extra), reg);
                extra = extra.wrapping_sub(4);
            }
            next_r += 1;
        }
        if r_bit {
            let reg = cpu.get_register(14);
            memory.write_u32(rn.wrapping_sub(extra), reg);
        }
        let sp = cpu.get_register_mut(13);
        *sp = sp.wrapping_sub(saved);
    }
}

/// LDMIA of register `k` (when it is in the list) from `rn + extra`.
pub open spec fn spec_ldmia_step<M: CpuInterface>(st: MultiState<M>, rlist: u16, rn: u32, k: u16) -> MultiState<M> {
    spec_pop_step(st, rlist, rn, k)
}

/// STMIA of register `k` (when it is in the list) to `rn + extra`; the base
/// is written back first when it is stored after another register.
pub open spec fn spec_stmia_step<M: CpuInterface>(st: MultiState<M>, rlist: u16, rn: u32, rn_index: int, end_result: u32, k: u16) -> MultiState<M> {
    if (rlist >> k) & 1 != 1 {
        st
    } else {
        let c = if !st.first_run && k as int == rn_index { st.cpu.with_reg(rn_index, end_result) } else { st.cpu };
        MultiState {
            cpu: c,
            memory: st.memory.spec_write_u32(rn.wrapping_add(st.extra), c.reg(k as int)),
            extra: st.extra.wrapping_add(4),
            first_run: false,
        }
    }
}

pub open spec fn spec_stmia_upto<M: CpuInterface>(st: MultiState<M>, rlist: u16, rn: u32, rn_index: int, end_result: u32, n: nat) -> MultiState<M>
    decreases n,
{
    if n == 0 {
        st
    } else {
        spec_stmia_step(spec_stmia_upto(st, rlist, rn, rn_index, end_result, (n - 1) as nat), rlist, rn, rn_index, end_result, (n - 1) as u16)
    }
}

pub open spec fn spec_mem_multiple<M: CpuInterface>(cpu: Cpu, memory: M, opcode: u16) -> (Cpu, M) {
    let rlist = opcode & 0xFF;
    let rn_index = tfield(opcode, 8);
    let rn = cpu.reg(rn_index);
    let l_bit = tbit(opcode, 11);
    if rlist == 0 {
        let jumped = if l_bit { cpu.with_reg(15, memory.spec_read_u32_unrotated(rn)).cleared() } else { cpu };
        let moved = jumped.with_reg(rn_index, rn.wrapping_add(0x40));
        let stored = if !l_bit { memory.spec_write_u32(rn, moved.reg(15).wrapping_add(2)) } else { memory };
        (moved, stored)
    } else {
        let end_result = rn.wrapping_add((spec_count_ones(rlist as u32, 32) * 4) as u32);
        let init = MultiState { cpu, memory, extra: 0, first_run: true };
        let st = if l_bit {
            spec_pop_upto(init, rlist, rn, 8)
        } else {
            spec_stmia_upto(init, rlist, rn, rn_index, end_result, 8)
        };
        if (opcode >> rn_index as u16) & 1 == 1 && l_bit {
            (st.cpu, st.memory)
        } else {
            (st.cpu.with_reg(rn_index, end_result), st.memory)
        }
    }
}

#[verifier::rlimit(30)]
fn mem_multiple<M: CpuInterface>(opcode: u16, cpu: &mut Cpu, memory: &mut M)
    requires
        old(memory).inv(),
    ensures
        final(memory).inv(),
        (*final(cpu), *final(memory)) == spec_mem_multiple(*old(cpu), *old(memory), opcode),
{
    let rlist = opcode & 0xFF;
    let started_empty = rlist == 0;

    let rn_index = low_reg(opcode, 8);
    let rn = cpu.get_register(rn_index);

    let l_bit = (opcode >> 11) & 1 == 1;
    if started_empty {
        if l_bit {
            let new_pc = memory.read_u32_unrotated(rn); // unrotate
            let pc = cpu.get_register_mut(15);
            *pc = new_pc;
            cpu.clear_pipeline();
        }
        let rn_mut = cpu.get_register_mut(rn_index);
        *rn_mut = rn.wrapping_add(0x40);
        if !l_bit {
            let pc = cpu.get_register(15);
            memory.write_u32(rn, pc.wrapping_add(2));
        }
        return;
    }

    let ghost cpu0 = *cpu;
    let ghost mem0 = *memory;
    let mut extra: u32 = 0;
    let ones = count_ones(rlist as u32);
    proof { lemma_count_ones_bound(rlist as u32, 32); }
    let end_result = rn.wrapping_add(ones * 4);

    if l_bit {
        // load
        let mut next_r: u16 = 0;
        while next_r < 8
            invariant
                next_r <= 8,
                memory.inv(),
                *memory == mem0,
                rlist == opcode & 0xFF,
                spec_pop_upto(MultiState { cpu: cpu0, memory: mem0, extra: 0, first_run: true }, rlist, rn, next_r as nat)
                    == (MultiState { cpu: *cpu, memory: *memory, extra, first_run: true }),
            decreases 8 - next_r,
        {
            if (rlist >> next_r) & 1 == 1 {
                let change = memory.read_u32_unrotated(rn.wrapping_add(extra));
                let reg = cpu.get_register_mut(next_r as u8);
                *reg = change;
                extra = extra.wrapping_add(4);
            }
            next_r += 1;
        }
    } else {
        // store
        let mut first_run = true;
        let mut next_r: u16 = 0;
        while next_r < 8
            invariant
                next_r <= 8,
                memory.inv(),
                rn_index < 8,
                rlist == opcode & 0xFF,
                spec_stmia_upto(MultiState { cpu: cpu0, memory: mem0, extra: 0, first_run: true }, rlist, rn,
                    rn_index as int, end_result, next_r as nat)
                    == (MultiState { cpu: *cpu, memory: *memory, extra, first_run }),
            decreases 8 - next_r,
        {
            if (rlist >> next_r) & 1 == 1 {
                if !first_run && (next_r as u8 == rn_index) {
                    // need to calculate the end
                    let rb_mut = cpu.get_register_mut(rn_index);
                    *rb_mut = end_result;
                }
                let reg = cpu.get_register(next_r as u8);
                memory.write_u32(rn.wrapping_add(extra), reg);
                extra = extra.wrapping_add(4);
                first_run = false;
            }
            next_r += 1;
        }
    }
    if (opcode >> rn_index as u16) & 1 == 1 && l_bit {
        return;
    }

    let rb_mut = cpu.get_register_mut(rn_index);
    *rb_mut = end_result;
}

/// What one THUMB instruction does to the processor and the memory.
pub open spec fn spec_execute_thumb<M: CpuInterface>(cpu: Cpu, memory: M, opcode: u16) -> (Cpu, M) {
    match spec_decode_thumb(opcode) {
        Some(DecodedThumb::MoveShifted) => (spec_move_shifted(cpu, opcode), memory),
        Some(DecodedThumb::AddSub) => (spec_add_sub(cpu, opcode), memory),
        Some(DecodedThumb::AluImmediate) => (spec_alu_imm(cpu, opcode), memory),
        Some(DecodedThumb::AluOperation) => (spec_alu_ops(cpu, opcode), memory),
        Some(DecodedThumb::HiRegister) => (spec_hi_ops(cpu, opcode), memory),
        Some(DecodedThumb::PcRelativeLoad) => (spec_pc_relative_load(cpu, memory, opcode), memory),
        Some(DecodedThumb::MemRegOffset) => spec_mem_offset(cpu, memory, opcode, false),
        Some(DecodedThumb::MemSignExtended) => spec_mem_sign_extended(cpu, memory, opcode),
        Some(DecodedThumb::MemImmOffset) => spec_mem_offset(cpu, memory, opcode, true),
        Some(DecodedThumb::MemHalfword) => spec_mem_halfword(cpu, memory, opcode),
        Some(DecodedThumb::MemSpRelative) => spec_mem_sp_relative(cpu, memory, opcode),
        Some(DecodedThumb::LoadAddress) => (spec_load_address(cpu, opcode), memory),
        Some(DecodedThumb::OffsetSp) => (spec_offset_sp(cpu, opcode), memory),
        Some(DecodedThumb::PushPop) => spec_push_pop(cpu, memory, opcode),
        Some(DecodedThumb::MemMultiple) => spec_mem_multiple(cpu, memory, opcode),
        Some(DecodedThumb::CondBranch) => (spec_conditional_branch(cpu, opcode), memory),
        Some(DecodedThumb::Swi) => (spec_thumb_software_interrupt(cpu), memory),
        Some(DecodedThumb::UncondBranch) => (spec_unconditional_branch(cpu, opcode), memory),
        Some(DecodedThumb::LongBranch) => (spec_long_branch_link(cpu, opcode), memory),
        None => (cpu, memory),
    }
}

pub fn execute_thumb<M: CpuInterface>(opcode: u16, cpu: &mut Cpu, memory: &mut M)
    requires
        old(memory).inv(),
        spec_decode_thumb(opcode) is Some,
    ensures
        final(memory).inv(),
        (*final(cpu), *final(memory)) == spec_execute_thumb(*old(cpu), *old(memory), opcode),
{
    let instruction = decode_thumb(opcode);
    match instruction {
        DecodedThumb::MoveShifted => move_shifted(opcode, cpu),
        DecodedThumb::AddSub => add_sub(opcode, cpu),
        DecodedThumb::AluImmediate => alu_imm(opcode, cpu),
        DecodedThumb::AluOperation => alu_ops(opcode, cpu),
        DecodedThumb::HiRegister => hi_ops(opcode, cpu),
        DecodedThumb::PcRelativeLoad => pc_relative_load(opcode, cpu, memory),
        DecodedThumb::MemRegOffset => mem_offset(opcode, cpu, memory, false),
        DecodedThumb::MemSignExtended => mem_sign_extended(opcode, cpu, memory),
        DecodedThumb::MemImmOffset => mem_offset(opcode, cpu, memory, true),
        DecodedThumb::MemHalfword => mem_halfword(opcode, cpu, memory),
        DecodedThumb::MemSpRelative => mem_sp_relative(opcode, cpu, memory),
        DecodedThumb::LoadAddress => load_address(opcode, cpu),
        DecodedThumb::OffsetSp => offset_sp(opcode, cpu),
        DecodedThumb::PushPop => push_pop(opcode, cpu, memory),
        DecodedThumb::MemMultiple => mem_multiple(opcode, cpu, memory),
        DecodedThumb::CondBranch => conditional_branch(opcode, cpu),
        DecodedThumb::Swi => software_interrupt(cpu),
        DecodedThumb::UncondBranch => unconditional_branch(opcode, cpu),
        DecodedThumb::LongBranch => long_branch_link(opcode, cpu),
    }
}

/// Where a long branch with link whose halves carry `hi` and `lo` lands,
/// from `pc` as the first half reads it: the 22-bit halfword offset,
/// sign-extended, added to `pc`, with bit 0 cleared.
pub open spec fn spec_long_branch_target(pc: u32, hi: u16, lo: u16) -> u32 {
    let h = (hi as u32) & 0x7FF;
    let extended = if (h >> 10u32) & 1 == 1 { h | 0xFFFF_F800 } else { h };
    pc.wrapping_add(extended << 12u32).wrapping_add(((lo as u32) & 0x7FF) << 1u32) & !1u32
}

/// The two halves of a long branch with link, run one after the other with
/// the pipeline moving the program counter on by one THUMB instruction in
/// between: execution goes on at the target, r14 holds the address after
/// the pair with bit 0 set, the pipeline is empty, and nothing else changes.
pub proof fn lemma_long_branch_pair<M: CpuInterface>(cpu: Cpu, mem: M, hi: u16, lo: u16, fde: Fde)
    requires
        hi < 0x800,
        lo < 0x800,
    ensures
        ({
            let (first, m1) = spec_execute_thumb(cpu, mem, 0xF000u16 | hi);
            let between = Cpu { pc: first.pc.wrapping_add(2), fde, ..first };
            let (second, m2) = spec_execute_thumb(between, m1, 0xF800u16 | lo);
            &&& m2 == mem
            &&& second.pc == spec_long_branch_target(cpu.pc, hi, lo)
            &&& second.reg(14) == cpu.pc | 1
            &&& second.fde.fetched_opcode is None
            &&& second.fde.decoded_opcode is None
            &&& second.status == cpu.status
            &&& second.halted == cpu.halted
            &&& forall|r: int, mode: ProcessorMode|
                0 <= r < 15 && !spec_same_register(14, cpu.cpsr().mode, r, mode)
                    ==> #[trigger] second.spec_reg(r, mode) == cpu.spec_reg(r, mode)
        }),
{
    let op1 = 0xF000u16 | hi;
    let op2 = 0xF800u16 | lo;
    assert({
        &&& op1 >> 8u16 != 0b1101_1111 && op1 >> 8u16 != 0b1011_0000
        &&& (op1 >> 9u16) & 0b1111_001 != 0b0101_000 && (op1 >> 9u16) & 0b1111_001 != 0b0101_001
        &&& (op1 >> 9u16) & 0b1111_001 != 0b1011_000
        &&& op1 >> 10u16 != 0b010000 && op1 >> 10u16 != 0b010001
        &&& op1 >> 11u16 != 0b00011 && op1 >> 11u16 != 0b01001 && op1 >> 11u16 != 0b11100
        &&& op1 >> 12u16 == 0b1111
        &&& (op1 as u32) & 0x7FF == hi as u32
        &&& (hi as u32) & 0x7FF == hi as u32
        &&& (op1 >> 11u16) & 1 != 1
    }) by (bit_vector)
        requires op1 == 0xF000u16 | hi, hi < 0x800;
    assert({
        &&& op2 >> 8u16 != 0b1101_1111 && op2 >> 8u16 != 0b1011_0000
        &&& (op2 >> 9u16) & 0b1111_001 != 0b0101_000 && (op2 >> 9u16) & 0b1111_001 != 0b0101_001
        &&& (op2 >> 9u16) & 0b1111_001 != 0b1011_000
        &&& op2 >> 10u16 != 0b010000 && op2 >> 10u16 != 0b010001
        &&& op2 >> 11u16 != 0b00011 && op2 >> 11u16 != 0b01001 && op2 >> 11u16 != 0b11100
        &&& op2 >> 12u16 == 0b1111
        &&& (op2 as u32) & 0x7FF == lo as u32
        &&& (lo as u32) & 0x7FF == lo as u32
        &&& (op2 >> 11u16) & 1 == 1
    }) by (bit_vector)
        requires op2 == 0xF800u16 | lo, lo < 0x800;
    assert(spec_decode_thumb(op1) == Some(DecodedThumb::LongBranch));
    assert(spec_decode_thumb(op2) == Some(DecodedThumb::LongBranch));
    let first = spec_long_branch_link(cpu, op1);
    let between = Cpu { pc: first.pc.wrapping_add(2), fde, ..first };
    let mode = cpu.cpsr().mode;
    let h = (op1 as u32) & 0x7FF;
    let extended = if (h >> 10u32) & 1 == 1 { h | 0xFFFF_F800 } else { h };
    assert(first == cpu.with_reg(14, cpu.pc.wrapping_add(extended << 12u32)));
    assert(between.reg(14) == first.reg(14)) by {
        lemma_register_layout(between, 14, mode);
        lemma_register_layout(first, 14, mode);
    }
    let p = cpu.pc;
    let q = between.pc;
    assert(q.wrapping_sub(2) == p) by (bit_vector)
        requires q == p.wrapping_add(2);
    let jumped = between.with_reg(15, between.reg(14).wrapping_add(((op2 as u32) & 0x7FF) << 1u32) & !1u32);
    let linked = jumped.with_reg(14, between.reg(15).wrapping_sub(2) | 1);
    let second = linked.cleared();
    assert(second == spec_long_branch_link(between, op2));
    assert(second.reg(14) == cpu.pc | 1) by {
        lemma_register_layout(second, 14, mode);
        lemma_register_layout(linked, 14, mode);
    }
    assert(second.pc == spec_long_branch_target(cpu.pc, hi, lo));
    assert(second.status == cpu.status);
    assert(spec_execute_thumb(cpu, mem, op1) == (first, mem));
    assert(spec_execute_thumb(between, mem, op2) == (second, mem));
    assert forall|r: int, m: ProcessorMode|
        0 <= r < 15 && !spec_same_register(14, mode, r, m) implies #[trigger] second.spec_reg(r, m) == cpu.spec_reg(r, m) by {
        lemma_register_layout(second, r, m);
        lemma_register_layout(linked, r, m);
        lemma_register_layout(between, r, m);
        lemma_register_layout(first, r, m);
        assert(linked.spec_reg(r, m) == jumped.spec_reg(r, m));
        assert(jumped.spec_reg(r, m) == between.spec_reg(r, m));
        assert(first.spec_reg(r, m) == cpu.spec_reg(r, m));
    }
}

/// What the THUMB ALU operations compute from rd and rs (arithmetic modulo
/// 2^32): the value, and for the comparisons the carry.
pub proof fn lemma_thumb_alu_results(cpu: Cpu, op: u16, rd: int, rs: int)
    requires
        op < 16,
    ensures
        ({
            let (r, carry, _) = spec_thumb_alu(cpu, op, rd, rs);
            let a = cpu.reg(rd);
            let b = cpu.reg(rs);
            let m = 0x1_0000_0000int;
            let cin: int = if cpu.cpsr().c { 1 } else { 0 };
            &&& op == 0x0 || op == 0x8 ==> r == a & b
            &&& op == 0x1 ==> r == a ^ b && r ^ b == a
            &&& op == 0x5 ==> r == (a + b + cin) % m
            &&& op == 0x6 ==> r == (a - b - 1 + cin) % m
            &&& op == 0x9 ==> r == (0 - b) % m && (r + b) % m == 0
            &&& op == 0xA ==> r == (a - b) % m && carry == (a >= b)
            &&& op == 0xB ==> r == (a + b) % m && carry == (a + b >= m)
            &&& op == 0xC ==> r == a | b
            &&& op == 0xD ==> r == (a * b) % m
            &&& op == 0xE ==> r == a & !b
            &&& op == 0xF ==> r == !b
        }),
{
    let a = cpu.reg(rd);
    let b = cpu.reg(rs);
    let m = 0x1_0000_0000int;
    let cin: int = if cpu.cpsr().c { 1 } else { 0 };
    let r = spec_thumb_alu(cpu, op, rd, rs).0;
    lemma_not_u32(b);
    if op == 0x1 {
        assert(r ^ b == a) by (bit_vector)
            requires r == a ^ b;
    }
    if op == 0x6 {
        vstd::arithmetic::div_mod::lemma_mod_add_multiples_vanish(a - b - 1 + cin, m);
    }
    if op == 0x9 {
        vstd::arithmetic::div_mod::lemma_mod_add_multiples_vanish(0 - b, m);
        vstd::arithmetic::div_mod::lemma_add_mod_noop(0 - b, b as int, m);
    }
    if op == 0xA {
        vstd::arithmetic::div_mod::lemma_mod_add_multiples_vanish(a - b, m);
    }
}

/// What a THUMB ALU opcode (format 4: `0x4000 | op << 6 | rs << 3 | rd`)
/// leaves in rd, from the registers as they were (arithmetic modulo 2^32):
/// AND, EOR, ORR, BIC and MVN combine the bits, ADC and SBC add or subtract
/// with the carry, NEG gives `0 - rs`, MUL the low word of the product, and
/// TST, CMP and CMN leave rd as it was while their flags compare rd with rs.
/// No register but rd changes, and the memory is not touched.
#[verifier::spinoff_prover]
#[verifier::rlimit(40)]
pub proof fn lemma_thumb_alu_meaning<M: CpuInterface>(cpu: Cpu, mem: M, op: u16, rd: u16, rs: u16)
    requires
        op < 16,
        rd < 8,
        rs < 8,
    ensures
        ({
            let opcode = 0x4000u16 | (op << 6u16) | (rs << 3u16) | rd;
            let (after, mem2) = spec_execute_thumb(cpu, mem, opcode);
            let a = cpu.reg(rd as int);
            let b = cpu.reg(rs as int);
            let r = after.reg(rd as int);
            let m = 0x1_0000_0000int;
            let cin: int = if cpu.cpsr().c { 1 } else { 0 };
            &&& mem2 == mem
            &&& after == cpu.with_cpsr(after.cpsr()).with_reg(rd as int, r)
            &&& after.cpsr().mode == cpu.cpsr().mode
            &&& op == 0x0 ==> r == a & b
            &&& op == 0x1 ==> r == a ^ b && r ^ b == a
            &&& op == 0x5 ==> r == (a + b + cin) % m
            &&& op == 0x6 ==> r == (a - b - 1 + cin) % m
            &&& op == 0x9 ==> r == (0 - b) % m && (r + b) % m == 0
            &&& op == 0xC ==> r == a | b
            &&& op == 0xD ==> r == (a * b) % m
            &&& op == 0xE ==> r == a & !b
            &&& op == 0xF ==> r == !b
            &&& op == 0x8 ==> r == a && after.cpsr().z == (a & b == 0)
            &&& op == 0xA ==> r == a && after.cpsr().z == (a == b) && after.cpsr().c == (a >= b)
            &&& op == 0xB ==> r == a && after.cpsr().z == ((a + b) % m == 0) && after.cpsr().c == (a + b >= m)
        }),
{
    let opcode = 0x4000u16 | (op << 6u16) | (rs << 3u16) | rd;
    assert({
        &&& opcode >> 8u16 != 0b1101_1111 && opcode >> 8u16 != 0b1011_0000
        &&& (opcode >> 9u16) & 0b1111_001 != 0b0101_000 && (opcode >> 9u16) & 0b1111_001 != 0b0101_001
        &&& (opcode >> 9u16) & 0b1111_001 != 0b1011_000
        &&& opcode >> 10u16 == 0b010000
        &&& (opcode >> 6u16) & 0xF == op
        &&& (opcode >> 3u16) & 0x7 == rs
        &&& (opcode >> 0u16) & 0x7 == rd
    }) by (bit_vector)
        requires opcode == 0x4000u16 | (op << 6u16) | (rs << 3u16) | rd, op < 16, rd < 8, rs < 8;
    assert(spec_decode_thumb(opcode) == Some(DecodedThumb::AluOperation));
    assert(spec_execute_thumb(cpu, mem, opcode) == (spec_alu_ops(cpu, opcode), mem));
    let a = cpu.reg(rd as int);
    let (result, carry, overflow) = spec_thumb_alu(cpu, op, rd as int, rs as int);
    lemma_thumb_alu_results(cpu, op, rd as int, rs as int);
    let flags = spec_thumb_alu_flags(cpu.cpsr(), op, result, carry, overflow);
    let flagged = cpu.with_cpsr(flags);
    let after = spec_alu_ops(cpu, opcode);
    assert(flagged.reg(rd as int) == a) by {
        lemma_register_layout(flagged, rd as int, flags.mode);
        lemma_register_layout(cpu, rd as int, flags.mode);
    }
    if op == 0x8 || op == 0xA || op == 0xB {
        assert(after == flagged);
        lemma_with_reg_same(flagged, rd as int, flags.mode);
        assert(0x1_0000_0000int > 0);
        if op == 0xA {
            assert((result == 0) == (a == cpu.reg(rs as int))) by {
                let b = cpu.reg(rs as int);
                assert(result as int == (a - b) % 0x1_0000_0000int);
            }
        }
    } else {
        assert(after == flagged.with_reg(rd as int, result));
    }
}

} // verus!
