//! Disassembly: the assembly text of ARM and THUMB opcodes.

use vstd::prelude::*;
use crate::bits::{
    lemma_and_bound_u16, lemma_and_bound_u32, lemma_and_bound_u8, lemma_shl_small_u16, lemma_shl_small_u32,
    lemma_top_nibble,
};
use crate::cpu::decode::{
    BRANCH_EXCHANGE_MASK, BRANCH_EXCHANGE_VALUE, DecodedArm, DecodedThumb, REMOVE_CONDITION_MASK, UNDEFINED_MASK,
    UNDEFINED_VALUE, arm_runs, decode_arm, decode_thumb, spec_decode_arm, spec_decode_thumb,
};
use crate::cpu::execute_thumb::{lemma_thumb_alu_results, spec_thumb_alu};
use crate::cpu::registers::Cpu;
use crate::cpu::execute_arm::{lemma_alu_arithmetic, lemma_alu_logical, spec_alu};

verus! {

/// The character of digit `d` (0 to 15): `0`-`9`, then `A`-`F`.
pub open spec fn spec_digit(d: nat) -> char {
    if d < 10 { (48 + d) as char } else { (55 + d) as char }
}

/// `n` in decimal, without leading zeros.
pub open spec fn spec_dec(n: nat) -> Seq<char>
    decreases n,
{
    if n < 10 { seq![spec_digit(n)] } else { spec_dec(n / 10).push(spec_digit(n % 10)) }
}

/// `n` in upper-case hexadecimal, without leading zeros.
pub open spec fn spec_hex(n: nat) -> Seq<char>
    decreases n,
{
    if n < 16 { seq![spec_digit(n)] } else { spec_hex(n / 16).push(spec_digit(n % 16)) }
}

fn digit_str(d: u32) -> (r: &'static str)
    requires
        d < 16,
    ensures
        r@ == seq![spec_digit(d as nat)],
{
    proof {
        reveal_strlit("0"); reveal_strlit("1"); reveal_strlit("2"); reveal_strlit("3");
        reveal_strlit("4"); reveal_strlit("5"); reveal_strlit("6"); reveal_strlit("7");
        reveal_strlit("8"); reveal_strlit("9"); reveal_strlit("A"); reveal_strlit("B");
        reveal_strlit("C"); reveal_strlit("D"); reveal_strlit("E"); reveal_strlit("F");
    }
    match d {
        0 => "0",
        1 => "1",
        2 => "2",
        3 => "3",
        4 => "4",
        5 => "5",
        6 => "6",
        7 => "7",
        8 => "8",
        9 => "9",
        10 => "A",
        11 => "B",
        12 => "C",
        13 => "D",
        14 => "E",
        _ => "F",
    }
}

/// Appends `n` in decimal.
fn append_dec(s: &mut String, n: u32)
    ensures
        final(s)@ == old(s)@ + spec_dec(n as nat),
    decreases n,
{
    if n >= 10 {
        append_dec(s, n / 10);
    }
    s.append(digit_str(n % 10));
    assert(spec_dec(n as nat) =~= if n < 10 { seq![spec_digit(n as nat)] } else {
        spec_dec((n / 10) as nat).push(spec_digit((n % 10) as nat))
    });
}

/// Appends `n` in upper-case hexadecimal.
fn append_hex(s: &mut String, n: u32)
    ensures
        final(s)@ == old(s)@ + spec_hex(n as nat),
    decreases n,
{
    if n >= 16 {
        append_hex(s, n / 16);
    }
    s.append(digit_str(n % 16));
}

/// The registers of the low `n` bits of `bits`, each as `r<i>` followed by `sep`.
pub open spec fn spec_reg_list(bits: u32, n: nat, sep: Seq<char>) -> Seq<char>
    decreases n,
{
    if n == 0 {
        Seq::empty()
    } else {
        let before = spec_reg_list(bits, (n - 1) as nat, sep);
        if (bits >> (n - 1) as u32) & 1 == 1 { before + "r"@ + spec_dec((n - 1) as nat) + sep } else { before }
    }
}

/// Appends the registers of the low `n` bits of `bits`, each followed by `sep`.
fn append_reg_list(s: &mut String, bits: u32, n: u32, sep: &str)
    requires
        n <= 32,
    ensures
        final(s)@ == old(s)@ + spec_reg_list(bits, n as nat, sep@),
{
    let ghost start = s@;
    let mut i: u32 = 0;
    while i < n
        invariant
            i <= n <= 32,
            s@ =~= start + spec_reg_list(bits, i as nat, sep@),
        decreases n - i,
    {
        let exists = (bits >> i) & 1 == 1;
        if exists {
            s.append("r");
            append_dec(s, i);
            s.append(sep);
        }
        i += 1;
    }
}

/// The mnemonic suffix of a condition field; always (`AL`) has none.
pub open spec fn spec_cond_string(cond: u8) -> Seq<char> {
    if cond == 0b0000 { "EQ"@ } else if cond == 0b0001 { "NE"@ } else if cond == 0b0010 { "CS"@ }
    else if cond == 0b0011 { "CC"@ } else if cond == 0b0100 { "MI"@ } else if cond == 0b0101 { "PL"@ }
    else if cond == 0b0110 { "VS"@ } else if cond == 0b0111 { "VC"@ } else if cond == 0b1000 { "HI"@ }
    else if cond == 0b1001 { "LS"@ } else if cond == 0b1010 { "GE"@ } else if cond == 0b1011 { "LT"@ }
    else if cond == 0b1100 { "GT"@ } else if cond == 0b1101 { "LE"@ } else if cond == 0b1110 { ""@ }
    else { "NV"@ }
}

fn convert_cond_string(cond: u8) -> (r: String)
    requires
        cond < 16,
    ensures
        r@ == spec_cond_string(cond),
{
    let name = if cond == 0b0000 { "EQ" } else if cond == 0b0001 { "NE" } else if cond == 0b0010 { "CS" }
    else if cond == 0b0011 { "CC" } else if cond == 0b0100 { "MI" } else if cond == 0b0101 { "PL" }
    else if cond == 0b0110 { "VS" } else if cond == 0b0111 { "VC" } else if cond == 0b1000 { "HI" }
    else if cond == 0b1001 { "LS" } else if cond == 0b1010 { "GE" } else if cond == 0b1011 { "LT" }
    else if cond == 0b1100 { "GT" } else if cond == 0b1101 { "LE" } else if cond == 0b1110 { "" } // the "AL" suffix can be omitted
    else { "NV" };
    String::from_str(name)
}

// ---------------------------------------------------------------- THUMB

pub open spec fn spec_move_shifted_assembly(opcode: u16) -> Seq<char> {
    let op = (opcode >> 11u16) & 0b11;
    let instruction = if op == 0 { "lsl"@ } else if op == 1 { "lsr"@ } else { "asr"@ };
    instruction + " r"@ + spec_dec((opcode & 0x7) as nat) + ", r"@ + spec_dec(((opcode >> 3u16) & 0x7) as nat)
        + ", #"@ + spec_hex(((opcode >> 6u16) & 0x1F) as nat)
}

fn move_shifted_assembly(opcode: u16) -> (r: String)
    requires
        (opcode >> 11u16) & 0b11 != 0b11,
    ensures
        r@ == spec_move_shifted_assembly(opcode),
{
    let op = (opcode >> 11) & 0b11;
    let instruction = if op == 0b00 { "lsl" } else if op == 0b01 { "lsr" } else { "asr" };
    let rd = opcode & 0x7;
    let rs = (opcode >> 3) & 0x7;
    let offset = (opcode >> 6) & 0x1F;

    let mut s = String::from_str(instruction);
    s.append(" r");
    append_dec(&mut s, rd as u32);
    s.append(", r");
    append_dec(&mut s, rs as u32);
    s.append(", #");
    append_hex(&mut s, offset as u32);
    assert(s@ =~= spec_move_shifted_assembly(opcode));
    s
}


pub open spec fn spec_add_sub_assembly(opcode: u16) -> Seq<char> {
    let instruction = if (opcode >> 9u16) & 1 == 1 { "sub"@ } else { "add"@ };
    let unformatted_value = ((opcode >> 6u16) & 0x7) as nat;
    let value = if (opcode >> 10u16) & 1 == 1 { "#"@ + spec_hex(unformatted_value) } else { "r"@ + spec_dec(unformatted_value) };
    instruction + " r"@ + spec_dec((opcode & 0x7) as nat) + ", r"@ + spec_dec(((opcode >> 3u16) & 0x7) as nat) + ", "@ + value
}

fn add_sub_assembly(opcode: u16) -> (r: String)
    ensures
        r@ == spec_add_sub_assembly(opcode),
{
    let i_bit = (opcode >> 10) & 1 == 1;
    let op = (opcode >> 9) & 1 == 1;
    let unformatted_value = (opcode >> 6) & 0x7;
    let instruction = if op { "sub" } else { "add" };
    let rd = opcode & 0x7;
    let rs = (opcode >> 3) & 0x7;

    let mut s = String::from_str(instruction);
    s.append(" r");
    append_dec(&mut s, rd as u32);
    s.append(", r");
    append_dec(&mut s, rs as u32);
    s.append(", ");
    if i_bit {
        s.append("#");
        append_hex(&mut s, unformatted_value as u32);
    } else {
        s.append("r");
        append_dec(&mut s, unformatted_value as u32);
    }
    assert(s@ =~= spec_add_sub_assembly(opcode));
    s
}

pub open spec fn spec_alu_immediate_assembly(opcode: u16) -> Seq<char> {
    let op = (opcode >> 11u16) & 0x3;
    let instruction = if op == 0 { "mov"@ } else if op == 1 { "cmp"@ } else if op == 2 { "add"@ } else { "sub"@ };
    instruction + " r"@ + spec_dec(((opcode >> 8u16) & 0x7) as nat) + ", #"@ + spec_dec((opcode & 0xFF) as nat)
}

fn alu_immediate_assembly(opcode: u16) -> (r: String)
    ensures
        r@ == spec_alu_immediate_assembly(opcode),
{
    let op = (opcode >> 11) & 0x3;
    let instruction = if op == 0b00 { "mov" } else if op == 0b01 { "cmp" } else if op == 0b10 { "add" } else { "sub" };
    let rd = (opcode >> 8) & 0x7;
    let offset = opcode & 0xFF;

    let mut s = String::from_str(instruction);
    s.append(" r");
    append_dec(&mut s, rd as u32);
    s.append(", #");
    append_dec(&mut s, offset as u32);
    s
}

/// The mnemonic of a THUMB ALU operation.
pub open spec fn spec_alu_name(op: u16) -> Seq<char> {
    if op == 0b0000 { "and"@ } else if op == 0b0001 { "eor"@ } else if op == 0b0010 { "lsl"@ }
    else if op == 0b0011 { "lsr"@ } else if op == 0b0100 { "asr"@ } else if op == 0b0101 { "adc"@ }
    else if op == 0b0110 { "sbc"@ } else if op == 0b0111 { "ror"@ } else if op == 0b1000 { "tst"@ }
    else if op == 0b1001 { "neg"@ } else if op == 0b1010 { "cmp"@ } else if op == 0b1011 { "cmn"@ }
    else if op == 0b1100 { "orr"@ } else if op == 0b1101 { "mul"@ } else if op == 0b1110 { "bic"@ }
    else { "mvn"@ }
}

pub open spec fn spec_alu_operation_assembly(opcode: u16) -> Seq<char> {
    spec_alu_name((opcode >> 6u16) & 0xF) + " r"@ + spec_dec((opcode & 0x7) as nat) + ", r"@
        + spec_dec(((opcode >> 3u16) & 0x7) as nat)
}

fn alu_operation_assembly(opcode: u16) -> (r: String)
    ensures
        r@ == spec_alu_operation_assembly(opcode),
{
    let op = (opcode >> 6) & 0xF;
    let rs = (opcode >> 3) & 0x7;
    let rd = opcode & 0x7;

    let instruction = if op == 0b0000 { "and" } else if op == 0b0001 { "eor" } else if op == 0b0010 { "lsl" }
    else if op == 0b0011 { "lsr" } else if op == 0b0100 { "asr" } else if op == 0b0101 { "adc" }
    else if op == 0b0110 { "sbc" } else if op == 0b0111 { "ror" } else if op == 0b1000 { "tst" }
    else if op == 0b1001 { "neg" } else if op == 0b1010 { "cmp" } else if op == 0b1011 { "cmn" }
    else if op == 0b1100 { "orr" } else if op == 0b1101 { "mul" } else if op == 0b1110 { "bic" }
    else { "mvn" };

    let mut s = String::from_str(instruction);
    s.append(" r");
    append_dec(&mut s, rd as u32);
    s.append(", r");
    append_dec(&mut s, rs as u32);
    s
}

pub open spec fn spec_hi_register_assembly(opcode: u16) -> Seq<char> {
    let op = (opcode >> 8u16) & 0b11;
    let instruction = if op == 0 { "add"@ } else if op == 1 { "cmp"@ } else if op == 2 { "mov"@ } else { "bx"@ };
    let rd = (opcode & 0x7) + if (opcode >> 7u16) & 1 == 1 { 8int } else { 0int };
    let rs = ((opcode >> 3u16) & 0x7) + if (opcode >> 6u16) & 1 == 1 { 8int } else { 0int };
    instruction + " r"@ + spec_dec(rd as nat) + ", r"@ + spec_dec(rs as nat)
}

fn hi_register_assembly(opcode: u16) -> (r: String)
    ensures
        r@ == spec_hi_register_assembly(opcode),
{
    let op = (opcode >> 8) & 0b11;
    let instruction = if op == 0b00 { "add" } else if op == 0b01 { "cmp" } else if op == 0b10 { "mov" } else { "bx" };

    let h1 = (opcode >> 7) & 1 == 1;
    let h2 = (opcode >> 6) & 1 == 1;
    proof { lemma_and_bound_u16(opcode, 0x7); lemma_and_bound_u16(opcode >> 3u16, 0x7); }

    let rd = (opcode & 0x7) + if h1 { 8 } else { 0 };
    let rs = (opcode >> 3 & 0x7) + if h2 { 8 } else { 0 };

    let mut s = String::from_str(instruction);
    s.append(" r");
    append_dec(&mut s, rd as u32);
    s.append(", r");
    append_dec(&mut s, rs as u32);
    s
}

pub open spec fn spec_pc_relative_assembly(opcode: u16) -> Seq<char> {
    "ldr r"@ + spec_dec(((opcode >> 8u16) & 0x7) as nat) + ", [pc, #"@ + spec_dec(((opcode & 0xFF) * 4) as nat) + "]"@
}

fn pc_relative_assembly(opcode: u16) -> (r: String)
    ensures
        r@ == spec_pc_relative_assembly(opcode),
{
    let rd = (opcode >> 8) & 0x7;
    proof { lemma_and_bound_u16(opcode, 0xFF); lemma_shl_small_u16(opcode & 0xFF); }
    let offset = (opcode & 0xFF) << 2;

    let mut s = String::from_str("ldr r");
    append_dec(&mut s, rd as u32);
    s.append(", [pc, #");
    append_dec(&mut s, offset as u32);
    s.append("]");
    s
}

pub open spec fn spec_mem_reg_offset_assembly(opcode: u16) -> Seq<char> {
    let instruction = if (opcode >> 11u16) & 1 == 1 { "ldr"@ } else { "str"@ };
    let b = if (opcode >> 10u16) & 1 == 1 { "b"@ } else { ""@ };
    instruction + b + " r"@ + spec_dec((opcode & 0x7) as nat) + ", [r"@ + spec_dec(((opcode >> 3u16) & 0x7) as nat)
        + ", r"@ + spec_dec(((opcode >> 6u16) & 0x7) as nat) + "]"@
}

fn mem_reg_offset_assembly(opcode: u16) -> (r: String)
    ensures
        r@ == spec_mem_reg_offset_assembly(opcode),
{
    let b_bit = (opcode >> 10) & 1 == 1;
    let l_bit = (opcode >> 11) & 1 == 1;

    let ro = (opcode >> 6) & 0x7;
    let rb = (opcode >> 3) & 0x7;
    let rd = opcode & 0x7;

    let b = if b_bit { "b" } else { "" };
    let instruction = if l_bit { "ldr" } else { "str" };

    let mut s = String::from_str(instruction);
    s.append(b);
    s.append(" r");
    append_dec(&mut s, rd as u32);
    s.append(", [r");
    append_dec(&mut s, rb as u32);
    s.append(", r");
    append_dec(&mut s, ro as u32);
    s.append("]");
    s
}

pub open spec fn spec_mem_sign_assembly(opcode: u16) -> Seq<char> {
    let hs_bits = (opcode >> 10u16) & 0b11;
    let instruction = if hs_bits == 0 { "strh"@ } else if hs_bits == 1 { "ldrh"@ } else if hs_bits == 2 { "ldsb"@ } else { "ldsh"@ };
    instruction + " r"@ + spec_dec((opcode & 0x7) as nat) + ", [r"@ + spec_dec(((opcode >> 3u16) & 0x7) as nat)
        + ", r"@ + spec_dec(((opcode >> 6u16) & 0x7) as nat) + "]"@
}

fn mem_sign_assembly(opcode: u16) -> (r: String)
    ensures
        r@ == spec_mem_sign_assembly(opcode),
{
    let ro = (opcode >> 6) & 0x7;
    let rb = (opcode >> 3) & 0x7;
    let rd = opcode & 0x7;

    let hs_bits = (opcode >> 10) & 0b11;
    let instruction = if hs_bits == 0b00 { "strh" } else if hs_bits == 0b01 { "ldrh" } else if hs_bits == 0b10 { "ldsb" } else { "ldsh" };

    let mut s = String::from_str(instruction);
    s.append(" r");
    append_dec(&mut s, rd as u32);
    s.append(", [r");
    append_dec(&mut s, rb as u32);
    s.append(", r");
    append_dec(&mut s, ro as u32);
    s.append("]");
    s
}

pub open spec fn spec_mem_imm_offset_assembly(opcode: u16) -> Seq<char> {
    let b_bit = (opcode >> 12u16) & 1 == 1;
    let instruction = if (opcode >> 11u16) & 1 == 1 { "ldr"@ } else { "str"@ };
    let b = if b_bit { "b"@ } else { ""@ };
    // the five-bit field counts words, or bytes in a byte transfer
    let offset = ((opcode >> 6u16) & 0x1F) << (if b_bit { 0u16 } else { 2u16 });
    instruction + b + " r"@ + spec_dec((opcode & 0x7) as nat) + ", [r"@ + spec_dec(((opcode >> 3u16) & 0x7) as nat)
        + ", #"@ + spec_dec(offset as nat) + "]"@
}

fn mem_imm_offset_assembly(opcode: u16) -> (r: String)
    ensures
        r@ == spec_mem_imm_offset_assembly(opcode),
{
    let l_bit = (opcode >> 11) & 1 == 1;
    let b_bit = (opcode >> 12) & 1 == 1;

    let shift: u16 = if b_bit { 0 } else { 2 };
    let offset = ((opcode >> 6) & 0x1F) << shift;
    let rb = (opcode >> 3) & 0x7;
    let rd = opcode & 0x7;

    let b = if b_bit { "b" } else { "" };
    let instruction = if l_bit { "ldr" } else { "str" };

    let mut s = String::from_str(instruction);
    s.append(b);
    s.append(" r");
    append_dec(&mut s, rd as u32);
    s.append(", [r");
    append_dec(&mut s, rb as u32);
    s.append(", #");
    append_dec(&mut s, offset as u32);
    s.append("]");
    s
}

pub open spec fn spec_mem_halfword_assembly(opcode: u16) -> Seq<char> {
    let instruction = if (opcode >> 11u16) & 1 == 1 { "strh"@ } else { "ldrh"@ };
    instruction + " r"@ + spec_dec((opcode & 0x7) as nat) + ", [r"@ + spec_dec(((opcode >> 3u16) & 0x7) as nat)
        + ", #"@ + spec_dec((((opcode >> 6u16) & 0x1F) * 2) as nat) + "]"@
}

fn mem_halfword_assembly(opcode: u16) -> (r: String)
    ensures
        r@ == spec_mem_halfword_assembly(opcode),
{
    let l_bit = (opcode >> 11) & 1 == 1;
    proof { lemma_and_bound_u16(opcode >> 6u16, 0x1F); lemma_shl_small_u16((opcode >> 6u16) & 0x1F); }
    let offset = ((opcode >> 6) & 0x1F) << 1;

    let rb = (opcode >> 3) & 0x7;
    let rd = opcode & 0x7;

    let instruction = if l_bit { "strh" } else { "ldrh" };

    let mut s = String::from_str(instruction);
    s.append(" r");
    append_dec(&mut s, rd as u32);
    s.append(", [r");
    append_dec(&mut s, rb as u32);
    s.append(", #");
    append_dec(&mut s, offset as u32);
    s.append("]");
    s
}

pub open spec fn spec_mem_sp_relative_assembly(opcode: u16) -> Seq<char> {
    let instruction = if (opcode >> 11u16) & 1 == 1 { "ldr"@ } else { "str"@ };
    instruction + " r"@ + spec_dec(((opcode >> 8u16) & 0x7) as nat) + ", [SP, #"@ + spec_hex((opcode & 0xFF) as nat) + "]"@
}

fn mem_sp_relative_assembly(opcode: u16) -> (r: String)
    ensures
        r@ == spec_mem_sp_relative_assembly(opcode),
{
    let l_bit = (opcode >> 11) & 1 == 1;
    let rd = (opcode >> 8) & 0x7;

    let word = opcode & 0xFF;
    let instruction = if l_bit { "ldr" } else { "str" };

    let mut s = String::from_str(instruction);
    s.append(" r");
    append_dec(&mut s, rd as u32);
    s.append(", [SP, #");
    append_hex(&mut s, word as u32);
    s.append("]");
    s
}

pub open spec fn spec_load_address_assembly(opcode: u16) -> Seq<char> {
    let reg = if (opcode >> 11u16) & 1 == 1 { "sp"@ } else { "pc"@ };
    "add rd"@ + spec_dec(((opcode >> 8u16) & 0x7) as nat) + ", "@ + reg + ", #"@ + spec_dec(((opcode & 0xFF) * 4) as nat)
}

fn load_address_assembly(opcode: u16) -> (r: String)
    ensures
        r@ == spec_load_address_assembly(opcode),
{
    let sp_bit = (opcode >> 11) & 1 == 1;
    let reg = if sp_bit { "sp" } else { "pc" };

    let rd = (opcode >> 8) & 0x7;
    proof { lemma_and_bound_u16(opcode, 0xFF); lemma_shl_small_u16(opcode & 0xFF); }
    let word = (opcode & 0xFF) << 2;

    let mut s = String::from_str("add rd");
    append_dec(&mut s, rd as u32);
    s.append(", ");
    s.append(reg);
    s.append(", #");
    append_dec(&mut s, word as u32);
    s
}

pub open spec fn spec_offset_sp_assembly(opcode: u16) -> Seq<char> {
    let sign = if (opcode >> 7u16) & 1 == 1 { "-"@ } else { ""@ };
    "add sp, #"@ + sign + spec_hex((opcode & 0x7F) as nat)
}

fn offset_sp_assembly(opcode: u16) -> (r: String)
    ensures
        r@ == spec_offset_sp_assembly(opcode),
{
    let s_bit = (opcode >> 7) & 1 == 1;
    let sign = if s_bit { "-" } else { "" };

    let s_word = opcode & 0x7F;
    let mut s = String::from_str("add sp, #");
    s.append(sign);
    append_hex(&mut s, s_word as u32);
    s
}

pub open spec fn spec_push_pop_assembly(opcode: u16) -> Seq<char> {
    let l_bit = (opcode >> 11u16) & 1 == 1;
    let instruction = if l_bit { "pop"@ } else { "push"@ };
    let extra = if (opcode >> 8u16) & 1 == 1 { if l_bit { "pc"@ } else { "lr"@ } } else { Seq::empty() };
    instruction + " {"@ + spec_reg_list(opcode as u32, 8, ""@) + extra + "}"@
}

fn push_pop_assembly(opcode: u16) -> (r: String)
    ensures
        r@ == spec_push_pop_assembly(opcode),
{
    let l_bit = (opcode >> 11) & 1 == 1;
    let instruction = if l_bit { "pop" } else { "push" };
    let r_bit = (opcode >> 8) & 1 == 1;

    let mut s = String::from_str(instruction);
    s.append(" {");
    append_reg_list(&mut s, opcode as u32, 8, "");
    if r_bit {
        if l_bit { s.append("pc"); } else { s.append("lr"); }
    }
    s.append("}");
    assert(s@ =~= spec_push_pop_assembly(opcode));
    s
}

pub open spec fn spec_mem_multiple_assembly(opcode: u16) -> Seq<char> {
    let instruction = if (opcode >> 11u16) & 1 == 1 { "ldmia"@ } else { "stmia"@ };
    instruction + " r"@ + spec_dec(((opcode >> 8u16) & 0x7) as nat) + "!, {"@ + spec_reg_list(opcode as u32, 8, ", "@) + "}"@
}

fn mem_multiple_assembly(opcode: u16) -> (r: String)
    ensures
        r@ == spec_mem_multiple_assembly(opcode),
{
    let l_bit = (opcode >> 11) & 1 == 1;
    let instruction = if l_bit { "ldmia" } else { "stmia" };

    let rb = (opcode >> 8) & 0x7;
    let mut s = String::from_str(instruction);
    s.append(" r");
    append_dec(&mut s, rb as u32);
    s.append("!, {");
    append_reg_list(&mut s, opcode as u32, 8, ", ");
    s.append("}");
    s
}

pub open spec fn spec_cond_branch_assembly(opcode: u16) -> Seq<char> {
    "b"@ + spec_cond_string(((opcode >> 8u16) as u8) & 0xF) + " "@ + spec_hex(((opcode & 0xFF) * 2) as nat)
}

fn cond_branch_assembly(opcode: u16) -> (r: String)
    ensures
        r@ == spec_cond_branch_assembly(opcode),
{
    proof { lemma_and_bound_u8((opcode >> 8u16) as u8, 0xF); }
    let cond = convert_cond_string((opcode >> 8) as u8 & 0xF);
    proof { lemma_and_bound_u16(opcode, 0xFF); lemma_shl_small_u16(opcode & 0xFF); }
    let offset = (opcode & 0xFF) << 1;

    let mut s = String::from_str("b");
    s.append(cond.as_str());
    s.append(" ");
    append_hex(&mut s, offset as u32);
    s
}

pub open spec fn spec_thumb_swi_assembly(opcode: u16) -> Seq<char> {
    "swi "@ + spec_hex((opcode & 0xFF) as nat)
}

fn thumb_swi_assembly(opcode: u16) -> (r: String)
    ensures
        r@ == spec_thumb_swi_assembly(opcode),
{
    let value = opcode & 0xFF;
    let mut s = String::from_str("swi ");
    append_hex(&mut s, value as u32);
    s
}

pub open spec fn spec_uncond_branch_assembly(opcode: u16) -> Seq<char> {
    "b "@ + spec_hex(((opcode & 0x7FF) * 2) as nat)
}

fn uncond_branch_assembly(opcode: u16) -> (r: String)
    ensures
        r@ == spec_uncond_branch_assembly(opcode),
{
    proof { lemma_and_bound_u16(opcode, 0x7FF); lemma_shl_small_u16(opcode & 0x7FF); }
    let offset = (opcode & 0x7FF) << 1;
    let mut s = String::from_str("b ");
    append_hex(&mut s, offset as u32);
    s
}

pub open spec fn spec_long_branch_assembly(opcode: u16) -> Seq<char> {
    "bl "@ + spec_hex(((opcode & 0x7FF) * 2) as nat)
}

fn long_branch_assembly(opcode: u16) -> (r: String)
    ensures
        r@ == spec_long_branch_assembly(opcode),
{
    proof { lemma_and_bound_u16(opcode, 0x7FF); lemma_shl_small_u16(opcode & 0x7FF); }
    let offset = (opcode & 0x7FF) << 1;
    let mut s = String::from_str("bl ");
    append_hex(&mut s, offset as u32);
    s
}

/// The assembly text of a THUMB opcode, by its format.
pub open spec fn spec_to_thumb_assembly(opcode: u16) -> Seq<char> {
    match spec_decode_thumb(opcode) {
        Some(DecodedThumb::MoveShifted) => spec_move_shifted_assembly(opcode),
        Some(DecodedThumb::AddSub) => spec_add_sub_assembly(opcode),
        Some(DecodedThumb::AluImmediate) => spec_alu_immediate_assembly(opcode),
        Some(DecodedThumb::AluOperation) => spec_alu_operation_assembly(opcode),
        Some(DecodedThumb::HiRegister) => spec_hi_register_assembly(opcode),
        Some(DecodedThumb::PcRelativeLoad) => spec_pc_relative_assembly(opcode),
        Some(DecodedThumb::MemRegOffset) => spec_mem_reg_offset_assembly(opcode),
        Some(DecodedThumb::MemSignExtended) => spec_mem_sign_assembly(opcode),
        Some(DecodedThumb::MemImmOffset) => spec_mem_imm_offset_assembly(opcode),
        Some(DecodedThumb::MemHalfword) => spec_mem_halfword_assembly(opcode),
        Some(DecodedThumb::MemSpRelative) => spec_mem_sp_relative_assembly(opcode),
        Some(DecodedThumb::LoadAddress) => spec_load_address_assembly(opcode),
        Some(DecodedThumb::OffsetSp) => spec_offset_sp_assembly(opcode),
        Some(DecodedThumb::PushPop) => spec_push_pop_assembly(opcode),
        Some(DecodedThumb::MemMultiple) => spec_mem_multiple_assembly(opcode),
        Some(DecodedThumb::CondBranch) => spec_cond_branch_assembly(opcode),
        Some(DecodedThumb::Swi) => spec_thumb_swi_assembly(opcode),
        Some(DecodedThumb::UncondBranch) => spec_uncond_branch_assembly(opcode),
        Some(DecodedThumb::LongBranch) => spec_long_branch_assembly(opcode),
        None => Seq::empty(),
    }
}

/// The assembly text of a THUMB opcode that has a format.
pub fn to_thumb_assembly(opcode: u16) -> (r: String)
    requires
        spec_decode_thumb(opcode) is Some,
    ensures
        r@ == spec_to_thumb_assembly(opcode),
{
    let instruction_type = decode_thumb(opcode);
    match instruction_type {
        DecodedThumb::MoveShifted => {
            assert((opcode >> 13u16) == 0 && (opcode >> 11u16) != 0b00011 ==> (opcode >> 11u16) & 0b11 != 0b11) by (bit_vector);
            move_shifted_assembly(opcode)
        },
        DecodedThumb::AddSub => add_sub_assembly(opcode),
        DecodedThumb::AluImmediate => alu_immediate_assembly(opcode),
        DecodedThumb::AluOperation => alu_operation_assembly(opcode),
        DecodedThumb::HiRegister => hi_register_assembly(opcode),
        DecodedThumb::PcRelativeLoad => pc_relative_assembly(opcode),
        DecodedThumb::MemRegOffset => mem_reg_offset_assembly(opcode),
        DecodedThumb::MemSignExtended => mem_sign_assembly(opcode),
        DecodedThumb::MemImmOffset => mem_imm_offset_assembly(opcode),
        DecodedThumb::MemHalfword => mem_halfword_assembly(opcode),
        DecodedThumb::MemSpRelative => mem_sp_relative_assembly(opcode),
        DecodedThumb::LoadAddress => load_address_assembly(opcode),
        DecodedThumb::OffsetSp => offset_sp_assembly(opcode),
        DecodedThumb::PushPop => push_pop_assembly(opcode),
        DecodedThumb::MemMultiple => mem_multiple_assembly(opcode),
        DecodedThumb::CondBranch => cond_branch_assembly(opcode),
        DecodedThumb::Swi => thumb_swi_assembly(opcode),
        DecodedThumb::UncondBranch => uncond_branch_assembly(opcode),
        DecodedThumb::LongBranch => long_branch_assembly(opcode),
    }
}


// ---------------------------------------------------------------- ARM

/// The text of a second operand: an immediate with its rotation, or a
/// register shifted by an immediate or by a register.
pub open spec fn spec_barrel_shifter_assembly(opcode: u32, is_immediate: bool) -> Seq<char> {
    if is_immediate {
        spec_dec((opcode & 0xFF) as nat) + " ROR "@ + spec_dec((((opcode >> 8u32) & 0xF) * 2) as nat)
    } else {
        let shift = (opcode >> 5u32) & 0b11;
        let shift_type = if shift == 0 { "lsl"@ } else if shift == 1 { "lsr"@ } else if shift == 2 { "asr"@ } else { "ror"@ };
        let shift_amount = if (opcode >> 4u32) & 1 == 1 {
            "r"@ + spec_dec(((opcode >> 8u32) & 0xF) as nat)
        } else {
            spec_dec(((opcode >> 7u32) & 0x1F) as nat)
        };
        "r"@ + spec_dec((opcode & 0xF) as nat) + " "@ + shift_type + " "@ + shift_amount
    }
}

fn barrel_shifter_assembly(opcode: u32, is_immediate: bool) -> (r: String)
    ensures
        r@ == spec_barrel_shifter_assembly(opcode, is_immediate),
{
    if is_immediate {
        let immediate_value = opcode & 0xFF;
        proof { lemma_and_bound_u32(opcode >> 8u32, 0xF); lemma_shl_small_u32((opcode >> 8u32) & 0xF); }
        let shift_amount = ((opcode >> 8) & 0xF) << 1;

        let mut s = String::new();
        append_dec(&mut s, immediate_value);
        s.append(" ROR ");
        append_dec(&mut s, shift_amount);
        assert(s@ =~= spec_barrel_shifter_assembly(opcode, is_immediate));
        return s;
    }

    let shift = (opcode >> 5) & 0b11;
    let shift_type = if shift == 0b00 { "lsl" } else if shift == 0b01 { "lsr" } else if shift == 0b10 { "asr" } else { "ror" };

    let rm = opcode & 0xF;
    let mut s = String::from_str("r");
    append_dec(&mut s, rm);
    s.append(" ");
    s.append(shift_type);
    s.append(" ");
    if (opcode >> 4) & 1 == 1 {
        let reg = (opcode >> 8) & 0xF;
        s.append("r");
        append_dec(&mut s, reg);
    } else {
        let imm = (opcode >> 7) & 0x1F;
        append_dec(&mut s, imm);
    }
    assert(s@ =~= spec_barrel_shifter_assembly(opcode, is_immediate));
    s
}

pub open spec fn spec_multiply_assembly(opcode: u32) -> (Seq<char>, Seq<char>) {
    let a_bit = (opcode >> 21u32) & 1 == 1;
    let start = if a_bit { "mla"@ } else { "mul"@ };
    let s = if (opcode >> 20u32) & 1 == 1 { "s"@ } else { Seq::empty() };
    let accumulate = if a_bit { ", r"@ + spec_dec(((opcode >> 12u32) & 0xF) as nat) } else { Seq::empty() };
    (start, s + " r"@ + spec_dec(((opcode >> 16u32) & 0xF) as nat) + ", r"@ + spec_dec((opcode & 0xF) as nat)
        + ", r"@ + spec_dec(((opcode >> 8u32) & 0xF) as nat) + accumulate)
}

fn multiply_assembly(opcode: u32) -> (r: (String, String))
    ensures
        r.0@ == spec_multiply_assembly(opcode).0,
        r.1@ == spec_multiply_assembly(opcode).1,
{
    let a_bit = (opcode >> 21) & 1 == 1;
    let start = String::from_str(if a_bit { "mla" } else { "mul" });

    let mut rest_of_line = String::new();
    if (opcode >> 20) & 1 == 1 {
        rest_of_line.append("s");
    }

    let rd = (opcode >> 16) & 0xF;
    let rm = opcode & 0xF;
    let rs = (opcode >> 8) & 0xF;
    let rn = (opcode >> 12) & 0xF;

    rest_of_line.append(" r");
    append_dec(&mut rest_of_line, rd);
    rest_of_line.append(", r");
    append_dec(&mut rest_of_line, rm);
    rest_of_line.append(", r");
    append_dec(&mut rest_of_line, rs);
    if a_bit {
        rest_of_line.append(", r");
        append_dec(&mut rest_of_line, rn);
    }
    assert(rest_of_line@ =~= spec_multiply_assembly(opcode).1);
    (start, rest_of_line)
}

pub open spec fn spec_multiply_long_assembly(opcode: u32) -> (Seq<char>, Seq<char>) {
    let sign = if (opcode >> 22u32) & 1 == 1 { "s"@ } else { "u"@ };
    let kind = if (opcode >> 21u32) & 1 == 1 { "mlal"@ } else { "mull"@ };
    let s = if (opcode >> 20u32) & 1 == 1 { "S"@ } else { ""@ };
    (sign + kind, s + " r"@ + spec_dec(((opcode >> 12u32) & 0xF) as nat) + ", r"@ + spec_dec(((opcode >> 16u32) & 0xF) as nat)
        + ", r"@ + spec_dec((opcode & 0xF) as nat) + ", r"@ + spec_dec(((opcode >> 8u32) & 0xF) as nat))
}

fn multiply_long_assembly(opcode: u32) -> (r: (String, String))
    ensures
        r.0@ == spec_multiply_long_assembly(opcode).0,
        r.1@ == spec_multiply_long_assembly(opcode).1,
{
    let a_bit = (opcode >> 21) & 1 == 1;
    let u_bit = (opcode >> 22) & 1 == 1;

    let mut start = String::from_str(if u_bit { "s" } else { "u" });
    start.append(if a_bit { "mlal" } else { "mull" });

    let s_bit = (opcode >> 20) & 1 == 1;
    let mut rest_of_line = String::from_str(if s_bit { "S" } else { "" });

    let rdlo = (opcode >> 12) & 0xF;
    let rdhi = (opcode >> 16) & 0xF;
    let rm = opcode & 0xF;
    let rs = (opcode >> 8) & 0xF;

    rest_of_line.append(" r");
    append_dec(&mut rest_of_line, rdlo);
    rest_of_line.append(", r");
    append_dec(&mut rest_of_line, rdhi);
    rest_of_line.append(", r");
    append_dec(&mut rest_of_line, rm);
    rest_of_line.append(", r");
    append_dec(&mut rest_of_line, rs);
    (start, rest_of_line)
}

pub open spec fn spec_single_data_swap_assembly(opcode: u32) -> (Seq<char>, Seq<char>) {
    let b = if (opcode >> 22u32) & 1 == 1 { "b"@ } else { Seq::empty() };
    ("swp"@, b + " r"@ + spec_dec(((opcode >> 12u32) & 0xF) as nat) + ", r"@ + spec_dec((opcode & 0xF) as nat)
        + ", [r"@ + spec_dec(((opcode >> 16u32) & 0xF) as nat) + "]"@)
}

fn single_data_swap_assembly(opcode: u32) -> (r: (String, String))
    ensures
        r.0@ == spec_single_data_swap_assembly(opcode).0,
        r.1@ == spec_single_data_swap_assembly(opcode).1,
{
    let start = String::from_str("swp");
    let mut rest_of_line = String::new();

    let b_bit = (opcode >> 22) & 1 == 1;
    if b_bit {
        rest_of_line.append("b");
    }

    let rd = (opcode >> 12) & 0xF;
    let rm = opcode & 0xF;
    let rn = (opcode >> 16) & 0xF;
    rest_of_line.append(" r");
    append_dec(&mut rest_of_line, rd);
    rest_of_line.append(", r");
    append_dec(&mut rest_of_line, rm);
    rest_of_line.append(", [r");
    append_dec(&mut rest_of_line, rn);
    rest_of_line.append("]");
    assert(rest_of_line@ =~= spec_single_data_swap_assembly(opcode).1);
    (start, rest_of_line)
}

pub open spec fn spec_branch_exchange_assembly(opcode: u32) -> (Seq<char>, Seq<char>) {
    ("bx"@, " r"@ + spec_dec((opcode & 0xF) as nat))
}

fn branch_exchange_assembly(opcode: u32) -> (r: (String, String))
    ensures
        r.0@ == spec_branch_exchange_assembly(opcode).0,
        r.1@ == spec_branch_exchange_assembly(opcode).1,
{
    let start = String::from_str("bx");
    let rn = opcode & 0xF;
    let mut rest_of_line = String::from_str(" r");
    append_dec(&mut rest_of_line, rn);
    (start, rest_of_line)
}

pub open spec fn spec_halfword_transfer_assembly(opcode: u32) -> (Seq<char>, Seq<char>) {
    let start = if (opcode >> 20u32) & 1 == 1 { "ldr"@ } else { "str"@ };
    let sb_bits = (opcode >> 5u32) & 0b11;
    let kind = if sb_bits == 1 { "h"@ } else if sb_bits == 2 { "sb"@ } else { "sh"@ };
    let offset = if (opcode >> 22u32) & 1 == 1 {
        spec_hex((((opcode >> 4u32) & 0xF0) | (opcode & 0xF)) as nat)
    } else {
        spec_barrel_shifter_assembly(opcode, false)
    };
    (start, kind + " r"@ + spec_dec(((opcode >> 12u32) & 0xF) as nat) + ", [r"@ + spec_dec(((opcode >> 16u32) & 0xF) as nat)
        + ", "@ + offset + "]"@)
}

fn halfword_transfer_assembly(opcode: u32) -> (r: (String, String))
    requires
        (opcode >> 5u32) & 0b11 != 0,
    ensures
        r.0@ == spec_halfword_transfer_assembly(opcode).0,
        r.1@ == spec_halfword_transfer_assembly(opcode).1,
{
    let l_bit = (opcode >> 20) & 1 == 1;
    let start = String::from_str(if l_bit { "ldr" } else { "str" });

    let sb_bits = (opcode >> 5) & 0b11;
    let mut rest_of_line = String::from_str(if sb_bits == 0b01 { "h" } else if sb_bits == 0b10 { "sb" } else { "sh" });

    let rd = (opcode >> 12) & 0xF;
    let rn = (opcode >> 16) & 0xF;

    let i_bit = (opcode >> 22) & 1 == 1;
    let offset = if i_bit {
        //imm
        let offset = ((opcode >> 4) & 0xF0) | (opcode & 0xF);
        let mut text = String::new();
        append_hex(&mut text, offset);
        assert(text@ =~= spec_hex(offset as nat));
        text
    } else {
        //reg
        barrel_shifter_assembly(opcode, false)
    };

    rest_of_line.append(" r");
    append_dec(&mut rest_of_line, rd);
    rest_of_line.append(", [r");
    append_dec(&mut rest_of_line, rn);
    rest_of_line.append(", ");
    rest_of_line.append(offset.as_str());
    rest_of_line.append("]");
    (start, rest_of_line)
}

pub open spec fn spec_single_data_transfer_assembly(opcode: u32) -> (Seq<char>, Seq<char>) {
    let start = if (opcode >> 20u32) & 1 == 1 { "ldr"@ } else { "stm"@ };
    let b = if (opcode >> 22u32) & 1 == 1 { "b"@ } else { Seq::empty() };
    let t = if (opcode >> 21u32) & 1 == 1 { "t"@ } else { Seq::empty() };
    let offset = if (opcode >> 25u32) & 1 == 1 {
        spec_barrel_shifter_assembly(opcode, false)
    } else {
        spec_hex((opcode & 0xFFF) as nat)
    };
    (start, b + t + " r"@ + spec_dec(((opcode >> 12u32) & 0xF) as nat) + ", [r"@ + spec_dec(((opcode >> 16u32) & 0xF) as nat)
        + ", "@ + offset + "]"@)
}

fn single_data_transfer_assembly(opcode: u32) -> (r: (String, String))
    ensures
        r.0@ == spec_single_data_transfer_assembly(opcode).0,
        r.1@ == spec_single_data_transfer_assembly(opcode).1,
{
    let l_bit = (opcode >> 20) & 1 == 1;
    let start = String::from_str(if l_bit { "ldr" } else { "stm" });

    let mut rest_of_line = String::new();
    let b_bit = (opcode >> 22) & 1 == 1;
    let t_bit = (opcode >> 21) & 1 == 1;
    if b_bit {
        rest_of_line.append("b");
    }
    if t_bit {
        rest_of_line.append("t");
    }

    let rn = (opcode >> 16) & 0xF;
    let rd = (opcode >> 12) & 0xF;

    let i_bit = (opcode >> 25) & 1 == 1;
    let offset = if !i_bit {
        let offset = opcode & 0xFFF;
        let mut text = String::new();
        append_hex(&mut text, offset);
        assert(text@ =~= spec_hex(offset as nat));
        text
    } else {
        barrel_shifter_assembly(opcode, false)
    };

    rest_of_line.append(" r");
    append_dec(&mut rest_of_line, rd);
    rest_of_line.append(", [r");
    append_dec(&mut rest_of_line, rn);
    rest_of_line.append(", ");
    rest_of_line.append(offset.as_str());
    rest_of_line.append("]");
    assert(rest_of_line@ =~= spec_single_data_transfer_assembly(opcode).1);
    (start, rest_of_line)
}

pub open spec fn spec_block_data_transfer_assembly(opcode: u32) -> (Seq<char>, Seq<char>) {
    let start = if (opcode >> 20u32) & 1 == 1 { "ldr"@ } else { "stm"@ };
    let u_bit = (opcode >> 23u32) & 1 == 1;
    let p_bit = (opcode >> 24u32) & 1 == 1;
    let mode = if !u_bit && !p_bit { "da"@ } else if !u_bit { "db"@ } else if !p_bit { "ia"@ } else { "ib"@ };
    let w = if (opcode >> 21u32) & 1 == 1 { "!"@ } else { ""@ };
    let s = if (opcode >> 22u32) & 1 == 1 { "^"@ } else { ""@ };
    (start, mode + "r"@ + spec_dec(((opcode >> 16u32) & 0xF) as nat) + w + ", {"@ + spec_reg_list(opcode, 16, ","@) + "}"@ + s)
}

fn block_data_transfer_assembly(opcode: u32) -> (r: (String, String))
    ensures
        r.0@ == spec_block_data_transfer_assembly(opcode).0,
        r.1@ == spec_block_data_transfer_assembly(opcode).1,
{
    let l_bit = (opcode >> 20) & 1 == 1;
    let start = String::from_str(if l_bit { "ldr" } else { "stm" });

    let u_bit = (opcode >> 23) & 1 == 1;
    let p_bit = (opcode >> 24) & 1 == 1;

    let mut rest_of_line = String::from_str(
        if !u_bit && !p_bit { "da" } else if !u_bit { "db" } else if !p_bit { "ia" } else { "ib" });

    let rn = (opcode >> 16) & 0xF;
    let w_bit = (opcode >> 21) & 1 == 1;
    let w = if w_bit { "!" } else { "" };
    let s_bit = (opcode >> 22) & 1 == 1;
    let s = if s_bit { "^" } else { "" };

    rest_of_line.append("r");
    append_dec(&mut rest_of_line, rn);
    rest_of_line.append(w);
    rest_of_line.append(", {");
    append_reg_list(&mut rest_of_line, opcode, 16, ",");
    rest_of_line.append("}");
    rest_of_line.append(s);
    (start, rest_of_line)
}

/// The target offset of a branch: the 24-bit field, times four, sign-extended.
pub open spec fn spec_branch_offset(opcode: u32) -> u32 {
    let offset = (opcode & 0xFFFFFF) << 2u32;
    if (opcode >> 23u32) & 1 == 1 { offset | 0xFC000000 } else { offset }
}

pub open spec fn spec_branch_assembly(opcode: u32) -> (Seq<char>, Seq<char>) {
    let start = if (opcode >> 24u32) & 1 == 1 { "b"@ + "l"@ } else { "b"@ };
    (start, " "@ + spec_hex(spec_branch_offset(opcode) as nat))
}

fn branch_assembly(opcode: u32) -> (r: (String, String))
    ensures
        r.0@ == spec_branch_assembly(opcode).0,
        r.1@ == spec_branch_assembly(opcode).1,
{
    let mut start = String::from_str("b");
    let l_bit = (opcode >> 24) & 1 == 1;
    if l_bit {
        start.append("l");
    }

    let mut offset = (opcode & 0xFFFFFF) << 2;
    if opcode >> 23 & 1 == 1 {
        offset |= 0xFC000000;
    }

    let mut rest_of_line = String::from_str(" ");
    append_hex(&mut rest_of_line, offset);
    (start, rest_of_line)
}

pub open spec fn spec_swi_assembly(opcode: u32) -> (Seq<char>, Seq<char>) {
    ("swi"@, spec_hex((opcode & 0xFFFFFF) as nat))
}

fn swi_assembly(opcode: u32) -> (r: (String, String))
    ensures
        r.0@ == spec_swi_assembly(opcode).0,
        r.1@ == spec_swi_assembly(opcode).1,
{
    let start = String::from_str("swi");
    let comment = opcode & 0xFFFFFF;
    let mut rest_of_line = String::new();
    append_hex(&mut rest_of_line, comment);
    assert(rest_of_line@ =~= spec_hex(comment as nat));
    (start, rest_of_line)
}

/// The mnemonic of an ARM data processing operation.
pub open spec fn spec_data_processing_name(op: u32) -> Seq<char> {
    if op == 0x0 { "and"@ } else if op == 0x1 { "eor"@ } else if op == 0x2 { "sub"@ }
    else if op == 0x3 { "rsb"@ } else if op == 0x4 { "add"@ } else if op == 0x5 { "adc"@ }
    else if op == 0x6 { "sbc"@ } else if op == 0x7 { "rsc"@ } else if op == 0x8 { "tst"@ }
    else if op == 0x9 { "teq"@ } else if op == 0xA { "cmp"@ } else if op == 0xB { "cmn"@ }
    else if op == 0xC { "orr"@ } else if op == 0xD { "mov"@ } else if op == 0xE { "bic"@ }
    else { "mvn"@ }
}

pub open spec fn spec_data_processing_assembly(opcode: u32) -> (Seq<char>, Seq<char>) {
    let inner_opcode = (opcode >> 21u32) & 0xF;
    let rn = spec_dec(((opcode >> 16u32) & 0xF) as nat);
    let op2 = spec_barrel_shifter_assembly(opcode, (opcode >> 25u32) & 1 == 1);
    let rest = if 0x8 <= inner_opcode <= 0xB {
        " r"@ + rn + ", "@ + op2
    } else {
        let s = if (opcode >> 20u32) & 1 == 1 { "s"@ } else { Seq::empty() };
        s + " r"@ + spec_dec(((opcode >> 12u32) & 0xF) as nat) + ", r"@ + rn + ", "@ + op2
    };
    (spec_data_processing_name(inner_opcode), rest)
}

fn data_processing_assembly(opcode: u32) -> (r: (String, String))
    ensures
        r.0@ == spec_data_processing_assembly(opcode).0,
        r.1@ == spec_data_processing_assembly(opcode).1,
{
    let inner_opcode = (opcode >> 21) & 0xF;
    let name = if inner_opcode == 0x0 { "and" } else if inner_opcode == 0x1 { "eor" } else if inner_opcode == 0x2 { "sub" }
    else if inner_opcode == 0x3 { "rsb" } else if inner_opcode == 0x4 { "add" } else if inner_opcode == 0x5 { "adc" }
    else if inner_opcode == 0x6 { "sbc" } else if inner_opcode == 0x7 { "rsc" } else if inner_opcode == 0x8 { "tst" }
    else if inner_opcode == 0x9 { "teq" } else if inner_opcode == 0xA { "cmp" } else if inner_opcode == 0xB { "cmn" }
    else if inner_opcode == 0xC { "orr" } else if inner_opcode == 0xD { "mov" } else if inner_opcode == 0xE { "bic" }
    else { "mvn" };
    let mut rest_of_line = String::new();

    let rn = (opcode >> 16) & 0xF;
    let rd = (opcode >> 12) & 0xF;
    let op2_assembly = barrel_shifter_assembly(opcode, (opcode >> 25) & 1 == 1);

    if inner_opcode >= 0x8 && inner_opcode <= 0xB {
        rest_of_line.append(" r");
        append_dec(&mut rest_of_line, rn);
        rest_of_line.append(", ");
        rest_of_line.append(op2_assembly.as_str());
    } else {
        if opcode >> 20 & 1 == 1 {
            rest_of_line.append("s");
        }
        rest_of_line.append(" r");
        append_dec(&mut rest_of_line, rd);
        rest_of_line.append(", r");
        append_dec(&mut rest_of_line, rn);
        rest_of_line.append(", ");
        rest_of_line.append(op2_assembly.as_str());
    }
    assert(rest_of_line@ =~= spec_data_processing_assembly(opcode).1);
    (String::from_str(name), rest_of_line)
}

/// Whether an ARM opcode can be written out: it has a format, and not the
/// undefined or a coprocessor one.
pub open spec fn spec_arm_printable(opcode: u32) -> bool {
    match spec_decode_arm(opcode) {
        Some(DecodedArm::Undefined) => false,
        Some(DecodedArm::CoprocDataTransfer) => false,
        Some(DecodedArm::CoprocDataOperation) => false,
        Some(DecodedArm::CoprocRegTransfer) => false,
        Some(_) => true,
        None => false,
    }
}

/// Whether an ARM opcode can be written out (see `spec_arm_printable`).
pub fn arm_printable(opcode: u32) -> (r: bool)
    ensures
        r == spec_arm_printable(opcode),
{
    let masked = opcode & REMOVE_CONDITION_MASK;
    let undefined = masked >> 25 != 0b001 && masked & BRANCH_EXCHANGE_MASK != BRANCH_EXCHANGE_VALUE
        && masked & UNDEFINED_MASK == UNDEFINED_VALUE;
    arm_runs(opcode) && !undefined
}

/// The mnemonic and the operands of an ARM opcode, by its format.
pub open spec fn spec_arm_parts(opcode: u32) -> (Seq<char>, Seq<char>) {
    match spec_decode_arm(opcode) {
        Some(DecodedArm::DataProcessing) => spec_data_processing_assembly(opcode),
        Some(DecodedArm::Multiply) => spec_multiply_assembly(opcode),
        Some(DecodedArm::MultiplyLong) => spec_multiply_long_assembly(opcode),
        Some(DecodedArm::SingleDataSwap) => spec_single_data_swap_assembly(opcode),
        Some(DecodedArm::BranchExchange) => spec_branch_exchange_assembly(opcode),
        Some(DecodedArm::HalfwordTransferReg) => spec_halfword_transfer_assembly(opcode),
        Some(DecodedArm::HalfwordTransferImm) => spec_halfword_transfer_assembly(opcode),
        Some(DecodedArm::SingleDataTransfer) => spec_single_data_transfer_assembly(opcode),
        Some(DecodedArm::BlockDataTransfer) => spec_block_data_transfer_assembly(opcode),
        Some(DecodedArm::Branch) => spec_branch_assembly(opcode),
        Some(DecodedArm::Swi) => spec_swi_assembly(opcode),
        _ => (Seq::empty(), Seq::empty()),
    }
}

/// The assembly text of an ARM opcode: the mnemonic, the condition suffix,
/// then the rest.
pub open spec fn spec_to_arm_assembly(opcode: u32) -> Seq<char> {
    let (start, end) = spec_arm_parts(opcode);
    start + spec_cond_string((opcode >> 28u32) as u8) + end
}

/// The assembly text of an ARM opcode that can be written out.
pub fn to_arm_assembly(opcode: u32) -> (r: String)
    requires
        spec_arm_printable(opcode),
    ensures
        r@ == spec_to_arm_assembly(opcode),
{
    let instruction_type = decode_arm(opcode);
    proof { lemma_top_nibble(opcode); }
    let condition = convert_cond_string((opcode >> 28) as u8);

    // split into two to allow the condition to be added
    let (start, end) = match instruction_type {
        DecodedArm::DataProcessing => data_processing_assembly(opcode),
        DecodedArm::Multiply => multiply_assembly(opcode),
        DecodedArm::MultiplyLong => multiply_long_assembly(opcode),
        DecodedArm::SingleDataSwap => single_data_swap_assembly(opcode),
        DecodedArm::BranchExchange => branch_exchange_assembly(opcode),
        DecodedArm::HalfwordTransferReg | DecodedArm::HalfwordTransferImm => {
            assert((opcode & 0x0FFF_FFFFu32) >> 4u32 & 0b1001u32 == 0b1001u32
                && ((opcode & 0x0FFF_FFFFu32) >> 4u32) & 0xFu32 != 0b1001u32 ==> (opcode >> 5u32) & 0b11u32 != 0)
                by (bit_vector);
            halfword_transfer_assembly(opcode)
        },
        DecodedArm::SingleDataTransfer => single_data_transfer_assembly(opcode),
        DecodedArm::BlockDataTransfer => block_data_transfer_assembly(opcode),
        DecodedArm::Branch => branch_assembly(opcode),
        _ => swi_assembly(opcode),
    };

    let mut text = start;
    text.append(condition.as_str());
    text.append(end.as_str());
    text
}

/// The sixteen THUMB ALU operations get sixteen different mnemonics.
pub proof fn lemma_alu_names_distinct(op1: u16, op2: u16)
    requires
        op1 < 16,
        op2 < 16,
        op1 != op2,
    ensures
        spec_alu_name(op1) != spec_alu_name(op2),
{
    reveal_strlit("and");
    reveal_strlit("eor");
    reveal_strlit("lsl");
    reveal_strlit("lsr");
    reveal_strlit("asr");
    reveal_strlit("adc");
    reveal_strlit("sbc");
    reveal_strlit("ror");
    reveal_strlit("tst");
    reveal_strlit("neg");
    reveal_strlit("cmp");
    reveal_strlit("cmn");
    reveal_strlit("orr");
    reveal_strlit("mul");
    reveal_strlit("bic");
    reveal_strlit("mvn");
    if spec_alu_name(op1) == spec_alu_name(op2) {
        assert(spec_alu_name(op1)[0] == spec_alu_name(op2)[0]);
        assert(spec_alu_name(op1)[1] == spec_alu_name(op2)[1]);
        assert(spec_alu_name(op1)[2] == spec_alu_name(op2)[2]);
    }
}

/// The mnemonic printed for a THUMB ALU opcode names what the processor
/// does with it (arithmetic modulo 2^32): `neg` computes `0 - rs`, `mvn` the
/// complement of rs, `eor`, `and`/`tst`, `orr` and `bic` combine the bits of
/// rd and rs, `adc`, `sbc`, `cmp`, `cmn` and `mul` add, subtract and multiply.
pub proof fn lemma_alu_names_say_what_runs(cpu: Cpu, op: u16, rd: int, rs: int)
    requires
        op < 16,
    ensures
        ({
            let (r, _, _) = spec_thumb_alu(cpu, op, rd, rs);
            let a = cpu.reg(rd);
            let b = cpu.reg(rs);
            let m = 0x1_0000_0000int;
            let cin: int = if cpu.cpsr().c { 1 } else { 0 };
            &&& spec_alu_name(op) == "neg"@ ==> r == (0 - b) % m && (r + b) % m == 0
            &&& spec_alu_name(op) == "mvn"@ ==> r == !b
            &&& spec_alu_name(op) == "eor"@ ==> r == a ^ b
            &&& spec_alu_name(op) == "and"@ ==> r == a & b
            &&& spec_alu_name(op) == "tst"@ ==> r == a & b
            &&& spec_alu_name(op) == "orr"@ ==> r == a | b
            &&& spec_alu_name(op) == "bic"@ ==> r == a & !b
            &&& spec_alu_name(op) == "adc"@ ==> r == (a + b + cin) % m
            &&& spec_alu_name(op) == "sbc"@ ==> r == (a - b - 1 + cin) % m
            &&& spec_alu_name(op) == "cmp"@ ==> r == (a - b) % m
            &&& spec_alu_name(op) == "cmn"@ ==> r == (a + b) % m
            &&& spec_alu_name(op) == "mul"@ ==> r == (a * b) % m
        }),
{
    reveal_strlit("and");
    reveal_strlit("eor");
    reveal_strlit("lsl");
    reveal_strlit("lsr");
    reveal_strlit("asr");
    reveal_strlit("adc");
    reveal_strlit("sbc");
    reveal_strlit("ror");
    reveal_strlit("tst");
    reveal_strlit("neg");
    reveal_strlit("cmp");
    reveal_strlit("cmn");
    reveal_strlit("orr");
    reveal_strlit("mul");
    reveal_strlit("bic");
    reveal_strlit("mvn");
    lemma_thumb_alu_results(cpu, op, rd, rs);
    assert forall|j: u16| j < 16 && j != op implies #[trigger] spec_alu_name(j) != spec_alu_name(op) by {
        lemma_alu_names_distinct(j, op);
    }
    assert(spec_alu_name(9) == "neg"@);
    assert(spec_alu_name(15) == "mvn"@);
    assert(spec_alu_name(1) == "eor"@);
    assert(spec_alu_name(0) == "and"@);
    assert(spec_alu_name(8) == "tst"@);
    assert(spec_alu_name(12) == "orr"@);
    assert(spec_alu_name(14) == "bic"@);
    assert(spec_alu_name(5) == "adc"@);
    assert(spec_alu_name(6) == "sbc"@);
    assert(spec_alu_name(10) == "cmp"@);
    assert(spec_alu_name(11) == "cmn"@);
    assert(spec_alu_name(13) == "mul"@);
}

/// The sixteen ARM data processing operations get sixteen different mnemonics.
pub proof fn lemma_data_processing_names_distinct(op1: u32, op2: u32)
    requires
        op1 < 16,
        op2 < 16,
        op1 != op2,
    ensures
        spec_data_processing_name(op1) != spec_data_processing_name(op2),
{
    reveal_strlit("and");
    reveal_strlit("eor");
    reveal_strlit("sub");
    reveal_strlit("rsb");
    reveal_strlit("add");
    reveal_strlit("adc");
    reveal_strlit("sbc");
    reveal_strlit("rsc");
    reveal_strlit("tst");
    reveal_strlit("teq");
    reveal_strlit("cmp");
    reveal_strlit("cmn");
    reveal_strlit("orr");
    reveal_strlit("mov");
    reveal_strlit("bic");
    reveal_strlit("mvn");
    if spec_data_processing_name(op1) == spec_data_processing_name(op2) {
        assert(spec_data_processing_name(op1)[0] == spec_data_processing_name(op2)[0]);
        assert(spec_data_processing_name(op1)[1] == spec_data_processing_name(op2)[1]);
        assert(spec_data_processing_name(op1)[2] == spec_data_processing_name(op2)[2]);
    }
}

/// The mnemonic printed for an ARM data processing opcode names what the ALU
/// computes for it (arithmetic modulo 2^32): `sub` and `cmp` give
/// `op1 - op2`, `rsb` gives `op2 - op1`, `add` and `cmn` `op1 + op2`, `adc`,
/// `sbc` and `rsc` the same with the carry, and the logical ones combine bits.
pub proof fn lemma_data_processing_names_say_what_runs(op: u32, op1: u32, op2: u32, op2_carry: bool, carry: bool)
    requires
        op < 16,
    ensures
        ({
            let r = spec_alu(op, op1, op2, op2_carry, carry).0;
            let m = 0x1_0000_0000int;
            let cin: int = if carry { 1 } else { 0 };
            let name = spec_data_processing_name(op);
            &&& name == "sub"@ || name == "cmp"@ ==> r == (op1 - op2) % m
            &&& name == "rsb"@ ==> r == (op2 - op1) % m
            &&& name == "add"@ || name == "cmn"@ ==> r == (op1 + op2) % m
            &&& name == "adc"@ ==> r == (op1 + op2 + cin) % m
            &&& name == "sbc"@ ==> r == (op1 - op2 - 1 + cin) % m
            &&& name == "rsc"@ ==> r == (op2 - op1 - 1 + cin) % m
            &&& name == "and"@ || name == "tst"@ ==> r == op1 & op2
            &&& name == "eor"@ || name == "teq"@ ==> r == op1 ^ op2
            &&& name == "orr"@ ==> r == op1 | op2
            &&& name == "mov"@ ==> r == op2
            &&& name == "bic"@ ==> r == op1 & !op2
            &&& name == "mvn"@ ==> r == !op2
        }),
{
    reveal_strlit("and");
    reveal_strlit("eor");
    reveal_strlit("sub");
    reveal_strlit("rsb");
    reveal_strlit("add");
    reveal_strlit("adc");
    reveal_strlit("sbc");
    reveal_strlit("rsc");
    reveal_strlit("tst");
    reveal_strlit("teq");
    reveal_strlit("cmp");
    reveal_strlit("cmn");
    reveal_strlit("orr");
    reveal_strlit("mov");
    reveal_strlit("bic");
    reveal_strlit("mvn");
    lemma_alu_arithmetic(op1, op2, op2_carry, carry);
    lemma_alu_logical(op1, op2, op2_carry, carry);
    assert forall|j: u32| j < 16 && j != op implies
        #[trigger] spec_data_processing_name(j) != spec_data_processing_name(op) by {
        lemma_data_processing_names_distinct(j, op);
    }
    assert(spec_data_processing_name(0) == "and"@);
    assert(spec_data_processing_name(1) == "eor"@);
    assert(spec_data_processing_name(2) == "sub"@);
    assert(spec_data_processing_name(3) == "rsb"@);
    assert(spec_data_processing_name(4) == "add"@);
    assert(spec_data_processing_name(5) == "adc"@);
    assert(spec_data_processing_name(6) == "sbc"@);
    assert(spec_data_processing_name(7) == "rsc"@);
    assert(spec_data_processing_name(8) == "tst"@);
    assert(spec_data_processing_name(9) == "teq"@);
    assert(spec_data_processing_name(10) == "cmp"@);
    assert(spec_data_processing_name(11) == "cmn"@);
    assert(spec_data_processing_name(12) == "orr"@);
    assert(spec_data_processing_name(13) == "mov"@);
    assert(spec_data_processing_name(14) == "bic"@);
    assert(spec_data_processing_name(15) == "mvn"@);
}

} // verus!
