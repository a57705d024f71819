use gba_core::cpu::add_with_carry;
use gba_core::cpu::decode::{arm_runs, decode_arm, decode_thumb, thumb_defined, DecodedArm, DecodedThumb};
use gba_core::cpu::execute_arm::execute_arm;
use gba_core::cpu::execute_thumb::execute_thumb;
use gba_core::cpu::get_shifted_value;
use gba_core::cpu::interrupt::handle_interrupts;
use gba_core::cpu::registers::{
    check_condition, convert_cpsr_u32, convert_u32_cpsr, Cpsr, Cpu, CpuStatus, ProcessorMode,
};
use gba_core::mem::bus::{Bus, CpuInterface};
use gba_core::mem::memory::create_memory;

fn bus() -> Bus {
    Bus::new(create_memory(vec![0; 0x4000], vec![0; 0x100]).unwrap(), true)
}

fn cpu() -> Cpu {
    Cpu::new()
}

#[test]
fn new_cpu_starts_after_the_bios() {
    let c = cpu();
    assert_eq!(c.pc, 0x0800_0000);
    assert_eq!(c.status.cpsr.mode, ProcessorMode::System);
    assert_eq!(c.get_register(13), 0x0300_7F00);
    assert_eq!(c.get_register_specific(13, ProcessorMode::Interrupt), 0x0300_7FA0);
    assert_eq!(c.get_register_specific(13, ProcessorMode::Supervisor), 0x0300_7FE0);
    assert_eq!(c.get_register(15), 0x0800_0000);
    assert!(!c.halted);

    let b = Cpu::from_bios();
    assert_eq!(b.pc, 0);
    assert_eq!(b.status.cpsr.mode, ProcessorMode::Supervisor);
    assert!(b.status.cpsr.i && b.status.cpsr.f);
}

#[test]
fn register_write_then_read() {
    let mut c = cpu();
    c.set_register(3, 0x1234);
    assert_eq!(c.get_register(3), 0x1234);
    *c.get_register_mut(4) = 77;
    assert_eq!(c.get_register(4), 77);
    assert_eq!(c.get_register(3), 0x1234);
}

#[test]
fn banked_registers_are_separate() {
    let mut c = cpu();
    c.set_register(13, 5);
    c.set_register_specific(8, ProcessorMode::FastInterrupt, 7);
    assert_eq!(c.get_register(8), 0);
    assert_eq!(c.get_register_specific(8, ProcessorMode::FastInterrupt), 7);
    c.status.cpsr.mode = ProcessorMode::Supervisor;
    assert_eq!(c.get_register(13), 0x0300_7FE0);
    assert_eq!(c.get_register_specific(13, ProcessorMode::System), 5);
    // User and System share their registers
    assert_eq!(c.get_register_specific(13, ProcessorMode::User), 5);
}

#[test]
fn pc_moves_on_by_an_instruction() {
    let mut c = cpu();
    assert_eq!(c.get_pc_arm(), 0x0800_0000);
    assert_eq!(c.pc, 0x0800_0004);
    assert_eq!(c.get_pc_thumb(), 0x0800_0004);
    assert_eq!(c.pc, 0x0800_0006);
}

#[test]
fn status_register_round_trip() {
    let cpsr = Cpsr {
        n: true, z: false, c: true, v: false, q: false, i: true, f: false, t: true,
        mode: ProcessorMode::System,
    };
    assert_eq!(convert_cpsr_u32(&cpsr), 0xA000_00BF);
    assert_eq!(convert_u32_cpsr(0xA000_00BF), cpsr);
    assert_eq!(convert_u32_cpsr(0x13).mode, ProcessorMode::Supervisor);
    // an invalid mode pattern reads as Undefined
    assert_eq!(convert_u32_cpsr(0x05).mode, ProcessorMode::Undefined);
    assert_eq!(ProcessorMode::from_bits(0b10010), ProcessorMode::Interrupt);
    assert_eq!(ProcessorMode::Abort.bits(), 0b10111);
}

#[test]
fn saved_status_registers_per_mode() {
    let mut s = CpuStatus::new();
    s.cpsr.mode = ProcessorMode::Interrupt;
    let mut saved = Cpsr::default();
    saved.z = true;
    saved.mode = ProcessorMode::User;
    s.set_specific_spsr(saved, ProcessorMode::Interrupt);
    assert_eq!(*s.get_spsr(), saved);
    s.set_cpsr_to_spsr();
    assert_eq!(s.cpsr, saved);
}

#[test]
fn conditions() {
    let mut cpsr = Cpsr::default();
    cpsr.z = true;
    assert!(check_condition(0b0000, &cpsr));
    assert!(!check_condition(0b0001, &cpsr));
    assert!(check_condition(0b1010, &cpsr)); // GE: N == V
    assert!(!check_condition(0b1100, &cpsr)); // GT needs Z clear
    assert!(check_condition(0b1101, &cpsr)); // LE
    assert!(check_condition(0b1110, &cpsr));
    assert!(!check_condition(0b1111, &cpsr));
    // each condition below AL and its partner disagree
    for cond in 0..14u32 {
        assert_ne!(check_condition(cond, &cpsr), check_condition(cond ^ 1, &cpsr));
    }
}

#[test]
fn add_with_carry_flags() {
    assert_eq!(add_with_carry(0xFFFF_FFFF, 1, false), (0, false, true, true, false));
    assert_eq!(add_with_carry(0x7FFF_FFFF, 1, false), (0x8000_0000, true, false, false, true));
    assert_eq!(add_with_carry(2, 3, true), (6, false, false, false, false));
}

#[test]
fn shifted_operands() {
    let mut c = cpu();
    c.set_register(1, 0x8000_0001);
    // r1, LSL #4
    assert_eq!(get_shifted_value(&c, 0x0000_0201), (0x0000_0010, false));
    // r1, LSR #1
    assert_eq!(get_shifted_value(&c, 0x0000_00A1), (0x4000_0000, true));
    // r1, ASR #31
    assert_eq!(get_shifted_value(&c, 0x0000_0FC1), (0xFFFF_FFFF, false));
    // r1, ROR #4
    assert_eq!(get_shifted_value(&c, 0x0000_0261), (0x1800_0000, false));
}

#[test]
fn rotate_right_extended() {
    let mut c = cpu();
    // r2, RRX with the carry clear: one bit right, bit 0 out as the carry
    c.set_register(2, 2);
    c.status.cpsr.c = false;
    assert_eq!(get_shifted_value(&c, 0x0000_0062), (1, false));
    // with the carry set it enters bit 31
    c.status.cpsr.c = true;
    c.set_register(2, 0x8000_0003);
    assert_eq!(get_shifted_value(&c, 0x0000_0062), (0xC000_0001, true));
}

#[test]
fn decoding() {
    assert_eq!(decode_arm(0xE3A0_0001), DecodedArm::DataProcessing);
    assert_eq!(decode_arm(0xEA00_0002), DecodedArm::Branch);
    assert_eq!(decode_arm(0xE12F_FF10), DecodedArm::BranchExchange);
    assert_eq!(decode_arm(0xE000_0291), DecodedArm::Multiply);
    assert_eq!(decode_arm(0xEF00_0000), DecodedArm::Swi);
    assert_eq!(decode_arm(0xE7F0_00F0), DecodedArm::Undefined);
    assert_eq!(decode_thumb(0x2001), DecodedThumb::AluImmediate);
    assert_eq!(decode_thumb(0xB500), DecodedThumb::PushPop);
    assert_eq!(decode_thumb(0xDF00), DecodedThumb::Swi);
    assert_eq!(decode_thumb(0xF000), DecodedThumb::LongBranch);
}

#[test]
fn defined_and_runnable_opcodes() {
    assert!(thumb_defined(0x2001));
    assert!(thumb_defined(0xB080));
    assert!(!thumb_defined(0xB200));
    assert!(!thumb_defined(0xE800));
    assert!(arm_runs(0xE3A0_0001));
    assert!(!arm_runs(0xEE00_0010));
    assert!(!arm_runs(0xEC00_0000));
    assert!(!arm_runs(0xE1E0_0090));
}

#[test]
fn arm_move_and_add() {
    let mut c = cpu();
    let mut b = bus();
    execute_arm(0xE3A0_0001, &mut c, &mut b); // mov r0, #1
    assert_eq!(c.get_register(0), 1);
    c.set_register(0, 0xFFFF_FFFF);
    c.set_register(1, 1);
    execute_arm(0xE090_2001, &mut c, &mut b); // adds r2, r0, r1
    assert_eq!(c.get_register(2), 0);
    assert!(c.status.cpsr.z && c.status.cpsr.c && !c.status.cpsr.n);
}

#[test]
fn arm_condition_failing_does_nothing() {
    let mut c = cpu();
    let mut b = bus();
    execute_arm(0x03A0_0005, &mut c, &mut b); // moveq r0, #5 with Z clear
    assert_eq!(c.get_register(0), 0);
}

#[test]
fn arm_branch_and_link() {
    let mut c = cpu();
    let mut b = bus();
    c.fde.fetched_opcode = Some(1);
    c.fde.decoded_opcode = Some(2);
    execute_arm(0xEB00_0002, &mut c, &mut b); // bl +8
    assert_eq!(c.pc, 0x0800_0008);
    assert_eq!(c.get_register(14), 0x0800_0000 - 4);
    assert_eq!(c.fde.fetched_opcode, None);
    assert_eq!(c.fde.decoded_opcode, None);
}

#[test]
fn arm_branch_exchange_to_thumb() {
    let mut c = cpu();
    let mut b = bus();
    c.set_register(0, 0x0300_0001);
    execute_arm(0xE12F_FF10, &mut c, &mut b); // bx r0
    assert_eq!(c.pc, 0x0300_0000);
    assert!(c.status.cpsr.t);
}

#[test]
fn arm_store_then_load() {
    let mut c = cpu();
    let mut b = bus();
    c.set_register(0, 0x0300_0000);
    c.set_register(1, 0xCAFE_BABE);
    execute_arm(0xE580_1004, &mut c, &mut b); // str r1, [r0, #4]
    assert_eq!(b.read_u32_unrotated(0x0300_0004), 0xCAFE_BABE);
    execute_arm(0xE590_2004, &mut c, &mut b); // ldr r2, [r0, #4]
    assert_eq!(c.get_register(2), 0xCAFE_BABE);
}

#[test]
fn arm_block_transfer() {
    let mut c = cpu();
    let mut b = bus();
    c.set_register(0, 0x0300_0100);
    c.set_register(1, 11);
    c.set_register(2, 22);
    execute_arm(0xE8A0_0006, &mut c, &mut b); // stmia r0!, {r1, r2}
    assert_eq!(b.read_u32_unrotated(0x0300_0100), 11);
    assert_eq!(b.read_u32_unrotated(0x0300_0104), 22);
    assert_eq!(c.get_register(0), 0x0300_0108);
}

#[test]
fn arm_multiply() {
    let mut c = cpu();
    let mut b = bus();
    c.set_register(1, 6);
    c.set_register(2, 7);
    execute_arm(0xE000_0291, &mut c, &mut b); // mul r0, r1, r2
    assert_eq!(c.get_register(0), 42);
}

#[test]
fn thumb_alu_and_branch() {
    let mut c = cpu();
    let mut b = bus();
    c.status.cpsr.t = true;
    execute_thumb(0x2005, &mut c, &mut b); // mov r0, #5
    assert_eq!(c.get_register(0), 5);
    execute_thumb(0x3003, &mut c, &mut b); // add r0, #3
    assert_eq!(c.get_register(0), 8);
    execute_thumb(0x2808, &mut c, &mut b); // cmp r0, #8
    assert!(c.status.cpsr.z);
    execute_thumb(0xD002, &mut c, &mut b); // beq +4
    assert_eq!(c.pc, 0x0800_0004);
}

#[test]
fn thumb_push_and_pop() {
    let mut c = cpu();
    let mut b = bus();
    c.status.cpsr.t = true;
    c.set_register(0, 0x11);
    c.set_register(1, 0x22);
    execute_thumb(0xB403, &mut c, &mut b); // push {r0, r1}
    assert_eq!(c.get_register(13), 0x0300_7F00 - 8);
    c.set_register(0, 0);
    c.set_register(1, 0);
    execute_thumb(0xBC03, &mut c, &mut b); // pop {r0, r1}
    assert_eq!(c.get_register(0), 0x11);
    assert_eq!(c.get_register(1), 0x22);
    assert_eq!(c.get_register(13), 0x0300_7F00);
}

#[test]
fn interrupt_is_taken_when_enabled() {
    let mut c = cpu();
    let mut b = bus();
    c.halted = true;
    c.status.cpsr.t = true;
    c.set_register(14, 0x1234);
    c.fde.decoded_opcode = Some(0x2005);
    b.sys_write_u16(0x0400_0208, 1); // IME
    b.sys_write_u16(0x0400_0200, 1); // IE: V-blank
    b.sys_write_u16(0x0400_0202, 1); // IF: V-blank
    handle_interrupts(&mut b, &mut c);
    assert!(!c.halted);
    assert_eq!(c.status.cpsr.mode, ProcessorMode::Interrupt);
    assert!(!c.status.cpsr.t);
    assert_eq!(c.pc, 0x18);
    // nothing else changes: the System r14, the IRQ flag, the pipeline
    assert!(!c.status.cpsr.i);
    assert_eq!(c.get_register_specific(14, ProcessorMode::System), 0x1234);
    assert_eq!(c.get_register(14), 0);
    assert_eq!(c.fde.decoded_opcode, Some(0x2005));
}

#[test]
fn interrupt_is_ignored_when_masked() {
    let mut c = cpu();
    let mut b = bus();
    b.sys_write_u16(0x0400_0200, 1);
    b.sys_write_u16(0x0400_0202, 1);
    // IME is off
    handle_interrupts(&mut b, &mut c);
    assert_eq!(c.status.cpsr.mode, ProcessorMode::System);
    assert_eq!(c.pc, 0x0800_0000);
    // IME on, but IE and IF share no bit
    b.sys_write_u16(0x0400_0208, 1);
    b.sys_write_u16(0x0400_0200, 2);
    handle_interrupts(&mut b, &mut c);
    assert_eq!(c.status.cpsr.mode, ProcessorMode::System);
    assert_eq!(c.pc, 0x0800_0000);
}

#[test]
fn processor_reads_back_what_it_wrote_to_ram() {
    let mut b = bus();
    for address in [0x0200_0100u32, 0x0300_0010, 0x0500_0020, 0x0601_7FFC, 0x0700_0008, 0x0E00_0040] {
        b.write_u32(address, 0x89AB_CDEF);
        assert_eq!(b.read_u32_unrotated(address), 0x89AB_CDEF);
        b.write_u16(address + 2, 0x1357);
        assert_eq!(b.read_u16(address + 2), 0x1357);
    }
    b.write_u8(0x0300_0001, 0x42);
    assert_eq!(b.read_u8(0x0300_0001), 0x42);
    // a rotated read of an unaligned address turns the word
    b.write_u32(0x0200_0000, 0x1122_3344);
    assert_eq!(b.read_u32_rotated(0x0200_0001), 0x4411_2233);
}

#[test]
fn processor_reads_of_locked_registers_give_the_open_bus() {
    let mut b = bus();
    b.last_fetched_opcode = 0xAABB_CCDD;
    assert_eq!(b.read_u8(0x0400_0010), 0xDD);
    assert_eq!(b.read_u8(0x0400_0011), 0xCC);
}

#[test]
fn thumb_long_branch_with_link() {
    let mut c = cpu();
    let mut b = bus();
    c.status.cpsr.t = true;
    // the first half runs with the pc at 0x0800_0104 (the pair at 0x0800_0100)
    c.pc = 0x0800_0104;
    c.fde.fetched_opcode = Some(0xF802);
    execute_thumb(0xF000, &mut c, &mut b); // bl: upper offset 0
    assert_eq!(c.get_register(14), 0x0800_0104);
    // the pipeline moves on by one instruction before the second half
    c.pc += 2;
    execute_thumb(0xF802, &mut c, &mut b); // lower offset 2 halfwords
    assert_eq!(c.pc, 0x0800_0108);
    assert_eq!(c.get_register(14), 0x0800_0105);
    assert_eq!(c.fde.fetched_opcode, None);

    // a negative upper offset: 0x7FF is -1, so 0x1000 bytes back
    let mut c = cpu();
    c.status.cpsr.t = true;
    c.pc = 0x0800_2004;
    execute_thumb(0xF7FF, &mut c, &mut b);
    c.pc += 2;
    execute_thumb(0xF800, &mut c, &mut b);
    assert_eq!(c.pc, 0x0800_1004);
    assert_eq!(c.get_register(14), 0x0800_2005);
}

#[test]
fn registers_shared_across_modes() {
    let mut c = cpu();
    c.set_register(3, 0x33);
    c.set_register(9, 0x99);
    for mode in [
        ProcessorMode::User,
        ProcessorMode::Interrupt,
        ProcessorMode::Supervisor,
        ProcessorMode::Abort,
        ProcessorMode::Undefined,
        ProcessorMode::System,
    ] {
        assert_eq!(c.get_register_specific(3, mode), 0x33);
        assert_eq!(c.get_register_specific(9, mode), 0x99);
        assert_eq!(c.get_register_specific(15, mode), c.pc);
    }
    assert_eq!(c.get_register_specific(3, ProcessorMode::FastInterrupt), 0x33);
    assert_eq!(c.get_register_specific(9, ProcessorMode::FastInterrupt), 0);
    for r in 0..16u8 {
        assert_eq!(
            c.get_register_specific(r, ProcessorMode::User),
            c.get_register_specific(r, ProcessorMode::System)
        );
    }
}

#[test]
fn halt_request_is_a_byte_write_to_haltcnt() {
    let mut b = bus();
    assert!(!b.should_halt_cpu());
    // a halfword write there does not ask for a halt
    b.write_u16(0x0400_0300, 0);
    assert!(!b.should_halt_cpu());
    b.write_u8(0x0400_0301, 0);
    assert_eq!(b.mem.sys_read_u8(0x0400_0301), 0);
    assert!(b.should_halt_cpu());
    // asking forgets the request
    assert!(!b.should_halt_cpu());
}
