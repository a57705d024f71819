use gba_core::cpu::assemblify::{to_arm_assembly, to_thumb_assembly};

#[test]
fn arm_data_processing_text() {
    assert_eq!(to_arm_assembly(0xE3A0_0001), "mov r0, r0, 1 ROR 0");
    assert_eq!(to_arm_assembly(0xE090_2001), "adds r2, r0, r1 lsl 0");
    assert_eq!(to_arm_assembly(0x03A0_0005), "movEQ r0, r0, 5 ROR 0");
    assert_eq!(to_arm_assembly(0xE150_0001), "cmp r0, r1 lsl 0");
    assert_eq!(to_arm_assembly(0xE1A0_0311), "mov r0, r0, r1 lsl r3");
}

#[test]
fn arm_branch_text() {
    assert_eq!(to_arm_assembly(0xEB00_0002), "bl 8");
    assert_eq!(to_arm_assembly(0xEAFF_FFFE), "b FFFFFFF8");
    assert_eq!(to_arm_assembly(0x1A00_0001), "bNE 4");
    assert_eq!(to_arm_assembly(0xE12F_FF10), "bx r0");
    assert_eq!(to_arm_assembly(0xEF00_0012), "swi12");
}

#[test]
fn arm_multiply_and_swap_text() {
    assert_eq!(to_arm_assembly(0xE000_0291), "mul r0, r1, r2");
    assert_eq!(to_arm_assembly(0xE020_0291), "mla r0, r1, r2, r0");
    assert_eq!(to_arm_assembly(0xE081_0392), "umull r0, r1, r2, r3");
    assert_eq!(to_arm_assembly(0xE102_0091), "swp r0, r1, [r2]");
}

#[test]
fn arm_transfer_text() {
    assert_eq!(to_arm_assembly(0xE580_1004), "stm r1, [r0, 4]");
    assert_eq!(to_arm_assembly(0xE590_2004), "ldr r2, [r0, 4]");
    assert_eq!(to_arm_assembly(0xE8A0_0006), "stmiar0!, {r1,r2,}");
    assert_eq!(to_arm_assembly(0xE1D0_00B2), "ldrh r0, [r0, 2]");
}

#[test]
fn thumb_text() {
    assert_eq!(to_thumb_assembly(0x2005), "mov r0, #5");
    assert_eq!(to_thumb_assembly(0x0088), "lsl r0, r1, #2");
    assert_eq!(to_thumb_assembly(0x1888), "add r0, r1, r2");
    assert_eq!(to_thumb_assembly(0x1C48), "add r0, r1, #1");
    assert_eq!(to_thumb_assembly(0x4048), "eor r0, r1");
    assert_eq!(to_thumb_assembly(0x4770), "bx r0, r14");
    assert_eq!(to_thumb_assembly(0x4801), "ldr r0, [pc, #4]");
    assert_eq!(to_thumb_assembly(0x5088), "str r0, [r1, r2]");
    assert_eq!(to_thumb_assembly(0x5288), "strh r0, [r1, r2]");
    assert_eq!(to_thumb_assembly(0x6848), "ldr r0, [r1, #4]");
    assert_eq!(to_thumb_assembly(0x7848), "ldrb r0, [r1, #1]");
    assert_eq!(to_thumb_assembly(0x8840), "strh r0, [r0, #2]");
    assert_eq!(to_thumb_assembly(0x9001), "str r0, [SP, #1]");
    assert_eq!(to_thumb_assembly(0xA801), "add rd0, sp, #4");
    assert_eq!(to_thumb_assembly(0xB081), "add sp, #-1");
}

#[test]
fn thumb_register_lists_and_branches() {
    assert_eq!(to_thumb_assembly(0xB500), "push {lr}");
    assert_eq!(to_thumb_assembly(0xB403), "push {r0r1}");
    assert_eq!(to_thumb_assembly(0xBD01), "pop {r0pc}");
    assert_eq!(to_thumb_assembly(0xC103), "stmia r1!, {r0, r1, }");
    assert_eq!(to_thumb_assembly(0xD002), "bEQ 4");
    assert_eq!(to_thumb_assembly(0xDF12), "swi 12");
    assert_eq!(to_thumb_assembly(0xE002), "b 4");
    assert_eq!(to_thumb_assembly(0xF000), "bl 0");
    assert_eq!(to_thumb_assembly(0xF7FF), "bl FFE");
}
