use gba_core::emulator::{update_emulator, EmulatorState};
use gba_core::joypad::{init_joypad, joypad_press, joypad_release, Button};
use gba_core::mem::memory::create_memory;
use gba_core::{handle_cpu, instruction_supported, run_single_step, Emulator, EmulatorError};
use gba_core::cpu::registers::Cpu;
use gba_core::apu::tick_apu;

fn rom_of(words: &[u32]) -> Vec<u8> {
    words.iter().flat_map(|w| w.to_le_bytes()).collect()
}

fn emulator(words: &[u32]) -> Emulator {
    Emulator::new(vec![0; 0x4000], rom_of(words), false).unwrap()
}

#[test]
fn emulator_needs_a_bios() {
    assert!(Emulator::new(vec![0; 0x3000], vec![1], false).is_none());
    // an empty cartridge is accepted, and its space reads 0
    let empty = Emulator::new(vec![0; 0x4000], Vec::new(), false).unwrap();
    assert_eq!(empty.bus.mem.sys_read_u32(0x0800_0000), 0);
    assert_eq!(empty.bus.mem.cpu_read(0x0900_0001), Some(0));
    let e = emulator(&[0]);
    assert_eq!(e.cpu.pc, 0x0800_0000);
    assert_eq!(e.cycles, 0);
    assert_eq!(e.bus.mem.sys_read_u16(0x0400_0130), 0xFFFF);
    assert_eq!(e.bus.mem.sys_read_u16(0x0400_0088), 0x0200);
    let b = Emulator::new(vec![0; 0x4000], vec![1], true).unwrap();
    assert_eq!(b.cpu.pc, 0);
}

#[test]
fn pipeline_fills_then_executes() {
    let mut e = emulator(&[0xE3A0_0001, 0xE3A0_1002, 0xE3A0_2003]);
    assert_eq!(run_single_step(&mut e), Ok(false));
    assert_eq!(e.cpu.fde.decoded_opcode, Some(0xE3A0_0001));
    assert_eq!(e.cpu.fde.fetched_opcode, Some(0xE3A0_1002));
    assert_eq!(e.cpu.pc, 0x0800_0008);
    assert_eq!(run_single_step(&mut e), Ok(false));
    assert_eq!(e.cpu.get_register(0), 1);
    assert_eq!(run_single_step(&mut e), Ok(false));
    assert_eq!(e.cpu.get_register(1), 2);
    assert_eq!(e.cycles, 60);
}

#[test]
fn coprocessor_instruction_is_reported() {
    let mut e = emulator(&[0xEE00_0010]);
    assert_eq!(run_single_step(&mut e), Ok(false));
    assert!(!instruction_supported(&e.cpu));
    assert_eq!(run_single_step(&mut e), Err(EmulatorError::UnsupportedInstruction(0xEE00_0010)));
}

#[test]
fn handle_cpu_runs_one_pipeline_step() {
    let mut e = emulator(&[0xE3A0_0007, 0, 0]);
    let mut cpu = Cpu::new();
    handle_cpu(&mut cpu, &mut e.bus);
    handle_cpu(&mut cpu, &mut e.bus);
    assert_eq!(cpu.get_register(0), 7);
    assert_eq!(cpu.pc, 0x0800_000C);
}

#[test]
fn halt_request_halts_the_processor() {
    // mov r0, #0x04000000; strb r0, [r0, #0x301]
    let mut e = emulator(&[0xE3A0_0301, 0xE5C0_0301, 0, 0]);
    for _ in 0..3 {
        assert_eq!(run_single_step(&mut e), Ok(false));
    }
    assert!(e.cpu.halted);
    let pc = e.cpu.pc;
    assert_eq!(run_single_step(&mut e), Ok(false));
    assert_eq!(e.cpu.pc, pc);
}

#[test]
fn a_frame_takes_one_dot_per_step() {
    let mut e = emulator(&[0]);
    let mut steps = 0u32;
    loop {
        steps += 1;
        if run_single_step(&mut e).unwrap() {
            break;
        }
    }
    assert_eq!(steps, 70225);
    assert_eq!(e.ppu.stored_screen.len(), 160 * 240);
    assert!(!e.ppu.new_screen);
}

#[test]
fn front_end_states() {
    let mut e = emulator(&[0xE3A0_0001, 0, 0]);
    let mut state = EmulatorState::Pause;
    let mut drew = false;
    assert_eq!(update_emulator(&mut e, &mut state, &mut drew), Ok(false));
    assert_eq!(e.cpu.pc, 0x0800_0000);
    let mut state = EmulatorState::Step;
    assert_eq!(update_emulator(&mut e, &mut state, &mut drew), Ok(false));
    assert_eq!(state, EmulatorState::Pause);
    assert_eq!(e.cpu.pc, 0x0800_0008);
    let mut state = EmulatorState::Run(0);
    e.ppu.stored_screen.push(1);
    drew = true;
    assert_eq!(update_emulator(&mut e, &mut state, &mut drew), Ok(false));
    assert!(!drew);
    assert!(e.ppu.stored_screen.is_empty());
    assert_eq!(state, EmulatorState::Run(0));
    assert_eq!(e.cpu.get_register(0), 1);
}

#[test]
fn joypad_buttons() {
    let mut m = create_memory(vec![0; 0x4000], vec![1]).unwrap();
    init_joypad(&mut m);
    assert_eq!(m.sys_read_u16(0x0400_0130), 0xFFFF);
    joypad_press(Button::A, &mut m);
    assert_eq!(m.sys_read_u16(0x0400_0130), 0xFFFE);
    joypad_press(Button::Down, &mut m);
    assert_eq!(m.sys_read_u16(0x0400_0130), 0xFF7E);
    joypad_release(Button::A, &mut m);
    assert_eq!(m.sys_read_u16(0x0400_0130), 0xFF7F);
    joypad_press(Button::Other, &mut m);
    assert_eq!(m.sys_read_u16(0x0400_0130), 0xFF7F);
}

#[test]
fn joypad_interrupt_follows_selected_keys() {
    let mut m = create_memory(vec![0; 0x4000], vec![1]).unwrap();
    init_joypad(&mut m);
    // IRQ on, OR condition, key A selected: a set (released) bit raises it
    m.sys_write_u16(0x0400_0132, 0x4001);
    joypad_press(Button::A, &mut m);
    assert_eq!(m.sys_read_u16(0x0400_0202) & (1 << 12), 0);
    joypad_release(Button::A, &mut m);
    assert_eq!(m.sys_read_u16(0x0400_0202) & (1 << 12), 1 << 12);
    // without the IRQ enable nothing changes
    m.sys_write_u16(0x0400_0132, 0x0001);
    joypad_press(Button::A, &mut m);
    assert_eq!(m.sys_read_u16(0x0400_0202) & (1 << 12), 1 << 12);
}

#[test]
fn apu_step_does_nothing() {
    tick_apu();
}
