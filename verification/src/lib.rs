//! Core of a Game Boy Advance emulator: the ARM7TDMI processor, the memory
//! map with its DMA channels and timers, the picture processing unit and the
//! joypad registers, each with a contract that states what it does.

pub mod apu;
pub mod bits;
pub mod cpu;
pub mod emulator;
pub mod joypad;
pub mod mem;
pub mod ppu;

use vstd::prelude::*;
use crate::apu::tick_apu;
use crate::cpu::decode::{arm_runs, spec_decode_thumb, thumb_defined};
use crate::cpu::execute_arm::{execute_arm, spec_arm_supported, spec_execute_arm};
use crate::cpu::execute_thumb::{execute_thumb, spec_execute_thumb};
use crate::cpu::interrupt::{handle_interrupts, spec_handle_interrupts};
use crate::cpu::registers::{Cpu, Fde, check_condition, spec_after_bios, spec_at_reset};
use crate::joypad::init_joypad;
use crate::mem::bus::{Bus, CpuInterface};
use crate::mem::memory::{
    InternalMemory, create_memory, dma_tick, spec_dma_tick, spec_timers_upto, spec_zeroed, update_timer,
};
use crate::ppu::{Ppu, PpuError, PpuView, spec_tick_ppu, tick_ppu};

verus! {

pub struct Emulator {
    pub cpu: Cpu,
    pub ppu: Ppu,
    pub bus: Bus,
    pub fde: Fde,
    /// the cycles counted towards the timers, below 1024
    pub cycles: u32,
}

/// What `run_single_step` reports in place of a step that the emulator cannot take.
#[derive(PartialEq, Eq, Structural, Clone, Copy, Debug)]
pub enum EmulatorError {
    /// The PPU cannot draw the line.
    Ppu(PpuError),
    /// The decoded opcode is one that the processor does not run: an ARM
    /// coprocessor instruction, or an ARM or THUMB bit pattern that no
    /// instruction format uses.
    UnsupportedInstruction(u32),
}

/// The state of the emulator as a value.
pub struct EmulatorView {
    pub cpu: Cpu,
    pub ppu: PpuView,
    pub bus: Bus,
    pub fde: Fde,
    pub cycles: u32,
}

/// The memory of a machine after power-on: the keypad reads as no key
/// pressed, and SOUNDBIAS holds its reset value.
pub open spec fn spec_power_on(m: InternalMemory) -> InternalMemory {
    m.spec_sys_write_u16(0x4000130, 0xFFFF).spec_sys_write_u16(0x4000088, 0x200)
}

impl Emulator {
    pub open spec fn view(&self) -> EmulatorView {
        EmulatorView { cpu: self.cpu, ppu: self.ppu.view(), bus: self.bus, fde: self.fde, cycles: self.cycles }
    }

    pub open spec fn wf(&self) -> bool {
        &&& self.bus.wf()
        &&& self.ppu.wf()
        &&& self.cycles < 1024
    }

    /// An emulator that boots `bios` (from its first instruction where
    /// `from_bios` holds, else from the state the BIOS leaves) with the
    /// cartridge `rom`, which may be empty; `None` unless the BIOS is 16 KB.
    pub fn new(bios: Vec<u8>, rom: Vec<u8>, from_bios: bool) -> (r: Option<Self>)
        ensures
            r is Some <==> bios@.len() == 0x4000,
            r matches Some(e) ==> {
                &&& e.wf()
                &&& e.cycles == 0
                &&& e.ppu.view() == (PpuView { new_screen: false, elapsed_time: 0, stored_screen: Seq::empty() })
                &&& e.fde.fetched_opcode is None && e.fde.decoded_opcode is None
                &&& from_bios ==> spec_at_reset(e.cpu)
                &&& !from_bios ==> spec_after_bios(e.cpu)
                &&& !e.bus.should_halt_cpu
                &&& exists|m: InternalMemory| spec_zeroed(m) && m.bios@ == bios@ && m.rom@ == rom@
                    && *e.bus.mem == #[trigger] spec_power_on(m)
            },
    {
        let cpu = if from_bios { Cpu::from_bios() } else { Cpu::new() };
        let ppu = Ppu::new();
        let mut memory = match create_memory(bios, rom) {
            Some(memory) => memory,
            None => { return None; },
        };
        let ghost m0 = *memory;
        init_joypad(&mut memory);
        memory.sys_write_u16(0x4000088, 0b0000_0010_0000_0000);
        assert(*memory == spec_power_on(m0));

        let bus = Bus::new(memory, from_bios);
        let fde = Fde::new();

        Some(Self {
            cpu,
            ppu,
            bus,
            fde,
            cycles: 0,
        })
    }
}

/// The next opcode at the program counter, which moves on past it.
pub open spec fn spec_fetch<M: CpuInterface>(cpu: Cpu, mem: M) -> (Cpu, u32) {
    if cpu.status.cpsr.t {
        (Cpu { pc: cpu.pc.wrapping_add(2), ..cpu }, mem.spec_read_u16(cpu.pc) as u32)
    } else {
        (Cpu { pc: cpu.pc.wrapping_add(4), ..cpu }, mem.spec_read_u32_unrotated(cpu.pc))
    }
}

/// Whether the processor runs the decoded opcode in the pipeline, if any.
pub open spec fn spec_pipeline_supported(cpu: Cpu) -> bool {
    match cpu.fde.decoded_opcode {
        None => true,
        Some(op) => if cpu.status.cpsr.t {
            spec_decode_thumb(op as u16) is Some
        } else {
            spec_arm_supported(op, cpu.cpsr())
        },
    }
}

/// One step of the pipeline: the decoded opcode is executed, the fetched one
/// (fetched now if an executed branch emptied the pipeline) becomes the
/// decoded one, and the next opcode is fetched.
pub open spec fn spec_handle_cpu<M: CpuInterface>(cpu: Cpu, mem: M) -> (Cpu, M) {
    let (c1, m1) = match cpu.fde.decoded_opcode {
        Some(op) => if cpu.status.cpsr.t {
            spec_execute_thumb(cpu, mem, op as u16)
        } else {
            spec_execute_arm(cpu, mem, op)
        },
        None => (cpu, mem),
    };
    let c2 = if c1.fde.fetched_opcode is None {
        let (c, f) = spec_fetch(c1, m1);
        Cpu { fde: Fde { fetched_opcode: Some(f), ..c.fde }, ..c }
    } else {
        c1
    };
    let c3 = Cpu { fde: Fde { decoded_opcode: c2.fde.fetched_opcode, ..c2.fde }, ..c2 };
    let (c4, f) = spec_fetch(c3, m1);
    (Cpu { fde: Fde { fetched_opcode: Some(f), ..c4.fde }, ..c4 }, m1)
}

fn fetch_opcode<M: CpuInterface>(cpu: &mut Cpu, mem: &M) -> (r: u32)
    requires
        mem.inv(),
    ensures
        (*final(cpu), r) == spec_fetch(*old(cpu), *mem),
{
    if cpu.status.cpsr.t {
        let pc = cpu.get_pc_thumb();
        mem.read_u16(pc) as u32
    } else {
        let pc = cpu.get_pc_arm();
        mem.read_u32_unrotated(pc)
    }
}

/// Whether the processor runs the decoded opcode in its pipeline (see
/// `spec_pipeline_supported`).
pub fn instruction_supported(cpu: &Cpu) -> (r: bool)
    ensures
        r == spec_pipeline_supported(*cpu),
{
    match cpu.fde.decoded_opcode {
        None => true,
        Some(op) => {
            if cpu.status.cpsr.t {
                thumb_defined(op as u16)
            } else {
                proof { crate::bits::lemma_top_nibble(op); }
                !check_condition(op >> 28, &cpu.status.cpsr) || arm_runs(op)
            }
        },
    }
}

/// One step of the processor's pipeline (see `spec_handle_cpu`).
pub fn handle_cpu<M: CpuInterface>(cpu: &mut Cpu, mem: &mut M)
    requires
        old(mem).inv(),
        spec_pipeline_supported(*old(cpu)),
    ensures
        final(mem).inv(),
        (*final(cpu), *final(mem)) == spec_handle_cpu(*old(cpu), *old(mem)),
{
    // Execute
    match cpu.fde.decoded_opcode {
        Some(instruction) => {
            if cpu.status.cpsr.t {
                execute_thumb(instruction as u16, cpu, mem);
            } else {
                execute_arm(instruction, cpu, mem);
            }
        },
        None => {},
    }

    // if there was a clear, need to get new fetched
    if cpu.fde.fetched_opcode.is_none() {
        let fetch = fetch_opcode(cpu, mem);
        cpu.fde.fetched_opcode = Some(fetch);
    }

    // move the fetched to decoded
    cpu.fde.decoded_opcode = cpu.fde.fetched_opcode;
    let fetch = fetch_opcode(cpu, mem);
    cpu.fde.fetched_opcode = Some(fetch);
}

/// One step of the whole machine: 20 cycles of the timers, one DMA unit, one
/// dot of the PPU; then, unless the frame was finished (reported by `true`)
/// or a DMA transfer ran, interrupts are taken and, unless the processor is
/// halted, one step of its pipeline runs, after which a pending halt request
/// halts it.
pub open spec fn spec_run_single_step(e: EmulatorView) -> (EmulatorView, Result<bool, EmulatorError>) {
    let m1 = spec_timers_upto(*e.bus.mem, 4, e.cycles, (e.cycles + 20) as u32).0;
    let (m2, active_dma) = spec_dma_tick(m1);
    let e2 = EmulatorView { bus: e.bus.with_mem(m2), cycles: ((e.cycles + 20) % 1024) as u32, ..e };
    match spec_tick_ppu(e2.ppu, e2.bus) {
        Err(err) => (e2, Err(EmulatorError::Ppu(err))),
        Ok((ppu3, bus3)) => {
            let e3 = EmulatorView { ppu: ppu3, bus: bus3, ..e2 };
            if ppu3.new_screen {
                (EmulatorView { ppu: PpuView { new_screen: false, ..ppu3 }, ..e3 }, Ok(true))
            } else if active_dma {
                (e3, Ok(false))
            } else {
                let e4 = EmulatorView { cpu: spec_handle_interrupts(bus3, e3.cpu), ..e3 };
                if e4.cpu.halted {
                    (e4, Ok(false))
                } else if !spec_pipeline_supported(e4.cpu) {
                    (e4, Err(EmulatorError::UnsupportedInstruction(e4.cpu.fde.decoded_opcode->0)))
                } else {
                    let (cpu5, bus5) = spec_handle_cpu(e4.cpu, bus3);
                    let cpu6 = if bus5.should_halt_cpu { Cpu { halted: true, ..cpu5 } } else { cpu5 };
                    (EmulatorView { cpu: cpu6, bus: Bus { should_halt_cpu: false, ..bus5 }, ..e4 }, Ok(false))
                }
            }
        },
    }
}

/// One step of the whole machine (see `spec_run_single_step`): `Ok(true)`
/// when a frame was finished.
pub fn run_single_step(emu: &mut Emulator) -> (r: Result<bool, EmulatorError>)
    requires
        old(emu).wf(),
    ensures
        final(emu).wf(),
        (final(emu).view(), r) == spec_run_single_step(old(emu).view()),
        // the timers see 20 more cycles
        final(emu).cycles == (old(emu).cycles + 20) % 1024,
        // a finished frame is reported once
        r == Ok::<bool, EmulatorError>(true) ==> !final(emu).ppu.new_screen,
{
    // update the timer
    // add 1 for now, make it more accurate later
    update_timer(&mut emu.bus.mem, &mut emu.cycles, 20);
    let active_dma = dma_tick(&mut emu.bus.mem);

    tick_apu();
    match tick_ppu(&mut emu.ppu, &mut emu.bus) {
        Ok(_) => {},
        Err(e) => { return Err(EmulatorError::Ppu(e)); },
    }
    if emu.ppu.new_screen {
        emu.ppu.new_screen = false;
        return Ok(true);
    }
    if active_dma {
        return Ok(false);
    }

    handle_interrupts(&mut emu.bus, &mut emu.cpu);
    if emu.cpu.halted {
        return Ok(false);
    }

    if !instruction_supported(&emu.cpu) {
        let opcode = match emu.cpu.fde.decoded_opcode {
            Some(op) => op,
            None => 0,
        };
        return Err(EmulatorError::UnsupportedInstruction(opcode));
    }
    handle_cpu(&mut emu.cpu, &mut emu.bus);
    if emu.bus.should_halt_cpu() {
        emu.cpu.halted = true;
    }
    Ok(false)
}

} // verus!
