//! Entry into the IRQ handler.

use vstd::prelude::*;
use crate::cpu::registers::{Cpsr, Cpu, ProcessorMode};
use crate::mem::bus::Bus;

verus! {

broadcast use crate::cpu::registers::group_register_lemmas;

/// The interrupt registers.
pub enum CpuRegisters {
    Ime,
    Ie,
    If,
}

impl CpuRegisters {
    pub open spec fn spec_address(&self) -> u32 {
        match self {
            CpuRegisters::Ime => 0x4000208,
            CpuRegisters::Ie => 0x4000200,
            CpuRegisters::If => 0x4000202,
        }
    }

    pub fn address(&self) -> (r: u32)
        ensures r == self.spec_address(),
    {
        match self {
            CpuRegisters::Ime => 0x4000208,
            CpuRegisters::Ie => 0x4000200,
            CpuRegisters::If => 0x4000202,
        }
    }
}

/// Whether an interrupt is requested: IME on, and some request in IF enabled in IE.
pub open spec fn spec_interrupt_pending(bus: Bus) -> bool {
    &&& bus.mem.spec_sys_read_u16(0x4000208) & 1 == 1
    &&& bus.mem.spec_sys_read_u16(0x4000200) & bus.mem.spec_sys_read_u16(0x4000202) != 0
}

/// A pending interrupt is taken: the processor wakes from a halt and enters
/// IRQ mode in ARM state with execution at 0x18. Nothing else changes: the
/// CPSR is not saved, r14 is not written, CPSR.I is not consulted, and the
/// pipeline keeps the opcodes it holds.
pub open spec fn spec_handle_interrupts(bus: Bus, cpu: Cpu) -> Cpu {
    if !spec_interrupt_pending(bus) {
        cpu
    } else {
        let irq = Cpu { halted: false, ..cpu }.with_cpsr(
            Cpsr { mode: ProcessorMode::Interrupt, t: false, ..cpu.cpsr() },
        );
        irq.with_reg(15, 0x18)
    }
}

/// Takes a pending interrupt as `spec_handle_interrupts` describes; the
/// memory is only read.
pub fn handle_interrupts(bus: &mut Bus, cpu: &mut Cpu)
    requires
        old(bus).wf(),
    ensures
        *final(bus) == *old(bus),
        *final(cpu) == spec_handle_interrupts(*old(bus), *old(cpu)),
{
    let interrupt_allowed = bus.mem.sys_read_u16(CpuRegisters::Ime.address()) & 1 == 1;
    if !interrupt_allowed {
        return;
    }
    let interrupts_enabled = bus.mem.sys_read_u16(CpuRegisters::Ie.address());
    let interrupts_called = bus.mem.sys_read_u16(CpuRegisters::If.address());

    let called_interrupts = interrupts_enabled & interrupts_called;
    if called_interrupts == 0 {
        return;
    }

    // a halted processor waits for this moment
    cpu.halted = false;
    cpu.status.cpsr.mode = ProcessorMode::Interrupt;
    cpu.status.cpsr.t = false;

    let pc = cpu.get_register_mut(15);
    *pc = 0x18;
}

} // verus!
