//! The register file of the ARM7TDMI: banked registers and status registers.

use vstd::prelude::*;
use vstd::array::spec_array_update;

verus! {

#[derive(Debug, Copy, Clone, PartialEq, Eq, Structural)]
pub enum ProcessorMode {
    User,
    FastInterrupt,
    Interrupt,
    Supervisor,
    Abort,
    Undefined,
    System,
}

/// The five mode bits of each processor mode.
pub open spec fn spec_mode_bits(mode: ProcessorMode) -> u32 {
    match mode {
        ProcessorMode::User => 0b10000,
        ProcessorMode::FastInterrupt => 0b10001,
        ProcessorMode::Interrupt => 0b10010,
        ProcessorMode::Supervisor => 0b10011,
        ProcessorMode::Abort => 0b10111,
        ProcessorMode::Undefined => 0b11011,
        ProcessorMode::System => 0b11111,
    }
}

/// The mode that five mode bits select; an invalid pattern selects Undefined.
pub open spec fn spec_mode_from_bits(bits: u32) -> ProcessorMode {
    if bits == 0b10000 {
        ProcessorMode::User
    } else if bits == 0b10001 {
        ProcessorMode::FastInterrupt
    } else if bits == 0b10010 {
        ProcessorMode::Interrupt
    } else if bits == 0b10011 {
        ProcessorMode::Supervisor
    } else if bits == 0b10111 {
        ProcessorMode::Abort
    } else if bits == 0b11011 {
        ProcessorMode::Undefined
    } else if bits == 0b11111 {
        ProcessorMode::System
    } else {
        ProcessorMode::Undefined
    }
}

impl ProcessorMode {
    /// The mode bits as they stand in a status register.
    pub fn bits(&self) -> (r: u32)
        ensures r == spec_mode_bits(*self),
    {
        match self {
            ProcessorMode::User => 0b10000,
            ProcessorMode::FastInterrupt => 0b10001,
            ProcessorMode::Interrupt => 0b10010,
            ProcessorMode::Supervisor => 0b10011,
            ProcessorMode::Abort => 0b10111,
            ProcessorMode::Undefined => 0b11011,
            ProcessorMode::System => 0b11111,
        }
    }

    pub fn from_bits(bits: u32) -> (r: ProcessorMode)
        ensures r == spec_mode_from_bits(bits),
    {
        if bits == 0b10000 {
            ProcessorMode::User
        } else if bits == 0b10001 {
            ProcessorMode::FastInterrupt
        } else if bits == 0b10010 {
            ProcessorMode::Interrupt
        } else if bits == 0b10011 {
            ProcessorMode::Supervisor
        } else if bits == 0b10111 {
            ProcessorMode::Abort
        } else if bits == 0b11011 {
            ProcessorMode::Undefined
        } else if bits == 0b11111 {
            ProcessorMode::System
        } else {
            ProcessorMode::Undefined
        }
    }
}

/// A program status register.
#[derive(Debug, Copy, Clone, PartialEq, Eq, Structural)]
pub struct Cpsr {
    /// true if the value is 0
    pub z: bool,
    /// true if the was a carry
    pub c: bool,
    /// true if the value is signed
    pub n: bool,
    /// true if overflow
    pub v: bool,
    /// sticky overflow
    pub q: bool,
    /// IRQ disable
    pub i: bool,
    /// FIQ disable
    pub f: bool,
    /// the state of the instruction set (0 = arm, 1 = thumb)
    pub t: bool,
    /// processor mode (represented by the 5-bits shown in enum)
    pub mode: ProcessorMode,
}

pub open spec fn bit(x: u32, i: u32) -> bool {
    (x >> i) & 1 == 1
}

pub open spec fn spec_default_cpsr() -> Cpsr {
    Cpsr {
        z: false, c: false, n: false, v: false, q: false, i: false, f: false, t: false,
        mode: ProcessorMode::System,
    }
}

impl Default for Cpsr {
    fn default() -> (r: Self)
        ensures r == spec_default_cpsr(),
    {
        Cpsr {
            z: false, c: false, n: false, v: false, q: false, i: false, f: false, t: false,
            mode: ProcessorMode::System,
        }
    }
}

impl Cpsr {
    /// The register with its flag field (bits 24..31) taken from `value`.
    pub open spec fn spec_set_flags(self, value: u32) -> Cpsr {
        Cpsr {
            n: bit(value, 31),
            z: bit(value, 30),
            c: bit(value, 29),
            v: bit(value, 28),
            q: bit(value, 27),
            ..self
        }
    }

    /// The register with its control field (bits 0..7) taken from `value`.
    pub open spec fn spec_set_control(self, value: u32) -> Cpsr {
        Cpsr {
            i: bit(value, 7),
            f: bit(value, 6),
            t: bit(value, 5),
            mode: spec_mode_from_bits(value & 0b11111),
            ..self
        }
    }

    pub fn set_flags(&mut self, value: u32)
        ensures *final(self) == old(self).spec_set_flags(value),
    {
        self.n = (value >> 31) & 1 == 1;
        self.z = (value >> 30) & 1 == 1;
        self.c = (value >> 29) & 1 == 1;
        self.v = (value >> 28) & 1 == 1;
        self.q = (value >> 27) & 1 == 1;
    }

    pub fn set_control(&mut self, value: u32)
        ensures *final(self) == old(self).spec_set_control(value),
    {
        self.i = (value >> 7) & 1 == 1;
        self.f = (value >> 6) & 1 == 1;
        self.t = (value >> 5) & 1 == 1;
        self.mode = ProcessorMode::from_bits(value & 0b11111);
    }
}

/// Whether a condition field (the top four bits of an ARM opcode) holds.
pub open spec fn spec_check_condition(condition: u32, cpsr: Cpsr) -> bool {
    if condition == 0b0000 {
        cpsr.z
    } else if condition == 0b0001 {
        !cpsr.z
    } else if condition == 0b0010 {
        cpsr.c
    } else if condition == 0b0011 {
        !cpsr.c
    } else if condition == 0b0100 {
        cpsr.n
    } else if condition == 0b0101 {
        !cpsr.n
    } else if condition == 0b0110 {
        cpsr.v
    } else if condition == 0b0111 {
        !cpsr.v
    } else if condition == 0b1000 {
        cpsr.c && !cpsr.z
    } else if condition == 0b1001 {
        !cpsr.c || cpsr.z
    } else if condition == 0b1010 {
        cpsr.n == cpsr.v
    } else if condition == 0b1011 {
        cpsr.n != cpsr.v
    } else if condition == 0b1100 {
        !cpsr.z && (cpsr.n == cpsr.v)
    } else if condition == 0b1101 {
        cpsr.z || (cpsr.n != cpsr.v)
    } else {
        condition == 0b1110
    }
}

pub fn check_condition(condition: u32, cpsr: &Cpsr) -> (r: bool)
    requires
        condition < 16,
    ensures
        r == spec_check_condition(condition, *cpsr),
{
    match condition {
        0b0000 => cpsr.z,
        0b0001 => !cpsr.z,
        0b0010 => cpsr.c,
        0b0011 => !cpsr.c,
        0b0100 => cpsr.n,
        0b0101 => !cpsr.n,
        0b0110 => cpsr.v,
        0b0111 => !cpsr.v,
        0b1000 => cpsr.c && !cpsr.z,
        0b1001 => !cpsr.c || cpsr.z,
        0b1010 => cpsr.n == cpsr.v,
        0b1011 => cpsr.n != cpsr.v,
        0b1100 => !cpsr.z && (cpsr.n == cpsr.v),
        0b1101 => cpsr.z || (cpsr.n != cpsr.v),
        0b1110 => true,
        _ => false,
    }
}

/// Each condition below AL is the negation of its partner (the condition
/// with the low bit flipped); AL always holds and NV never does.
pub proof fn lemma_condition_pairs(condition: u32, cpsr: Cpsr)
    requires
        condition < 14,
    ensures
        spec_check_condition(condition, cpsr) == !spec_check_condition(condition ^ 1, cpsr),
        spec_check_condition(0b1110, cpsr),
        !spec_check_condition(0b1111, cpsr),
{
    assert(condition ^ 1u32 == if condition % 2 == 0 { condition + 1 } else { condition - 1 })
        by (bit_vector) requires condition < 14u32;
}

/// The 32-bit image of a status register.
pub open spec fn spec_convert_cpsr_u32(cpsr: Cpsr) -> u32 {
    ((if cpsr.n { 1u32 } else { 0u32 }) << 31u32)
        | ((if cpsr.z { 1u32 } else { 0u32 }) << 30u32)
        | ((if cpsr.c { 1u32 } else { 0u32 }) << 29u32)
        | ((if cpsr.v { 1u32 } else { 0u32 }) << 28u32)
        | ((if cpsr.q { 1u32 } else { 0u32 }) << 27u32)
        | ((if cpsr.i { 1u32 } else { 0u32 }) << 7u32)
        | ((if cpsr.f { 1u32 } else { 0u32 }) << 6u32)
        | ((if cpsr.t { 1u32 } else { 0u32 }) << 5u32)
        | spec_mode_bits(cpsr.mode)
}

/// The status register that a 32-bit image describes.
pub open spec fn spec_convert_u32_cpsr(cpsr: u32) -> Cpsr {
    Cpsr {
        n: bit(cpsr, 31),
        z: bit(cpsr, 30),
        c: bit(cpsr, 29),
        v: bit(cpsr, 28),
        q: bit(cpsr, 27),
        i: bit(cpsr, 7),
        f: bit(cpsr, 6),
        t: bit(cpsr, 5),
        mode: spec_mode_from_bits(cpsr & 0b11111),
    }
}

pub fn convert_cpsr_u32(cpsr: &Cpsr) -> (r: u32)
    ensures r == spec_convert_cpsr_u32(*cpsr),
{
    (if cpsr.n { 1u32 } else { 0u32 }) << 31
        | (if cpsr.z { 1u32 } else { 0u32 }) << 30
        | (if cpsr.c { 1u32 } else { 0u32 }) << 29
        | (if cpsr.v { 1u32 } else { 0u32 }) << 28
        | (if cpsr.q { 1u32 } else { 0u32 }) << 27
        | (if cpsr.i { 1u32 } else { 0u32 }) << 7
        | (if cpsr.f { 1u32 } else { 0u32 }) << 6
        | (if cpsr.t { 1u32 } else { 0u32 }) << 5
        | cpsr.mode.bits()
}

pub proof fn lemma_bit_ne_zero(x: u32)
    ensures
        forall|i: u32| #![trigger (x >> i) & 1] ((x >> i) & 1 != 0) == ((x >> i) & 1 == 1),
{
    assert forall|i: u32| #![trigger (x >> i) & 1] ((x >> i) & 1 != 0) == ((x >> i) & 1 == 1) by {
        assert(((x >> i) & 1 != 0) == ((x >> i) & 1 == 1)) by (bit_vector);
    }
}

pub fn convert_u32_cpsr(cpsr: u32) -> (r: Cpsr)
    ensures r == spec_convert_u32_cpsr(cpsr),
{
    proof { lemma_bit_ne_zero(cpsr); }
    Cpsr {
        n: (cpsr >> 31) & 1 != 0,
        z: (cpsr >> 30) & 1 != 0,
        c: (cpsr >> 29) & 1 != 0,
        v: (cpsr >> 28) & 1 != 0,
        q: (cpsr >> 27) & 1 != 0,
        i: (cpsr >> 7) & 1 != 0,
        f: (cpsr >> 6) & 1 != 0,
        t: (cpsr >> 5) & 1 != 0,
        mode: ProcessorMode::from_bits(cpsr & 0b11111),
    }
}

/// Reading back the 32-bit image of a status register gives the register.
pub proof fn lemma_cpsr_round_trip(cpsr: Cpsr)
    ensures spec_convert_u32_cpsr(spec_convert_cpsr_u32(cpsr)) == cpsr,
{
    let (n, z, c, v, q, i, f, t) = (
        if cpsr.n { 1u32 } else { 0u32 }, if cpsr.z { 1u32 } else { 0u32 },
        if cpsr.c { 1u32 } else { 0u32 }, if cpsr.v { 1u32 } else { 0u32 },
        if cpsr.q { 1u32 } else { 0u32 }, if cpsr.i { 1u32 } else { 0u32 },
        if cpsr.f { 1u32 } else { 0u32 }, if cpsr.t { 1u32 } else { 0u32 },
    );
    let m = spec_mode_bits(cpsr.mode);
    let x = spec_convert_cpsr_u32(cpsr);
    assert(x == (n << 31u32) | (z << 30u32) | (c << 29u32) | (v << 28u32) | (q << 27u32)
        | (i << 7u32) | (f << 6u32) | (t << 5u32) | m);
    assert({
        &&& ((x >> 31u32) & 1 == 1) == (n == 1)
        &&& ((x >> 30u32) & 1 == 1) == (z == 1)
        &&& ((x >> 29u32) & 1 == 1) == (c == 1)
        &&& ((x >> 28u32) & 1 == 1) == (v == 1)
        &&& ((x >> 27u32) & 1 == 1) == (q == 1)
        &&& ((x >> 7u32) & 1 == 1) == (i == 1)
        &&& ((x >> 6u32) & 1 == 1) == (f == 1)
        &&& ((x >> 5u32) & 1 == 1) == (t == 1)
        &&& x & 0b11111 == m
    }) by (bit_vector)
        requires
            n <= 1, z <= 1, c <= 1, v <= 1, q <= 1, i <= 1, f <= 1, t <= 1,
            m < 0x20, m >= 0x10,
            x == (n << 31u32) | (z << 30u32) | (c << 29u32) | (v << 28u32) | (q << 27u32)
                | (i << 7u32) | (f << 6u32) | (t << 5u32) | m;
}

/// The saved status register bank that a mode uses: `None` for the modes
/// without one (User and System).
pub open spec fn spec_spsr_index(mode: ProcessorMode) -> Option<int> {
    match mode {
        ProcessorMode::FastInterrupt => Some(0),
        ProcessorMode::Supervisor => Some(1),
        ProcessorMode::Abort => Some(2),
        ProcessorMode::Interrupt => Some(3),
        ProcessorMode::Undefined => Some(4),
        _ => None,
    }
}

pub fn spsr_index(mode: ProcessorMode) -> (r: Option<usize>)
    ensures
        r matches Some(k) ==> spec_spsr_index(mode) == Some(k as int),
        r is None ==> spec_spsr_index(mode) is None,
{
    match mode {
        ProcessorMode::FastInterrupt => Some(0),
        ProcessorMode::Supervisor => Some(1),
        ProcessorMode::Abort => Some(2),
        ProcessorMode::Interrupt => Some(3),
        ProcessorMode::Undefined => Some(4),
        _ => None,
    }
}

#[derive(Debug)]
pub struct CpuStatus {
    pub cpsr: Cpsr,
    /// [spsr_fiq, spsr_svc, spsr_abt, spsr_irq, spsr_und]
    pub spsr: [Cpsr; 5],
}

impl CpuStatus {
    /// The saved status register of the current mode, or the CPSR itself in
    /// a mode that has none.
    pub open spec fn spec_get_spsr(&self) -> Cpsr {
        match spec_spsr_index(self.cpsr.mode) {
            Some(k) => self.spsr@[k],
            None => self.cpsr,
        }
    }

    /// The status with the register that `get_spsr` reads replaced.
    pub open spec fn spec_with_spsr(self, value: Cpsr) -> CpuStatus {
        match spec_spsr_index(self.cpsr.mode) {
            Some(k) => CpuStatus { spsr: spec_array_update(self.spsr, k, value), ..self },
            None => CpuStatus { cpsr: value, ..self },
        }
    }

    pub fn new() -> (r: Self)
        ensures
            r.cpsr == spec_default_cpsr(),
            forall|k: int| 0 <= k < 5 ==> r.spsr@[k] == spec_default_cpsr(),
    {
        Self {
            cpsr: Cpsr::default(),
            spsr: [Cpsr::default(), Cpsr::default(), Cpsr::default(), Cpsr::default(), Cpsr::default()],
        }
    }

    /// Restores the CPSR from the saved status register of the current mode.
    pub fn set_cpsr_to_spsr(&mut self)
        requires
            spec_spsr_index(old(self).cpsr.mode) is Some,
        ensures
            *final(self) == (CpuStatus { cpsr: old(self).spec_get_spsr(), ..*old(self) }),
    {
        let k = spsr_index(self.cpsr.mode).unwrap();
        self.cpsr = self.spsr[k];
    }

    // if there is no spsr, it returns the global cpsr
    pub fn get_spsr(&self) -> (r: &Cpsr)
        ensures *r == self.spec_get_spsr(),
    {
        match spsr_index(self.cpsr.mode) {
            Some(k) => &self.spsr[k],
            None => &self.cpsr,
        }
    }

    pub fn get_spsr_mut(&mut self) -> (r: &mut Cpsr)
        ensures
            *r == old(self).spec_get_spsr(),
            *final(self) == old(self).spec_with_spsr(*final(r)),
    {
        broadcast use vstd::array::group_array_axioms;
        match spsr_index(self.cpsr.mode) {
            Some(k) => &mut self.spsr[k],
            None => &mut self.cpsr,
        }
    }

    /// Copies the condition flags of `new_spsr` into the current saved status register.
    pub fn set_flags_spsr(&mut self, new_spsr: Cpsr)
        ensures
            *final(self) == old(self).spec_with_spsr(
                Cpsr { n: new_spsr.n, c: new_spsr.c, v: new_spsr.v, z: new_spsr.z, ..old(self).spec_get_spsr() },
            ),
    {
        let spsr = self.get_spsr_mut();
        spsr.n = new_spsr.n;
        spsr.c = new_spsr.c;
        spsr.v = new_spsr.v;
        spsr.z = new_spsr.z;
    }

    /// Copies the condition flags of `new_cpsr` into the CPSR.
    pub fn set_flags_cpsr(&mut self, new_cpsr: Cpsr)
        ensures
            *final(self) == (CpuStatus {
                cpsr: Cpsr { n: new_cpsr.n, c: new_cpsr.c, z: new_cpsr.z, v: new_cpsr.v, ..old(self).cpsr },
                ..*old(self)
            }),
    {
        self.cpsr.n = new_cpsr.n;
        self.cpsr.c = new_cpsr.c;
        self.cpsr.z = new_cpsr.z;
        self.cpsr.v = new_cpsr.v;
    }

    /// Replaces the saved status register of `mode`.
    pub fn set_specific_spsr(&mut self, new_cpsr: Cpsr, mode: ProcessorMode)
        requires
            spec_spsr_index(mode) is Some,
        ensures
            *final(self) == (CpuStatus {
                spsr: spec_array_update(old(self).spsr, spec_spsr_index(mode)->0, new_cpsr),
                ..*old(self)
            }),
    {
        broadcast use vstd::array::group_array_axioms;
        let k = spsr_index(mode).unwrap();
        self.spsr[k] = new_cpsr;
        assert(self.spsr =~= spec_array_update(old(self).spsr, k as int, new_cpsr));
    }
}

/// The pipeline: the opcode fetched last and the one decoded, to run next.
#[derive(Debug, Clone, Copy, PartialEq, Eq)]
pub struct Fde {
    pub fetched_opcode: Option<u32>,
    pub decoded_opcode: Option<u32>,
}

impl Fde {
    pub fn new() -> (r: Self)
        ensures
            r.fetched_opcode is None,
            r.decoded_opcode is None,
    {
        Fde { fetched_opcode: None, decoded_opcode: None }
    }
}

/// Which copy of r13 and r14 a mode uses.
pub open spec fn spec_bank_offset(mode: ProcessorMode) -> int {
    match mode {
        ProcessorMode::User | ProcessorMode::System => 0,
        ProcessorMode::FastInterrupt => 1,
        ProcessorMode::Supervisor => 2,
        ProcessorMode::Abort => 3,
        ProcessorMode::Interrupt => 4,
        ProcessorMode::Undefined => 5,
    }
}

fn bank_offset(mode: ProcessorMode) -> (r: usize)
    ensures r as int == spec_bank_offset(mode), r < 6,
{
    match mode {
        ProcessorMode::User | ProcessorMode::System => 0,
        ProcessorMode::FastInterrupt => 1,
        ProcessorMode::Supervisor => 2,
        ProcessorMode::Abort => 3,
        ProcessorMode::Interrupt => 4,
        ProcessorMode::Undefined => 5,
    }
}

/// The banked r13 and r14 after the BIOS has run: the User/System,
/// Supervisor and IRQ stacks set up, everything else zero.
pub open spec fn spec_after_bios_stacks() -> Seq<u32> {
    Seq::new(12, |i: int| if i == 0 { 0x0300_7F00u32 } else if i == 2 { 0x0300_7FE0u32 } else if i == 4 {
        0x0300_7FA0u32
    } else {
        0u32
    })
}

/// The processor as the BIOS leaves it: System mode, the stacks set up,
/// every other register zero, execution at the start of the cartridge.
pub open spec fn spec_after_bios(c: Cpu) -> bool {
    &&& c.pc == 0x0800_0000
    &&& c.status.cpsr == spec_default_cpsr()
    &&& forall|k: int| 0 <= k < 5 ==> c.status.spsr@[k] == spec_default_cpsr()
    &&& c.unbanked_registers@ == Seq::new(8, |i: int| 0u32)
    &&& c.double_banked_registers@ == Seq::new(10, |i: int| 0u32)
    &&& c.many_banked_registers@ == spec_after_bios_stacks()
    &&& c.fde.fetched_opcode is None && c.fde.decoded_opcode is None
    &&& !c.halted
}

/// The processor at reset: every register zero, Supervisor mode with both
/// interrupts disabled, execution at the start of the BIOS.
pub open spec fn spec_at_reset(c: Cpu) -> bool {
    &&& c.pc == 0
    &&& c.status.cpsr == (Cpsr { i: true, f: true, mode: ProcessorMode::Supervisor, ..spec_default_cpsr() })
    &&& forall|k: int| 0 <= k < 5 ==> c.status.spsr@[k] == spec_default_cpsr()
    &&& c.unbanked_registers@ == Seq::new(8, |i: int| 0u32)
    &&& c.double_banked_registers@ == Seq::new(10, |i: int| 0u32)
    &&& c.many_banked_registers@ == Seq::new(12, |i: int| 0u32)
    &&& c.fde.fetched_opcode is None && c.fde.decoded_opcode is None
    &&& !c.halted
}

#[derive(Debug)]
pub struct Cpu {
    pub unbanked_registers: [u32; 8],
    /// [r8, r8_fiq, r9, r9_fiq, ..., r12, r12_fiq]
    pub double_banked_registers: [u32; 10],
    /// [r13, r13_fiq, r13_svc, r13_abt, r13_irq, r13_und, r14, r14_fiq, ...]
    pub many_banked_registers: [u32; 12],
    pub pc: u32,
    pub status: CpuStatus,
    pub fde: Fde,
    pub halted: bool,
}

impl Cpu {
    /// Register `r` as `mode` sees it.
    pub closed spec fn spec_reg(&self, r: int, mode: ProcessorMode) -> u32 {
        if r < 8 {
            self.unbanked_registers@[r]
        } else if r < 13 {
            self.double_banked_registers@[(r - 8) * 2 + if mode == ProcessorMode::FastInterrupt { 1int } else { 0int }]
        } else if r < 15 {
            self.many_banked_registers@[(r - 13) * 6 + spec_bank_offset(mode)]
        } else {
            self.pc
        }
    }

    /// The processor with register `r` (as `mode` sees it) set to `v`.
    pub closed spec fn spec_with_reg(self, r: int, mode: ProcessorMode, v: u32) -> Cpu {
        if r < 8 {
            Cpu { unbanked_registers: spec_array_update(self.unbanked_registers, r, v), ..self }
        } else if r < 13 {
            Cpu {
                double_banked_registers: spec_array_update(
                    self.double_banked_registers,
                    (r - 8) * 2 + if mode == ProcessorMode::FastInterrupt { 1int } else { 0int },
                    v,
                ),
                ..self
            }
        } else if r < 15 {
            Cpu {
                many_banked_registers: spec_array_update(
                    self.many_banked_registers,
                    (r - 13) * 6 + spec_bank_offset(mode),
                    v,
                ),
                ..self
            }
        } else {
            Cpu { pc: v, ..self }
        }
    }

    /// Register `r` in the current mode.
    pub open spec fn reg(&self, r: int) -> u32 {
        self.spec_reg(r, self.status.cpsr.mode)
    }

    /// The processor with register `r` of the current mode set to `v`.
    pub open spec fn with_reg(self, r: int, v: u32) -> Cpu {
        self.spec_with_reg(r, self.status.cpsr.mode, v)
    }

    /// The processor with its pipeline emptied.
    pub open spec fn cleared(self) -> Cpu {
        Cpu { fde: Fde { fetched_opcode: None, decoded_opcode: None }, ..self }
    }

    /// The processor with another CPSR.
    pub open spec fn with_cpsr(self, cpsr: Cpsr) -> Cpu {
        Cpu { status: CpuStatus { cpsr, ..self.status }, ..self }
    }

    pub open spec fn cpsr(&self) -> Cpsr {
        self.status.cpsr
    }

    /// The state after the BIOS has run: the stacks set up, System mode,
    /// execution at the start of the cartridge.
    pub fn new() -> (r: Self)
        ensures
            spec_after_bios(r),
            r.spec_reg(13, ProcessorMode::System) == 0x0300_7F00,
            r.spec_reg(13, ProcessorMode::Interrupt) == 0x0300_7FA0,
            r.spec_reg(13, ProcessorMode::Supervisor) == 0x0300_7FE0,
    {
        broadcast use vstd::array::group_array_axioms;
        let mut many_banked_registers = [0u32; 12];
        many_banked_registers[0] = 0x0300_7F00;
        many_banked_registers[2] = 0x0300_7FE0;
        many_banked_registers[4] = 0x0300_7FA0;
        let r = Cpu {
            unbanked_registers: [0; 8],
            double_banked_registers: [0; 10],
            many_banked_registers,
            pc: 0x0800_0000,
            status: CpuStatus::new(),
            fde: Fde::new(),
            halted: false,
        };
        assert(r.unbanked_registers@ =~= Seq::new(8, |i: int| 0u32));
        assert(r.double_banked_registers@ =~= Seq::new(10, |i: int| 0u32));
        assert(r.many_banked_registers@ =~= spec_after_bios_stacks());
        r
    }

    /// The state at reset: every register zero, Supervisor mode with both
    /// interrupts disabled, execution at the start of the BIOS.
    pub fn from_bios() -> (r: Self)
        ensures
            spec_at_reset(r),
    {
        broadcast use vstd::array::group_array_axioms;
        let mut status = CpuStatus::new();
        status.cpsr.mode = ProcessorMode::Supervisor;
        status.cpsr.i = true;
        status.cpsr.f = true;
        let r = Cpu {
            unbanked_registers: [0; 8],
            double_banked_registers: [0; 10],
            many_banked_registers: [0; 12],
            pc: 0,
            status,
            fde: Fde::new(),
            halted: false,
        };
        assert(r.unbanked_registers@ =~= Seq::new(8, |i: int| 0u32));
        assert(r.double_banked_registers@ =~= Seq::new(10, |i: int| 0u32));
        assert(r.many_banked_registers@ =~= Seq::new(12, |i: int| 0u32));
        r
    }

    /// the mode is technically not always needed but will always be needed to be passed
    /// in, this helps in generalising the function when opcodes run this.
    pub fn get_register_specific(&self, register: u8, mode: ProcessorMode) -> (r: u32)
        requires
            register < 16,
        ensures
            r == self.spec_reg(register as int, mode),
    {
        let register = register as usize;
        if register < 8 {
            self.unbanked_registers[register]
        } else if register < 13 {
            let index = (register - 8) * 2;
            if mode == ProcessorMode::FastInterrupt {
                return self.double_banked_registers[index + 1];
            }
            self.double_banked_registers[index]
        } else if register < 15 {
            let index = (register - 13) * 6;
            self.many_banked_registers[index + bank_offset(mode)]
        } else {
            self.pc
        }
    }

    pub fn get_register(&self, register: u8) -> (r: u32)
        requires
            register < 16,
        ensures
            r == self.reg(register as int),
    {
        self.get_register_specific(register, self.status.cpsr.mode)
    }

    pub fn get_register_mut_specific(&mut self, register: u8, mode: ProcessorMode) -> (r: &mut u32)
        requires
            register < 16,
        ensures
            *r == old(self).spec_reg(register as int, mode),
            *final(self) == old(self).spec_with_reg(register as int, mode, *final(r)),
    {
        broadcast use vstd::array::group_array_axioms;
        let register = register as usize;
        if register < 8 {
            &mut self.unbanked_registers[register]
        } else if register < 13 {
            let index = (register - 8) * 2;
            if mode == ProcessorMode::FastInterrupt {
                return &mut self.double_banked_registers[index + 1];
            }
            &mut self.double_banked_registers[index]
        } else if register < 15 {
            let index = (register - 13) * 6;
            let offset = bank_offset(mode);
            &mut self.many_banked_registers[index + offset]
        } else {
            &mut self.pc
        }
    }

    pub fn get_register_mut(&mut self, register: u8) -> (r: &mut u32)
        requires
            register < 16,
        ensures
            *r == old(self).reg(register as int),
            *final(self) == old(self).with_reg(register as int, *final(r)),
    {
        let mode = self.status.cpsr.mode;
        self.get_register_mut_specific(register, mode)
    }

    /// Writes register `register` as `mode` sees it.
    pub fn set_register_specific(&mut self, register: u8, mode: ProcessorMode, value: u32)
        requires
            register < 16,
        ensures
            *final(self) == old(self).spec_with_reg(register as int, mode, value),
    {
        let r = self.get_register_mut_specific(register, mode);
        *r = value;
    }

    /// Writes register `register` of the current mode.
    pub fn set_register(&mut self, register: u8, value: u32)
        requires
            register < 16,
        ensures
            *final(self) == old(self).with_reg(register as int, value),
    {
        let mode = self.status.cpsr.mode;
        self.set_register_specific(register, mode, value);
    }

    /// Returns the program counter and moves it on by one ARM instruction.
    pub fn get_pc_arm(&mut self) -> (r: u32)
        ensures
            r == old(self).pc,
            *final(self) == (Cpu { pc: old(self).pc.wrapping_add(4), ..*old(self) }),
    {
        self.pc = self.pc.wrapping_add(4);
        self.pc.wrapping_sub(4)
    }

    /// Returns the program counter and moves it on by one THUMB instruction.
    pub fn get_pc_thumb(&mut self) -> (r: u32)
        ensures
            r == old(self).pc,
            *final(self) == (Cpu { pc: old(self).pc.wrapping_add(2), ..*old(self) }),
    {
        self.pc = self.pc.wrapping_add(2);
        self.pc.wrapping_sub(2)
    }

    /// Empties the pipeline, as every write to the program counter must.
    pub fn clear_pipeline(&mut self)
        ensures *final(self) == old(self).cleared(),
    {
        self.fde.fetched_opcode = None;
        self.fde.decoded_opcode = None;
    }
}

/// Whether register `r` of `mode` and register `r2` of `mode2` are the same
/// physical register.
pub open spec fn spec_same_register(r: int, mode: ProcessorMode, r2: int, mode2: ProcessorMode) -> bool {
    &&& r == r2
    &&& (8 <= r < 13 ==> (mode == ProcessorMode::FastInterrupt) == (mode2 == ProcessorMode::FastInterrupt))
    &&& (13 <= r < 15 ==> spec_bank_offset(mode) == spec_bank_offset(mode2))
}

/// Writing a register changes only that register.
pub broadcast proof fn lemma_with_reg(cpu: Cpu, r: int, mode: ProcessorMode, v: u32)
    requires
        0 <= r < 16,
    ensures
        #[trigger] cpu.spec_with_reg(r, mode, v).status == cpu.status,
        cpu.spec_with_reg(r, mode, v).fde == cpu.fde,
        cpu.spec_with_reg(r, mode, v).halted == cpu.halted,
        r < 15 ==> cpu.spec_with_reg(r, mode, v).pc == cpu.pc,
        r == 15 ==> cpu.spec_with_reg(r, mode, v).pc == v,
{
}

/// What a register reads after a write: the value written where it is the
/// same physical register, what it held before elsewhere.
pub broadcast proof fn lemma_reg_after_with_reg(cpu: Cpu, r: int, mode: ProcessorMode, v: u32, r2: int, mode2: ProcessorMode)
    requires
        0 <= r < 16,
        0 <= r2 < 16,
    ensures
        #[trigger] cpu.spec_with_reg(r, mode, v).spec_reg(r2, mode2) == if spec_same_register(r, mode, r2, mode2) {
            v
        } else {
            cpu.spec_reg(r2, mode2)
        },
{
    broadcast use vstd::array::group_array_axioms;
}

/// The program counter is the same register in every mode.
pub broadcast proof fn lemma_reg_15(cpu: Cpu, mode: ProcessorMode)
    ensures #[trigger] cpu.spec_reg(15, mode) == cpu.pc,
{
}

/// The registers do not depend on anything but the register banks and the pc.
pub broadcast proof fn lemma_reg_frame(cpu: Cpu, other: Cpu, r: int, mode: ProcessorMode)
    requires
        cpu.unbanked_registers == other.unbanked_registers,
        cpu.double_banked_registers == other.double_banked_registers,
        cpu.many_banked_registers == other.many_banked_registers,
        cpu.pc == other.pc,
    ensures
        #[trigger] cpu.spec_reg(r, mode) == #[trigger] other.spec_reg(r, mode),
{
}

/// Where each register of each mode is held: r0-r7 in `unbanked_registers`;
/// r8-r12 in `double_banked_registers`, each shared copy followed by its FIQ
/// copy; r13 and r14 in `many_banked_registers`, six copies each (User and
/// System, FIQ, Supervisor, Abort, IRQ, Undefined); r15 is `pc`.
pub proof fn lemma_register_layout(cpu: Cpu, r: int, mode: ProcessorMode)
    requires
        0 <= r < 16,
    ensures
        cpu.spec_reg(r, mode) == if r < 8 {
            cpu.unbanked_registers@[r]
        } else if r < 13 {
            cpu.double_banked_registers@[(r - 8) * 2 + if mode == ProcessorMode::FastInterrupt { 1int } else { 0int }]
        } else if r < 15 {
            cpu.many_banked_registers@[(r - 13) * 6 + spec_bank_offset(mode)]
        } else {
            cpu.pc
        },
{
}

/// Which registers the modes share: r0-r7 and r15 read the same in every
/// mode, r8-r12 the same in every mode but FIQ, and User and System read
/// every register alike.
pub proof fn lemma_registers_shared_across_modes(cpu: Cpu, r: int, mode: ProcessorMode, other: ProcessorMode)
    requires
        0 <= r < 16,
    ensures
        r < 8 ==> cpu.spec_reg(r, mode) == cpu.spec_reg(r, other),
        8 <= r < 13 && mode != ProcessorMode::FastInterrupt && other != ProcessorMode::FastInterrupt
            ==> cpu.spec_reg(r, mode) == cpu.spec_reg(r, other),
        r == 15 ==> cpu.spec_reg(r, mode) == cpu.pc,
        cpu.spec_reg(r, ProcessorMode::User) == cpu.spec_reg(r, ProcessorMode::System),
{
}

/// Writing back the value a register holds changes nothing.
pub proof fn lemma_with_reg_same(cpu: Cpu, r: int, mode: ProcessorMode)
    requires
        0 <= r < 16,
    ensures
        cpu.spec_with_reg(r, mode, cpu.spec_reg(r, mode)) == cpu,
{
    broadcast use vstd::array::group_array_axioms;
    let w = cpu.spec_with_reg(r, mode, cpu.spec_reg(r, mode));
    assert(w.unbanked_registers =~= cpu.unbanked_registers);
    assert(w.double_banked_registers =~= cpu.double_banked_registers);
    assert(w.many_banked_registers =~= cpu.many_banked_registers);
}

pub broadcast group group_register_lemmas {
    lemma_with_reg,
    lemma_reg_after_with_reg,
    lemma_reg_15,
}

/// A register written through the current mode reads back.
pub proof fn lemma_register_read_after_write(cpu: Cpu, r: int, mode: ProcessorMode, v: u32)
    requires
        0 <= r < 16,
    ensures
        cpu.spec_with_reg(r, mode, v).spec_reg(r, mode) == v,
{
    broadcast use vstd::array::group_array_axioms;
}

/// Writing a register of a mode leaves every other register of that mode as it was.
pub proof fn lemma_register_write_others(cpu: Cpu, r: int, mode: ProcessorMode, v: u32, other: int)
    requires
        0 <= r < 16,
        0 <= other < 16,
        r != other,
    ensures
        cpu.spec_with_reg(r, mode, v).spec_reg(other, mode) == cpu.spec_reg(other, mode),
{
    broadcast use vstd::array::group_array_axioms;
}

/// The banked registers of one mode are not seen by a mode with another bank:
/// r8..r12 are private to FIQ, r13 and r14 to each privileged mode.
pub proof fn lemma_register_banks_separate(cpu: Cpu, r: int, mode: ProcessorMode, v: u32, other: ProcessorMode)
    requires
        8 <= r < 15,
        spec_bank_offset(mode) != spec_bank_offset(other),
        r < 13 ==> (mode == ProcessorMode::FastInterrupt) != (other == ProcessorMode::FastInterrupt),
    ensures
        cpu.spec_with_reg(r, mode, v).spec_reg(r, other) == cpu.spec_reg(r, other),
{
    broadcast use vstd::array::group_array_axioms;
}

} // verus!
