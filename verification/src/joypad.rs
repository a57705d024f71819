//! The keypad registers: KEYINPUT (a clear bit is a pressed button) and
//! KEYCNT (the keypad interrupt).

use vstd::prelude::*;
use crate::mem::memory::InternalMemory;

verus! {

#[derive(Debug, Clone, Copy, PartialEq, Eq, Structural)]
pub enum Button {
    A,
    B,
    Select,
    Start,
    Up,
    Down,
    Left,
    Right,
    L,
    R,
    Other,
}

pub enum JPRegisters {
    KeyInput,
    KeyCnt,
}

impl JPRegisters {
    pub open spec fn spec_address(&self) -> u32 {
        match self {
            JPRegisters::KeyInput => 0x4000130,
            JPRegisters::KeyCnt => 0x4000132,
        }
    }

    pub fn address(&self) -> (r: u32)
        ensures r == self.spec_address(),
    {
        match self {
            JPRegisters::KeyInput => 0x4000130,
            JPRegisters::KeyCnt => 0x4000132,
        }
    }
}

/// The KEYINPUT bit of a button; `None` for a key that is not on the GBA.
pub open spec fn spec_button_bit(input: Button) -> Option<u16> {
    match input {
        Button::A => Some(0),
        Button::B => Some(1),
        Button::Select => Some(2),
        Button::Start => Some(3),
        Button::Right => Some(4),
        Button::Left => Some(5),
        Button::Up => Some(6),
        Button::Down => Some(7),
        Button::R => Some(8),
        Button::L => Some(9),
        Button::Other => None,
    }
}

fn button_bit(input: Button) -> (r: Option<u16>)
    ensures r == spec_button_bit(input),
{
    match input {
        Button::A => Some(0),
        Button::B => Some(1),
        Button::Select => Some(2),
        Button::Start => Some(3),
        Button::Right => Some(4),
        Button::Left => Some(5),
        Button::Up => Some(6),
        Button::Down => Some(7),
        Button::R => Some(8),
        Button::L => Some(9),
        Button::Other => None,
    }
}

/// The current KEYINPUT register.
pub open spec fn spec_keyinput(mem: InternalMemory) -> u16 {
    mem.spec_sys_read_u16(0x4000130)
}

/// All buttons released.
pub fn init_joypad(mem: &mut InternalMemory)
    ensures
        *final(mem) == old(mem).spec_sys_write_u16(0x4000130, 0xFFFF),
{
    mem.sys_write_u16(JPRegisters::KeyInput.address(), 0xFFFF);
}

/// The keypad interrupt request: with KEYCNT's IRQ enable set, bit 12 of IF
/// follows the selected keys (all of them for the AND condition, any for OR).
pub open spec fn spec_joypad_interrupt(mem: InternalMemory, joypad: u16) -> InternalMemory {
    let control = mem.spec_sys_read_u16(0x4000132);
    if (control >> 14u16) & 1 == 0 {
        mem
    } else {
        let mask = control & 0x3FF;
        let keys = joypad & mask;
        let call_interrupt = if (control >> 15u16) & 1 == 1 { mask == keys } else { keys != 0 };
        let i_flag = mem.spec_sys_read_u16(0x4000202) & !(1u16 << 12u16);
        mem.spec_sys_write_u16(0x4000202, i_flag | ((if call_interrupt { 1u16 } else { 0u16 }) << 12u16))
    }
}

fn joypad_interrupt(mem: &mut Box<InternalMemory>, joypad: u16)
    requires
        old(mem).wf(),
    ensures
        final(mem).wf(),
        **final(mem) == spec_joypad_interrupt(**old(mem), joypad),
{
    let control = mem.sys_read_u16(JPRegisters::KeyCnt.address());
    if (control >> 14) & 1 == 0 {
        return;
    }

    let mask = control & 0x3FF;
    let keys = joypad & mask;

    let interrupt_condition = (control >> 15) & 1 == 1;
    let call_interrupt = if interrupt_condition { mask == keys } else { keys != 0 };

    let mut i_flag = mem.sys_read_u16(0x4000202);
    i_flag = i_flag & !(1 << 12);
    i_flag = i_flag | (if call_interrupt { 1u16 } else { 0u16 }) << 12;

    mem.sys_write_u16(0x4000202, i_flag);
}

/// The memory after a button goes down: its KEYINPUT bit cleared, then the
/// keypad interrupt updated.
pub open spec fn spec_joypad_press(mem: InternalMemory, input: Button) -> InternalMemory {
    match spec_button_bit(input) {
        None => mem,
        Some(b) => {
            let joypad = spec_keyinput(mem) & !(1u16 << b);
            spec_joypad_interrupt(mem.spec_sys_write_u16(0x4000130, joypad), joypad)
        },
    }
}

/// The memory after a button goes up: its KEYINPUT bit set, then the keypad
/// interrupt updated.
pub open spec fn spec_joypad_release(mem: InternalMemory, input: Button) -> InternalMemory {
    match spec_button_bit(input) {
        None => mem,
        Some(b) => {
            let joypad = spec_keyinput(mem) | (1u16 << b);
            spec_joypad_interrupt(mem.spec_sys_write_u16(0x4000130, joypad), joypad)
        },
    }
}

pub fn joypad_press(input: Button, mem: &mut Box<InternalMemory>)
    requires
        old(mem).wf(),
    ensures
        final(mem).wf(),
        **final(mem) == spec_joypad_press(**old(mem), input),
{
    let mut joypad = mem.sys_read_u16(JPRegisters::KeyInput.address());
    let bit = match button_bit(input) {
        Some(b) => b,
        None => return,
    };
    joypad = joypad & !(1 << bit);
    mem.sys_write_u16(JPRegisters::KeyInput.address(), joypad);

    joypad_interrupt(mem, joypad);
}

pub fn joypad_release(input: Button, mem: &mut Box<InternalMemory>)
    requires
        old(mem).wf(),
    ensures
        final(mem).wf(),
        **final(mem) == spec_joypad_release(**old(mem), input),
{
    let mut joypad = mem.sys_read_u16(JPRegisters::KeyInput.address());
    let bit = match button_bit(input) {
        Some(b) => b,
        None => return,
    };
    joypad = joypad | (1 << bit);
    mem.sys_write_u16(JPRegisters::KeyInput.address(), joypad);
    joypad_interrupt(mem, joypad);
}

/// Pressing a button clears its KEYINPUT bit and no other; releasing it sets
/// that bit and no other. So releasing a pressed button gives back the
/// register as it was before the press.
pub proof fn lemma_press_release(mem: InternalMemory, input: Button)
    requires
        mem.wf(),
        spec_button_bit(input) is Some,
    ensures
        spec_keyinput(spec_joypad_press(mem, input)) == spec_keyinput(mem) & !(1u16 << spec_button_bit(input)->0),
        spec_keyinput(spec_joypad_release(mem, input)) == spec_keyinput(mem) | (1u16 << spec_button_bit(input)->0),
        (spec_keyinput(mem) >> spec_button_bit(input)->0) & 1 == 1 ==>
            spec_keyinput(spec_joypad_release(spec_joypad_press(mem, input), input)) == spec_keyinput(mem),
{
    let b = spec_button_bit(input)->0;
    let k = spec_keyinput(mem);
    let pressed = k & !(1u16 << b);
    let released = k | (1u16 << b);
    lemma_keyinput_after_step(mem, pressed);
    lemma_keyinput_after_step(mem, released);
    let m1 = spec_joypad_press(mem, input);
    lemma_keyinput_after_step(m1, pressed | (1u16 << b));
    assert(b < 10);
    assert((k >> b) & 1 == 1 ==> (k & !(1u16 << b)) | (1u16 << b) == k) by (bit_vector)
        requires b < 10u16;
}

/// Writing KEYINPUT and updating the interrupt leaves KEYINPUT holding what
/// was written.
proof fn lemma_keyinput_after_step(mem: InternalMemory, joypad: u16)
    ensures
        spec_keyinput(spec_joypad_interrupt(mem.spec_sys_write_u16(0x4000130, joypad), joypad)) == joypad,
{
    let m1 = mem.spec_sys_write_u16(0x4000130, joypad);
    crate::mem::lemma_region_of(0x4000130, 4);
    crate::mem::memory::lemma_sys_write_read_u16(mem, 0x4000130, joypad);
    let control = m1.spec_sys_read_u16(0x4000132);
    if (control >> 14u16) & 1 != 0 {
        let mask = control & 0x3FF;
        let keys = joypad & mask;
        let call_interrupt = if (control >> 15u16) & 1 == 1 { mask == keys } else { keys != 0 };
        let i_flag = m1.spec_sys_read_u16(0x4000202) & !(1u16 << 12u16);
        let v = i_flag | ((if call_interrupt { 1u16 } else { 0u16 }) << 12u16);
        lemma_io_halfwords_apart(m1, 0x4000202, v, 0x4000130);
    }
}

/// Writing one I/O halfword leaves another I/O halfword as it was.
pub proof fn lemma_io_halfwords_apart(m: InternalMemory, a: u32, data: u16, b: u32)
    requires
        0x400_0000 <= a < 0x400_03FE,
        0x400_0000 <= b < 0x400_03FE,
        a % 2 == 0,
        b % 2 == 0,
        a != b,
    ensures
        m.spec_sys_write_u16(a, data).spec_sys_read_u16(b) == m.spec_sys_read_u16(b),
{
    broadcast use vstd::array::group_array_axioms;
    crate::mem::lemma_region_of(a, 4);
    crate::mem::lemma_region_of((a + 1) as u32, 4);
    crate::mem::lemma_region_of(b, 4);
    crate::mem::lemma_region_of((b + 1) as u32, 4);
    assert(crate::mem::memory::halfword_base(a) == a);
    assert(crate::mem::memory::halfword_base(b) == b);
}

/// Releasing a button that was up before it was pressed gives back the whole
/// memory as it was before the press, when the keypad interrupt is off
/// (KEYCNT bit 14 clear).
pub proof fn lemma_release_undoes_press(mem: InternalMemory, input: Button)
    requires
        spec_button_bit(input) is Some,
        (spec_keyinput(mem) >> spec_button_bit(input)->0) & 1 == 1,
        (mem.spec_sys_read_u16(0x4000132) >> 14u16) & 1 == 0,
    ensures
        spec_joypad_release(spec_joypad_press(mem, input), input) == mem,
{
    let b = spec_button_bit(input)->0;
    let k = spec_keyinput(mem);
    let pressed = k & !(1u16 << b);
    assert(b < 10);
    assert((k >> b) & 1 == 1 ==> pressed | (1u16 << b) == k) by (bit_vector)
        requires b < 10u16, pressed == k & !(1u16 << b);
    crate::mem::lemma_region_of(0x4000130, 4);
    let m1 = mem.spec_sys_write_u16(0x4000130, pressed);
    lemma_io_halfwords_apart(mem, 0x4000130, pressed, 0x4000132);
    assert(spec_joypad_press(mem, input) == m1);
    crate::mem::memory::lemma_sys_write_read_u16(mem, 0x4000130, pressed);
    let m2 = m1.spec_sys_write_u16(0x4000130, k);
    lemma_io_halfwords_apart(m1, 0x4000130, k, 0x4000132);
    assert(spec_joypad_release(m1, input) == m2);
    crate::mem::memory::lemma_sys_write_u16_overwrite(mem, 0x4000130, pressed, k);
}

} // verus!
