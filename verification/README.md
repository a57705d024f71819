# gba_core

The core of a Game Boy Advance emulator, written in Verus: the public
functions, and most private ones, carry a contract that states what they
do, and the verifier proves the code against it. Proof functions state the
laws that span several calls: what a read gives back of a write and which
bytes a write leaves alone, the two halves of a THUMB long branch, the halt
request, a button released after a press, one dot of the PPU.

## Layout

- `src/cpu/` — the ARM7TDMI: the register file with its banked registers
  and status registers (`registers.rs`), instruction decoding
  (`decode.rs`), the ARM and THUMB instruction sets (`execute_arm.rs`,
  `execute_thumb.rs`), interrupts (`interrupt.rs`) and disassembly
  (`assemblify.rs`).
- `src/mem/` — the memory map: address decoding and byte order (`mod.rs`),
  the memories with their DMA channels and timers (`memory.rs`), the bus
  that the processor and the PPU see (`bus.rs`) and cartridge back-up
  memories (`carts.rs`).
- `src/ppu/` — the picture processing unit: text backgrounds (`tiles.rs`),
  bitmap modes (`bitmaps.rs`), sprites (`obj.rs`), the merge of the layers
  (`accumulate.rs`) and the dot-by-dot timing (`mod.rs`).
- `src/joypad.rs`, `src/apu.rs` — the keypad registers and the (silent)
  sound unit.
- `src/lib.rs`, `src/emulator.rs` — one step of the whole machine, and the
  states a front end drives it in.
- `tests/` — tests on concrete values.
- `app/` — the front end: a window (eframe/egui) that shows the frames and
  passes on the keyboard, a debugger, and a runner for the ARM7TDMI
  single-instruction JSON tests.

## Use

    app <rom under roms/> [bios file, default bios.bin] [--from-bios] [--debug]
    app --json-test [directory of the JSON tests, default ./json/]

Keys: arrows, K (A), L (B), Z (select), X (start), Q (L), P (R).
