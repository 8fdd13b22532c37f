# kevboy

A Game Boy and Game Boy Color emulator. The emulation core is a Verus library whose
functions carry contracts that Verus proves; a thin egui front end runs it.

- `src/cpu`: the SM83 processor. `step.rs` states, per opcode group, the registers after an
  instruction and the bus events (reads, writes, extra cycles) it makes; `cpu.rs` runs
  instructions and is proved against those statements.
- `src/mmu`: the memory bus (`bus.rs`), timers, serial port and VRAM DMA registers. The bus
  records the accesses made through it, and the machine before and after each of them, so
  that what a run of instructions did to the whole machine follows from the accesses.
- `src/ppu`, `src/apu`: picture and audio processing units; the APU produces integer channel
  outputs, the front end mixes them.
- `src/cartridge`: the memory bank controllers (none, MBC1, MBC2, MBC3, MBC5) and save RAM.
- `src/input`: the joypad register.
- `src/emulator.rs`: loading a ROM from its header, stepping the machine and running a
  frame (key polls and steps until 17 556 m-cycles have passed).
- `app/`: the window, menus, settings, audio output and the JSON test-case reader.
