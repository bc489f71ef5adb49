# S.N.E.S. emulator core, verified

An emulator core for the Super Nintendo, written in Verus: the 65816 main processor,
the SPC700 sound processor's instruction set, and the console around them (memory map,
DMA and HDMA, the multiplier and divider, timers, controller ports, and the picture
processing unit).

Layout:

- `src/wdc65816/`: the 65816 processor. Every instruction is stated as the registers
  afterwards and the exact sequence of bus cycles it performs (`Processor::instr_spec`).
- `src/spc700/`: the SPC700 processor, its opcode table and the disassembly text.
- `src/snes/`: the console. `console.rs` is the bus (`ExternalArchitecture`), `cpu.rs`
  the CPU with its DMA pauses, `machine.rs` the whole console and the per-instruction
  interrupt and HDMA logic; the `ppu*` files hold the PPU registers, timing, tile and
  sprite fetching, layer composition and line and dot drawing; `voice.rs` and `brr.rs`
  a sound voice: its registers, sample decoding, envelope clock and interpolation (the
  envelope period tables and the interpolation weights are parameters).
- `src/text.rs`: hexadecimal and decimal text.
- `app/`: what cannot be verified: mode 7, brightness and the envelope scaling of a
  voice's output (floating point), and the loop that runs the console with the
  caller's hooks and draws the dots the PPU passes.
- `tests/`: tests on concrete values.

The audio unit's memory map, timers and DSP registers are not here.
