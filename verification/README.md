# fairnes

A cycle-stepped emulator of the NES's 6502 CPU and memory bus, verified with Verus.

- `src/cpu/`: the status register (`flags_register`), instructions and their names
  (`instruction`), the opcode table (`instruction_table`), what each instruction does
  to the CPU (`instruction_implementation`) and the CPU's registers and states (`cpu`).
- `src/emulator.rs`: the machine: RAM mirroring, the ROM window and the open bus,
  iNES cartridge loading, reset, and the per-cycle state machine with its frame loop.
  Every operation is specified over a model of the machine (`EmulatorState`), and a
  cycle's effect is the spec function `cycle`.
- `src/ui.rs`: the front end's state and the logic it runs (pattern-table rendering,
  memory probing, advancing the emulation).
- `app/`: the eframe/egui window around the library.
- `tests/`: tests on concrete programs and values.
