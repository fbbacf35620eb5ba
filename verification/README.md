# gameboy

A Game Boy (DMG) emulator whose core is verified with Verus.

`src/` is the verified library:

- `bits` – flag bits, register pairs and the bit-level facts behind them;
- `cpu` – the register file, the processor with its separate call stack, and
  `Machine`, the mathematical model of registers, stack, serial progress and memory;
- `decode` – the decoding of the 256 opcodes into instructions;
- `semantics` – what each instruction does to a `Machine`, and when it cannot
  be executed (a program counter or stack pointer leaving its range, a pop
  from an empty call stack);
- `alu`, `exec` – the executable instructions, each proved against `semantics`;
- `step` – one step: instruction, serial port, interrupt dispatch, pending
  interrupt enable;
- `memory` – the power-on memory image and the boot ROM overlay;
- `video` – the background renderer and the scrolled window that is shown;
- `laws` – properties that relate several operations (push/pop, call/return,
  interrupt/return, the delayed interrupt enable, the serial transfer, ...).

`app/` is the program around it: it reads the ROM files, runs the processor
on a thread of its own, and draws the window with `winit` and `pixels`.
