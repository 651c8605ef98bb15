# gameboy

A Game Boy (DMG) emulator core written in Verus. The library states what the
machine does in contracts and Verus proves the code against them.

- `registers`, `alu`: the CPU registers and flags, and the arithmetic, logic,
  rotate, bit and decimal-adjust operations.
- `decode`: the opcode tables, instruction sizes and payloads.
- `gameboy`, `mmu`: the machine state as the contracts see it, and the memory
  map (boot ROM, cartridge, video RAM, work RAM, I/O, high RAM).
- `semantics`, `instructions`: what every instruction does to the machine, and
  the code that does it.
- `cpu`: interrupts, fetch and decode, and one CPU step.
- `io`, `interrupts`, `timers`, `lcd`, `joypad`, `ppu`, `frame`: the devices
  and the pictures handed out after each frame.
- `emulation`: frames of CPU ticks and the buttons.
- `cartridge`, `rom`, `bus`, `serial`, `clock`: images, a flat memory, the
  serial receiver and the pace.

`app/` is the desktop program: it reads the cartridge and boot ROM files,
opens the windows and runs the emulation at 60 frames a second.
