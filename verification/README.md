# psemu

A PlayStation emulator core whose behaviour is stated in Verus contracts and
proved.

## Layout

- `src/` is the verified library:
  - `cpu/`: the R3000A interpreter: decoding, execution, COP0 exceptions and
    memory access.
  - `gte/`: the geometry transformation engine (COP2).
  - `bus.rs`, `memory.rs`, `dma.rs`: the memory map and the DMA transfers.
  - `interrupts.rs`, `timers.rs`, `joy.rs`, `spu/`: the interrupt
    controller, timers, pad port and sound unit.
  - `gpu.rs`: the GPU command processor and VRAM.
  - `cdrom/`: the CD-ROM controller, the CUE sheet parser and disc layout.
  - `executable.rs`: PS-X EXE headers.
  - `debugger.rs`: the debugger's commands. It uses the `psdisasm` crate
    for disassembly, behind trusted wrappers whose contracts are read
    against that crate's source.
- `tests/` holds the tests, which run the library with the real outside
  crates linked.
- `app/` is the program around the library: argument handling, file I/O,
  the debugger's console, and rasterisation and video timing, which use
  floating point.

Devices whose behaviour lies outside the library (the GPU and CD-ROM seen
from the bus, the disc image) are reached through the `Devices` and
`SectorReader` traits. The bus records every call it makes to the devices,
with what each read gave back, in a ghost log (`Bus::calls`); the contracts of
register accesses and DMA transfers are stated over that log: which words go
to the GPU, and which words of CD-ROM data land in RAM. For the disc reader,
the contracts say which sector is asked for and what is done with the bytes
it returns. What the devices do with what they are handed is not stated.
