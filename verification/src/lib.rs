//! A PlayStation emulator core: the MIPS R3000A CPU and its coprocessors,
//! the memory bus and the integer logic of the peripherals.

pub mod instruction;
pub mod cpu;
pub mod memory;
pub mod interrupts;
pub mod dma;
pub mod joy;
pub mod spu;
pub mod timers;
pub mod gte;
pub mod bus;
pub mod bits;
pub mod gpu;
pub mod cdrom;
pub mod debugger;
pub mod executable;
pub mod programs;
pub mod frame;
