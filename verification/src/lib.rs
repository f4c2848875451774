//! A CHIP-8 virtual machine: the instruction codec, the memory of the
//! machine, the hardware abstraction that connects it to peripherals, the
//! execution engine, and a small builder for program images.
pub mod chip;
pub mod hal;
pub mod inst;
pub mod io;
pub mod mem;
pub mod prog;

pub use chip::error;
pub use chip::{Chip8, HwChip8};
pub use prog::{hexdump, CompileError, CompiledProgram, Program};
