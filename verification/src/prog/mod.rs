//! The program builder: it collects a main routine, subroutines and data,
//! lays them out from `0x200` on, and replaces the symbolic references in the
//! instructions by the addresses of what they refer to.
mod error;
mod prog;
mod refs;

pub mod layout;

pub use error::CompileError;
pub use prog::{hexdump, hexdump_text, tail_jump, CompiledProgram, Program, ProgramView};
pub use refs::{contents, copy_error, first_failure, moved, start_of, total, Ref, Refs};
