//! The instruction set: bit-field codecs, the opcode table and the
//! assembler functions.
mod arch;
mod operands;

pub mod bytecode;
pub mod laws;
pub mod ops;
pub mod text;

pub use arch::{decoding, lemma_matches_unique, Instruction, Opcode};
pub use operands::{encoding, Operands, Shape};
pub use text::{reverse_inst, reversed, DecodedInstruction};
