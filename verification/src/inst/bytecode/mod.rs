//! The five operand fields of a 16-bit instruction word.
pub mod decode;
pub mod encode;
