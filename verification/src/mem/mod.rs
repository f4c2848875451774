//! The memory of the machine: 4 KiB of RAM with the font, sixteen registers,
//! a call stack of sixteen frames, and the record that holds them together
//! with the index register, the program counter and the two timers.
mod mem;
mod program;
mod ram;
mod registers;
mod sprites;
mod stack;

pub mod laws;

pub use mem::{Error, Mem, State};
pub use program::Program;
pub use ram::{
    initial_image, load_error, overlay, read_error, sprite_addr, valid_slice, word_bytes,
    write_error, Load, Ram,
};
pub use registers::Registers;
pub use sprites::SPRITES;
pub use stack::{pop_result, popped, push_result, pushed, Stack};
