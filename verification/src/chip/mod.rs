//! The execution engine: the clock that paces it, the meaning of each
//! instruction, and the machine that fetches, decodes and executes.
pub(crate) mod chip8;
mod clock;
pub mod error;
mod hw;
mod timer;

pub mod laws;
pub mod semantics;

pub use self::chip8::{Chip8, Request, INST_STEP, POLL_FREQ, POLL_ROUND, REG_FLAG};
pub use clock::{step_delay, valid_speed, Clock, MACRO_TICK};

pub use hw::HwChip8;
pub use timer::Timer;
