//! The errors of the engine: those that a program causes, and those that a
//! peripheral reports.
use crate::mem;
use vstd::prelude::*;
use vstd::std_specs::convert::FromSpecImpl;

verus! {

/// What ends a run: a failure of the hardware, or an error of the program.
#[derive(Debug, Clone, Copy, PartialEq, Eq)]
pub enum RuntimeError<E> {
    Hardware(E),
    Software(Error),
}

/// Chip8 Software errors
#[derive(Debug, Clone, Copy, PartialEq, Eq, Structural)]
pub enum Error {
    /// An error relating to the memory module
    Memory(mem::Error),
    /// The address was not aligned to the start of an instruction
    OffsetNotAligned(u16),
    /// The instruction is not known
    UnknownInstruction(u16),
    /// The requested clock speed can't be emulated
    InvalidClockSpeed(u32),
}

impl From<mem::Error> for Error {
    fn from(err: mem::Error) -> (error: Self) {
        Error::Memory(err)
    }
}

impl FromSpecImpl<mem::Error> for Error {
    open spec fn obeys_from_spec() -> bool {
        true
    }

    open spec fn from_spec(err: mem::Error) -> Self {
        Error::Memory(err)
    }
}

impl<E> From<Error> for RuntimeError<E> {
    fn from(err: Error) -> (error: Self) {
        RuntimeError::Software(err)
    }
}

impl<E> FromSpecImpl<Error> for RuntimeError<E> {
    open spec fn obeys_from_spec() -> bool {
        true
    }

    open spec fn from_spec(err: Error) -> Self {
        RuntimeError::Software(err)
    }
}

impl<E> From<mem::Error> for RuntimeError<E> {
    fn from(err: mem::Error) -> (error: Self) {
        RuntimeError::Software(Error::Memory(err))
    }
}

impl<E> FromSpecImpl<mem::Error> for RuntimeError<E> {
    open spec fn obeys_from_spec() -> bool {
        true
    }

    open spec fn from_spec(err: mem::Error) -> Self {
        RuntimeError::Software(Error::Memory(err))
    }
}

} // verus!
