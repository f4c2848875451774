//! The errors of the program builder.
use crate::mem;
use vstd::prelude::*;
use vstd::std_specs::convert::FromSpecImpl;

verus! {

/// Why a program cannot be built.
#[derive(Debug, Clone, Copy, PartialEq, Eq, Structural)]
pub enum CompileError {
    /// A table is full, a routine has an odd number of bytes, or a reference
    /// names nothing.
    Todo,
    /// The memory refused an access.
    Memory(mem::Error),
}

impl From<mem::Error> for CompileError {
    fn from(err: mem::Error) -> (error: Self) {
        CompileError::Memory(err)
    }
}

impl FromSpecImpl<mem::Error> for CompileError {
    open spec fn obeys_from_spec() -> bool {
        true
    }

    open spec fn from_spec(err: mem::Error) -> Self {
        CompileError::Memory(err)
    }
}

} // verus!
