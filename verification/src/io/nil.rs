//! Stand-ins for peripherals that a host lacks.
use crate::hal::{BuzzerExt, RngExt};
use vstd::prelude::*;

verus! {

/// A buzzer that makes no sound.
pub struct NilBuzzer;

impl BuzzerExt for NilBuzzer {
    type Error = ();

    /// Nothing happens, and nothing fails.
    open spec fn switched(&self, state: bool, after: &Self, done: Result<(), ()>) -> bool {
        done is Ok
    }

    fn set_state(&mut self, state: bool) -> (done: Result<(), ()>)
        ensures
            done is Ok,
    {
        Ok(())
    }
}

/// A random number generator that always gives 1.
pub struct NilRng;

impl RngExt for NilRng {
    type Error = ();

    /// The byte is always 1.
    open spec fn gave(&self, after: &Self, byte: Result<u8, ()>) -> bool {
        byte == Ok::<u8, ()>(1)
    }

    fn rand(&mut self) -> (byte: Result<u8, ()>)
        ensures
            byte == Ok::<u8, ()>(1),
    {
        Ok(1)
    }
}

} // verus!
