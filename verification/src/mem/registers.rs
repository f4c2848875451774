//! The sixteen general purpose registers.
use super::Error;
use vstd::prelude::*;

verus! {

/// The registers `V0` to `VF`. `VF` is the flag register.
#[derive(Debug, Copy, Clone)]
pub struct Registers {
    reg: [u8; 16],
}

impl View for Registers {
    type V = Seq<u8>;

    closed spec fn view(&self) -> Seq<u8> {
        self.reg@
    }
}

impl Registers {
    /// Sixteen registers that hold zero.
    pub fn new() -> (registers: Self)
        ensures
            registers@ == Seq::new(16, |r: int| 0u8),
    {
        let registers = Registers { reg: [0; 16] };
        assert(registers@ =~= Seq::new(16, |r: int| 0u8));
        registers
    }

    /// There are sixteen registers.
    pub proof fn lemma_len(&self)
        ensures
            self@.len() == 16,
    {
    }

    /// The value of register `reg`, or `InvalidRegister` where there is no
    /// such register.
    pub fn get(&self, reg: u8) -> (value: Result<u8, Error>)
        ensures
            self@.len() == 16,
            reg < 16 ==> value == Ok::<u8, Error>(self@[reg as int]),
            reg >= 16 ==> value == Err::<u8, Error>(Error::InvalidRegister { reg }),
    {
        if reg < 16 {
            Ok(self.reg[reg as usize])
        } else {
            Err(Error::InvalidRegister { reg })
        }
    }

    /// Sets register `reg` to `val`, or leaves the registers as they are and
    /// returns `InvalidRegister` where there is no such register.
    pub fn set(&mut self, reg: u8, val: u8) -> (done: Result<(), Error>)
        ensures
            final(self)@.len() == 16,
            reg < 16 ==> done is Ok && final(self)@ == old(self)@.update(reg as int, val),
            reg >= 16 ==> done == Err::<(), Error>(Error::InvalidRegister { reg }) && final(self)@
                == old(self)@,
    {
        if reg < 16 {
            self.reg[reg as usize] = val;
            Ok(())
        } else {
            Err(Error::InvalidRegister { reg })
        }
    }
}

impl Default for Registers {
    fn default() -> (registers: Self)
        ensures
            registers@ == Seq::new(16, |r: int| 0u8),
    {
        Registers::new()
    }
}

} // verus!
