//! The state of the machine, and the errors of its memory.
use super::{Ram, Registers, Stack};
use vstd::prelude::*;
use vstd::std_specs::convert::FromSpecImpl;

verus! {

/// What can go wrong in an access to RAM, the registers or the stack.
#[derive(Debug, Copy, Clone, PartialEq, Eq, Structural)]
#[allow(inconsistent_fields)]
pub enum Error {
    /// The address lies outside the 4 KiB of RAM.
    InvalidAddress { addr: u16 },
    /// The range starts or ends outside RAM.
    InvalidSlice { addr: u16, len: u16 },
    /// There is no sprite for this digit.
    InvalidSprite { sprite: u8 },
    /// There is no register with this index.
    InvalidRegister { reg: u8 },
    /// The address lies in the interpreter area, which programs cannot write.
    NotWritable { addr: u16 },
    /// The program counter does not point to the start of an instruction.
    NotAligned { pc: u16 },
    /// The data does not fit between the address and the end of RAM.
    LoadTooLong { addr: u16, len: usize },
    /// All sixteen frames of the stack are in use.
    StackOverflow { frame: u16 },
    /// The stack pointer is outside its range.
    StackCorrupt { sp: u8 },
    /// The stack holds no frame.
    StackEmpty,
}

/// The memory of the machine.
#[derive(Debug, Copy, Clone)]
pub struct Mem {
    /// The index register; memory operations use it as an address.
    pub i: u16,
    /// The program counter.
    pub pc: u16,
    /// The delay timer.
    pub dt: u8,
    /// The sound timer.
    pub st: u8,
    /// The general purpose registers `V0` to `VF`.
    pub reg: Registers,
    /// The call stack.
    pub stack: Stack,
    /// The 4 KiB of RAM.
    pub ram: Ram,
}

/// The state of the machine as plain values: what `Mem` stands for.
#[verifier::ext_equal]
pub struct State {
    pub i: u16,
    pub pc: u16,
    pub dt: u8,
    pub st: u8,
    /// The sixteen registers.
    pub reg: Seq<u8>,
    /// The frames on the stack, the oldest first.
    pub stack: Seq<u16>,
    /// The 4096 bytes of RAM.
    pub ram: Seq<u8>,
}

impl View for Mem {
    type V = State;

    open spec fn view(&self) -> State {
        State {
            i: self.i,
            pc: self.pc,
            dt: self.dt,
            st: self.st,
            reg: self.reg@,
            stack: self.stack@,
            ram: self.ram@,
        }
    }
}

impl State {
    /// The shape that every machine state has: sixteen registers, at most
    /// sixteen frames, 4096 bytes.
    pub open spec fn wf(self) -> bool {
        &&& self.reg.len() == 16
        &&& self.stack.len() <= 16
        &&& self.ram.len() == 4096
    }
}

impl Mem {
    /// The state of the machine at power-on: the font in RAM, everything
    /// else zero, the stack empty.
    pub open spec fn default_state() -> State {
        State {
            i: 0,
            pc: 0,
            dt: 0,
            st: 0,
            reg: Seq::new(16, |r: int| 0u8),
            stack: Seq::<u16>::empty(),
            ram: super::initial_image(),
        }
    }

    /// The view of a machine has the shape of a machine state.
    pub proof fn lemma_wf(&self)
        requires
            self.stack.wf(),
        ensures
            self@.wf(),
    {
        self.reg.lemma_len();
        self.stack.lemma_len();
        self.ram.lemma_len();
    }
}

impl From<Ram> for Mem {
    /// A machine whose RAM is `ram`, with everything else zero and the stack
    /// empty.
    fn from(ram: Ram) -> (mem: Self)
        ensures
            mem@ == (State { ram: ram@, ..Mem::default_state() }),
    {
        Mem { i: 0, pc: 0, dt: 0, st: 0, reg: Registers::new(), stack: Stack::new(), ram }
    }
}

impl FromSpecImpl<Ram> for Mem {
    open spec fn obeys_from_spec() -> bool {
        false
    }

    open spec fn from_spec(ram: Ram) -> Self {
        arbitrary()
    }
}

impl Default for Mem {
    /// The machine at power-on: the font in RAM, everything else zero.
    fn default() -> (mem: Self)
        ensures
            mem@ == Self::default_state(),
    {
        Mem::from(Ram::new())
    }
}

} // verus!
