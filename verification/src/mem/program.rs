//! A program as plain bytes, to be copied into RAM.
use super::mem::Error;
use super::ram::{load_error, overlay, word_bytes, Load, Ram};
use vstd::prelude::*;
use vstd::std_specs::convert::FromSpecImpl;

verus! {

/// A program as it is copied into RAM: its bytes, which go to `0x200`, and
/// at most one block of data with the address that it goes to.
#[derive(Debug, Clone)]
pub struct Program {
    program: Vec<u8>,
    data: Option<(u16, Vec<u8>)>,
}

impl View for Program {
    type V = (Seq<u8>, Option<(u16, Seq<u8>)>);

    /// The bytes of the program, and the data with its address.
    closed spec fn view(&self) -> (Seq<u8>, Option<(u16, Seq<u8>)>) {
        (
            self.program@,
            match self.data {
                Some((offset, data)) => Some((offset, data@)),
                None => None,
            },
        )
    }
}

impl Program {
    /// The bytes of the program.
    pub fn bytes(&self) -> (bytes: &[u8])
        ensures
            bytes@ == self@.0,
    {
        self.program.as_slice()
    }

    /// Copies the program to `0x200` and then the data to its address. The
    /// first of the two that does not fit RAM ends the copying with its
    /// error; a program that was copied stays.
    pub fn copy_to(&self, ram: &mut Ram) -> (copied: Result<(), Error>)
        ensures
            match load_error(0x200, self@.0.len()) {
                Some(error) => copied == Err::<(), Error>(error) && final(ram)@ == old(ram)@,
                None => {
                    let loaded = overlay(old(ram)@, 0x200, self@.0);
                    match self@.1 {
                        Some((offset, data)) => match load_error(offset, data.len()) {
                            Some(error) => copied == Err::<(), Error>(error) && final(ram)@
                                == loaded,
                            None => copied is Ok && final(ram)@ == overlay(
                                loaded,
                                offset as int,
                                data,
                            ),
                        },
                        None => copied is Ok && final(ram)@ == loaded,
                    }
                },
            },
    {
        ram.load(0x200, self.program.as_slice())?;
        if let Some((offset, data)) = &self.data {
            ram.load(*offset, data.as_slice())?;
        }
        Ok(())
    }

    /// Gives the program the block `data`, to be copied to `offset`. An
    /// earlier block is forgotten.
    pub fn data(&mut self, offset: u16, data: &[u8])
        ensures
            final(self)@ == (old(self)@.0, Some((offset, data@))),
    {
        self.data = Some((offset, vstd::slice::slice_to_vec(data)));
    }
}

impl From<&[u8]> for Program {
    /// A program of the bytes `program`, without data.
    fn from(program: &[u8]) -> (out: Self)
        ensures
            out@ == (program@, None::<(u16, Seq<u8>)>),
    {
        Program { program: vstd::slice::slice_to_vec(program), data: None }
    }
}

impl FromSpecImpl<&[u8]> for Program {
    open spec fn obeys_from_spec() -> bool {
        false
    }

    open spec fn from_spec(program: &[u8]) -> Self {
        arbitrary()
    }
}

impl From<&[u16]> for Program {
    /// A program of the words `program`, each big-endian, without data.
    fn from(program: &[u16]) -> (out: Self)
        ensures
            out@ == (word_bytes(program@), None::<(u16, Seq<u8>)>),
    {
        let mut bytes: Vec<u8> = Vec::new();
        let mut k: usize = 0;
        while k < program.len()
            invariant
                k <= program@.len(),
                bytes@ == word_bytes(program@.take(k as int)),
            decreases program@.len() - k,
        {
            let word = program[k];
            proof {
                super::ram::lemma_word_bytes(word);
            }
            bytes.push((word >> 8) as u8);
            bytes.push((word & 0xFF) as u8);
            k += 1;
            assert(bytes@ =~= word_bytes(program@.take(k as int)));
        }
        assert(program@.take(k as int) =~= program@);
        Program { program: bytes, data: None }
    }
}

impl FromSpecImpl<&[u16]> for Program {
    open spec fn obeys_from_spec() -> bool {
        false
    }

    open spec fn from_spec(program: &[u16]) -> Self {
        arbitrary()
    }
}

} // verus!
