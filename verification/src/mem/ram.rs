//! The 4 KiB of RAM. Addresses below `0x200` are the interpreter area, which
//! holds the font and which programs can read but not write.
use super::sprites::SPRITES;
use super::Error;
use vstd::prelude::*;

verus! {

/// The contents of RAM at power-on: the font at `0x1B0..0x200`, zero
/// elsewhere.
pub open spec fn initial_image() -> Seq<u8> {
    Seq::new(
        4096,
        |a: int|
            if 0x1B0 <= a < 0x200 {
                SPRITES[(a - 0x1B0) / 5][(a - 0x1B0) % 5]
            } else {
                0u8
            },
    )
}

/// The memory `mem` with `bytes` written over it from address `addr` on.
pub open spec fn overlay(mem: Seq<u8>, addr: int, bytes: Seq<u8>) -> Seq<u8> {
    Seq::new(
        mem.len(),
        |a: int|
            if addr <= a < addr + bytes.len() {
                bytes[a - addr]
            } else {
                mem[a]
            },
    )
}

/// Why `len` bytes cannot be loaded at `addr`, if they cannot: the address
/// lies outside RAM, or the bytes reach beyond its end.
pub open spec fn load_error(addr: u16, len: nat) -> Option<Error> {
    if addr >= 0x1000 {
        Some(Error::InvalidAddress { addr })
    } else if len > 0x1000 - addr {
        Some(
            Error::LoadTooLong {
                addr,
                len: if len <= usize::MAX {
                    len as usize
                } else {
                    usize::MAX
                },
            },
        )
    } else {
        None
    }
}

/// Why a program cannot read `addr`, if it cannot: the address lies outside
/// RAM.
pub open spec fn read_error(addr: u16) -> Option<Error> {
    if addr >= 0x1000 {
        Some(Error::InvalidAddress { addr })
    } else {
        None
    }
}

/// Why a program cannot write `addr`, if it cannot: the address lies in the
/// interpreter area or outside RAM.
pub open spec fn write_error(addr: u16) -> Option<Error> {
    if addr < 0x200 {
        Some(Error::NotWritable { addr })
    } else {
        read_error(addr)
    }
}

/// Whether the `len` bytes from `addr` on can be read: the range starts in
/// RAM and ends in it.
pub open spec fn valid_slice(addr: u16, len: u16) -> bool {
    addr < 0x1000 && addr + len <= 0x1000
}

/// The address of the sprite for the hexadecimal digit `digit`.
pub open spec fn sprite_addr(digit: u8) -> u16 {
    (0x1B0 + 5 * digit) as u16
}

/// The bytes of a sequence of 16-bit words: each word big-endian, its high
/// byte first.
pub open spec fn word_bytes(words: Seq<u16>) -> Seq<u8> {
    Seq::new(
        2 * words.len(),
        |k: int|
            if k % 2 == 0 {
                (words[k / 2] >> 8) as u8
            } else {
                (words[k / 2] & 0xFF) as u8
            },
    )
}

/// Loading a sequence of items into a memory of 4 KiB, where an item is a
/// byte or a 16-bit word.
pub trait Load<T>: View<V = Seq<u8>> {
    /// The bytes that the items occupy in memory.
    spec fn bytes(items: Seq<T>) -> Seq<u8>;

    /// Copies `words` to memory from address `addr` on and returns the number
    /// of bytes written. Any address of RAM can be loaded, the interpreter
    /// area too. Where the load fails, the memory is left as it was.
    fn load(&mut self, addr: u16, words: &[T]) -> (loaded: Result<u16, Error>)
        ensures
            match load_error(addr, Self::bytes(words@).len()) {
                Some(error) => loaded == Err::<u16, Error>(error) && final(self)@ == old(self)@,
                None => loaded == Ok::<u16, Error>(Self::bytes(words@).len() as u16)
                    && final(self)@ == overlay(old(self)@, addr as int, Self::bytes(words@)),
            },
    ;
}

/// The RAM of the machine.
#[derive(Debug, Copy, Clone)]
pub struct Ram {
    mem: [u8; 4096],
}

impl View for Ram {
    type V = Seq<u8>;

    /// The 4096 bytes, by address.
    closed spec fn view(&self) -> Seq<u8> {
        self.mem@
    }
}

impl Load<u8> for Ram {
    open spec fn bytes(items: Seq<u8>) -> Seq<u8> {
        items
    }

    fn load(&mut self, addr: u16, bytes: &[u8]) -> (loaded: Result<u16, Error>) {
        let index = match self.to_read_addr(addr) {
            Ok(index) => index as usize,
            Err(error) => return Err(error),
        };
        if bytes.len() > 4096 - index {
            return Err(Error::LoadTooLong { addr, len: bytes.len() });
        }
        let mut k: usize = 0;
        while k < bytes.len()
            invariant
                index == addr,
                index + bytes.len() <= 4096,
                k <= bytes.len(),
                self@ == overlay(old(self)@, addr as int, bytes@.take(k as int)),
            decreases bytes.len() - k,
        {
            self.mem[index + k] = bytes[k];
            k += 1;
            assert(self@ =~= overlay(old(self)@, addr as int, bytes@.take(k as int)));
        }
        assert(bytes@.take(k as int) =~= bytes@);
        Ok(bytes.len() as u16)
    }
}

impl Load<u16> for Ram {
    open spec fn bytes(items: Seq<u16>) -> Seq<u8> {
        word_bytes(items)
    }

    fn load(&mut self, addr: u16, words: &[u16]) -> (loaded: Result<u16, Error>) {
        let index = match self.to_read_addr(addr) {
            Ok(index) => index as usize,
            Err(error) => return Err(error),
        };
        if words.len() > (4096 - index) / 2 {
            let len = if words.len() <= usize::MAX / 2 {
                words.len() * 2
            } else {
                usize::MAX
            };
            return Err(Error::LoadTooLong { addr, len });
        }
        let mut k: usize = 0;
        while k < words.len()
            invariant
                index == addr,
                index + 2 * words.len() <= 4096,
                k <= words.len(),
                self@ == overlay(old(self)@, addr as int, word_bytes(words@.take(k as int))),
            decreases words.len() - k,
        {
            let word = words[k];
            proof {
                lemma_word_bytes(word);
            }
            self.mem[index + 2 * k] = (word >> 8) as u8;
            self.mem[index + 2 * k + 1] = (word & 0xFF) as u8;
            k += 1;
            assert(self@ =~= overlay(old(self)@, addr as int, word_bytes(words@.take(k as int))));
        }
        assert(words@.take(k as int) =~= words@);
        Ok((words.len() * 2) as u16)
    }
}

/// Both bytes of a word fit a byte.
pub(super) proof fn lemma_word_bytes(word: u16)
    ensures
        word >> 8 < 0x100,
        word & 0xFF < 0x100,
{
    assert(word >> 8 < 0x100 && word & 0xFF < 0x100) by (bit_vector);
}

impl Ram {
    /// RAM as it is at power-on: zero, but for the font.
    pub fn new() -> (ram: Self)
        ensures
            ram@ == initial_image(),
    {
        let mut ram = Ram { mem: [0; 4096] };
        let mut k: usize = 0;
        while k < 80
            invariant
                k <= 80,
                forall|a: int|
                    0 <= a < 4096 ==> #[trigger] ram@[a] == if 0x1B0 <= a < 0x1B0 + k {
                        SPRITES[(a - 0x1B0) / 5][(a - 0x1B0) % 5]
                    } else {
                        0u8
                    },
            decreases 80 - k,
        {
            let ghost before = ram@;
            ram.mem[0x1B0 + k] = SPRITES[k / 5][k % 5];
            assert(ram@ == before.update(0x1B0 + k, SPRITES[k as int / 5][k as int % 5]));
            k += 1;
        }
        assert(ram@ =~= initial_image());
        ram
    }

    /// RAM has 4096 bytes.
    pub proof fn lemma_len(&self)
        ensures
            self@.len() == 4096,
    {
    }

    /// Checks that `addr` can be read: that it lies in RAM.
    pub fn to_read_addr(&self, addr: u16) -> (checked: Result<u16, Error>)
        ensures
            self@.len() == 4096,
            checked == match read_error(addr) {
                Some(error) => Err::<u16, Error>(error),
                None => Ok(addr),
            },
    {
        match addr {
            0..=0xFFF => Ok(addr),
            _ => Err(Error::InvalidAddress { addr }),
        }
    }

    /// Checks that a program can write `addr`: that it lies in RAM above the
    /// interpreter area.
    pub fn to_write_addr(&self, addr: u16) -> (checked: Result<u16, Error>)
        ensures
            self@.len() == 4096,
            checked == match write_error(addr) {
                Some(error) => Err::<u16, Error>(error),
                None => Ok(addr),
            },
    {
        if addr >= 0x200 {
            self.to_read_addr(addr)
        } else {
            Err(Error::NotWritable { addr })
        }
    }

    /// The byte at `addr`.
    pub fn read_byte(&self, addr: u16) -> (byte: Result<u8, Error>)
        ensures
            self@.len() == 4096,
            byte == match read_error(addr) {
                Some(error) => Err::<u8, Error>(error),
                None => Ok(self@[addr as int]),
            },
    {
        match self.to_read_addr(addr) {
            Ok(loc) => Ok(self.mem[loc as usize]),
            Err(error) => Err(error),
        }
    }

    /// The `len` bytes from `addr` on. The range must start in RAM and end
    /// in it; an empty range at `0x1000` is refused like any other there.
    pub fn read_bytes(&self, addr: u16, len: u16) -> (bytes: Result<&[u8], Error>)
        ensures
            self@.len() == 4096,
            match bytes {
                Ok(slice) => valid_slice(addr, len) && slice@ == self@.subrange(
                    addr as int,
                    addr + len,
                ),
                Err(error) => !valid_slice(addr, len) && error == (Error::InvalidSlice {
                    addr,
                    len,
                }),
            },
    {
        if addr < 0x1000 && len <= 0x1000 - addr {
            let start = addr as usize;
            let end = start + len as usize;
            Ok(vstd::slice::slice_subrange(self.mem.as_slice(), start, end))
        } else {
            Err(Error::InvalidSlice { addr, len })
        }
    }

    /// Writes `data` to `addr` on behalf of a program.
    pub fn write_byte(&mut self, addr: u16, data: u8) -> (written: Result<(), Error>)
        ensures
            final(self)@.len() == 4096,
            match write_error(addr) {
                Some(error) => written == Err::<(), Error>(error) && final(self)@ == old(self)@,
                None => written is Ok && final(self)@ == old(self)@.update(addr as int, data),
            },
    {
        match self.to_write_addr(addr) {
            Ok(loc) => {
                self.mem[loc as usize] = data;
                Ok(())
            },
            Err(error) => Err(error),
        }
    }

    /// Writes `data` from `addr` on, on behalf of a program: `addr` must be
    /// writable, and the data must end within RAM.
    pub fn write_bytes(&mut self, addr: u16, data: &[u8]) -> (written: Result<(), Error>)
        ensures
            final(self)@.len() == 4096,
            match write_error(addr) {
                Some(error) => written == Err::<(), Error>(error) && final(self)@ == old(self)@,
                None => match load_error(addr, data@.len()) {
                    Some(error) => written == Err::<(), Error>(error)
                        && final(self)@ == old(self)@,
                    None => written is Ok && final(self)@ == overlay(
                        old(self)@,
                        addr as int,
                        data@,
                    ),
                },
            },
    {
        let loc = match self.to_write_addr(addr) {
            Ok(loc) => loc,
            Err(error) => return Err(error),
        };
        match self.load(loc, data) {
            Ok(_) => Ok(()),
            Err(error) => Err(error),
        }
    }

    /// The address of the sprite for the hexadecimal digit `sprite`.
    pub fn to_sprite_addr(&self, sprite: u8) -> (addr: Result<u16, Error>)
        ensures
            sprite < 16 ==> addr == Ok::<u16, Error>(sprite_addr(sprite)) && sprite_addr(sprite)
                == 0x1B0 + 5 * sprite,
            sprite >= 16 ==> addr == Err::<u16, Error>(Error::InvalidSprite { sprite }),
    {
        if sprite < 16 {
            Ok(0x1B0 + sprite as u16 * 5)
        } else {
            Err(Error::InvalidSprite { sprite })
        }
    }
}

impl Default for Ram {
    fn default() -> (ram: Self)
        ensures
            ram@ == initial_image(),
    {
        Ram::new()
    }
}

} // verus!
