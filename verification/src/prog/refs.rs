//! References to the blocks of a program: where a block lies in an image, and
//! the tables that give each block an id.
use super::error::CompileError;
use super::layout::flat;
use crate::mem;
use crate::mem::{load_error, overlay, valid_slice, Load, Ram};
use vstd::prelude::*;

verus! {

/// A block of an image: `len` bytes from address `addr` on.
#[derive(Debug, Clone, Copy, PartialEq, Eq, Structural)]
pub struct Ref {
    pub addr: u16,
    pub len: u16,
}

/// An error of the memory as an error of the builder.
pub(super) fn refused<T>(result: Result<T, mem::Error>) -> (out: Result<T, CompileError>)
    ensures
        out == match result {
            Ok(value) => Ok::<T, CompileError>(value),
            Err(error) => Err(CompileError::Memory(error)),
        },
{
    match result {
        Ok(value) => Ok(value),
        Err(error) => Err(CompileError::Memory(error)),
    }
}

impl Ref {
    pub fn new(addr: u16, len: u16) -> (block: Self)
        ensures
            block == (Ref { addr, len }),
    {
        Ref { addr, len }
    }

    /// Whether the block lies within RAM.
    pub open spec fn wf(self) -> bool {
        valid_slice(self.addr, self.len)
    }

    /// The bytes of the block in the image `image`.
    pub open spec fn bytes(self, image: Seq<u8>) -> Seq<u8> {
        image.subrange(self.addr as int, self.addr + self.len)
    }

    /// Whether the block can hold instructions: whether its length is even.
    pub fn is_aligned(&self) -> (aligned: bool)
        ensures
            aligned == (self.len % 2 == 0),
    {
        self.len % 2 == 0
    }

    /// Reads the bytes of the block from `ram`, and moves the reference to
    /// the address `addr`, where the bytes are to be copied. A block that
    /// does not lie within RAM is refused, and the reference stays.
    pub fn read_and_update<'a>(&mut self, addr: u16, ram: &'a Ram) -> (bytes: Result<
        &'a [u8],
        CompileError,
    >)
        ensures
            match bytes {
                Ok(bytes) => old(self).wf() && bytes@ == old(self).bytes(ram@) && *final(self) == (
                Ref { addr, len: old(self).len }),
                Err(error) => !old(self).wf() && error == CompileError::Memory(
                    mem::Error::InvalidSlice { addr: old(self).addr, len: old(self).len },
                ) && *final(self) == *old(self),
            },
    {
        let bytes = refused(ram.read_bytes(self.addr, self.len))?;
        self.addr = addr;
        Ok(bytes)
    }
}

/// The sum of the lengths of the blocks.
pub open spec fn total(refs: Seq<Ref>) -> nat
    decreases refs.len(),
{
    if refs.len() == 0 {
        0
    } else {
        total(refs.drop_last()) + refs.last().len as nat
    }
}

/// The bytes of each block in the image.
pub open spec fn contents(refs: Seq<Ref>, image: Seq<u8>) -> Seq<Seq<u8>> {
    Seq::new(refs.len(), |k: int| refs[k].bytes(image))
}

/// Where block `k` comes to lie when the blocks are copied one after the
/// other to `addr` and beyond.
pub open spec fn start_of(refs: Seq<Ref>, addr: u16, k: int) -> int {
    addr + total(refs.take(k))
}

/// Why block `k` cannot be copied, if it cannot: it does not lie within the
/// image it is read from, or it does not fit where it is to lie.
pub open spec fn copy_error(refs: Seq<Ref>, addr: u16, k: int) -> Option<mem::Error> {
    if !refs[k].wf() {
        Some(mem::Error::InvalidSlice { addr: refs[k].addr, len: refs[k].len })
    } else {
        load_error(start_of(refs, addr, k) as u16, refs[k].len as nat)
    }
}

/// The first block from `k` on that cannot be copied, or the number of
/// blocks where every block from `k` on can.
pub open spec fn first_failure(refs: Seq<Ref>, addr: u16, k: int) -> int
    decreases refs.len() - k,
{
    if k >= refs.len() {
        refs.len() as int
    } else if copy_error(refs, addr, k) is Some {
        k
    } else {
        first_failure(refs, addr, k + 1)
    }
}

/// The table after its blocks were copied: the blocks before the first
/// failure lie where they were copied to, and so does the one that failed,
/// if it could be read.
pub open spec fn moved(refs: Seq<Ref>, addr: u16) -> Seq<Ref> {
    let n = first_failure(refs, addr, 0);
    Seq::new(
        refs.len(),
        |k: int|
            if k < n || (k == n && refs[k].wf()) {
                Ref { addr: start_of(refs, addr, k) as u16, len: refs[k].len }
            } else {
                refs[k]
            },
    )
}

/// The bytes of blocks laid out one after the other are as many as the
/// blocks are long.
pub proof fn lemma_flat_len(refs: Seq<Ref>, image: Seq<u8>)
    requires
        image.len() == 4096,
        forall|k: int| 0 <= k < refs.len() ==> (#[trigger] refs[k]).wf(),
    ensures
        flat(contents(refs, image)).len() == total(refs),
    decreases refs.len(),
{
    if refs.len() > 0 {
        lemma_flat_len(refs.drop_last(), image);
        assert(contents(refs, image).drop_last() =~= contents(refs.drop_last(), image));
    }
}

/// A prefix of the blocks is no longer than all of them, and of even length
/// where every block is.
pub proof fn lemma_total_take(refs: Seq<Ref>, k: int)
    requires
        0 <= k <= refs.len(),
    ensures
        total(refs.take(k)) <= total(refs),
        (forall|j: int| 0 <= j < refs.len() ==> (#[trigger] refs[j]).len % 2 == 0) ==> total(
            refs.take(k),
        ) % 2 == 0,
    decreases refs.len() - k,
{
    if k < refs.len() {
        lemma_total_take(refs, k + 1);
        assert(refs.take(k + 1).drop_last() =~= refs.take(k));
        if forall|j: int| 0 <= j < refs.len() ==> (#[trigger] refs[j]).len % 2 == 0 {
            assert(refs[k].len % 2 == 0);
        }
    } else {
        assert(refs.take(k) =~= refs);
        if forall|j: int| 0 <= j < refs.len() ==> (#[trigger] refs[j]).len % 2 == 0 {
            lemma_total_even(refs);
        }
    }
}

/// Blocks of even length have an even length together.
pub proof fn lemma_total_even(refs: Seq<Ref>)
    requires
        forall|j: int| 0 <= j < refs.len() ==> (#[trigger] refs[j]).len % 2 == 0,
    ensures
        total(refs) % 2 == 0,
    decreases refs.len(),
{
    if refs.len() > 0 {
        lemma_total_even(refs.drop_last());
        assert(refs.last().len % 2 == 0);
    }
}

/// A table of at most `LEN` blocks. A block's id is its index in the order
/// of creation.
#[derive(Debug, Clone, Copy)]
pub struct Refs<const LEN: usize> {
    index: usize,
    refs: [Option<Ref>; LEN],
}

impl<const LEN: usize> View for Refs<LEN> {
    type V = Seq<Ref>;

    /// The blocks of the table, by id.
    closed spec fn view(&self) -> Seq<Ref> {
        Seq::new(self.index as nat, |id: int| self.refs@[id]->Some_0)
    }
}

impl<const LEN: usize> Refs<LEN> {
    /// The index is within the table, and the entries below it, and no
    /// others, hold a block. This holds of every table that runs through
    /// executable code.
    #[verifier::type_invariant]
    pub closed spec fn wf(&self) -> bool {
        &&& self.index <= LEN
        &&& forall|id: int|
            0 <= id < LEN ==> ((#[trigger] self.refs@[id]) is Some <==> id < self.index)
    }

    /// A table holds at most `LEN` blocks.
    pub proof fn lemma_len(&self)
        requires
            self.wf(),
        ensures
            self@.len() <= LEN,
    {
    }

    /// An empty table.
    pub fn new() -> (table: Self)
        ensures
            table.wf(),
            table@ == Seq::<Ref>::empty(),
    {
        let empty: Option<Ref> = None;
        let refs: [Option<Ref>; LEN] = [empty;LEN];
        assert(refs == vstd::array::spec_array_fill_for_copy_type::<Option<Ref>, LEN>(empty));
        let table = Refs { index: 0, refs };
        assert(table@ =~= Seq::<Ref>::empty());
        table
    }

    /// The id that the next block gets, modulo 2^16.
    pub fn peek_next_id(&self) -> (id: u16)
        ensures
            id == self@.len() % 0x10000,
    {
        (self.index % 0x10000) as u16
    }

    /// Enters `new_ref` into the table and returns its id, or returns `Todo`
    /// where the table is full, or where the id would not fit 16 bits.
    pub fn create(&mut self, new_ref: Ref) -> (id: Result<u16, CompileError>)
        ensures
            final(self).wf(),
            final(self)@.len() <= LEN,
            match id {
                Ok(id) => old(self)@.len() < LEN && id == old(self)@.len()
                    && final(self)@ == old(self)@.push(new_ref),
                Err(error) => !(old(self)@.len() < LEN && old(self)@.len() < 0x10000) && error
                    == CompileError::Todo && final(self)@ == old(self)@,
            },
    {
        proof {
            use_type_invariant(&*self);
        }
        let index = self.index;
        if index < LEN && index < 0x10000 {
            let mut refs = self.refs;
            refs[index] = Some(new_ref);
            *self = Refs { index: index + 1, refs };
            assert(self@ =~= old(self)@.push(new_ref));
            Ok(index as u16)
        } else {
            Err(CompileError::Todo)
        }
    }

    /// Copies the blocks of the table from the image `src` to the image
    /// `dest`, one after the other from `addr` on, and makes the table refer
    /// to the copies. `addr` moves on to the end of the last copy. The first
    /// block that cannot be copied ends the copying with its error.
    pub fn copy(&mut self, src: &Ram, dest: &mut Ram, addr: &mut u16) -> (copied: Result<
        (),
        CompileError,
    >)
        ensures
            final(self).wf(),
            ({
                let refs = old(self)@;
                let n = first_failure(refs, *old(addr), 0);
                &&& 0 <= n <= refs.len()
                &&& forall|k: int| 0 <= k < n ==> copy_error(refs, *old(addr), k) is None
                &&& n < refs.len() ==> copy_error(refs, *old(addr), n) is Some
                &&& copied == if n < refs.len() {
                    Err::<(), CompileError>(
                        CompileError::Memory(copy_error(refs, *old(addr), n)->Some_0),
                    )
                } else {
                    Ok(())
                }
                &&& final(self)@ == moved(refs, *old(addr))
                &&& *final(addr) == start_of(refs, *old(addr), n)
                &&& final(dest)@ == overlay(
                    old(dest)@,
                    *old(addr) as int,
                    flat(contents(refs.take(n), src@)),
                )
            }),
    {
        proof {
            use_type_invariant(&*self);
            src.lemma_len();
            dest.lemma_len();
            assert(old(self)@.take(0) =~= Seq::empty());
            assert(contents(old(self)@.take(0), src@) =~= Seq::empty());
            assert(dest@ =~= overlay(dest@, *addr as int, Seq::empty()));
        }
        let ghost refs = self@;
        let ghost start = *addr;
        let mut k: usize = 0;
        while k < self.index
            invariant
                self.wf(),
                self.index == old(self).index,
                refs == old(self)@,
                start == *old(addr),
                src@.len() == 4096,
                dest@.len() == 4096,
                0 <= k <= self.index,
                first_failure(refs, start, 0) == first_failure(refs, start, k as int),
                forall|j: int| 0 <= j < k ==> copy_error(refs, start, j) is None,
                *addr == start_of(refs, start, k as int),
                flat(contents(refs.take(k as int), src@)).len() == total(refs.take(k as int)),
                dest@ == overlay(
                    old(dest)@,
                    start as int,
                    flat(contents(refs.take(k as int), src@)),
                ),
                self@.len() == refs.len(),
                forall|j: int|
                    0 <= j < refs.len() ==> #[trigger] self@[j] == if j < k {
                        Ref { addr: start_of(refs, start, j) as u16, len: refs[j].len }
                    } else {
                        refs[j]
                    },
            decreases self.index - k,
        {
            proof {
                assert(refs.take(k as int + 1).drop_last() =~= refs.take(k as int));
                assert(contents(refs.take(k as int + 1), src@).drop_last() =~= contents(
                    refs.take(k as int),
                    src@,
                ));
                assert(self@[k as int] == refs[k as int]);
            }
            let mut refr = match self.refs[k] {
                Some(refr) => refr,
                None => return Err(CompileError::Todo),
            };
            let ghost entry = refr;
            let read = refr.read_and_update(*addr, src);
            let bytes = match read {
                Ok(bytes) => bytes,
                Err(error) => {
                    proof {
                        assert(first_failure(refs, start, k as int) == k);
                        assert(self@ =~= moved(refs, start));
                    }
                    return Err(error);
                },
            };
            let ghost prev = self@;
            let mut table = self.refs;
            table[k] = Some(refr);
            *self = Refs { index: self.index, refs: table };
            proof {
                assert(self@ =~= prev.update(k as int, refr));
                assert(refr == (Ref {
                    addr: start_of(refs, start, k as int) as u16,
                    len: entry.len,
                }));
            }
            let ghost before = dest@;
            let loaded = refused(dest.load(*addr, bytes));
            proof {
                assert(bytes@.len() == entry.len);
                assert(contents(refs.take(k as int + 1), src@).last() == bytes@);
            }
            let len = match loaded {
                Ok(len) => len,
                Err(error) => {
                    proof {
                        assert(first_failure(refs, start, k as int) == k);
                        assert(self@ =~= moved(refs, start));
                    }
                    return Err(error);
                },
            };
            proof {
                let done = flat(contents(refs.take(k as int), src@));
                assert(dest@ == overlay(before, *addr as int, bytes@));
                assert(dest@ =~= overlay(old(dest)@, start as int, done + bytes@));
            }
            *addr += len;
            k += 1;
        }
        proof {
            assert(refs.take(k as int) =~= refs);
            assert(self@ =~= moved(refs, start));
        }
        Ok(())
    }

    /// The address of the block with the id `id`, or `Todo` where there is
    /// no such block.
    pub fn get(&self, id: u16) -> (addr: Result<u16, CompileError>)
        ensures
            self@.len() <= LEN,
            id < self@.len() ==> addr == Ok::<u16, CompileError>(self@[id as int].addr),
            id >= self@.len() ==> addr == Err::<u16, CompileError>(CompileError::Todo),
    {
        proof {
            use_type_invariant(self);
        }
        let id = id as usize;
        if id < LEN {
            match self.refs[id] {
                Some(refr) => Ok(refr.addr),
                None => Err(CompileError::Todo),
            }
        } else {
            Err(CompileError::Todo)
        }
    }
}

impl<const LEN: usize> Default for Refs<LEN> {
    fn default() -> (table: Self)
        ensures
            table.wf(),
            table@ == Seq::<Ref>::empty(),
    {
        Refs::new()
    }
}

} // verus!
