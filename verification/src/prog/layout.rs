//! The layout of a program image, as plain values: the blocks of a program,
//! where each of them comes to lie, and what the references in its
//! instructions are replaced by.
use super::error::CompileError;
use crate::mem;
use crate::mem::{initial_image, overlay};
use vstd::prelude::*;

verus! {

/// The number of subroutines that a program can hold. Their ids are
/// `0..SUBROUTINES`.
pub const SUBROUTINES: usize = 32;

/// The number of data blocks that a program can hold. Their ids are
/// `SUBROUTINES..SUBROUTINES + VARS`.
pub const VARS: usize = 64;

/// The bytes of the blocks, one block after the other.
pub open spec fn flat(blocks: Seq<Seq<u8>>) -> Seq<u8>
    decreases blocks.len(),
{
    if blocks.len() == 0 {
        Seq::empty()
    } else {
        flat(blocks.drop_last()) + blocks.last()
    }
}

/// Laying out two runs of blocks one after the other lays out their bytes
/// one after the other.
pub proof fn lemma_flat_concat(a: Seq<Seq<u8>>, b: Seq<Seq<u8>>)
    ensures
        flat(a + b) == flat(a) + flat(b),
    decreases b.len(),
{
    if b.len() == 0 {
        assert(a + b =~= a);
        assert(flat(a) + flat(b) =~= flat(a));
    } else {
        lemma_flat_concat(a, b.drop_last());
        assert((a + b).drop_last() =~= a + b.drop_last());
        assert(flat(a) + (flat(b.drop_last()) + b.last()) =~= (flat(a) + flat(b.drop_last()))
            + b.last());
    }
}

/// Whether the half-word `hi`, `lo` is a symbolic reference: a `jp`, `call`,
/// `ldi` or `jp0` whose address is an id.
pub open spec fn is_reference(hi: u8, lo: u8) -> bool {
    (hi == 0x10 || hi == 0x20 || hi == 0xA0 || hi == 0xB0) && lo < SUBROUTINES + VARS
}

/// The blocks of a program.
pub struct Blocks {
    /// The main routine, once it is given.
    pub main: Option<Seq<u8>>,
    /// The subroutines, by id.
    pub subs: Seq<Seq<u8>>,
    /// The data blocks, by id less `SUBROUTINES`.
    pub data: Seq<Seq<u8>>,
}

impl Blocks {
    /// The blocks in the order in which they are laid out: the main routine,
    /// the subroutines, the data.
    pub open spec fn all(self) -> Seq<Seq<u8>> {
        seq![self.main->Some_0] + self.subs + self.data
    }

    /// The instructions of the image: the main routine and the subroutines.
    pub open spec fn instructions(self) -> Seq<u8> {
        self.main->Some_0 + flat(self.subs)
    }

    /// What the image holds from `0x200` on, before references are replaced.
    pub open spec fn body(self) -> Seq<u8> {
        self.instructions() + flat(self.data)
    }

    /// The address of the subroutine with the id `id`.
    pub open spec fn sub_addr(self, id: int) -> nat {
        0x200 + self.main->Some_0.len() + flat(self.subs.take(id)).len()
    }

    /// The address of the data block with the id `SUBROUTINES + id`.
    pub open spec fn data_addr(self, id: int) -> nat {
        0x200 + self.instructions().len() + flat(self.data.take(id)).len()
    }

    /// The address that the id `id` stands for, if it stands for one.
    pub open spec fn resolve(self, id: u8) -> Option<u16> {
        if id < SUBROUTINES {
            if id < self.subs.len() {
                Some(self.sub_addr(id as int) as u16)
            } else {
                None
            }
        } else if id - SUBROUTINES < self.data.len() {
            Some(self.data_addr(id - SUBROUTINES) as u16)
        } else {
            None
        }
    }

    /// Whether a block other than the main routine starts where RAM ends:
    /// whether the blocks before it fill RAM to its last byte.
    pub open spec fn overfull(self) -> bool {
        exists|k: int|
            1 <= k < self.all().len() && 0x200 + #[trigger] flat(self.all().take(k)).len()
                >= 0x1000
    }

    /// Whether the half-word at the offset `at` of the instructions is a
    /// reference.
    pub open spec fn refers(self, at: int) -> bool {
        is_reference(self.body()[at], self.body()[at + 1])
    }

    /// Whether an instruction refers to an id that stands for nothing.
    pub open spec fn unresolved(self) -> bool {
        exists|at: int|
            0 <= at < self.instructions().len() && at % 2 == 0 && #[trigger] self.refers(at)
                && self.resolve(self.body()[at + 1]) is None
    }

    /// The byte at the offset `k` of the body, once references are replaced:
    /// in a reference, the low twelve bits are the address that the id stands
    /// for.
    pub open spec fn patched_byte(self, k: int) -> u8 {
        let at = k - k % 2;
        if k < self.instructions().len() && self.refers(at) && self.resolve(self.body()[at + 1])
            is Some {
            let target = self.resolve(self.body()[at + 1])->Some_0;
            if k % 2 == 0 {
                self.body()[at] | (target >> 8) as u8
            } else {
                (target & 0xFF) as u8
            }
        } else {
            self.body()[k]
        }
    }

    /// What the image holds from `0x200` on.
    pub open spec fn patched(self) -> Seq<u8> {
        Seq::new(self.body().len(), |k: int| self.patched_byte(k))
    }

    /// The image of the program: the font, and the blocks from `0x200` on
    /// with their references replaced. There is none without a main routine,
    /// where the blocks are overfull, or where a reference is unresolved.
    pub open spec fn image(self) -> Result<Seq<u8>, CompileError> {
        if self.main is None {
            Err(CompileError::Memory(mem::Error::StackEmpty))
        } else if self.overfull() {
            Err(CompileError::Memory(mem::Error::InvalidAddress { addr: 0x1000 }))
        } else if self.unresolved() {
            Err(CompileError::Todo)
        } else {
            Ok(overlay(initial_image(), 0x200, self.patched()))
        }
    }
}

/// The bytes of the first `k` blocks of a program, where `k` is at least 1:
/// the main routine, and as many subroutines and data blocks as are among
/// them.
pub proof fn lemma_prefix(blocks: Blocks, k: int)
    requires
        blocks.main is Some,
        1 <= k <= blocks.all().len(),
    ensures
        flat(blocks.all().take(k)) == if k <= 1 + blocks.subs.len() {
            blocks.main->Some_0 + flat(blocks.subs.take(k - 1))
        } else {
            blocks.instructions() + flat(blocks.data.take(k - 1 - blocks.subs.len()))
        },
{
    let main = blocks.main->Some_0;
    reveal_with_fuel(flat, 2);
    assert(seq![main].drop_last() =~= Seq::<Seq<u8>>::empty());
    assert(flat(seq![main]) =~= main);
    if k <= 1 + blocks.subs.len() {
        assert(blocks.all().take(k) =~= seq![main] + blocks.subs.take(k - 1));
        lemma_flat_concat(seq![main], blocks.subs.take(k - 1));
    } else {
        let rest = blocks.data.take(k - 1 - blocks.subs.len());
        assert(blocks.all().take(k) =~= (seq![main] + blocks.subs) + rest);
        lemma_flat_concat(seq![main] + blocks.subs, rest);
        lemma_flat_concat(seq![main], blocks.subs);
    }
}

/// An id that stands for an address stands for an address in RAM, unless
/// the blocks are overfull.
pub proof fn lemma_resolved_in_ram(blocks: Blocks, id: u8)
    requires
        blocks.main is Some,
        !blocks.overfull(),
        blocks.resolve(id) is Some,
    ensures
        0x200 <= blocks.resolve(id)->Some_0 < 0x1000,
        blocks.resolve(id)->Some_0 == if id < SUBROUTINES {
            blocks.sub_addr(id as int)
        } else {
            blocks.data_addr(id - SUBROUTINES)
        },
{
    let k = if id < SUBROUTINES {
        1 + id
    } else {
        1 + blocks.subs.len() + (id - SUBROUTINES)
    };
    lemma_prefix(blocks, k);
    assert(0x200 + flat(blocks.all().take(k)).len() < 0x1000);
    if id >= SUBROUTINES && id - SUBROUTINES == 0 {
        assert(blocks.subs.take(blocks.subs.len() as int) =~= blocks.subs);
    }
}

/// The instruction word with the high byte `hi` and the low byte `lo`.
pub open spec fn word(hi: u8, lo: u8) -> u16 {
    (hi as u16) << 8 | (lo as u16)
}

/// A reference is replaced by the same instruction with the address that its
/// id stands for: the word keeps its high nibble, which is its opcode, and
/// its low twelve bits become the address. This holds where the instructions
/// are whole words, as routines of even length make them.
pub proof fn lemma_patched_reference(blocks: Blocks, at: int)
    requires
        blocks.instructions().len() % 2 == 0,
        0 <= at < blocks.instructions().len(),
        at % 2 == 0,
        blocks.refers(at),
        blocks.resolve(blocks.body()[at + 1]) matches Some(target) && target < 0x1000,
    ensures
        ({
            let target = blocks.resolve(blocks.body()[at + 1])->Some_0;
            let before = word(blocks.body()[at], blocks.body()[at + 1]);
            let after = word(blocks.patched_byte(at), blocks.patched_byte(at + 1));
            &&& after & 0xF000 == before & 0xF000
            &&& after & 0x0FFF == target
        }),
{
    let hi = blocks.body()[at];
    let lo = blocks.body()[at + 1];
    let target = blocks.resolve(lo)->Some_0;
    assert((at + 1) - (at + 1) % 2 == at);
    assert(blocks.patched_byte(at) == hi | (target >> 8) as u8);
    assert(blocks.patched_byte(at + 1) == (target & 0xFF) as u8);
    assert(word(hi | (target >> 8) as u8, (target & 0xFF) as u8) & 0xF000 == word(hi, lo) & 0xF000
        && word(hi | (target >> 8) as u8, (target & 0xFF) as u8) & 0x0FFF == target)
        by (bit_vector)
        requires
            hi == 0x10 || hi == 0x20 || hi == 0xA0 || hi == 0xB0,
            target < 0x1000,
    ;
}

} // verus!
