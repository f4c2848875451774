//! The builder: a program under construction, and what it compiles to.
use super::error::CompileError;
use super::layout::{flat, lemma_prefix, Blocks, SUBROUTINES, VARS};
use super::refs::{
    contents, copy_error, first_failure, lemma_flat_len, lemma_total_even, lemma_total_take,
    refused, start_of, total, Ref, Refs,
};
use crate::inst::text::{hex, push_hex};
use crate::inst::{encoding, ops, Opcode, Operands};
use crate::mem;
use crate::mem::{load_error, overlay, word_bytes, Load, Ram};
use vstd::prelude::*;
use vstd::string::StringExecFns;

verus! {

/// A program that is ready to run.
pub struct CompiledProgram {
    /// The image: 4 KiB with the font and the program.
    pub ram: Ram,
}

/// A program under construction. Blocks are collected in a scratch image
/// and laid out when the program is compiled.
#[derive(Debug, Clone, Copy)]
pub struct Program {
    tmp: Ram,
    addr: u16,
    main: Option<Ref>,
    subs: Refs<SUBROUTINES>,
    vars: Refs<VARS>,
}

/// What a program under construction stands for.
pub struct ProgramView {
    /// The blocks that were registered.
    pub blocks: Blocks,
    /// The bytes of the scratch image that are used up. A block that is
    /// refused for its length or for a full table uses up its bytes all the
    /// same.
    pub used: nat,
}

impl ProgramView {
    /// Why a block of `len` bytes cannot be taken into the scratch image, if
    /// it cannot.
    pub open spec fn scratch_error(self, len: nat) -> Option<mem::Error> {
        load_error((0x200 + self.used) as u16, len)
    }

    /// The view after a block of `len` bytes was taken into the scratch
    /// image.
    pub open spec fn taken(self, len: nat) -> ProgramView {
        ProgramView { used: self.used + len, ..self }
    }

    /// The view after `bytes` became the main routine.
    pub open spec fn with_main(self, bytes: Seq<u8>) -> ProgramView {
        ProgramView {
            blocks: Blocks { main: Some(bytes), ..self.blocks },
            used: self.used + bytes.len(),
        }
    }

    /// The view after `bytes` became the next subroutine.
    pub open spec fn with_sub(self, bytes: Seq<u8>) -> ProgramView {
        ProgramView {
            blocks: Blocks { subs: self.blocks.subs.push(bytes), ..self.blocks },
            used: self.used + bytes.len(),
        }
    }

    /// The view after `bytes` became the next data block.
    pub open spec fn with_data(self, bytes: Seq<u8>) -> ProgramView {
        ProgramView {
            blocks: Blocks { data: self.blocks.data.push(bytes), ..self.blocks },
            used: self.used + bytes.len(),
        }
    }

    /// The view after the routine `bytes` was refused with `error`: a routine
    /// that the scratch image took and that was then found to be odd has
    /// used up its bytes.
    pub open spec fn refused(self, bytes: Seq<u8>, error: CompileError) -> ProgramView {
        if error == CompileError::Todo {
            self.taken(bytes.len())
        } else {
            self
        }
    }

    /// What registering the routine `bytes` gives: the error of the scratch
    /// image where it cannot take the bytes, and `Todo` where their number is
    /// odd.
    pub open spec fn routine_error(self, bytes: Seq<u8>) -> Option<CompileError> {
        match self.scratch_error(bytes.len()) {
            Some(error) => Some(CompileError::Memory(error)),
            None => if bytes.len() % 2 != 0 {
                Some(CompileError::Todo)
            } else {
                None
            },
        }
    }
}

/// The bytes of the jump that ends a repeating subroutine: `jp` to the
/// subroutine's own id.
pub open spec fn tail_jump(id: u16) -> Seq<u8> {
    word_bytes(seq![encoding(Opcode::Jp, Operands::Addr(id))])
}

impl View for Program {
    type V = ProgramView;

    closed spec fn view(&self) -> ProgramView {
        ProgramView {
            blocks: Blocks {
                main: match self.main {
                    Some(block) => Some(block.bytes(self.tmp@)),
                    None => None,
                },
                subs: contents(self.subs@, self.tmp@),
                data: contents(self.vars@, self.tmp@),
            },
            used: (self.addr - 0x200) as nat,
        }
    }
}

impl Default for Program {
    fn default() -> (program: Self)
        ensures
            program@ == (ProgramView {
                blocks: Blocks { main: None, subs: Seq::empty(), data: Seq::empty() },
                used: 0,
            }),
    {
        Program::new()
    }
}

impl Program {
    /// Whether the block lies in the used part of the scratch image.
    closed spec fn holds(&self, block: Ref) -> bool {
        0x200 <= block.addr < 0x1000 && block.addr + block.len <= self.addr
    }

    /// The bytes of the used part of the scratch image that no block
    /// occupies.
    closed spec fn slack(&self) -> int {
        self.addr - 0x200 - total(self.subs@) - total(self.vars@) - match self.main {
            Some(block) => block.len as int,
            None => 0,
        }
    }

    /// Every block lies in the used part of the scratch image, which starts
    /// at `0x200`; the blocks do not outgrow it; routines have an even
    /// number of bytes. This holds of every program that runs through
    /// executable code.
    #[verifier::type_invariant]
    pub closed spec fn wf(&self) -> bool {
        &&& 0x200 <= self.addr <= 0x1000
        &&& self.subs.wf()
        &&& self.vars.wf()
        &&& self.main matches Some(block) ==> self.holds(block) && block.len % 2 == 0
        &&& forall|id: int|
            0 <= id < self.subs@.len() ==> self.holds(#[trigger] self.subs@[id])
                && self.subs@[id].len % 2 == 0
        &&& forall|id: int| 0 <= id < self.vars@.len() ==> self.holds(#[trigger] self.vars@[id])
        &&& self.slack() >= 0
    }

    /// What `wf` means for the view.
    pub proof fn lemma_wf(&self)
        requires
            self.wf(),
        ensures
            self@.used <= 0xE00,
            self@.blocks.subs.len() <= SUBROUTINES,
            self@.blocks.data.len() <= VARS,
            self@.blocks.main matches Some(main) ==> main.len() % 2 == 0,
            forall|id: int|
                0 <= id < self@.blocks.subs.len() ==> (#[trigger] self@.blocks.subs[id]).len() % 2
                    == 0,
    {
        self.subs.lemma_len();
        self.vars.lemma_len();
        self.tmp.lemma_len();
    }

    /// A program without blocks.
    pub fn new() -> (program: Self)
        ensures
            program@ == (ProgramView {
                blocks: Blocks { main: None, subs: Seq::empty(), data: Seq::empty() },
                used: 0,
            }),
    {
        proof {
            assert(total(Seq::<Ref>::empty()) == 0);
        }
        let program = Program {
            tmp: Ram::new(),
            addr: 0x200,
            main: None,
            subs: Refs::new(),
            vars: Refs::new(),
        };
        proof {
            assert(program@.blocks.subs =~= Seq::empty());
            assert(program@.blocks.data =~= Seq::empty());
        }
        program
    }
}

impl Program {
    /// Blocks below `addr` hold the same bytes after a load at `addr`.
    proof fn lemma_kept(&self, after: Seq<u8>, bytes: Seq<u8>)
        requires
            self.wf(),
            after == overlay(self.tmp@, self.addr as int, bytes),
        ensures
            self.main matches Some(block) ==> block.bytes(after) == block.bytes(self.tmp@),
            contents(self.subs@, after) == contents(self.subs@, self.tmp@),
            contents(self.vars@, after) == contents(self.vars@, self.tmp@),
    {
        self.tmp.lemma_len();
        if let Some(block) = self.main {
            assert(block.bytes(after) =~= block.bytes(self.tmp@));
        }
        assert forall|id: int| 0 <= id < self.subs@.len() implies (#[trigger] self.subs@[id]).bytes(
            after,
        ) == self.subs@[id].bytes(self.tmp@) by {
            assert(self.holds(self.subs@[id]));
            assert(self.subs@[id].bytes(after) =~= self.subs@[id].bytes(self.tmp@));
        }
        assert forall|id: int| 0 <= id < self.vars@.len() implies (#[trigger] self.vars@[id]).bytes(
            after,
        ) == self.vars@[id].bytes(self.tmp@) by {
            assert(self.holds(self.vars@[id]));
            assert(self.vars@[id].bytes(after) =~= self.vars@[id].bytes(self.tmp@));
        }
        assert(contents(self.subs@, after) =~= contents(self.subs@, self.tmp@));
        assert(contents(self.vars@, after) =~= contents(self.vars@, self.tmp@));
    }

    /// Takes `data` into the scratch image and returns the block that it
    /// occupies there.
    fn load_to_tmp<T>(&mut self, data: &[T]) -> (block: Result<Ref, CompileError>) where
        Ram: Load<T>,

        ensures
            final(self).main == old(self).main,
            final(self).subs == old(self).subs,
            final(self).vars == old(self).vars,
            match old(self)@.scratch_error(<Ram as Load<T>>::bytes(data@).len()) {
                Some(error) => block == Err::<Ref, CompileError>(CompileError::Memory(error))
                    && final(self)@ == old(self)@ && final(self).slack() == old(self).slack(),
                None => {
                    let bytes = <Ram as Load<T>>::bytes(data@);
                    &&& block == Ok::<Ref, CompileError>(
                        Ref { addr: old(self).addr, len: bytes.len() as u16 },
                    )
                    &&& final(self)@ == old(self)@.taken(bytes.len())
                    &&& final(self).addr == old(self).addr + bytes.len()
                    &&& final(self).slack() == old(self).slack() + bytes.len()
                    &&& final(self).tmp@ == overlay(old(self).tmp@, old(self).addr as int, bytes)
                },
            },
    {
        proof {
            use_type_invariant(&*self);
            self.lemma_kept(
                overlay(self.tmp@, self.addr as int, <Ram as Load<T>>::bytes(data@)),
                <Ram as Load<T>>::bytes(data@),
            );
        }
        let addr = self.addr;
        let mut tmp = self.tmp;
        let len = refused(tmp.load(addr, data))?;
        self.tmp = tmp;
        self.addr += len;
        Ok(Ref::new(addr, len))
    }

    /// Takes the routine `program` into the scratch image, and refuses it
    /// with `Todo` where its bytes are odd in number.
    fn load_program_data<T>(&mut self, program: &[T]) -> (block: Result<Ref, CompileError>) where
        Ram: Load<T>,

        ensures
            final(self).main == old(self).main,
            final(self).subs == old(self).subs,
            final(self).vars == old(self).vars,
            match old(self)@.scratch_error(<Ram as Load<T>>::bytes(program@).len()) {
                Some(error) => block == Err::<Ref, CompileError>(CompileError::Memory(error))
                    && final(self)@ == old(self)@ && final(self).slack() == old(self).slack(),
                None => {
                    let bytes = <Ram as Load<T>>::bytes(program@);
                    &&& final(self)@ == old(self)@.taken(bytes.len())
                    &&& final(self).addr == old(self).addr + bytes.len()
                    &&& final(self).slack() == old(self).slack() + bytes.len()
                    &&& final(self).tmp@ == overlay(old(self).tmp@, old(self).addr as int, bytes)
                    &&& block == if bytes.len() % 2 == 0 {
                        Ok::<Ref, CompileError>(
                            Ref { addr: old(self).addr, len: bytes.len() as u16 },
                        )
                    } else {
                        Err(CompileError::Todo)
                    }
                },
            },
    {
        let refr = self.load_to_tmp(program)?;
        if refr.is_aligned() {
            Ok(refr)
        } else {
            Err(CompileError::Todo)
        }
    }

    /// Sets the main routine. An earlier one is forgotten, but keeps its
    /// place in the scratch image.
    pub fn main<T>(&mut self, program: &[T]) -> (done: Result<(), CompileError>) where
        Ram: Load<T>,

        ensures
            ({
                let bytes = <Ram as Load<T>>::bytes(program@);
                match old(self)@.routine_error(bytes) {
                    Some(error) => done == Err::<(), CompileError>(error)
                        && final(self)@ == old(self)@.refused(bytes, error),
                    None => done is Ok && final(self)@ == old(self)@.with_main(bytes),
                }
            }),
    {
        proof {
            use_type_invariant(&*self);
            self.tmp.lemma_len();
        }
        let ghost bytes = <Ram as Load<T>>::bytes(program@);
        let main_ref = self.load_program_data(program)?;
        proof {
            assert(main_ref.bytes(self.tmp@) =~= bytes);
        }
        self.main = Some(main_ref);
        Ok(())
    }

    /// Registers a subroutine and returns its id. `Todo` is returned where
    /// the bytes are odd in number, and where the program holds
    /// `SUBROUTINES` subroutines already.
    pub fn sub<T>(&mut self, program: &[T]) -> (id: Result<u16, CompileError>) where Ram: Load<T>
        ensures
            ({
                let bytes = <Ram as Load<T>>::bytes(program@);
                match old(self)@.routine_error(bytes) {
                    Some(error) => id == Err::<u16, CompileError>(error)
                        && final(self)@ == old(self)@.refused(bytes, error),
                    None => if old(self)@.blocks.subs.len() < SUBROUTINES {
                        id == Ok::<u16, CompileError>(old(self)@.blocks.subs.len() as u16)
                            && final(self)@ == old(self)@.with_sub(bytes)
                    } else {
                        id == Err::<u16, CompileError>(CompileError::Todo)
                            && final(self)@ == old(self)@.taken(bytes.len())
                    },
                }
            }),
    {
        proof {
            use_type_invariant(&*self);
            self.tmp.lemma_len();
        }
        let ghost bytes = <Ram as Load<T>>::bytes(program@);
        let sub_ref = self.load_program_data(program)?;
        proof {
            assert(sub_ref.bytes(self.tmp@) =~= bytes);
        }
        self.enter_sub(sub_ref, Ghost(bytes))
    }

    /// Enters the routine `block`, which lies at the end of the scratch
    /// image, into the table of subroutines.
    fn enter_sub(&mut self, block: Ref, Ghost(bytes): Ghost<Seq<u8>>) -> (id: Result<
        u16,
        CompileError,
    >)
        requires
            old(self).holds(block),
            block.len % 2 == 0,
            block.len <= old(self).slack(),
            block.bytes(old(self).tmp@) == bytes,
        ensures
            if old(self)@.blocks.subs.len() < SUBROUTINES {
                id == Ok::<u16, CompileError>(old(self)@.blocks.subs.len() as u16) && final(self)@
                    == (ProgramView {
                    blocks: Blocks {
                        subs: old(self)@.blocks.subs.push(bytes),
                        ..old(self)@.blocks
                    },
                    ..old(self)@
                })
            } else {
                id == Err::<u16, CompileError>(CompileError::Todo) && final(self)@ == old(self)@
            },
    {
        proof {
            use_type_invariant(&*self);
            self.subs.lemma_len();
            lemma_total_push(self.subs@, block);
        }
        let mut subs = self.subs;
        let id = subs.create(block);
        self.subs = subs;
        proof {
            if id is Ok {
                assert(self@.blocks.subs =~= old(self)@.blocks.subs.push(bytes));
            }
        }
        id
    }

    /// Registers a subroutine that repeats for ever: `program`, followed by a
    /// jump to the subroutine itself. Returns its id.
    pub fn repeat<T>(&mut self, program: &[T]) -> (id: Result<u16, CompileError>) where
        Ram: Load<T>,

        ensures
            ({
                let bytes = <Ram as Load<T>>::bytes(program@);
                let next = old(self)@.blocks.subs.len() as u16;
                match old(self)@.routine_error(bytes) {
                    Some(error) => id == Err::<u16, CompileError>(error)
                        && final(self)@ == old(self)@.refused(bytes, error),
                    None => match old(self)@.taken(bytes.len()).scratch_error(2) {
                        Some(error) => id == Err::<u16, CompileError>(CompileError::Memory(error))
                            && final(self)@ == old(self)@.taken(bytes.len()),
                        None => if old(self)@.blocks.subs.len() < SUBROUTINES {
                            id == Ok::<u16, CompileError>(next)
                                && final(self)@ == old(self)@.with_sub(bytes + tail_jump(next))
                        } else {
                            id == Err::<u16, CompileError>(CompileError::Todo) && final(self)@
                                == old(self)@.taken(bytes.len() + 2)
                        },
                    },
                }
            }),
    {
        proof {
            use_type_invariant(&*self);
            self.tmp.lemma_len();
            self.subs.lemma_len();
        }
        let ghost bytes = <Ram as Load<T>>::bytes(program@);
        let Ref { addr, len } = self.load_program_data(program)?;
        let ghost loaded = self.tmp@;
        let next_ref = self.subs.peek_next_id();
        let jump = [ops::jp(next_ref)];
        proof {
            assert(jump@ =~= seq![encoding(Opcode::Jp, Operands::Addr(next_ref))]);
            assert(tail_jump(next_ref).len() == 2);
            use_type_invariant(&*self);
        }
        let jp_ref = self.load_to_tmp::<u16>(jump.as_slice())?;
        let block = Ref::new(addr, len + jp_ref.len);
        proof {
            use_type_invariant(&*self);
            assert(block.bytes(self.tmp@) =~= bytes + tail_jump(next_ref));
        }
        self.enter_sub(block, Ghost(bytes + tail_jump(next_ref)))
    }

    /// Registers a block of data and returns its id. `Todo` is returned
    /// where the program holds `VARS` blocks of data already.
    pub fn data(&mut self, data: &[u8]) -> (id: Result<u16, CompileError>)
        ensures
            match old(self)@.scratch_error(data@.len()) {
                Some(error) => id == Err::<u16, CompileError>(CompileError::Memory(error))
                    && final(self)@ == old(self)@,
                None => if old(self)@.blocks.data.len() < VARS {
                    id == Ok::<u16, CompileError>(
                        (SUBROUTINES + old(self)@.blocks.data.len()) as u16,
                    ) && final(self)@ == old(self)@.with_data(data@)
                } else {
                    id == Err::<u16, CompileError>(CompileError::Todo)
                        && final(self)@ == old(self)@.taken(data@.len())
                },
            },
    {
        proof {
            use_type_invariant(&*self);
            self.tmp.lemma_len();
            self.vars.lemma_len();
        }
        let refr = self.load_to_tmp(data)?;
        proof {
            use_type_invariant(&*self);
            lemma_total_push(self.vars@, refr);
            assert(refr.bytes(self.tmp@) =~= data@);
        }
        let ghost before = self@;
        let mut vars = self.vars;
        let id = vars.create(refr)?;
        self.vars = vars;
        proof {
            assert(self@.blocks.data =~= before.blocks.data.push(data@));
        }
        Ok(id + SUBROUTINES as u16)
    }

    /// Registers one byte of data and returns its id.
    pub fn var(&mut self, data: u8) -> (id: Result<u16, CompileError>)
        ensures
            match old(self)@.scratch_error(1) {
                Some(error) => id == Err::<u16, CompileError>(CompileError::Memory(error))
                    && final(self)@ == old(self)@,
                None => if old(self)@.blocks.data.len() < VARS {
                    id == Ok::<u16, CompileError>(
                        (SUBROUTINES + old(self)@.blocks.data.len()) as u16,
                    ) && final(self)@ == old(self)@.with_data(seq![data])
                } else {
                    id == Err::<u16, CompileError>(CompileError::Todo)
                        && final(self)@ == old(self)@.taken(1)
                },
            },
    {
        let bytes = [data];
        assert(bytes@ =~= seq![data]);
        self.data(bytes.as_slice())
    }
}

impl Program {
    /// Links the blocks: lays out the main routine from `0x200` on, the
    /// subroutines after it and the data after them, and replaces every
    /// reference in the instructions by the address that its id stands for.
    /// The result is the image that `Blocks::image` describes, or its error.
    pub fn compile(self) -> (compiled: Result<CompiledProgram, CompileError>)
        ensures
            match compiled {
                Ok(program) => self@.blocks.image() == Ok::<Seq<u8>, CompileError>(program.ram@),
                Err(error) => self@.blocks.image() == Err::<Seq<u8>, CompileError>(error),
            },
    {
        proof {
            use_type_invariant(&self);
            self.tmp.lemma_len();
        }
        let ghost blocks = self@.blocks;
        let ghost image = self.tmp@;
        let ghost s_refs = self.subs@;
        let ghost d_refs = self.vars@;
        let mut addr: u16 = 0x200;
        let mut ram = Ram::new();

        let mut main = match self.main {
            Some(block) => block,
            None => return Err(CompileError::Memory(mem::Error::StackEmpty)),
        };
        let ghost first = main;
        proof {
            self.lemma_fits();
            lemma_flat_len(s_refs, image);
            lemma_flat_len(d_refs, image);
            lemma_total_even(s_refs);
            assert(blocks.main == Some(first.bytes(image)));
            assert(blocks.subs == contents(s_refs, image));
            assert(blocks.data == contents(d_refs, image));
            assert(first.bytes(image).len() == first.len);
        }
        let bytes = main.read_and_update(0x200, &self.tmp)?;
        addr += refused(ram.load(addr, bytes))?;

        let ghost addr1 = addr;
        let ghost n = first_failure(s_refs, addr1, 0);
        proof {
            lemma_copy_errors(s_refs, addr1);
        }
        let mut subs = self.subs;
        let copied = subs.copy(&self.tmp, &mut ram, &mut addr);
        proof {
            lemma_take_len(s_refs, image, n);
            if n < s_refs.len() {
                lemma_prefix(blocks, n + 1);
                assert(copy_error(s_refs, addr1, n) is Some);
                assert(start_of(s_refs, addr1, n) >= 0x1000);
                assert(flat(blocks.subs.take(n)).len() == total(s_refs.take(n)));
                assert(0x200 + flat(blocks.all().take(n + 1)).len() >= 0x1000);
                assert(blocks.overfull());
            } else {
                assert(s_refs.take(n) =~= s_refs);
            }
        }
        if let Err(error) = copied {
            return Err(error);
        }
        let last_inst = addr;

        let ghost addr2 = addr;
        let ghost m = first_failure(d_refs, addr2, 0);
        proof {
            lemma_copy_errors(d_refs, addr2);
        }
        let mut vars = self.vars;
        let copied = vars.copy(&self.tmp, &mut ram, &mut addr);
        proof {
            lemma_take_len(d_refs, image, m);
            if m < d_refs.len() {
                lemma_prefix(blocks, 1 + s_refs.len() + m);
                assert(copy_error(d_refs, addr2, m) is Some);
                assert(start_of(d_refs, addr2, m) >= 0x1000);
                assert(flat(blocks.data.take(m)).len() == total(d_refs.take(m)));
                assert(blocks.instructions().len() == first.len + total(s_refs));
                assert(0x200 + flat(blocks.all().take(1 + s_refs.len() + m)).len() >= 0x1000);
                assert(blocks.overfull());
            } else {
                assert(d_refs.take(m) =~= d_refs);
            }
        }
        if let Err(error) = copied {
            return Err(error);
        }
        proof {
            assert(d_refs.take(0) =~= Seq::<Ref>::empty());
            assert forall|k: int| 1 <= k < blocks.all().len() implies 0x200 + #[trigger] flat(
                blocks.all().take(k),
            ).len() < 0x1000 by {
                lemma_prefix(blocks, k);
                if k <= s_refs.len() {
                    lemma_take_len(s_refs, image, k - 1);
                    assert(copy_error(s_refs, addr1, k - 1) is None);
                } else if k == 1 + s_refs.len() {
                    lemma_take_len(s_refs, image, k - 1);
                    assert(s_refs.take(k - 1) =~= s_refs);
                    assert(copy_error(d_refs, addr2, 0) is None);
                } else {
                    lemma_take_len(d_refs, image, k - 1 - s_refs.len());
                    assert(copy_error(d_refs, addr2, k - 1 - s_refs.len()) is None);
                }
            }
            assert(!blocks.overfull());
            assert forall|id: int| 0 <= id < subs@.len() implies (#[trigger] subs@[id]).addr
                == blocks.sub_addr(id) by {
                lemma_take_len(s_refs, image, id);
                assert(copy_error(s_refs, addr1, id) is None);
            }
            assert forall|id: int| 0 <= id < vars@.len() implies (#[trigger] vars@[id]).addr
                == blocks.data_addr(id) by {
                lemma_take_len(d_refs, image, id);
                assert(copy_error(d_refs, addr2, id) is None);
            }
            assert(ram@ =~= overlay(mem::initial_image(), 0x200, blocks.body()));
        }

        let ghost count = blocks.instructions().len();
        let mut at: u16 = 0x200;
        while at < last_inst
            invariant
                blocks == self@.blocks,
                blocks.main is Some,
                !blocks.overfull(),
                count == blocks.instructions().len(),
                count % 2 == 0,
                last_inst == 0x200 + count,
                blocks.body().len() <= 0xE00,
                count <= blocks.body().len(),
                0x200 <= at <= last_inst,
                at % 2 == 0,
                subs@.len() == blocks.subs.len(),
                vars@.len() == blocks.data.len(),
                forall|id: int|
                    0 <= id < subs@.len() ==> (#[trigger] subs@[id]).addr == blocks.sub_addr(id),
                forall|id: int|
                    0 <= id < vars@.len() ==> (#[trigger] vars@[id]).addr == blocks.data_addr(id),
                forall|k: int|
                    0 <= k < at - 0x200 && k % 2 == 0 && #[trigger] blocks.refers(k)
                        ==> blocks.resolve(blocks.body()[k + 1]) is Some,
                ram@ == overlay(
                    mem::initial_image(),
                    0x200,
                    Seq::new(
                        blocks.body().len(),
                        |k: int|
                            if k < at - 0x200 {
                                blocks.patched_byte(k)
                            } else {
                                blocks.body()[k]
                            },
                    ),
                ),
            decreases last_inst - at,
        {
            let ghost here = at - 0x200;
            let word = refused(ram.read_bytes(at, 2))?;
            let inst = word[0];
            let id = word[1];
            proof {
                assert(inst == blocks.body()[here]);
                assert(id == blocks.body()[here + 1]);
            }
            if (inst == 0x10 || inst == 0x20 || inst == 0xA0 || inst == 0xB0) && id < (SUBROUTINES
                + VARS) as u8 {
                let refr = if id < SUBROUTINES as u8 {
                    subs.get(id as u16)
                } else {
                    vars.get((id - SUBROUTINES as u8) as u16)
                };
                let target = match refr {
                    Ok(target) => target,
                    Err(error) => {
                        proof {
                            assert(blocks.refers(here));
                            assert(blocks.unresolved());
                        }
                        return Err(error);
                    },
                };
                proof {
                    lemma_target_bytes(target);
                    assert(blocks.resolve(id) == Some(target));
                }
                let patch = [inst | (target >> 8) as u8, (target & 0xFF) as u8];
                refused(ram.write_bytes(at, patch.as_slice()))?;
            }
            at += 2;
            proof {
                assert(ram@ =~= overlay(
                    mem::initial_image(),
                    0x200,
                    Seq::new(
                        blocks.body().len(),
                        |k: int|
                            if k < at - 0x200 {
                                blocks.patched_byte(k)
                            } else {
                                blocks.body()[k]
                            },
                    ),
                ));
            }
        }
        proof {
            assert(!blocks.unresolved());
            assert(ram@ =~= overlay(mem::initial_image(), 0x200, blocks.patched()));
        }
        Ok(CompiledProgram { ram })
    }

    /// The blocks fit between `0x200` and the end of RAM.
    proof fn lemma_fits(&self)
        requires
            self.wf(),
            self.main is Some,
        ensures
            self.main->Some_0.wf(),
            self.main->Some_0.len + total(self.subs@) + total(self.vars@) <= 0xE00,
            forall|id: int| 0 <= id < self.subs@.len() ==> (#[trigger] self.subs@[id]).wf(),
            forall|id: int| 0 <= id < self.vars@.len() ==> (#[trigger] self.vars@[id]).wf(),
    {
        assert forall|id: int| 0 <= id < self.subs@.len() implies (#[trigger] self.subs@[id]).wf(
        ) by {
            assert(self.holds(self.subs@[id]));
        }
        assert forall|id: int| 0 <= id < self.vars@.len() implies (#[trigger] self.vars@[id]).wf(
        ) by {
            assert(self.holds(self.vars@[id]));
        }
    }

}

/// Where blocks fit between an address and the end of RAM, a block can be
/// copied unless it starts where RAM ends.
proof fn lemma_copy_errors(refs: Seq<Ref>, addr: u16)
    requires
        forall|k: int| 0 <= k < refs.len() ==> (#[trigger] refs[k]).wf(),
        addr + total(refs) <= 0x1000,
    ensures
        forall|k: int|
            0 <= k < refs.len() ==> #[trigger] copy_error(refs, addr, k) == if start_of(
                refs,
                addr,
                k,
            ) >= 0x1000 {
                Some(mem::Error::InvalidAddress { addr: 0x1000 })
            } else {
                None
            },
        forall|k: int| 0 <= k <= refs.len() ==> #[trigger] start_of(refs, addr, k) <= 0x1000,
{
    assert forall|k: int| 0 <= k < refs.len() implies #[trigger] copy_error(refs, addr, k)
        == if start_of(refs, addr, k) >= 0x1000 {
        Some(mem::Error::InvalidAddress { addr: 0x1000 })
    } else {
        None
    } by {
        lemma_total_take(refs, k);
        lemma_total_take(refs, k + 1);
        assert(refs.take(k + 1).drop_last() =~= refs.take(k));
        assert(refs[k].wf());
    }
    assert forall|k: int| 0 <= k <= refs.len() implies #[trigger] start_of(refs, addr, k)
        <= 0x1000 by {
        lemma_total_take(refs, k);
    }
}

/// The bytes of the first `k` of some blocks are as many as these blocks are
/// long.
proof fn lemma_take_len(refs: Seq<Ref>, image: Seq<u8>, k: int)
    requires
        image.len() == 4096,
        forall|j: int| 0 <= j < refs.len() ==> (#[trigger] refs[j]).wf(),
        0 <= k <= refs.len(),
    ensures
        flat(contents(refs, image).take(k)).len() == total(refs.take(k)),
        contents(refs, image).take(k) == contents(refs.take(k), image),
{
    assert(contents(refs, image).take(k) =~= contents(refs.take(k), image));
    lemma_flat_len(refs.take(k), image);
}

/// The high byte of an address fits a byte, and so does the low byte.
proof fn lemma_target_bytes(target: u16)
    ensures
        target >> 8 < 0x100,
        target & 0xFF < 0x100,
{
    assert(target >> 8 < 0x100 && target & 0xFF < 0x100) by (bit_vector);
}

/// The total grows by the length of a block that is added.
proof fn lemma_total_push(refs: Seq<Ref>, block: Ref)
    ensures
        total(refs.push(block)) == total(refs) + block.len,
{
    assert(refs.push(block).drop_last() =~= refs);
}

/// The bytes as text, without the end of the dump: each byte in two lower
/// case hexadecimal digits and a blank, with a new line before every eighth
/// byte, the first too.
pub open spec fn hexdump_text(bytes: Seq<u8>) -> Seq<char>
    decreases bytes.len(),
{
    if bytes.len() == 0 {
        Seq::empty()
    } else {
        hexdump_text(bytes.drop_last()) + if (bytes.len() - 1) % 8 == 0 {
            seq!['\n']
        } else {
            Seq::empty()
        } + hex(bytes.last() as nat, 2, false) + seq![' ']
    }
}

/// Dumps bytes for inspection: the text of `hexdump_text`, and two new lines
/// to end it.
pub fn hexdump(byt: &[u8]) -> (dump: String)
    ensures
        dump@ == hexdump_text(byt@) + seq!['\n', '\n'],
{
    let mut dump = String::new();
    proof {
        reveal_strlit("\n");
        reveal_strlit(" ");
        reveal_strlit("\n\n");
    }
    let mut i: usize = 0;
    while i < byt.len()
        invariant
            i <= byt@.len(),
            "\n"@ == seq!['\n'],
            " "@ == seq![' '],
            "\n\n"@ == seq!['\n', '\n'],
            dump@ == hexdump_text(byt@.take(i as int)),
        decreases byt@.len() - i,
    {
        if i % 8 == 0 {
            dump.append("\n");
        }
        push_hex(&mut dump, byt[i] as u16, 2, false);
        dump.append(" ");
        proof {
            assert(byt@.take(i as int + 1).drop_last() =~= byt@.take(i as int));
            assert(dump@ =~= hexdump_text(byt@.take(i as int + 1)));
        }
        i += 1;
    }
    assert(byt@.take(i as int) =~= byt@);
    dump.append("\n\n");
    dump
}

} // verus!
