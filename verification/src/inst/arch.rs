//! The opcode table: the 34 opcodes of the instruction set, the bits that
//! identify each of them, and decoding of instruction words.
use super::operands::{Operands, Shape};
use vstd::prelude::*;

verus! {

/// An opcode
#[derive(Debug, Clone, Copy, PartialEq, Eq, Structural)]
#[non_exhaustive]
pub enum Opcode {
    /// Clear the display.
    Cls,
    /// Return from a subroutine.
    Ret,
    /// Jump to location `addr`.
    Jp,
    /// Call subroutine at `addr`.
    Call,
    /// Skip next instruction if `vx` == `byte`.
    Se,
    /// Skip next instruction if `vx` != `byte`.
    Sne,
    /// Skip next instruction if `vx` == `vy`.
    Sev,
    /// Set `vx` = `byte`.
    Ld,
    /// Set `vx` = `vx` + `byte`.
    Add,
    /// Set `vx` = `vy`.
    Ldv,
    /// Set `vx` = `vx` OR `vy`.
    Or,
    /// Set `vx` = `vx` AND `vy`.
    And,
    /// Set `vx` = `vx` XOR `vy`.
    Xor,
    /// Set `vx` = `vx` + `vy`, set `vf` = carry.
    Addv,
    /// Set `vx` = `vx` - `vy`, set `vf` = NOT borrow.
    Sub,
    /// Set `vx` = `vx` SHR 1.
    Shr,
    /// Set `vx` = `vy` - `vx`. Set `vf` = NOT borrow.
    Subn,
    /// Set `vx` = `vx` SHL 1.
    Shl,
    /// Skip next instruction if `vx` != `vy`.
    Snev,
    /// Set **I** = `addr`.
    Ldi,
    /// Jump to location `addr` + `v0`.
    Jp0,
    /// Set `vx` = random byte AND `byte`
    Rnd,
    /// Display n-byte sprite at (`vx`, `vy`) starting at memory location
    /// **I**. Set `vf` = collision.
    Drw,
    /// Skip next instruction if key with the value of `vx` is pressed.
    Skp,
    /// Skip next instruction if key with the value of `vx` is not pressed.
    Sknp,
    /// Set `vx` = delay timer value.
    Lddtv,
    /// Wait for a key press, store the value of the key in `vx`.
    Ldkey,
    /// Set delay timer = `vx`.
    Lddt,
    /// Set sound timer = `vx`.
    Ldst,
    /// Set **I** = **I** + `vx`.
    Addi,
    /// Set **I** = location of sprite for digit `vx`.
    Sprite,
    /// Store BCD representation of `vx` in memory locations **I**, **I**+1,
    /// and **I**+2.
    Bcd,
    /// Store registers `v0` through `vx` in memory starting at location
    /// **I**.
    Sviv,
    /// Read registers `v0` through `vx` from memory starting at location
    /// **I**.
    Ldiv,
}

impl Opcode {
    /// The bits that the opcode fixes in an instruction word; the operand
    /// fields are zero.
    pub open spec fn spec_code(self) -> u16 {
        match self {
            Opcode::Cls => 0x00E0,
            Opcode::Ret => 0x00EE,
            Opcode::Jp => 0x1000,
            Opcode::Call => 0x2000,
            Opcode::Se => 0x3000,
            Opcode::Sne => 0x4000,
            Opcode::Sev => 0x5000,
            Opcode::Ld => 0x6000,
            Opcode::Add => 0x7000,
            Opcode::Ldv => 0x8000,
            Opcode::Or => 0x8001,
            Opcode::And => 0x8002,
            Opcode::Xor => 0x8003,
            Opcode::Addv => 0x8004,
            Opcode::Sub => 0x8005,
            Opcode::Shr => 0x8006,
            Opcode::Subn => 0x8007,
            Opcode::Shl => 0x800E,
            Opcode::Snev => 0x9000,
            Opcode::Ldi => 0xA000,
            Opcode::Jp0 => 0xB000,
            Opcode::Rnd => 0xC000,
            Opcode::Drw => 0xD000,
            Opcode::Skp => 0xE09E,
            Opcode::Sknp => 0xE0A1,
            Opcode::Lddtv => 0xF007,
            Opcode::Ldkey => 0xF00A,
            Opcode::Lddt => 0xF015,
            Opcode::Ldst => 0xF018,
            Opcode::Addi => 0xF01E,
            Opcode::Sprite => 0xF029,
            Opcode::Bcd => 0xF033,
            Opcode::Sviv => 0xF055,
            Opcode::Ldiv => 0xF065,
        }
    }

    /// The shape of the operands that the opcode takes.
    pub open spec fn spec_shape(self) -> Shape {
        match self {
            Opcode::Cls | Opcode::Ret => Shape::Exact,
            Opcode::Jp | Opcode::Call | Opcode::Ldi | Opcode::Jp0 => Shape::Addr,
            Opcode::Se | Opcode::Sne | Opcode::Ld | Opcode::Add | Opcode::Rnd => Shape::VxByte,
            Opcode::Sev | Opcode::Ldv | Opcode::Or | Opcode::And | Opcode::Xor | Opcode::Addv
            | Opcode::Sub | Opcode::Subn | Opcode::Snev => Shape::VxVy,
            Opcode::Shr | Opcode::Shl | Opcode::Skp | Opcode::Sknp | Opcode::Lddtv
            | Opcode::Ldkey | Opcode::Lddt | Opcode::Ldst | Opcode::Addi | Opcode::Sprite
            | Opcode::Bcd | Opcode::Sviv | Opcode::Ldiv => Shape::Vx,
            Opcode::Drw => Shape::VxVyNibble,
        }
    }

    /// The bits of an instruction word that decide whether it carries this
    /// opcode. They are the bits outside the operand fields, with one
    /// exception: `shr` and `shl` take one register, and leave the field `y`
    /// undecided.
    pub open spec fn select(self) -> u16 {
        match self {
            Opcode::Shr | Opcode::Shl => 0xF00F,
            _ => match self.spec_shape() {
                Shape::Exact => 0xFFFF,
                Shape::Addr => 0xF000,
                Shape::Vx => 0xF0FF,
                Shape::VxVy => 0xF00F,
                Shape::VxByte => 0xF000,
                Shape::VxVyNibble => 0xF000,
            },
        }
    }

    /// The bits of an instruction word that the opcode gives a meaning: those
    /// that select it and those that hold its operands.
    pub open spec fn covered(self) -> u16 {
        self.select() | self.spec_shape().operand_bits()
    }

    /// Whether the word `inst` carries this opcode.
    pub open spec fn matches(self, inst: u16) -> bool {
        inst & self.select() == self.spec_code()
    }

    /// The opcode that `inst` carries, if it carries one.
    pub open spec fn spec_decode(inst: u16) -> Option<Opcode> {
        if exists|op: Opcode| op.matches(inst) {
            Some(choose|op: Opcode| op.matches(inst))
        } else {
            None
        }
    }

    /// The opcode's fixed bits.
    #[verifier::when_used_as_spec(spec_code)]
    pub fn code(self) -> (code: u16)
        ensures
            code == self.spec_code(),
    {
        match self {
            Opcode::Cls => 0x00E0,
            Opcode::Ret => 0x00EE,
            Opcode::Jp => 0x1000,
            Opcode::Call => 0x2000,
            Opcode::Se => 0x3000,
            Opcode::Sne => 0x4000,
            Opcode::Sev => 0x5000,
            Opcode::Ld => 0x6000,
            Opcode::Add => 0x7000,
            Opcode::Ldv => 0x8000,
            Opcode::Or => 0x8001,
            Opcode::And => 0x8002,
            Opcode::Xor => 0x8003,
            Opcode::Addv => 0x8004,
            Opcode::Sub => 0x8005,
            Opcode::Shr => 0x8006,
            Opcode::Subn => 0x8007,
            Opcode::Shl => 0x800E,
            Opcode::Snev => 0x9000,
            Opcode::Ldi => 0xA000,
            Opcode::Jp0 => 0xB000,
            Opcode::Rnd => 0xC000,
            Opcode::Drw => 0xD000,
            Opcode::Skp => 0xE09E,
            Opcode::Sknp => 0xE0A1,
            Opcode::Lddtv => 0xF007,
            Opcode::Ldkey => 0xF00A,
            Opcode::Lddt => 0xF015,
            Opcode::Ldst => 0xF018,
            Opcode::Addi => 0xF01E,
            Opcode::Sprite => 0xF029,
            Opcode::Bcd => 0xF033,
            Opcode::Sviv => 0xF055,
            Opcode::Ldiv => 0xF065,
        }
    }

    /// The shape of the opcode's operands.
    #[verifier::when_used_as_spec(spec_shape)]
    pub fn shape(self) -> (shape: Shape)
        ensures
            shape == self.spec_shape(),
    {
        match self {
            Opcode::Cls | Opcode::Ret => Shape::Exact,
            Opcode::Jp | Opcode::Call | Opcode::Ldi | Opcode::Jp0 => Shape::Addr,
            Opcode::Se | Opcode::Sne | Opcode::Ld | Opcode::Add | Opcode::Rnd => Shape::VxByte,
            Opcode::Sev
            | Opcode::Ldv
            | Opcode::Or
            | Opcode::And
            | Opcode::Xor
            | Opcode::Addv
            | Opcode::Sub
            | Opcode::Subn
            | Opcode::Snev => Shape::VxVy,
            Opcode::Drw => Shape::VxVyNibble,
            _ => Shape::Vx,
        }
    }

    /// The mnemonic of the opcode.
    pub open spec fn spec_name(&self) -> &'static str {
        match *self {
            Opcode::Cls => "cls",
            Opcode::Ret => "ret",
            Opcode::Jp => "jp",
            Opcode::Call => "call",
            Opcode::Se => "se",
            Opcode::Sne => "sne",
            Opcode::Sev => "sev",
            Opcode::Ld => "ld",
            Opcode::Add => "add",
            Opcode::Ldv => "ldv",
            Opcode::Or => "or",
            Opcode::And => "and",
            Opcode::Xor => "xor",
            Opcode::Addv => "addv",
            Opcode::Sub => "sub",
            Opcode::Shr => "shr",
            Opcode::Subn => "subn",
            Opcode::Shl => "shl",
            Opcode::Snev => "snev",
            Opcode::Ldi => "ldi",
            Opcode::Jp0 => "jp0",
            Opcode::Rnd => "rnd",
            Opcode::Drw => "drw",
            Opcode::Skp => "skp",
            Opcode::Sknp => "sknp",
            Opcode::Lddtv => "lddtv",
            Opcode::Ldkey => "ldkey",
            Opcode::Lddt => "lddt",
            Opcode::Ldst => "ldst",
            Opcode::Addi => "addi",
            Opcode::Sprite => "sprite",
            Opcode::Bcd => "bcd",
            Opcode::Sviv => "sviv",
            Opcode::Ldiv => "ldiv",
        }
    }

    /// The mnemonic of the opcode, as the assembler function of that name
    /// spells it.
    #[verifier::when_used_as_spec(spec_name)]
    pub fn name(&self) -> (name: &'static str)
        ensures
            name == self.spec_name(),
    {
        match *self {
            Opcode::Cls => "cls",
            Opcode::Ret => "ret",
            Opcode::Jp => "jp",
            Opcode::Call => "call",
            Opcode::Se => "se",
            Opcode::Sne => "sne",
            Opcode::Sev => "sev",
            Opcode::Ld => "ld",
            Opcode::Add => "add",
            Opcode::Ldv => "ldv",
            Opcode::Or => "or",
            Opcode::And => "and",
            Opcode::Xor => "xor",
            Opcode::Addv => "addv",
            Opcode::Sub => "sub",
            Opcode::Shr => "shr",
            Opcode::Subn => "subn",
            Opcode::Shl => "shl",
            Opcode::Snev => "snev",
            Opcode::Ldi => "ldi",
            Opcode::Jp0 => "jp0",
            Opcode::Rnd => "rnd",
            Opcode::Drw => "drw",
            Opcode::Skp => "skp",
            Opcode::Sknp => "sknp",
            Opcode::Lddtv => "lddtv",
            Opcode::Ldkey => "ldkey",
            Opcode::Lddt => "lddt",
            Opcode::Ldst => "ldst",
            Opcode::Addi => "addi",
            Opcode::Sprite => "sprite",
            Opcode::Bcd => "bcd",
            Opcode::Sviv => "sviv",
            Opcode::Ldiv => "ldiv",
        }
    }

    /// Attempt to decode an instruction from bytecode: the result is the one
    /// opcode whose selecting bits `inst` carries, and `None` if there is no
    /// such opcode.
    pub fn decode(inst: u16) -> (opcode: Option<Self>)
        ensures
            forall|op: Opcode| opcode == Some(op) <==> op.matches(inst),
            opcode == Self::spec_decode(inst),
    {
        proof {
            lemma_select_fields(inst);
        }
        let opcode = match (inst & 0xF000) >> 12 {
            0x0 if inst & 0xFFF == 0x0E0 => Some(Opcode::Cls),
            0x0 if inst & 0xFFF == 0x0EE => Some(Opcode::Ret),
            0x1 => Some(Opcode::Jp),
            0x2 => Some(Opcode::Call),
            0x3 => Some(Opcode::Se),
            0x4 => Some(Opcode::Sne),
            0x5 if inst & 0xF == 0x0 => Some(Opcode::Sev),
            0x6 => Some(Opcode::Ld),
            0x7 => Some(Opcode::Add),
            0x8 => match inst & 0xF {
                0x0 => Some(Opcode::Ldv),
                0x1 => Some(Opcode::Or),
                0x2 => Some(Opcode::And),
                0x3 => Some(Opcode::Xor),
                0x4 => Some(Opcode::Addv),
                0x5 => Some(Opcode::Sub),
                0x6 => Some(Opcode::Shr),
                0x7 => Some(Opcode::Subn),
                0xE => Some(Opcode::Shl),
                _ => None,
            },
            0x9 if inst & 0xF == 0x0 => Some(Opcode::Snev),
            0xA => Some(Opcode::Ldi),
            0xB => Some(Opcode::Jp0),
            0xC => Some(Opcode::Rnd),
            0xD => Some(Opcode::Drw),
            0xE if inst & 0xFF == 0x9E => Some(Opcode::Skp),
            0xE if inst & 0xFF == 0xA1 => Some(Opcode::Sknp),
            0xF => match inst & 0xFF {
                0x07 => Some(Opcode::Lddtv),
                0x0A => Some(Opcode::Ldkey),
                0x15 => Some(Opcode::Lddt),
                0x18 => Some(Opcode::Ldst),
                0x1E => Some(Opcode::Addi),
                0x29 => Some(Opcode::Sprite),
                0x33 => Some(Opcode::Bcd),
                0x55 => Some(Opcode::Sviv),
                0x65 => Some(Opcode::Ldiv),
                _ => None,
            },
            _ => None,
        };
        assert forall|op: Opcode| opcode == Some(op) <==> op.matches(inst) by {}
        proof {
            if let Some(op) = opcode {
                assert(op.matches(inst));
                let chosen = choose|op: Opcode| op.matches(inst);
                assert(opcode == Some(chosen) <==> chosen.matches(inst));
            }
        }
        opcode
    }
}

/// The selecting bits of a word, in terms of its high nibble and its low
/// fields.
proof fn lemma_select_fields(inst: u16)
    ensures
        (inst & 0xF000) >> 12 < 16,
        inst & 0xF000 == ((inst & 0xF000) >> 12) * 0x1000,
        inst & 0xFFFF == inst,
        inst == (inst & 0xF000) + (inst & 0x0FFF),
        inst & 0xF0FF == (inst & 0xF000) + (inst & 0x00FF),
        inst & 0xF00F == (inst & 0xF000) + (inst & 0x000F),
        inst & 0x0FFF < 0x1000,
        inst & 0x00FF < 0x100,
        inst & 0x000F < 0x10,
{
    assert((inst & 0xF000) >> 12 < 16 && inst & 0xF000 == ((inst & 0xF000) >> 12) * 0x1000 && inst
        & 0xFFFF == inst && inst == (inst & 0xF000) + (inst & 0x0FFF) && inst & 0xF0FF == (inst
        & 0xF000) + (inst & 0x00FF) && inst & 0xF00F == (inst & 0xF000) + (inst & 0x000F) && inst
        & 0x0FFF < 0x1000 && inst & 0x00FF < 0x100 && inst & 0x000F < 0x10) by (bit_vector);
}

/// No word carries two opcodes.
pub proof fn lemma_matches_unique(inst: u16, a: Opcode, b: Opcode)
    requires
        a.matches(inst),
        b.matches(inst),
    ensures
        a == b,
{
    lemma_select_fields(inst);
}

/// What the word `inst` decodes to: the opcode that it carries, with the
/// operands that the opcode's shape reads from the word.
pub open spec fn decoding(inst: u16) -> Option<(Opcode, Operands)> {
    match Opcode::spec_decode(inst) {
        Some(opcode) => Some((opcode, opcode.spec_shape().spec_operands(inst))),
        None => None,
    }
}

/// An instruction
#[derive(Debug, Clone, Copy, PartialEq, Eq)]
pub struct Instruction {
    opcode: Opcode,
    operands: Operands,
}

impl View for Instruction {
    type V = (Opcode, Operands);

    closed spec fn view(&self) -> (Opcode, Operands) {
        (self.opcode, self.operands)
    }
}

impl Instruction {
    /// The operands have the shape that the opcode takes, and fit their
    /// fields. Every decoded instruction is well formed.
    pub open spec fn wf(&self) -> bool {
        self@.1.shape() == self@.0.spec_shape() && self@.1.wf()
    }

    /// Decodes the word `inst`, or returns `None` where it carries no opcode.
    pub fn decode(inst: u16) -> (decoded: Option<Self>)
        ensures
            match decoded {
                Some(instruction) => decoding(inst) == Some(instruction@) && instruction.wf(),
                None => decoding(inst) is None,
            },
    {
        match Opcode::decode(inst) {
            Some(opcode) => Some(Instruction { opcode, operands: opcode.shape().operands(inst) }),
            None => None,
        }
    }

    /// The instruction word: the opcode's fixed bits joined with the
    /// operands.
    pub fn encode(&self) -> (inst: u16)
        ensures
            inst == super::operands::encoding(self@.0, self@.1),
    {
        self.opcode.code() | self.operands.encode()
    }

    /// The fixed bits of the instruction's opcode.
    pub fn code(&self) -> (code: u16)
        ensures
            code == self@.0.spec_code(),
    {
        self.opcode.code()
    }

    /// The mnemonic of the instruction's opcode.
    pub fn name(&self) -> (name: &'static str)
        ensures
            name == self@.0.spec_name(),
    {
        self.opcode.name()
    }

    pub fn opcode(&self) -> (opcode: &Opcode)
        ensures
            *opcode == self@.0,
    {
        &self.opcode
    }

    pub fn operands(&self) -> (operands: &Operands)
        ensures
            *operands == self@.1,
    {
        &self.operands
    }
}

} // verus!
