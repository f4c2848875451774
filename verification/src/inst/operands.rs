//! The operands of an instruction, in the five shapes of the instruction set.
use super::arch::Opcode;
use super::bytecode::{decode, encode};
use vstd::prelude::*;

verus! {

/// Operands for an instruction.
#[derive(Debug, Copy, Clone, PartialEq, Eq, Structural)]
#[non_exhaustive]
pub enum Operands {
    /// An instruction which accepts no operands.
    Exact,
    /// An instruction which expects address `addr`.
    Addr(u16),
    /// An instruction which expects register `vx`.
    Vx(u8),
    /// An instruction which expects registers `vx` and `vy`.
    VxVy(u8, u8),
    /// An instruction which expects register `vx` and a `byte` of data.
    VxByte(u8, u8),
    /// An instruction which expects registers `vx`, `vy` and a `nibble` of
    /// data. In the chip8 instruction set, only `drw` has this signature.
    VxVyNibble(u8, u8, u8),
}

/// The shape of an instruction's operands: which fields of the word it uses.
#[derive(Debug, Copy, Clone, PartialEq, Eq, Structural)]
pub enum Shape {
    Exact,
    Addr,
    Vx,
    VxVy,
    VxByte,
    VxVyNibble,
}

impl Shape {
    /// The bits of an instruction word that hold operands of this shape.
    pub open spec fn operand_bits(self) -> u16 {
        match self {
            Shape::Exact => 0x0000,
            Shape::Addr => 0x0FFF,
            Shape::Vx => 0x0F00,
            Shape::VxVy => 0x0FF0,
            Shape::VxByte => 0x0FFF,
            Shape::VxVyNibble => 0x0FFF,
        }
    }

    /// The operands of this shape that the word `inst` carries.
    pub open spec fn spec_operands(self, inst: u16) -> Operands {
        match self {
            Shape::Exact => Operands::Exact,
            Shape::Addr => Operands::Addr(decode::spec_addr(inst)),
            Shape::Vx => Operands::Vx(decode::spec_vx(inst)),
            Shape::VxVy => Operands::VxVy(decode::spec_vx(inst), decode::spec_vy(inst)),
            Shape::VxByte => Operands::VxByte(decode::spec_vx(inst), decode::spec_byte(inst)),
            Shape::VxVyNibble => Operands::VxVyNibble(
                decode::spec_vx(inst),
                decode::spec_vy(inst),
                decode::spec_nibble(inst),
            ),
        }
    }

    /// Extracts the operands of this shape from `inst`.
    #[verifier::when_used_as_spec(spec_operands)]
    pub fn operands(self, inst: u16) -> (operands: Operands)
        ensures
            operands == self.spec_operands(inst),
            operands.shape() == self,
            operands.wf(),
    {
        match self {
            Shape::Exact => Operands::Exact,
            Shape::Addr => Operands::Addr(decode::addr(inst)),
            Shape::Vx => Operands::Vx(decode::vx(inst)),
            Shape::VxVy => Operands::VxVy(decode::vx(inst), decode::vy(inst)),
            Shape::VxByte => Operands::VxByte(decode::vx(inst), decode::byte(inst)),
            Shape::VxVyNibble => Operands::VxVyNibble(
                decode::vx(inst),
                decode::vy(inst),
                decode::nibble(inst),
            ),
        }
    }
}

impl Operands {
    /// The shape of these operands.
    pub open spec fn shape(self) -> Shape {
        match self {
            Operands::Exact => Shape::Exact,
            Operands::Addr(_) => Shape::Addr,
            Operands::Vx(_) => Shape::Vx,
            Operands::VxVy(_, _) => Shape::VxVy,
            Operands::VxByte(_, _) => Shape::VxByte,
            Operands::VxVyNibble(_, _, _) => Shape::VxVyNibble,
        }
    }

    /// Every operand fits its field: addresses have twelve bits, register
    /// indices and nibbles four.
    pub open spec fn wf(self) -> bool {
        match self {
            Operands::Exact => true,
            Operands::Addr(addr) => addr < 0x1000,
            Operands::Vx(vx) => vx < 16,
            Operands::VxVy(vx, vy) => vx < 16 && vy < 16,
            Operands::VxByte(vx, _) => vx < 16,
            Operands::VxVyNibble(vx, vy, nibble) => vx < 16 && vy < 16 && nibble < 16,
        }
    }

    /// The operand bits of an instruction word: each operand in its field,
    /// the fields joined by bitwise or.
    pub open spec fn spec_encode(&self) -> u16 {
        match *self {
            Operands::Exact => 0x0000,
            Operands::Addr(addr) => encode::spec_addr(addr),
            Operands::Vx(vx) => encode::spec_vx(vx),
            Operands::VxVy(vx, vy) => encode::spec_vx(vx) | encode::spec_vy(vy),
            Operands::VxByte(vx, byte) => encode::spec_vx(vx) | encode::spec_byte(byte),
            Operands::VxVyNibble(vx, vy, nibble) => encode::spec_vx(vx) | encode::spec_vy(vy)
                | encode::spec_nibble(nibble),
        }
    }

    /// Encodes the operands into the operand bits of an instruction word.
    #[verifier::when_used_as_spec(spec_encode)]
    pub fn encode(&self) -> (word: u16)
        ensures
            word == self.spec_encode(),
    {
        match *self {
            Operands::Exact => 0x0000,
            Operands::Addr(addr) => encode::addr(addr),
            Operands::Vx(vx) => encode::vx(vx),
            Operands::VxVy(vx, vy) => encode::vx(vx) | encode::vy(vy),
            Operands::VxByte(vx, byte) => encode::vx(vx) | encode::byte(byte),
            Operands::VxVyNibble(vx, vy, nibble) => encode::vx(vx) | encode::vy(vy)
                | encode::nibble(nibble),
        }
    }
}

/// The instruction word for `opcode` with `operands`: the opcode's fixed bits
/// joined with the operand bits by bitwise or.
pub open spec fn encoding(opcode: Opcode, operands: Operands) -> u16 {
    opcode.spec_code() | operands.spec_encode()
}

} // verus!
