//! Instructions as text: hexadecimal numbers, operands after their
//! mnemonic, and the disassembly of an instruction word.
use super::arch::{Instruction, Opcode};
use super::bytecode::decode;
use super::operands::{Operands, Shape};
use vstd::prelude::*;
use vstd::string::StringExecFns;

verus! {

/// The hexadecimal digit for `n`, in upper or lower case.
pub open spec fn digit(n: int, upper: bool) -> char {
    if n == 0 {
        '0'
    } else if n == 1 {
        '1'
    } else if n == 2 {
        '2'
    } else if n == 3 {
        '3'
    } else if n == 4 {
        '4'
    } else if n == 5 {
        '5'
    } else if n == 6 {
        '6'
    } else if n == 7 {
        '7'
    } else if n == 8 {
        '8'
    } else if n == 9 {
        '9'
    } else if n == 10 {
        if upper {
            'A'
        } else {
            'a'
        }
    } else if n == 11 {
        if upper {
            'B'
        } else {
            'b'
        }
    } else if n == 12 {
        if upper {
            'C'
        } else {
            'c'
        }
    } else if n == 13 {
        if upper {
            'D'
        } else {
            'd'
        }
    } else if n == 14 {
        if upper {
            'E'
        } else {
            'e'
        }
    } else if upper {
        'F'
    } else {
        'f'
    }
}

/// The number `value` in hexadecimal digits, the most significant first: as
/// many as it takes, and at least `width`.
pub open spec fn hex(value: nat, width: nat, upper: bool) -> Seq<char>
    decreases value, width,
{
    if value < 16 && width <= 1 {
        seq![digit(value as int, upper)]
    } else {
        hex(
            value / 16,
            if width > 0 {
                (width - 1) as nat
            } else {
                0
            },
            upper,
        ).push(digit((value % 16) as int, upper))
    }
}

/// Appends the hexadecimal digit for `n`.
pub(crate) fn push_digit(text: &mut String, n: u16, upper: bool)
    requires
        n < 16,
    ensures
        final(text)@ == old(text)@.push(digit(n as int, upper)),
{
    proof {
        reveal_strlit("0");
        reveal_strlit("1");
        reveal_strlit("2");
        reveal_strlit("3");
        reveal_strlit("4");
        reveal_strlit("5");
        reveal_strlit("6");
        reveal_strlit("7");
        reveal_strlit("8");
        reveal_strlit("9");
        reveal_strlit("A");
        reveal_strlit("B");
        reveal_strlit("C");
        reveal_strlit("D");
        reveal_strlit("E");
        reveal_strlit("F");
        reveal_strlit("a");
        reveal_strlit("b");
        reveal_strlit("c");
        reveal_strlit("d");
        reveal_strlit("e");
        reveal_strlit("f");
    }
    let digit = match n {
        0 => "0",
        1 => "1",
        2 => "2",
        3 => "3",
        4 => "4",
        5 => "5",
        6 => "6",
        7 => "7",
        8 => "8",
        9 => "9",
        10 => if upper {
            "A"
        } else {
            "a"
        },
        11 => if upper {
            "B"
        } else {
            "b"
        },
        12 => if upper {
            "C"
        } else {
            "c"
        },
        13 => if upper {
            "D"
        } else {
            "d"
        },
        14 => if upper {
            "E"
        } else {
            "e"
        },
        _ => if upper {
            "F"
        } else {
            "f"
        },
    };
    text.append(digit);
    assert(text@ =~= old(text)@.push(super::text::digit(n as int, upper)));
}

/// Appends `value` in hexadecimal digits, at least `width` of them.
pub(crate) fn push_hex(text: &mut String, value: u16, width: usize, upper: bool)
    requires
        width <= 4,
    ensures
        final(text)@ == old(text)@ + hex(value as nat, width as nat, upper),
{
    let digits: usize = if value >= 0x1000 || width >= 4 {
        4
    } else if value >= 0x100 || width >= 3 {
        3
    } else if value >= 0x10 || width >= 2 {
        2
    } else {
        1
    };
    proof {
        reveal_with_fuel(hex, 5);
    }
    if digits >= 4 {
        push_digit(text, value / 0x1000, upper);
    }
    if digits >= 3 {
        push_digit(text, value / 0x100 % 16, upper);
    }
    if digits >= 2 {
        push_digit(text, value / 0x10 % 16, upper);
    }
    push_digit(text, value % 16, upper);
    assert(text@ =~= old(text)@ + hex(value as nat, width as nat, upper));
}

/// The operands as text, as they follow a mnemonic: numbers in upper case
/// hexadecimal, an address with three digits, a byte with two, separated by
/// a comma and a blank.
pub open spec fn operands_text(operands: Operands) -> Seq<char> {
    match operands {
        Operands::Exact => Seq::empty(),
        Operands::Addr(addr) => hex(addr as nat, 3, true),
        Operands::Vx(vx) => hex(vx as nat, 1, true),
        Operands::VxVy(vx, vy) => hex(vx as nat, 1, true) + seq![',', ' '] + hex(
            vy as nat,
            1,
            true,
        ),
        Operands::VxByte(vx, byte) => hex(vx as nat, 1, true) + seq![',', ' '] + hex(
            byte as nat,
            2,
            true,
        ),
        Operands::VxVyNibble(vx, vy, nibble) => hex(vx as nat, 1, true) + seq![',', ' '] + hex(
            vy as nat,
            1,
            true,
        ) + seq![',', ' '] + hex(nibble as nat, 1, true),
    }
}

impl Operands {
    /// The operands as text.
    pub fn to_string(&self) -> (text: String)
        ensures
            text@ == operands_text(*self),
    {
        let mut text = String::new();
        proof {
            reveal_strlit(", ");
        }
        match *self {
            Operands::Exact => {},
            Operands::Addr(addr) => {
                push_hex(&mut text, addr, 3, true);
            },
            Operands::Vx(vx) => {
                push_hex(&mut text, vx as u16, 1, true);
            },
            Operands::VxVy(vx, vy) => {
                push_hex(&mut text, vx as u16, 1, true);
                text.append(", ");
                push_hex(&mut text, vy as u16, 1, true);
            },
            Operands::VxByte(vx, byte) => {
                push_hex(&mut text, vx as u16, 1, true);
                text.append(", ");
                push_hex(&mut text, byte as u16, 2, true);
            },
            Operands::VxVyNibble(vx, vy, nibble) => {
                push_hex(&mut text, vx as u16, 1, true);
                text.append(", ");
                push_hex(&mut text, vy as u16, 1, true);
                text.append(", ");
                push_hex(&mut text, nibble as u16, 1, true);
            },
        }
        assert(text@ =~= operands_text(*self));
        text
    }
}

impl Instruction {
    /// The instruction as text: the mnemonic, a blank, and the operands.
    pub fn to_string(&self) -> (text: String)
        ensures
            text@ == self@.0.spec_name()@ + seq![' '] + operands_text(self@.1),
    {
        let mut text = String::from_str(self.name());
        proof {
            reveal_strlit(" ");
        }
        text.append(" ");
        let operands = self.operands().to_string();
        text.append(operands.as_str());
        assert(text@ =~= self@.0.spec_name()@ + seq![' '] + operands_text(self@.1));
        text
    }
}

/// What an instruction word disassembles to: its operands, or the word where
/// it is no instruction.
#[derive(Debug, Clone, Copy, PartialEq, Eq, Structural)]
pub enum DecodedInstruction {
    Exact,
    Addr(u16),
    Vx(u8),
    VxVy(u8, u8),
    VxByte(u8, u8),
    VxVyNibble(u8, u8, u8),
    Unknown(u16),
}

impl DecodedInstruction {
    /// The text of the disassembly after the mnemonic `name`: the operands
    /// in upper case hexadecimal, addresses, bytes and unknown words with the
    /// prefix `0x` and three, two and four digits.
    pub open spec fn text(self, name: Seq<char>) -> Seq<char> {
        match self {
            DecodedInstruction::Exact => name,
            DecodedInstruction::Addr(addr) => name + seq![' ', '0', 'x'] + hex(
                addr as nat,
                3,
                true,
            ),
            DecodedInstruction::Vx(vx) => name + seq![' '] + hex(vx as nat, 1, true),
            DecodedInstruction::VxVy(vx, vy) => name + seq![' '] + hex(vx as nat, 1, true) + seq![
                ',',
                ' ',
            ] + hex(vy as nat, 1, true),
            DecodedInstruction::VxByte(vx, byte) => name + seq![' '] + hex(vx as nat, 1, true)
                + seq![',', ' ', '0', 'x'] + hex(byte as nat, 2, true),
            DecodedInstruction::VxVyNibble(vx, vy, nibble) => name + seq![' '] + hex(
                vx as nat,
                1,
                true,
            ) + seq![',', ' '] + hex(vy as nat, 1, true) + seq![',', ' '] + hex(
                nibble as nat,
                1,
                true,
            ),
            DecodedInstruction::Unknown(raw) => name + seq![' ', '(', '0', 'x'] + hex(
                raw as nat,
                4,
                true,
            ) + seq![')'],
        }
    }

    /// The disassembly as text, after the mnemonic `name`.
    pub fn to_string(self, name: &'static str) -> (text: String)
        ensures
            text@ == self.text(name@),
    {
        let mut text = String::from_str(name);
        proof {
            reveal_strlit(" ");
            reveal_strlit(", ");
            reveal_strlit(" 0x");
            reveal_strlit(", 0x");
            reveal_strlit(" (0x");
            reveal_strlit(")");
        }
        match self {
            DecodedInstruction::Exact => {},
            DecodedInstruction::Addr(addr) => {
                text.append(" 0x");
                push_hex(&mut text, addr, 3, true);
            },
            DecodedInstruction::Vx(vx) => {
                text.append(" ");
                push_hex(&mut text, vx as u16, 1, true);
            },
            DecodedInstruction::VxVy(vx, vy) => {
                text.append(" ");
                push_hex(&mut text, vx as u16, 1, true);
                text.append(", ");
                push_hex(&mut text, vy as u16, 1, true);
            },
            DecodedInstruction::VxByte(vx, byte) => {
                text.append(" ");
                push_hex(&mut text, vx as u16, 1, true);
                text.append(", 0x");
                push_hex(&mut text, byte as u16, 2, true);
            },
            DecodedInstruction::VxVyNibble(vx, vy, nibble) => {
                text.append(" ");
                push_hex(&mut text, vx as u16, 1, true);
                text.append(", ");
                push_hex(&mut text, vy as u16, 1, true);
                text.append(", ");
                push_hex(&mut text, nibble as u16, 1, true);
            },
            DecodedInstruction::Unknown(raw) => {
                text.append(" (0x");
                push_hex(&mut text, raw, 4, true);
                text.append(")");
            },
        }
        assert(text@ =~= self.text(name@));
        text
    }
}

/// The operands as a disassembly.
pub open spec fn disassembled(operands: Operands) -> DecodedInstruction {
    match operands {
        Operands::Exact => DecodedInstruction::Exact,
        Operands::Addr(addr) => DecodedInstruction::Addr(addr),
        Operands::Vx(vx) => DecodedInstruction::Vx(vx),
        Operands::VxVy(vx, vy) => DecodedInstruction::VxVy(vx, vy),
        Operands::VxByte(vx, byte) => DecodedInstruction::VxByte(vx, byte),
        Operands::VxVyNibble(vx, vy, nibble) => DecodedInstruction::VxVyNibble(vx, vy, nibble),
    }
}

impl Shape {
    /// The bits of an instruction word that hold no operand of this shape.
    pub open spec fn mask(self) -> u16 {
        match self {
            Shape::Exact => 0xFFFF,
            Shape::Addr => 0xF000,
            Shape::Vx => 0xF0FF,
            Shape::VxVy => 0xF00F,
            Shape::VxByte => 0xF000,
            Shape::VxVyNibble => 0xF000,
        }
    }

    /// Disassembles `inst` as an instruction of this shape whose fixed bits
    /// are `mask`: the operands of `inst`, if the bits that hold no operand
    /// are `mask`.
    pub fn decode(&self, mask: u16, inst: u16) -> (decoded: Option<DecodedInstruction>)
        ensures
            decoded == if inst & self.mask() == mask {
                Some(disassembled(self.spec_operands(inst)))
            } else {
                None
            },
    {
        proof {
            assert(inst & 0xFFFF == inst) by (bit_vector);
        }
        match *self {
            Shape::Exact if mask == inst => Some(DecodedInstruction::Exact),
            Shape::Addr if inst & 0xF000 == mask => Some(
                DecodedInstruction::Addr(decode::addr(inst)),
            ),
            Shape::VxByte if inst & 0xF000 == mask => Some(
                DecodedInstruction::VxByte(decode::vx(inst), decode::byte(inst)),
            ),
            Shape::VxVyNibble if inst & 0xF000 == mask => Some(
                DecodedInstruction::VxVyNibble(
                    decode::vx(inst),
                    decode::vy(inst),
                    decode::nibble(inst),
                ),
            ),
            Shape::VxVy if inst & 0xF00F == mask => Some(
                DecodedInstruction::VxVy(decode::vx(inst), decode::vy(inst)),
            ),
            Shape::Vx if inst & 0xF0FF == mask => Some(DecodedInstruction::Vx(decode::vx(inst))),
            _ => None,
        }
    }
}

/// What `inst` disassembles to: the mnemonic and the operands of the opcode
/// whose fixed bits it carries outside its operand fields. There is at most
/// one such opcode. A word of `shr` or `shl` with a field `y` other than zero
/// is executed, but not disassembled.
pub open spec fn reversed(inst: u16) -> Option<(Opcode, DecodedInstruction)> {
    match super::arch::decoding(inst) {
        Some((opcode, operands)) => if inst & opcode.spec_shape().mask() == opcode.spec_code() {
            Some((opcode, disassembled(operands)))
        } else {
            None
        },
        None => None,
    }
}

/// Reverse a chip8 instruction: the mnemonic and the operands of the word,
/// or `unknown` and the word where it does not disassemble.
pub fn reverse_inst(inst: u16) -> (reverse: (&'static str, DecodedInstruction))
    ensures
        match reversed(inst) {
            Some((opcode, decoded)) => reverse.0 == opcode.spec_name() && reverse.1 == decoded,
            None => reverse.0 == "unknown" && reverse.1 == DecodedInstruction::Unknown(inst),
        },
{
    let decoded = match Opcode::decode(inst) {
        Some(opcode) => match opcode.shape().decode(opcode.code(), inst) {
            Some(decoded) => Some((opcode.name(), decoded)),
            None => None,
        },
        None => None,
    };
    match decoded {
        Some(reverse) => reverse,
        None => ("unknown", DecodedInstruction::Unknown(inst)),
    }
}

/// A word disassembles to an opcode exactly if it carries the opcode's fixed
/// bits outside the operand fields of its shape; it then decodes to that
/// opcode.
pub proof fn lemma_reversed(inst: u16, opcode: Opcode)
    ensures
        inst & opcode.spec_shape().mask() == opcode.spec_code() <==> reversed(inst) == Some(
            (opcode, disassembled(opcode.spec_shape().spec_operands(inst))),
        ),
{
    if inst & opcode.spec_shape().mask() == opcode.spec_code() {
        assert(inst & 0xF0FF == 0x8006 ==> inst & 0xF00F == 0x8006) by (bit_vector);
        assert(inst & 0xF0FF == 0x800E ==> inst & 0xF00F == 0x800E) by (bit_vector);
        assert(opcode.matches(inst));
        let chosen = choose|op: Opcode| op.matches(inst);
        super::arch::lemma_matches_unique(inst, chosen, opcode);
    }
}

} // verus!
