//! Decoding and encoding are inverse to each other.
use super::arch::{decoding, lemma_matches_unique, Opcode};
use super::bytecode::{decode, encode};
use super::operands::{encoding, Operands, Shape};
use vstd::prelude::*;

verus! {

/// Encoding what a word decodes to gives the word back, on the bits that its
/// opcode covers. These are all sixteen bits for every opcode but `shr` and
/// `shl`, which leave the field `y` without a meaning.
pub proof fn lemma_encode_decode(inst: u16)
    requires
        decoding(inst) is Some,
    ensures
        ({
            let (opcode, operands) = decoding(inst)->Some_0;
            &&& encoding(opcode, operands) == inst & opcode.covered()
            &&& opcode != Opcode::Shr && opcode != Opcode::Shl ==> encoding(opcode, operands)
                == inst
        }),
{
    let (opcode, operands) = decoding(inst)->Some_0;
    let code = opcode.spec_code();
    assert(opcode.matches(inst));
    assert(operands == opcode.spec_shape().spec_operands(inst));
    lemma_rejoin(inst, code);
    match opcode.spec_shape() {
        Shape::Exact => {},
        Shape::Addr => {},
        Shape::Vx => {},
        Shape::VxVy => {},
        Shape::VxByte => {},
        Shape::VxVyNibble => {},
    }
}

/// A word decodes to the opcode and the operands that it was encoded from,
/// where the operands have the opcode's shape and fit their fields.
pub proof fn lemma_decode_encode(opcode: Opcode, operands: Operands)
    requires
        operands.wf(),
        operands.shape() == opcode.spec_shape(),
    ensures
        decoding(encoding(opcode, operands)) == Some((opcode, operands)),
{
    let inst = encoding(opcode, operands);
    let code = opcode.spec_code();
    lemma_code_bits(opcode);
    match operands {
        Operands::Exact => {
            lemma_split_exact(code);
        },
        Operands::Addr(addr) => {
            lemma_split_addr(code, addr);
        },
        Operands::Vx(vx) => {
            lemma_split_vx(code, vx);
        },
        Operands::VxVy(vx, vy) => {
            lemma_split_vx_vy(code, vx, vy);
        },
        Operands::VxByte(vx, byte) => {
            lemma_split_vx_byte(code, vx, byte);
        },
        Operands::VxVyNibble(vx, vy, nibble) => {
            lemma_split_vx_vy_nibble(code, vx, vy, nibble);
        },
    }
    assert(opcode.matches(inst));
    assert(opcode.spec_shape().spec_operands(inst) == operands);
    let chosen = choose|op: Opcode| op.matches(inst);
    lemma_matches_unique(inst, chosen, opcode);
}

/// The fixed bits of an opcode lie within its selecting bits and outside its
/// operand fields.
proof fn lemma_code_bits(opcode: Opcode)
    ensures
        opcode.spec_code() & opcode.select() == opcode.spec_code(),
        opcode.spec_code() & opcode.spec_shape().operand_bits() == 0,
{
    assert({
        &&& 0x00E0u16 & 0xFFFF == 0x00E0 && 0x00E0u16 & 0x0000 == 0
        &&& 0x00EEu16 & 0xFFFF == 0x00EE && 0x00EEu16 & 0x0000 == 0
        &&& 0x1000u16 & 0xF000 == 0x1000 && 0x1000u16 & 0x0FFF == 0
        &&& 0x2000u16 & 0xF000 == 0x2000 && 0x2000u16 & 0x0FFF == 0
        &&& 0x3000u16 & 0xF000 == 0x3000 && 0x3000u16 & 0x0FFF == 0
        &&& 0x4000u16 & 0xF000 == 0x4000 && 0x4000u16 & 0x0FFF == 0
        &&& 0x5000u16 & 0xF00F == 0x5000 && 0x5000u16 & 0x0FF0 == 0
        &&& 0x6000u16 & 0xF000 == 0x6000 && 0x6000u16 & 0x0FFF == 0
        &&& 0x7000u16 & 0xF000 == 0x7000 && 0x7000u16 & 0x0FFF == 0
        &&& 0x8000u16 & 0xF00F == 0x8000 && 0x8000u16 & 0x0FF0 == 0
        &&& 0x8001u16 & 0xF00F == 0x8001 && 0x8001u16 & 0x0FF0 == 0
        &&& 0x8002u16 & 0xF00F == 0x8002 && 0x8002u16 & 0x0FF0 == 0
        &&& 0x8003u16 & 0xF00F == 0x8003 && 0x8003u16 & 0x0FF0 == 0
        &&& 0x8004u16 & 0xF00F == 0x8004 && 0x8004u16 & 0x0FF0 == 0
        &&& 0x8005u16 & 0xF00F == 0x8005 && 0x8005u16 & 0x0FF0 == 0
        &&& 0x8006u16 & 0xF00F == 0x8006 && 0x8006u16 & 0x0F00 == 0
        &&& 0x8007u16 & 0xF00F == 0x8007 && 0x8007u16 & 0x0FF0 == 0
        &&& 0x800Eu16 & 0xF00F == 0x800E && 0x800Eu16 & 0x0F00 == 0
        &&& 0x9000u16 & 0xF00F == 0x9000 && 0x9000u16 & 0x0FF0 == 0
        &&& 0xA000u16 & 0xF000 == 0xA000 && 0xA000u16 & 0x0FFF == 0
        &&& 0xB000u16 & 0xF000 == 0xB000 && 0xB000u16 & 0x0FFF == 0
        &&& 0xC000u16 & 0xF000 == 0xC000 && 0xC000u16 & 0x0FFF == 0
        &&& 0xD000u16 & 0xF000 == 0xD000 && 0xD000u16 & 0x0FFF == 0
        &&& 0xE09Eu16 & 0xF0FF == 0xE09E && 0xE09Eu16 & 0x0F00 == 0
        &&& 0xE0A1u16 & 0xF0FF == 0xE0A1 && 0xE0A1u16 & 0x0F00 == 0
        &&& 0xF007u16 & 0xF0FF == 0xF007 && 0xF007u16 & 0x0F00 == 0
        &&& 0xF00Au16 & 0xF0FF == 0xF00A && 0xF00Au16 & 0x0F00 == 0
        &&& 0xF015u16 & 0xF0FF == 0xF015 && 0xF015u16 & 0x0F00 == 0
        &&& 0xF018u16 & 0xF0FF == 0xF018 && 0xF018u16 & 0x0F00 == 0
        &&& 0xF01Eu16 & 0xF0FF == 0xF01E && 0xF01Eu16 & 0x0F00 == 0
        &&& 0xF029u16 & 0xF0FF == 0xF029 && 0xF029u16 & 0x0F00 == 0
        &&& 0xF033u16 & 0xF0FF == 0xF033 && 0xF033u16 & 0x0F00 == 0
        &&& 0xF055u16 & 0xF0FF == 0xF055 && 0xF055u16 & 0x0F00 == 0
        &&& 0xF065u16 & 0xF0FF == 0xF065 && 0xF065u16 & 0x0F00 == 0
    }) by (bit_vector);
}

/// Joining the selected bits of a word with the operands read from it gives
/// the covered bits of the word.
proof fn lemma_rejoin(inst: u16, code: u16)
    ensures
        code == inst & 0xFFFF ==> code | 0 == inst & (0xFFFFu16 | 0x0000u16) && code | 0 == inst,
        code == inst & 0xF000 ==> {
            &&& code | encode::spec_addr(decode::spec_addr(inst)) == inst & (0xF000u16 | 0x0FFFu16)
            &&& code | (encode::spec_vx(decode::spec_vx(inst)) | encode::spec_byte(
                decode::spec_byte(inst),
            )) == inst & (0xF000u16 | 0x0FFFu16)
            &&& code | (encode::spec_vx(decode::spec_vx(inst)) | encode::spec_vy(
                decode::spec_vy(inst),
            ) | encode::spec_nibble(decode::spec_nibble(inst))) == inst & (0xF000u16 | 0x0FFFu16)
            &&& inst & (0xF000u16 | 0x0FFFu16) == inst
        },
        code == inst & 0xF0FF ==> code | encode::spec_vx(decode::spec_vx(inst)) == inst & (0xF0FFu16
            | 0x0F00u16) && inst & (0xF0FFu16 | 0x0F00u16) == inst,
        code == inst & 0xF00F ==> {
            &&& code | encode::spec_vx(decode::spec_vx(inst)) == inst & (0xF00Fu16 | 0x0F00u16)
            &&& code | (encode::spec_vx(decode::spec_vx(inst)) | encode::spec_vy(
                decode::spec_vy(inst),
            )) == inst & (0xF00Fu16 | 0x0FF0u16)
            &&& inst & (0xF00Fu16 | 0x0FF0u16) == inst
        },
{
    assert(code == inst & 0xFFFF ==> code | 0 == inst & (0xFFFFu16 | 0x0000u16) && code | 0 == inst)
        by (bit_vector);
    assert(code == inst & 0xF000 ==> {
        &&& code | encode::spec_addr(decode::spec_addr(inst)) == inst & (0xF000u16 | 0x0FFFu16)
        &&& code | (encode::spec_vx(decode::spec_vx(inst)) | encode::spec_byte(
            decode::spec_byte(inst),
        )) == inst & (0xF000u16 | 0x0FFFu16)
        &&& code | (encode::spec_vx(decode::spec_vx(inst)) | encode::spec_vy(
            decode::spec_vy(inst),
        ) | encode::spec_nibble(decode::spec_nibble(inst))) == inst & (0xF000u16 | 0x0FFFu16)
        &&& inst & (0xF000u16 | 0x0FFFu16) == inst
    }) by (bit_vector);
    assert(code == inst & 0xF0FF ==> code | encode::spec_vx(decode::spec_vx(inst)) == inst & (
    0xF0FFu16 | 0x0F00u16) && inst & (0xF0FFu16 | 0x0F00u16) == inst) by (bit_vector);
    assert(code == inst & 0xF00F ==> {
        &&& code | encode::spec_vx(decode::spec_vx(inst)) == inst & (0xF00Fu16 | 0x0F00u16)
        &&& code | (encode::spec_vx(decode::spec_vx(inst)) | encode::spec_vy(
            decode::spec_vy(inst),
        )) == inst & (0xF00Fu16 | 0x0FF0u16)
        &&& inst & (0xF00Fu16 | 0x0FF0u16) == inst
    }) by (bit_vector);
}

proof fn lemma_split_exact(code: u16)
    ensures
        (code | 0) & 0xFFFF == code,
{
    assert((code | 0) & 0xFFFF == code) by (bit_vector);
}

proof fn lemma_split_addr(code: u16, addr: u16)
    requires
        code & 0xF000 == code,
        addr < 0x1000,
    ensures
        (code | encode::spec_addr(addr)) & 0xF000 == code,
        decode::spec_addr(code | encode::spec_addr(addr)) == addr,
{
    assert((code | encode::spec_addr(addr)) & 0xF000 == code && decode::spec_addr(
        code | encode::spec_addr(addr),
    ) == addr) by (bit_vector)
        requires
            code & 0xF000 == code,
            addr < 0x1000,
    ;
}

proof fn lemma_split_vx(code: u16, vx: u8)
    requires
        code & 0x0F00 == 0,
        vx < 16,
    ensures
        code & 0xF0FF == code ==> (code | encode::spec_vx(vx)) & 0xF0FF == code,
        code & 0xF00F == code ==> (code | encode::spec_vx(vx)) & 0xF00F == code,
        decode::spec_vx(code | encode::spec_vx(vx)) == vx,
{
    assert((code & 0xF0FF == code ==> (code | encode::spec_vx(vx)) & 0xF0FF == code) && (code
        & 0xF00F == code ==> (code | encode::spec_vx(vx)) & 0xF00F == code) && decode::spec_vx(
        code | encode::spec_vx(vx),
    ) == vx) by (bit_vector)
        requires
            code & 0x0F00 == 0,
            vx < 16,
    ;
}

proof fn lemma_split_vx_vy(code: u16, vx: u8, vy: u8)
    requires
        code & 0xF00F == code,
        vx < 16,
        vy < 16,
    ensures
        (code | (encode::spec_vx(vx) | encode::spec_vy(vy))) & 0xF00F == code,
        decode::spec_vx(code | (encode::spec_vx(vx) | encode::spec_vy(vy))) == vx,
        decode::spec_vy(code | (encode::spec_vx(vx) | encode::spec_vy(vy))) == vy,
{
    assert((code | (encode::spec_vx(vx) | encode::spec_vy(vy))) & 0xF00F == code
        && decode::spec_vx(code | (encode::spec_vx(vx) | encode::spec_vy(vy))) == vx
        && decode::spec_vy(code | (encode::spec_vx(vx) | encode::spec_vy(vy))) == vy)
        by (bit_vector)
        requires
            code & 0xF00F == code,
            vx < 16,
            vy < 16,
    ;
}

proof fn lemma_split_vx_byte(code: u16, vx: u8, byte: u8)
    requires
        code & 0xF000 == code,
        vx < 16,
    ensures
        (code | (encode::spec_vx(vx) | encode::spec_byte(byte))) & 0xF000 == code,
        decode::spec_vx(code | (encode::spec_vx(vx) | encode::spec_byte(byte))) == vx,
        decode::spec_byte(code | (encode::spec_vx(vx) | encode::spec_byte(byte))) == byte,
{
    assert((code | (encode::spec_vx(vx) | encode::spec_byte(byte))) & 0xF000 == code
        && decode::spec_vx(code | (encode::spec_vx(vx) | encode::spec_byte(byte))) == vx
        && decode::spec_byte(code | (encode::spec_vx(vx) | encode::spec_byte(byte))) == byte)
        by (bit_vector)
        requires
            code & 0xF000 == code,
            vx < 16,
    ;
}

proof fn lemma_split_vx_vy_nibble(code: u16, vx: u8, vy: u8, nibble: u8)
    requires
        code & 0xF000 == code,
        vx < 16,
        vy < 16,
        nibble < 16,
    ensures
        ({
            let inst = code | (encode::spec_vx(vx) | encode::spec_vy(vy) | encode::spec_nibble(
                nibble,
            ));
            &&& inst & 0xF000 == code
            &&& decode::spec_vx(inst) == vx
            &&& decode::spec_vy(inst) == vy
            &&& decode::spec_nibble(inst) == nibble
        }),
{
    assert({
        let inst = code | (encode::spec_vx(vx) | encode::spec_vy(vy) | encode::spec_nibble(nibble));
        &&& inst & 0xF000 == code
        &&& decode::spec_vx(inst) == vx
        &&& decode::spec_vy(inst) == vy
        &&& decode::spec_nibble(inst) == nibble
    }) by (bit_vector)
        requires
            code & 0xF000 == code,
            vx < 16,
            vy < 16,
            nibble < 16,
    ;
}

} // verus!
