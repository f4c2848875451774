// Instructions and bytes as text.
use chip8::hexdump;
use chip8::inst::{ops, reverse_inst, DecodedInstruction, Instruction, Opcode, Operands};

#[test]
fn operands_as_text() {
    assert_eq!(Operands::Exact.to_string(), "");
    assert_eq!(Operands::Addr(0x123).to_string(), "123");
    assert_eq!(Operands::Addr(0x00A).to_string(), "00A");
    assert_eq!(Operands::Addr(0xABCD).to_string(), "ABCD");
    assert_eq!(Operands::Vx(0xF).to_string(), "F");
    assert_eq!(Operands::Vx(0x1F).to_string(), "1F");
    assert_eq!(Operands::VxVy(1, 0xE).to_string(), "1, E");
    assert_eq!(Operands::VxByte(0xA, 0x0B).to_string(), "A, 0B");
    assert_eq!(Operands::VxByte(0, 0xFF).to_string(), "0, FF");
    assert_eq!(Operands::VxVyNibble(1, 2, 3).to_string(), "1, 2, 3");
}

#[test]
fn instructions_as_text() {
    let text = |word: u16| Instruction::decode(word).unwrap().to_string();
    assert_eq!(text(ops::cls()), "cls ");
    assert_eq!(text(ops::jp(0x2AB)), "jp 2AB");
    assert_eq!(text(ops::ld(3, 0x0C)), "ld 3, 0C");
    assert_eq!(text(ops::drw(0xA, 0xB, 0xC)), "drw A, B, C");
    assert_eq!(text(ops::sknp(9)), "sknp 9");
    assert_eq!(Opcode::Ldkey.name(), "ldkey");
    assert_eq!(Opcode::Jp0.name(), "jp0");
}

#[test]
fn disassembly() {
    assert_eq!(reverse_inst(0x00E0), ("cls", DecodedInstruction::Exact));
    assert_eq!(reverse_inst(0x1ABC), ("jp", DecodedInstruction::Addr(0xABC)));
    assert_eq!(reverse_inst(0x8106), ("shr", DecodedInstruction::Vx(1)));
    // a shift with something in the field y is executed, but not disassembled
    assert_eq!(
        reverse_inst(0x8126),
        ("unknown", DecodedInstruction::Unknown(0x8126))
    );
    assert_eq!(
        reverse_inst(0xC1FE),
        ("rnd", DecodedInstruction::VxByte(1, 0xFE))
    );
    assert_eq!(
        reverse_inst(0xD123),
        ("drw", DecodedInstruction::VxVyNibble(1, 2, 3))
    );
    assert_eq!(reverse_inst(0x9AB0), ("snev", DecodedInstruction::VxVy(0xA, 0xB)));
    assert_eq!(
        reverse_inst(0x0123),
        ("unknown", DecodedInstruction::Unknown(0x0123))
    );

    let text = |word: u16| {
        let (name, decoded) = reverse_inst(word);
        decoded.to_string(name)
    };
    assert_eq!(text(0x00EE), "ret");
    assert_eq!(text(0x2ABC), "call 0xABC");
    assert_eq!(text(0xA00F), "ldi 0x00F");
    assert_eq!(text(0xF533), "bcd 5");
    assert_eq!(text(0x5AB0), "sev A, B");
    assert_eq!(text(0x3A07), "se A, 0x07");
    assert_eq!(text(0xDABC), "drw A, B, C");
    assert_eq!(text(0x0000), "unknown (0x0000)");
    assert_eq!(text(0xFFFF), "unknown (0xFFFF)");
    assert_eq!(
        DecodedInstruction::Addr(0xFFFF).to_string("jp"),
        "jp 0xFFFF"
    );
    assert_eq!(DecodedInstruction::Vx(0xAB).to_string("x"), "x AB");
}

#[test]
fn dumps() {
    assert_eq!(hexdump(&[]), "\n\n");
    assert_eq!(hexdump(&[0x0A]), "\n0a \n\n");
    assert_eq!(
        hexdump(&[0, 1, 2, 3, 4, 5, 6, 0xFF, 0x80, 0x09]),
        "\n00 01 02 03 04 05 06 ff \n80 09 \n\n"
    );
}
