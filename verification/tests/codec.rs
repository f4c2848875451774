// The bit-field codec, the opcode table and the assembler functions.
use chip8::inst::bytecode::{decode, encode};
use chip8::inst::{ops, Instruction, Opcode, Operands, Shape};

#[test]
fn encode() {
    assert_eq!(encode::addr(0xABCD), 0x0BCD);
    assert_eq!(encode::vx(0xAB), 0x0B00);
    assert_eq!(encode::vy(0xAB), 0x00B0);
    assert_eq!(encode::byte(0xAB), 0x00AB);
    assert_eq!(encode::nibble(0xAB), 0x000B);
}

#[test]
fn decode() {
    assert_eq!(decode::addr(0xABCD), 0x0BCD);
    assert_eq!(decode::vx(0xABCD), 0xB);
    assert_eq!(decode::vy(0xABCD), 0xC);
    assert_eq!(decode::byte(0xABCD), 0xCD);
    assert_eq!(decode::nibble(0xABCD), 0xD);
}

#[test]
fn registers() {
    assert_eq!(0x1234u16, 0x1234);
    assert_eq!(
        0x1000 | encode::vx(2) | encode::vy(3) | encode::nibble(4),
        0x1234
    );
    assert_eq!(0x1000 | encode::addr(0x0234), 0x1234);
    assert_eq!(0x1200 | encode::byte(0x34), 0x1234);
}

#[test]
fn instruction_invalid_instruction() {
    assert_eq!(Instruction::decode(0x0123), None);
}

#[test]
fn instructions_invalid_instruction() {
    assert_eq!(Opcode::decode(0x0123), None);
    assert_eq!(Instruction::decode(0x0123), None);
}

#[test]
fn instruction_assembler() {
    let prog = [ops::cls(), ops::jp(0x123), ops::drw(1, 2, 3), ops::ret()];

    assert_eq!(prog, [0x00E0, 0x1123, 0xD123, 0x00EE]);
}

#[test]
fn instructions_assembler() {
    let prog = [ops::cls(), ops::jp(0x123), ops::drw(1, 2, 3), ops::ret()];

    assert_eq!(prog, [0x00E0, 0x1123, 0xD123, 0x00EE]);
}

#[test]
fn instruction_program() {
    let prog = [ops::cls(), ops::jp(0x123), ops::drw(1, 2, 3), ops::ret()];

    assert_eq!(prog, [0x00E0, 0x1123, 0xD123, 0x00EE]);
}

#[test]
fn parser_program() {
    let prog = [ops::cls(), ops::jp(0x123), ops::call(0x234), ops::ret()];

    assert_eq!(prog, [0x00E0, 0x1123, 0x2234, 0x00EE]);
}

fn all_instructions() {
    assert_eq!(ops::cls(), 0x00E0);
    assert_eq!(ops::ret(), 0x00EE);
    assert_eq!(ops::jp(0x123), 0x1123);
    assert_eq!(ops::call(0x123), 0x2123);
    assert_eq!(ops::se(1, 0x23), 0x3123);
    assert_eq!(ops::sne(1, 0x23), 0x4123);
    assert_eq!(ops::sev(1, 2), 0x5120);
    assert_eq!(ops::ld(1, 0x23), 0x6123);
    assert_eq!(ops::add(1, 0x23), 0x7123);
    assert_eq!(ops::ldv(1, 2), 0x8120);
    assert_eq!(ops::or(1, 2), 0x8121);
    assert_eq!(ops::and(1, 2), 0x8122);
    assert_eq!(ops::xor(1, 2), 0x8123);
    assert_eq!(ops::addv(1, 2), 0x8124);
    assert_eq!(ops::sub(1, 2), 0x8125);
    assert_eq!(ops::shr(1), 0x8106);
    assert_eq!(ops::subn(1, 2), 0x8127);
    assert_eq!(ops::shl(1), 0x810E);
    assert_eq!(ops::snev(1, 2), 0x9120);
    assert_eq!(ops::ldi(0x123), 0xA123);
    assert_eq!(ops::jp0(0x123), 0xB123);
    assert_eq!(ops::rnd(1, 0x23), 0xC123);
    assert_eq!(ops::drw(1, 2, 3), 0xD123);
    assert_eq!(ops::skp(1), 0xE19E);
    assert_eq!(ops::sknp(1), 0xE1A1);
    assert_eq!(ops::lddtv(1), 0xF107);
    assert_eq!(ops::ldkey(1), 0xF10A);
    assert_eq!(ops::lddt(1), 0xF115);
    assert_eq!(ops::ldst(1), 0xF118);
    assert_eq!(ops::addi(1), 0xF11E);
    assert_eq!(ops::sprite(1), 0xF129);
    assert_eq!(ops::bcd(1), 0xF133);
    assert_eq!(ops::sviv(1), 0xF155);
    assert_eq!(ops::ldiv(1), 0xF165);
}

#[test]
fn instruction_instructions() {
    all_instructions();
}

#[test]
fn parser_instructions() {
    all_instructions();
}

// A word for each of the 34 opcodes, with operands that fit their fields.
fn sample_words() -> Vec<(u16, Opcode, &'static str, Operands)> {
    vec![
        (ops::cls(), Opcode::Cls, "cls", Operands::Exact),
        (ops::ret(), Opcode::Ret, "ret", Operands::Exact),
        (ops::jp(0xABC), Opcode::Jp, "jp", Operands::Addr(0xABC)),
        (ops::call(0xABC), Opcode::Call, "call", Operands::Addr(0xABC)),
        (ops::se(0xC, 0xBC), Opcode::Se, "se", Operands::VxByte(0xC, 0xBC)),
        (ops::sne(0xC, 0xBC), Opcode::Sne, "sne", Operands::VxByte(0xC, 0xBC)),
        (ops::sev(0xC, 0xB), Opcode::Sev, "sev", Operands::VxVy(0xC, 0xB)),
        (ops::ld(0xC, 0xBC), Opcode::Ld, "ld", Operands::VxByte(0xC, 0xBC)),
        (ops::add(0xC, 0xBC), Opcode::Add, "add", Operands::VxByte(0xC, 0xBC)),
        (ops::ldv(0xC, 0xB), Opcode::Ldv, "ldv", Operands::VxVy(0xC, 0xB)),
        (ops::or(0xC, 0xB), Opcode::Or, "or", Operands::VxVy(0xC, 0xB)),
        (ops::and(0xC, 0xB), Opcode::And, "and", Operands::VxVy(0xC, 0xB)),
        (ops::xor(0xC, 0xB), Opcode::Xor, "xor", Operands::VxVy(0xC, 0xB)),
        (ops::addv(0xC, 0xB), Opcode::Addv, "addv", Operands::VxVy(0xC, 0xB)),
        (ops::sub(0xC, 0xB), Opcode::Sub, "sub", Operands::VxVy(0xC, 0xB)),
        (ops::shr(0xC), Opcode::Shr, "shr", Operands::Vx(0xC)),
        (ops::subn(0xC, 0xB), Opcode::Subn, "subn", Operands::VxVy(0xC, 0xB)),
        (ops::shl(0xC), Opcode::Shl, "shl", Operands::Vx(0xC)),
        (ops::snev(0xC, 0xB), Opcode::Snev, "snev", Operands::VxVy(0xC, 0xB)),
        (ops::ldi(0xABC), Opcode::Ldi, "ldi", Operands::Addr(0xABC)),
        (ops::jp0(0xABC), Opcode::Jp0, "jp0", Operands::Addr(0xABC)),
        (ops::rnd(0xC, 0xBC), Opcode::Rnd, "rnd", Operands::VxByte(0xC, 0xBC)),
        (
            ops::drw(0xC, 0xB, 0xA),
            Opcode::Drw,
            "drw",
            Operands::VxVyNibble(0xC, 0xB, 0xA),
        ),
        (ops::skp(0xC), Opcode::Skp, "skp", Operands::Vx(0xC)),
        (ops::sknp(0xC), Opcode::Sknp, "sknp", Operands::Vx(0xC)),
        (ops::lddtv(0xC), Opcode::Lddtv, "lddtv", Operands::Vx(0xC)),
        (ops::ldkey(0xC), Opcode::Ldkey, "ldkey", Operands::Vx(0xC)),
        (ops::lddt(0xC), Opcode::Lddt, "lddt", Operands::Vx(0xC)),
        (ops::ldst(0xC), Opcode::Ldst, "ldst", Operands::Vx(0xC)),
        (ops::addi(0xC), Opcode::Addi, "addi", Operands::Vx(0xC)),
        (ops::sprite(0xC), Opcode::Sprite, "sprite", Operands::Vx(0xC)),
        (ops::bcd(0xC), Opcode::Bcd, "bcd", Operands::Vx(0xC)),
        (ops::sviv(0xC), Opcode::Sviv, "sviv", Operands::Vx(0xC)),
        (ops::ldiv(0xC), Opcode::Ldiv, "ldiv", Operands::Vx(0xC)),
    ]
}

#[test]
fn every_opcode_decodes_to_what_it_was_encoded_from() {
    let words = sample_words();
    assert_eq!(words.len(), 34);
    for (word, opcode, name, operands) in words {
        let decoded = Instruction::decode(word).unwrap();
        assert_eq!(decoded.code(), opcode.code());
        assert_eq!(decoded.opcode(), &opcode);
        assert_eq!(decoded.name(), name);
        assert_eq!(decoded.operands(), &operands);
        assert_eq!(opcode.code() | operands.encode(), word);
        assert_eq!(decoded.encode(), word);
    }
}

#[test]
fn encoding_what_a_word_decodes_to_gives_the_word_back() {
    for word in 0..=0xFFFFu16 {
        if let Some(instruction) = Instruction::decode(word) {
            let covered = match instruction.opcode() {
                Opcode::Shr | Opcode::Shl => 0xFF0F,
                _ => 0xFFFF,
            };
            assert_eq!(instruction.encode(), word & covered);
        }
    }
}

#[test]
fn decoding_counts() {
    let decoded = (0..=0xFFFFu16)
        .filter(|&word| Opcode::decode(word).is_some())
        .count();
    // cls and ret; twelve opcodes with a free low twelve bits; 5xy0, 9xy0 and the nine 8xyN
    // with two free nibbles; the eleven ExNN and FxNN with one.
    assert_eq!(decoded, 2 + 10 * 0x1000 + 11 * 0x100 + 11 * 0x10);
}

#[test]
fn operands_are_masked_to_their_fields() {
    assert_eq!(ops::jp(0xFABC), 0x1ABC);
    assert_eq!(ops::ld(0xAB, 0xCD), 0x6BCD);
    assert_eq!(ops::drw(0x12, 0x34, 0x56), 0xD246);
    assert_eq!(Operands::Exact.encode(), 0);
    assert_eq!(Operands::VxVyNibble(0xFF, 0xFF, 0xFF).encode(), 0x0FFF);
}

#[test]
fn shapes() {
    assert_eq!(Opcode::Cls.shape(), Shape::Exact);
    assert_eq!(Opcode::Jp.shape(), Shape::Addr);
    assert_eq!(Opcode::Shr.shape(), Shape::Vx);
    assert_eq!(Opcode::Sev.shape(), Shape::VxVy);
    assert_eq!(Opcode::Rnd.shape(), Shape::VxByte);
    assert_eq!(Opcode::Drw.shape(), Shape::VxVyNibble);
    assert_eq!(Shape::VxVyNibble.operands(0xD123), Operands::VxVyNibble(1, 2, 3));
    assert_eq!(Shape::Addr.operands(0xD123), Operands::Addr(0x123));
    // shr and shl decode whatever the field y holds
    assert_eq!(Opcode::decode(0x8AB6), Some(Opcode::Shr));
    assert_eq!(Opcode::decode(0x8ABE), Some(Opcode::Shl));
    assert_eq!(Opcode::decode(0x8AB8), None);
    assert_eq!(Opcode::decode(0x5AB1), None);
    assert_eq!(Opcode::decode(0xE09F), None);
    assert_eq!(Opcode::decode(0xF0FF), None);
    assert_eq!(Opcode::decode(0x0000), None);
}
