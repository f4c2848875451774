// The text of the overlay beside the display.
use chip8::inst::ops;
use chip8::io::debug::{clip, frame, push_dec, registers};
use chip8::mem::{Load, Mem, Ram};

#[test]
fn decimal_numbers() {
    let mut text = String::from("n = ");
    push_dec(&mut text, 0);
    text.push(' ');
    push_dec(&mut text, 9);
    text.push(' ');
    push_dec(&mut text, 10);
    text.push(' ');
    push_dec(&mut text, 4096);
    text.push(' ');
    push_dec(&mut text, u64::MAX);
    assert_eq!(text, "n = 0 9 10 4096 18446744073709551615");
}

#[test]
fn text_is_clipped_to_the_terminal() {
    // a terminal of 10 columns and 5 rows
    let size = (10, 5);
    assert_eq!(clip("hello", 0, 0, size), Some((1, 1, "hello")));
    assert_eq!(clip("hello", 5, 4, size), Some((6, 5, "hello")));
    assert_eq!(clip("hello", 6, 4, size), Some((7, 5, "hell")));
    assert_eq!(clip("hello", 10, 0, size), Some((11, 1, "")));
    assert_eq!(clip("hello", 11, 0, size), Some((12, 1, "")));
    assert_eq!(clip("hello", 0, 5, size), None);
    assert_eq!(clip("", 3, 3, size), Some((4, 4, "")));
    // characters count, not bytes
    assert_eq!(clip("▒▒▒▒", 8, 0, size), Some((9, 1, "▒▒")));
    assert_eq!(
        clip("x", u16::MAX, u16::MAX - 1, (u16::MAX, u16::MAX)),
        Some((u16::MAX, u16::MAX, ""))
    );
}

#[test]
fn the_frame_goes_round_the_display() {
    let parts = frame(3, 2);
    let bar = "▒".to_string();
    assert_eq!(
        parts,
        vec![
            (0, 0, "▒▒▒▒▒".to_string()),
            (0, 3, "▒▒▒▒▒".to_string()),
            (0, 0, bar.clone()),
            (4, 0, bar.clone()),
            (0, 1, bar.clone()),
            (4, 1, bar.clone()),
            (0, 2, bar.clone()),
            (4, 2, bar.clone()),
        ]
    );
    assert_eq!(frame(64, 32).len(), 2 + 2 * 33);
    assert_eq!(frame(0, 0).len(), 4);
}

#[test]
fn the_state_of_the_machine_as_text() {
    let mut ram = Ram::new();
    ram.load(0x200, &[ops::drw(1, 2, 3)][..]).unwrap();
    let mut mem = Mem::from(ram);
    mem.pc = 0x200;
    mem.i = 0x2AB;
    mem.dt = 0x0C;
    mem.st = 0xFF;
    for reg in 0..16 {
        mem.reg.set(reg, 0x10 * reg + 1).unwrap();
    }
    mem.stack.push(0x0222).unwrap();
    mem.stack.push(0x0ABC).unwrap();

    let lines = registers(mem, (120, 40), (64, 32));
    let expected = [
        "term: 64x32 (120x40)",
        "",
        " [I]: 0x02AB     [DT]: 0x0C",
        "[PC]: 0x200      [ST]: 0xFF",
        "",
        "    [V0]: 0x01   [V8]: 0x81",
        "    [V1]: 0x11   [V9]: 0x91",
        "    [V2]: 0x21   [VA]: 0xA1",
        "    [V3]: 0x31   [VB]: 0xB1",
        "    [V4]: 0x41   [VC]: 0xC1",
        "    [V5]: 0x51   [VD]: 0xD1",
        "    [V6]: 0x61   [VE]: 0xE1",
        "    [V7]: 0x71   [VF]: 0xF1",
        "",
        "[INSTRUCTION]",
        "drw 1, 2, 3",
        "",
        "[STACK]",
        "0x0ABC",
        "0x0222",
        "      ",
        "      ",
        "      ",
        "      ",
        "      ",
        "      ",
        "      ",
        "      ",
        "      ",
        "      ",
        "      ",
        "      ",
        "      ",
        "      ",
        "<empty>",
    ];
    assert_eq!(lines, expected);

    // an unknown instruction, and an empty stack
    let lines = registers(Mem::default(), (80, 24), (64, 32));
    assert_eq!(lines[0], "term: 64x32 (80x24)");
    assert_eq!(lines[3], "[PC]: 0x000      [ST]: 0x00");
    assert_eq!(lines[15], "unknown (0x0000)");
    assert_eq!(lines[18], "      ");
    assert_eq!(lines[34], "<empty>");
    assert_eq!(lines.len(), 35);
}
