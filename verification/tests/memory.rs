// RAM, registers and stack.
use chip8::mem::{Error, Load, Mem, Ram, Registers, Stack, SPRITES};

#[test]
fn ram_load() {
    let mut ram = Ram::new();

    ram.load(0x100, &[1u8, 2, 3][..]).unwrap();
    assert_eq!(ram.read_bytes(0x100, 3).unwrap(), &[1, 2, 3]);

    ram.load(0x200, &[4u8, 5, 6][..]).unwrap();
    assert_eq!(ram.read_bytes(0x200, 3).unwrap(), &[4, 5, 6]);

    ram.load(0x300, &[0x0102u16, 0x0304][..]).unwrap();
    assert_eq!(ram.read_bytes(0x300, 4).unwrap(), &[0x1, 0x2, 0x3, 0x4]);

    assert_eq!(
        ram.load(0x1000, &[1u8, 2, 3][..]).unwrap_err(),
        Error::InvalidAddress { addr: 0x1000 }
    );

    let too_long = [0u8; 1024];
    assert_eq!(
        ram.load(0xF00, &too_long[..]).unwrap_err(),
        Error::LoadTooLong {
            addr: 0xF00,
            len: 1024
        }
    )
}

#[test]
fn sprites() {
    let ram = Ram::new();
    assert_eq!(
        ram.read_bytes(0x1B0, 5).unwrap(),
        [0xF0, 0x90, 0x90, 0x90, 0xF0]
    );
    assert_eq!(
        ram.read_bytes(0x1FB, 5).unwrap(),
        [0xF0, 0x80, 0xF0, 0x80, 0x80]
    );
}

#[test]
fn chip8_load() {
    let mut mem = Mem::default();
    mem.ram.load(0x200, &[1u8, 2, 3, 4][..]).unwrap();

    assert_eq!(mem.ram.read_bytes(0x200, 4).unwrap(), &[1, 2, 3, 4]);
}

#[test]
fn the_font_is_the_only_thing_in_new_ram() {
    let ram = Ram::new();
    let font: [u8; 80] = [
        0xF0, 0x90, 0x90, 0x90, 0xF0, 0x20, 0x60, 0x20, 0x20, 0x70, 0xF0, 0x10, 0xF0, 0x80, 0xF0,
        0xF0, 0x10, 0xF0, 0x10, 0xF0, 0x90, 0x90, 0xF0, 0x10, 0x10, 0xF0, 0x80, 0xF0, 0x10, 0xF0,
        0xF0, 0x80, 0xF0, 0x90, 0xF0, 0xF0, 0x10, 0x20, 0x40, 0x40, 0xF0, 0x90, 0xF0, 0x90, 0xF0,
        0xF0, 0x90, 0xF0, 0x10, 0xF0, 0xF0, 0x90, 0xF0, 0x90, 0x90, 0xE0, 0x90, 0xE0, 0x90, 0xE0,
        0xF0, 0x80, 0x80, 0x80, 0xF0, 0xE0, 0x90, 0x90, 0x90, 0xE0, 0xF0, 0x80, 0xF0, 0x80, 0xF0,
        0xF0, 0x80, 0xF0, 0x80, 0x80,
    ];
    assert_eq!(ram.read_bytes(0x1B0, 80).unwrap(), &font[..]);
    assert!(ram.read_bytes(0, 0x1B0).unwrap().iter().all(|&b| b == 0));
    assert!(ram.read_bytes(0x200, 0xE00).unwrap().iter().all(|&b| b == 0));
    for digit in 0..16 {
        let addr = ram.to_sprite_addr(digit).unwrap();
        assert_eq!(ram.read_bytes(addr, 5).unwrap(), &SPRITES[digit as usize][..]);
    }
}

#[test]
fn read_bytes_succeeds_exactly_on_ranges_within_ram() {
    let ram = Ram::new();
    for &(addr, len) in &[
        (0u16, 0u16),
        (0, 0x1000),
        (0xFFF, 0),
        (0xFFF, 1),
        (0xFF0, 16),
        (0x200, 0xE00),
    ] {
        assert_eq!(ram.read_bytes(addr, len).unwrap().len(), len as usize);
    }
    for &(addr, len) in &[
        (0u16, 0x1001u16),
        (0xFFF, 2),
        (0x1000, 0),
        (0x1000, 1),
        (0xFFFF, 0xFFFF),
        (0x8000, 0x8000),
        (1, 0xFFFF),
    ] {
        assert_eq!(
            ram.read_bytes(addr, len).unwrap_err(),
            Error::InvalidSlice { addr, len }
        );
    }
}

#[test]
fn programs_cannot_write_the_interpreter_area() {
    let mut ram = Ram::new();
    for addr in 0..0x200 {
        assert_eq!(
            ram.write_byte(addr, 1).unwrap_err(),
            Error::NotWritable { addr }
        );
        assert_eq!(ram.to_write_addr(addr), Err(Error::NotWritable { addr }));
    }
    assert_eq!(ram.read_bytes(0, 0x1B0).unwrap(), &[0u8; 0x1B0][..]);
    assert_eq!(ram.write_byte(0x200, 7), Ok(()));
    assert_eq!(ram.read_byte(0x200), Ok(7));
    assert_eq!(ram.write_byte(0xFFF, 9), Ok(()));
    assert_eq!(ram.read_byte(0xFFF), Ok(9));
    assert_eq!(
        ram.write_byte(0x1000, 1),
        Err(Error::InvalidAddress { addr: 0x1000 })
    );
    assert_eq!(
        ram.read_byte(0x1000),
        Err(Error::InvalidAddress { addr: 0x1000 })
    );
    assert_eq!(ram.to_read_addr(0xFFF), Ok(0xFFF));
    assert_eq!(ram.to_write_addr(0x200), Ok(0x200));
    assert_eq!(
        ram.to_write_addr(0xFFFF),
        Err(Error::InvalidAddress { addr: 0xFFFF })
    );
}

#[test]
fn write_bytes_checks_the_address_and_the_length() {
    let mut ram = Ram::new();
    assert_eq!(ram.write_bytes(0x300, &[1, 2, 3]), Ok(()));
    assert_eq!(ram.read_bytes(0x2FF, 5).unwrap(), &[0, 1, 2, 3, 0]);
    assert_eq!(
        ram.write_bytes(0x1FF, &[1]),
        Err(Error::NotWritable { addr: 0x1FF })
    );
    assert_eq!(
        ram.write_bytes(0x1000, &[]),
        Err(Error::InvalidAddress { addr: 0x1000 })
    );
    assert_eq!(
        ram.write_bytes(0xFFE, &[1, 2, 3]),
        Err(Error::LoadTooLong {
            addr: 0xFFE,
            len: 3
        })
    );
    assert_eq!(ram.read_bytes(0xFFE, 2).unwrap(), &[0, 0]);
    assert_eq!(ram.write_bytes(0xFFE, &[1, 2]), Ok(()));
    assert_eq!(ram.read_bytes(0xFFE, 2).unwrap(), &[1, 2]);
}

#[test]
fn words_are_loaded_big_endian() {
    let mut ram = Ram::new();
    assert_eq!(ram.load(0x200, &[0xABCDu16, 0x00FF, 0xFF00][..]), Ok(6));
    assert_eq!(
        ram.read_bytes(0x200, 6).unwrap(),
        &[0xAB, 0xCD, 0x00, 0xFF, 0xFF, 0x00]
    );
    assert_eq!(ram.load(0x300, &[1u8, 2, 3][..]), Ok(3));
    let words = [0u16; 0x800];
    assert_eq!(ram.load(0, &words[..]), Ok(0x1000));
    assert_eq!(
        ram.load(2, &words[..]),
        Err(Error::LoadTooLong {
            addr: 2,
            len: 0x1000
        })
    );
    let empty: [u16; 0] = [];
    assert_eq!(ram.load(0xFFF, &empty[..]), Ok(0));
    assert_eq!(
        ram.load(0x1000, &empty[..]),
        Err(Error::InvalidAddress { addr: 0x1000 })
    );
}

#[test]
fn sprite_addresses() {
    let ram = Ram::new();
    for digit in 0..=15u8 {
        assert_eq!(ram.to_sprite_addr(digit), Ok(0x1B0 + 5 * digit as u16));
    }
    assert_eq!(ram.to_sprite_addr(0), Ok(0x1B0));
    assert_eq!(ram.to_sprite_addr(15), Ok(0x1FB));
    for digit in 16..=255u8 {
        assert_eq!(
            ram.to_sprite_addr(digit),
            Err(Error::InvalidSprite { sprite: digit })
        );
    }
}

#[test]
fn registers_are_checked() {
    let mut registers = Registers::new();
    for reg in 0..16 {
        assert_eq!(registers.get(reg), Ok(0));
        assert_eq!(registers.set(reg, reg + 100), Ok(()));
    }
    for reg in 0..16 {
        assert_eq!(registers.get(reg), Ok(reg + 100));
    }
    assert_eq!(registers.get(16), Err(Error::InvalidRegister { reg: 16 }));
    assert_eq!(
        registers.set(255, 1),
        Err(Error::InvalidRegister { reg: 255 })
    );
    assert_eq!(Registers::default().get(15), Ok(0));
}

#[test]
fn stack_round_trip() {
    for n in 0..=16u16 {
        let mut stack = Stack::new();
        assert_eq!(stack.depth(), 0);
        for frame in 0..n {
            assert_eq!(stack.push(0x200 + frame), Ok(()));
            assert_eq!(stack.depth(), frame as usize + 1);
        }
        for frame in (0..n).rev() {
            assert_eq!(stack.pop(), Ok(0x200 + frame));
            assert_eq!(stack.depth(), frame as usize);
        }
        assert_eq!(stack.depth(), 0);
        assert_eq!(stack.pop(), Err(Error::StackEmpty));
    }
}

#[test]
fn stack_overflow_and_underflow() {
    let mut stack = Stack::default();
    assert_eq!(stack.pop(), Err(Error::StackEmpty));
    assert_eq!(stack.depth(), 0);
    for frame in 0..16 {
        stack.push(frame).unwrap();
    }
    assert_eq!(stack.depth(), 16);
    assert_eq!(
        stack.push(0x999),
        Err(Error::StackOverflow { frame: 0x999 })
    );
    assert_eq!(stack.depth(), 16);
    assert_eq!(stack.pop(), Ok(15));
    assert_eq!(stack.push(0x999), Ok(()));
    assert_eq!(stack.pop(), Ok(0x999));
}

#[test]
fn a_new_machine_is_zero_but_for_the_font() {
    let mem = Mem::default();
    assert_eq!((mem.i, mem.pc, mem.dt, mem.st), (0, 0, 0, 0));
    assert_eq!(mem.stack.depth(), 0);
    for reg in 0..16 {
        assert_eq!(mem.reg.get(reg), Ok(0));
    }
    assert_eq!(mem.ram.read_byte(0x1B0), Ok(0xF0));
    let mut ram = Ram::new();
    ram.load(0x200, &[0xAAu8][..]).unwrap();
    let mem = Mem::from(ram);
    assert_eq!(mem.ram.read_byte(0x200), Ok(0xAA));
    assert_eq!(mem.pc, 0);
}
