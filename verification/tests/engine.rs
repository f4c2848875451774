// Each instruction, executed on a machine with mock hardware.
use chip8::chip::{INST_STEP, REG_FLAG};
use chip8::hal::mocks::{MockDraw, MockHardware};
use chip8::hal::{Hardware, HardwareExt};
use chip8::inst::ops;
use chip8::mem;
use chip8::mem::Load;
use chip8::HwChip8;

fn chip() -> HwChip8<MockHardware> {
    HwChip8::new(MockHardware::default())
}

// Create a Chip8 mock with some preset registers
fn preset(registers: &[(u8, u8)]) -> HwChip8<MockHardware> {
    let mut chip = chip();
    for &(reg, val) in registers {
        chip.mem().reg.set(reg, val).unwrap();
    }
    chip
}

// Read a single register from the Chip8 instance
fn reg(chip: &mut HwChip8<MockHardware>, reg: u8) -> u8 {
    chip.mem().reg.get(reg).unwrap()
}

#[test]
fn cls() {
    let mut chip = chip();

    chip.exec(ops::cls()).unwrap();
    let Hardware { screen, .. } = chip.hardware();
    assert_eq!(screen.draws, vec![MockDraw::Clear]);
}

#[test]
fn ret() {
    let mut chip = chip();
    chip.mem().stack.push(0x344).unwrap();

    chip.exec(ops::ret()).unwrap();
    assert_eq!(chip.mem().stack.pop().unwrap_err(), mem::Error::StackEmpty);
    assert_eq!(chip.mem().pc, 0x346);
}

#[test]
fn jp() {
    let mut chip = chip();

    chip.exec(ops::jp(0x123)).unwrap();
    assert_eq!(chip.mem().pc, 0x0123);

    chip.exec(ops::jp(0x456)).unwrap();
    assert_eq!(chip.mem().pc, 0x0456);
}

#[test]
fn call() {
    let mut chip = chip();
    chip.mem().pc = 0x0123;

    chip.exec(ops::call(0x456)).unwrap();
    assert_eq!(chip.mem().pc, 0x0456);
    assert_eq!(chip.mem().stack.pop().unwrap(), 0x0123);
}

#[test]
fn se() {
    let mut chip = preset(&[(0, 0x23)]);

    chip.mem().pc = 0;
    chip.exec(ops::se(0, 0x23)).unwrap();
    assert_eq!(chip.mem().pc, 2 * INST_STEP);

    chip.mem().pc = 0;
    chip.exec(ops::se(0, 0x24)).unwrap();
    assert_eq!(chip.mem().pc, INST_STEP);
}

#[test]
fn sne() {
    let mut chip = preset(&[(0, 0x23)]);

    chip.mem().pc = 0;
    chip.exec(ops::sne(0, 0x23)).unwrap();
    assert_eq!(chip.mem().pc, INST_STEP);

    chip.mem().pc = 0;
    chip.exec(ops::sne(0, 0x24)).unwrap();
    assert_eq!(chip.mem().pc, 2 * INST_STEP);
}

#[test]
fn sev() {
    let mut chip = preset(&[(0, 0x23), (1, 0x23), (2, 0x34)]);

    chip.mem().pc = 0;
    chip.exec(ops::sev(0, 1)).unwrap();
    assert_eq!(chip.mem().pc, 2 * INST_STEP);

    chip.mem().pc = 0;
    chip.exec(ops::sev(0, 2)).unwrap();
    assert_eq!(chip.mem().pc, INST_STEP);
}

#[test]
fn ld() {
    let mut chip = chip();

    chip.exec(ops::ld(0, 0x12)).unwrap();
    assert_eq!(reg(&mut chip, 0), 0x12);

    chip.exec(ops::ld(0xE, 0x34)).unwrap();
    assert_eq!(reg(&mut chip, 0xE), 0x34);
}

#[test]
fn add() {
    let mut chip = preset(&[(0, 10), (1, 254)]);

    chip.exec(ops::add(0, 0x02)).unwrap();
    assert_eq!(reg(&mut chip, 0), 12);

    chip.exec(ops::add(1, 0x02)).unwrap();
    assert_eq!(reg(&mut chip, 1), 0);
}

#[test]
fn ldv() {
    let mut chip = preset(&[(1, 123)]);

    chip.exec(ops::ldv(0, 1)).unwrap();
    assert_eq!(reg(&mut chip, 0), 123);
    assert_eq!(reg(&mut chip, 1), 123);
}

#[test]
fn or() {
    let mut chip = preset(&[(0, 123), (1, 45)]);

    chip.exec(ops::or(0, 1)).unwrap();
    assert_eq!(reg(&mut chip, 0), 123 | 45);
}

#[test]
fn and() {
    let mut chip = preset(&[(0, 123), (1, 45)]);

    chip.exec(ops::and(0, 1)).unwrap();
    assert_eq!(reg(&mut chip, 0), 123 & 45);
}

#[test]
fn xor() {
    let mut chip = preset(&[(0, 123), (1, 45)]);

    chip.exec(ops::xor(0, 1)).unwrap();
    assert_eq!(reg(&mut chip, 0), 123 ^ 45);
}

#[test]
fn addv() {
    let mut chip = preset(&[(0, 254), (1, 2), (2, 3)]);

    chip.exec(ops::addv(0, 1)).unwrap();
    assert_eq!(reg(&mut chip, 0), 0);
    assert_eq!(reg(&mut chip, REG_FLAG), 1);

    chip.exec(ops::addv(1, 2)).unwrap();
    assert_eq!(reg(&mut chip, 1), 5);
    assert_eq!(reg(&mut chip, REG_FLAG), 0);
}

#[test]
fn sub() {
    let mut chip = preset(&[(0, 3), (1, 1), (2, 2)]);

    chip.exec(ops::sub(0, 1)).unwrap();
    assert_eq!(reg(&mut chip, 0), 2);
    assert_eq!(reg(&mut chip, REG_FLAG), 1);

    chip.exec(ops::sub(1, 2)).unwrap();
    assert_eq!(reg(&mut chip, 1), 255);
    assert_eq!(reg(&mut chip, REG_FLAG), 0);
}

#[test]
fn shr() {
    let mut chip = preset(&[(0, 0b00000101)]);

    chip.exec(ops::shr(0)).unwrap();
    assert_eq!(reg(&mut chip, 0), 0b00000010);
    assert_eq!(reg(&mut chip, REG_FLAG), 1);

    chip.exec(ops::shr(0)).unwrap();
    assert_eq!(reg(&mut chip, 0), 0b00000001);
    assert_eq!(reg(&mut chip, REG_FLAG), 0);
}

#[test]
fn subn() {
    let mut chip = preset(&[(0, 3), (1, 1), (2, 2)]);

    chip.exec(ops::subn(1, 0)).unwrap();
    assert_eq!(reg(&mut chip, 1), 2);
    assert_eq!(reg(&mut chip, REG_FLAG), 1);

    chip.exec(ops::subn(0, 2)).unwrap();
    assert_eq!(reg(&mut chip, 0), 255);
    assert_eq!(reg(&mut chip, REG_FLAG), 0);
}

#[test]
fn shl() {
    let mut chip = preset(&[(0, 0b10100000)]);

    chip.exec(ops::shl(0)).unwrap();
    assert_eq!(reg(&mut chip, 0), 0b01000000);
    assert_eq!(reg(&mut chip, REG_FLAG), 1);

    chip.exec(ops::shl(0)).unwrap();
    assert_eq!(reg(&mut chip, 0), 0b10000000);
    assert_eq!(reg(&mut chip, REG_FLAG), 0);
}

#[test]
fn snev() {
    let mut chip = preset(&[(0, 1), (1, 2), (2, 1)]);

    chip.mem().pc = 0;
    chip.exec(ops::snev(0, 1)).unwrap();
    assert_eq!(chip.mem().pc, 2 * INST_STEP);

    chip.mem().pc = 0;
    chip.exec(ops::snev(0, 2)).unwrap();
    assert_eq!(chip.mem().pc, INST_STEP);
}

#[test]
fn ldi() {
    let mut chip = chip();

    chip.exec(ops::ldi(0x123)).unwrap();
    assert_eq!(chip.mem().i, 0x123);
}

#[test]
fn jp0() {
    let mut chip = preset(&[(0, 3)]);

    chip.exec(ops::jp0(0x120)).unwrap();
    assert_eq!(chip.mem().pc, 0x123);
}

#[test]
fn rnd() {
    let mut chip = chip();
    chip.rng().set_sequence([3, 2, 5].to_vec());

    chip.exec(ops::rnd(0, 0xFF)).unwrap();
    assert_eq!(reg(&mut chip, 0), 3);

    chip.exec(ops::rnd(0, 0xFF)).unwrap();
    assert_eq!(reg(&mut chip, 0), 2);

    chip.exec(ops::rnd(0, 0x04)).unwrap();
    assert_eq!(reg(&mut chip, 0), 4);
}

#[test]
fn drw() {
    let mut chip = chip();

    let data = [0x01, 0x02, 0x03, 0x04];
    let x = 5;
    let y = 10;

    chip.screen().set_collision(true);
    chip.mem().ram.load(0x300, &data[..]).unwrap();
    chip.mem().i = 0x300;

    chip.mem().reg.set(0, x).unwrap();
    chip.mem().reg.set(1, y).unwrap();
    chip.exec(ops::drw(0, 1, 4)).unwrap();

    assert_eq!(reg(&mut chip, REG_FLAG), 1);
    assert_eq!(
        chip.screen().draws,
        vec![MockDraw::Draw {
            x,
            y,
            data: data.to_vec()
        }]
    );

    chip.screen().set_collision(false);
    chip.exec(ops::drw(0, 1, 4)).unwrap();
    assert_eq!(reg(&mut chip, REG_FLAG), 0);
}

#[test]
fn skp() {
    let mut chip = chip();
    chip.keypad().set_sequence([Some(1), Some(2)].to_vec());

    chip.mem().pc = 0;
    chip.mem().reg.set(0, 1).unwrap();
    chip.exec(ops::skp(0)).unwrap();
    assert_eq!(chip.mem().pc, 2 * INST_STEP);

    chip.mem().pc = 0;
    chip.exec(ops::skp(0)).unwrap();
    assert_eq!(chip.mem().pc, INST_STEP);
}

#[test]
fn sknp_x() {
    let mut chip = chip();
    chip.keypad().set_sequence([Some(1), Some(2)].to_vec());

    chip.mem().pc = 0;
    chip.mem().reg.set(0, 1).unwrap();
    chip.exec(ops::sknp(0)).unwrap();
    assert_eq!(chip.mem().pc, INST_STEP);

    chip.mem().pc = 0;
    chip.exec(ops::sknp(0)).unwrap();
    assert_eq!(chip.mem().pc, 2 * INST_STEP);
}

#[test]
fn lddtv() {
    let mut chip = chip();

    chip.mem().dt = 123;
    chip.exec(ops::lddtv(0)).unwrap();
    assert_eq!(reg(&mut chip, 0), 123);
}

#[test]
fn ldkey() {
    let mut chip = chip();
    chip.keypad().set_sequence([None, None, Some(1)].to_vec());

    chip.exec(ops::ldkey(0)).unwrap();
    assert_eq!(reg(&mut chip, 0), 1);
}

#[test]
fn lddt() {
    let mut chip = preset(&[(0, 123)]);

    chip.exec(ops::lddt(0)).unwrap();
    assert_eq!(chip.mem().dt, 123);
}

#[test]
fn ldst() {
    let mut chip = preset(&[(0, 123)]);

    chip.exec(ops::ldst(0)).unwrap();
    assert_eq!(chip.mem().st, 123);
}

#[test]
fn addi() {
    let mut chip = preset(&[(0, 0x03)]);

    chip.mem().i = 0x120;
    chip.exec(ops::addi(0)).unwrap();
    assert_eq!(chip.mem().i, 0x123);
}

#[test]
fn sprite() {
    let mut chip = preset(&[(0, 0), (1, 0xF)]);
    let first = chip.mem().ram.to_sprite_addr(0).unwrap();
    let last = chip.mem().ram.to_sprite_addr(0xF).unwrap();

    chip.exec(ops::sprite(0)).unwrap();
    assert_eq!(chip.mem().i, first);

    chip.exec(ops::sprite(1)).unwrap();
    assert_eq!(chip.mem().i, last);
}

#[test]
fn bcd() {
    let mut chip = preset(&[(0, 123)]);

    chip.mem().i = 0x300;
    chip.exec(ops::bcd(0)).unwrap();
    assert_eq!(chip.mem().ram.read_bytes(0x300, 3).unwrap(), &[1, 2, 3]);
}

#[test]
fn sviv() {
    let mut chip = chip();

    for vx in 0..16 {
        chip.mem().reg.set(vx, vx + 1).unwrap();
    }

    chip.mem().i = 0x300;
    chip.exec(ops::sviv(0xF)).unwrap();
    assert_eq!(
        chip.mem().ram.read_bytes(0x300, 16).unwrap(),
        [1, 2, 3, 4, 5, 6, 7, 8, 9, 10, 11, 12, 13, 14, 15, 16]
    );

    chip.mem().i = 0x400;
    chip.exec(ops::sviv(7)).unwrap();
    assert_eq!(
        chip.mem().ram.read_bytes(0x400, 16).unwrap(),
        [1, 2, 3, 4, 5, 6, 7, 8, 0, 0, 0, 0, 0, 0, 0, 0]
    );
}

#[test]
fn ldiv() {
    let mut chip = chip();
    let data = [1, 2, 3, 4, 5, 6, 7, 8, 9, 10, 11, 12, 13, 14, 15, 16];

    chip.mem().ram.load(0x300, &data[..]).unwrap();
    chip.mem().i = 0x300;
    chip.exec(ops::ldiv(0xF)).unwrap();

    for vx in 0..16 {
        assert_eq!(reg(&mut chip, vx), data[vx as usize]);
    }

    chip.mem().i = 0x308;
    chip.exec(ops::ldiv(7)).unwrap();

    for vx in 0..16 {
        assert_eq!(reg(&mut chip, vx), (vx % 8) + 9);
    }
}
