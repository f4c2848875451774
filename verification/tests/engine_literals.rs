// Each instruction, given as a literal instruction word.
use chip8::chip::{INST_STEP, REG_FLAG};
use chip8::hal::mocks::{MockDraw, MockHardware};
use chip8::hal::{Hardware, HardwareExt};
use chip8::mem::Load;
use chip8::HwChip8;

fn chip() -> HwChip8<MockHardware> {
    HwChip8::new(MockHardware::default())
}

// Create a Chip8 mock with some preset registers
fn preset(registers: &[(u8, u8)]) -> HwChip8<MockHardware> {
    let mut chip = chip();
    for &(reg, val) in registers {
        chip.mem().reg.set(reg, val).unwrap();
    }
    chip
}

// Read a single register from the Chip8 instance
fn reg(chip: &mut HwChip8<MockHardware>, reg: u8) -> u8 {
    chip.mem().reg.get(reg).unwrap()
}

#[test]
fn chip8_cls() {
    let mut chip = chip();

    chip.exec(0x00E0).unwrap();
    let Hardware { screen, .. } = chip.hardware();
    assert_eq!(screen.draws, vec![MockDraw::Clear]);
}

#[test]
fn jp_nnn() {
    let mut chip = chip();

    chip.exec(0x1123).unwrap();
    assert_eq!(chip.mem().pc, 0x0123);

    chip.exec(0x1456).unwrap();
    assert_eq!(chip.mem().pc, 0x0456);
}

#[test]
fn call_nnn() {
    let mut chip = chip();
    chip.mem().pc = 0x0123;

    chip.exec(0x2456).unwrap();
    assert_eq!(chip.mem().pc, 0x0456);
    assert_eq!(chip.mem().stack.pop().unwrap(), 0x0123);
}

#[test]
fn se_x_kk() {
    let mut chip = preset(&[(0, 0x23)]);

    chip.mem().pc = 0;
    chip.exec(0x3023).unwrap();
    assert_eq!(chip.mem().pc, 2 * INST_STEP);

    chip.mem().pc = 0;
    chip.exec(0x3024).unwrap();
    assert_eq!(chip.mem().pc, INST_STEP);
}

#[test]
fn sne_x_kk() {
    let mut chip = preset(&[(0, 0x23)]);

    chip.mem().pc = 0;
    chip.exec(0x4023).unwrap();
    assert_eq!(chip.mem().pc, INST_STEP);

    chip.mem().pc = 0;
    chip.exec(0x4024).unwrap();
    assert_eq!(chip.mem().pc, 2 * INST_STEP);
}

#[test]
fn se_x_y() {
    let mut chip = preset(&[(0, 0x23), (1, 0x23), (2, 0x34)]);

    chip.mem().pc = 0;
    chip.exec(0x5010).unwrap();
    assert_eq!(chip.mem().pc, 2 * INST_STEP);

    chip.mem().pc = 0;
    chip.exec(0x5020).unwrap();
    assert_eq!(chip.mem().pc, INST_STEP);
}

#[test]
fn ld_x_kk() {
    let mut chip = chip();

    chip.exec(0x6012).unwrap();
    assert_eq!(reg(&mut chip, 0), 0x12);

    chip.exec(0x6E34).unwrap();
    assert_eq!(reg(&mut chip, 0xE), 0x34);
}

#[test]
fn add_x_kk() {
    let mut chip = preset(&[(0, 10), (1, 254)]);

    chip.exec(0x7002).unwrap();
    assert_eq!(reg(&mut chip, 0), 12);

    chip.exec(0x7102).unwrap();
    assert_eq!(reg(&mut chip, 1), 0);
}

#[test]
fn ld_x_y() {
    let mut chip = preset(&[(1, 123)]);

    chip.exec(0x8010).unwrap();
    assert_eq!(reg(&mut chip, 0), 123);
    assert_eq!(reg(&mut chip, 1), 123);
}

#[test]
fn or_x_y() {
    let mut chip = preset(&[(0, 123), (1, 45)]);

    chip.exec(0x8011).unwrap();
    assert_eq!(reg(&mut chip, 0), 123 | 45);
}

#[test]
fn chip8_and_x_y() {
    let mut chip = preset(&[(0, 123), (1, 45)]);

    chip.exec(0x8012).unwrap();
    assert_eq!(reg(&mut chip, 0), 123 & 45);
}

#[test]
fn chip8_xor_x_y() {
    let mut chip = preset(&[(0, 123), (1, 45)]);

    chip.exec(0x8013).unwrap();
    assert_eq!(reg(&mut chip, 0), 123 ^ 45);
}

#[test]
fn chip8_add_x_y() {
    let mut chip = preset(&[(0, 254), (1, 2), (2, 3)]);

    chip.exec(0x8014).unwrap();
    assert_eq!(reg(&mut chip, 0), 0);
    assert_eq!(reg(&mut chip, REG_FLAG), 1);

    chip.exec(0x8124).unwrap();
    assert_eq!(reg(&mut chip, 1), 5);
    assert_eq!(reg(&mut chip, REG_FLAG), 0);
}

#[test]
fn chip8_sub_x_y() {
    let mut chip = preset(&[(0, 3), (1, 1), (2, 2)]);

    chip.exec(0x8015).unwrap();
    assert_eq!(reg(&mut chip, 0), 2);
    assert_eq!(reg(&mut chip, REG_FLAG), 1);

    chip.exec(0x8125).unwrap();
    assert_eq!(reg(&mut chip, 1), 255);
    assert_eq!(reg(&mut chip, REG_FLAG), 0);
}

#[test]
fn chip8_shr_x() {
    let mut chip = preset(&[(0, 0b00000101)]);

    chip.exec(0x8006).unwrap();
    assert_eq!(reg(&mut chip, 0), 0b00000010);
    assert_eq!(reg(&mut chip, REG_FLAG), 1);

    chip.exec(0x8006).unwrap();
    assert_eq!(reg(&mut chip, 0), 0b00000001);
    assert_eq!(reg(&mut chip, REG_FLAG), 0);
}

#[test]
fn chip8_subn_x_y() {
    let mut chip = preset(&[(0, 3), (1, 1), (2, 2)]);

    chip.exec(0x8107).unwrap();
    assert_eq!(reg(&mut chip, 1), 2);
    assert_eq!(reg(&mut chip, REG_FLAG), 1);

    chip.exec(0x8027).unwrap();
    assert_eq!(reg(&mut chip, 0), 255);
    assert_eq!(reg(&mut chip, REG_FLAG), 0);
}

#[test]
fn chip8_shl_x() {
    let mut chip = preset(&[(0, 0b10100000)]);

    chip.exec(0x800E).unwrap();
    assert_eq!(reg(&mut chip, 0), 0b01000000);
    assert_eq!(reg(&mut chip, REG_FLAG), 1);

    chip.exec(0x800E).unwrap();
    assert_eq!(reg(&mut chip, 0), 0b10000000);
    assert_eq!(reg(&mut chip, REG_FLAG), 0);
}

#[test]
fn chip8_sne_x_y() {
    let mut chip = preset(&[(0, 1), (1, 2), (2, 1)]);

    chip.mem().pc = 0;
    chip.exec(0x9010).unwrap();
    assert_eq!(chip.mem().pc, 2 * INST_STEP);

    chip.mem().pc = 0;
    chip.exec(0x9020).unwrap();
    assert_eq!(chip.mem().pc, INST_STEP);
}

#[test]
fn chip8_ld_i_nnn() {
    let mut chip = chip();

    chip.exec(0xA123).unwrap();
    assert_eq!(chip.mem().i, 0x123);
}

#[test]
fn chip8_jp0_nnn() {
    let mut chip = preset(&[(0, 3)]);

    chip.exec(0xB120).unwrap();
    assert_eq!(chip.mem().pc, 0x123);
}

#[test]
fn chip8_rnd_x_kk() {
    let mut chip = chip();
    chip.rng().set_sequence([3, 2, 5].to_vec());

    chip.exec(0xC0FF).unwrap();
    assert_eq!(reg(&mut chip, 0), 3);

    chip.exec(0xC0FF).unwrap();
    assert_eq!(reg(&mut chip, 0), 2);

    chip.exec(0xC004).unwrap();
    assert_eq!(reg(&mut chip, 0), 4);
}

#[test]
fn chip8_drw_x_y_n() {
    let mut chip = chip();

    let data = [0x01, 0x02, 0x03, 0x04];
    let x = 5;
    let y = 10;

    chip.screen().set_collision(true);
    chip.mem().ram.load(0x300, &data[..]).unwrap();
    chip.mem().i = 0x300;

    chip.mem().reg.set(0, x).unwrap();
    chip.mem().reg.set(1, y).unwrap();
    chip.exec(0xD014).unwrap();

    assert_eq!(reg(&mut chip, REG_FLAG), 1);
    assert_eq!(
        chip.screen().draws,
        vec![MockDraw::Draw {
            x,
            y,
            data: data.to_vec()
        }]
    );

    chip.screen().set_collision(false);
    chip.exec(0xD014).unwrap();
    assert_eq!(reg(&mut chip, REG_FLAG), 0);
}

#[test]
fn chip8_skp_x() {
    let mut chip = chip();
    chip.keypad().set_sequence([Some(1), Some(2)].to_vec());

    chip.mem().pc = 0;
    chip.mem().reg.set(0, 1).unwrap();
    chip.exec(0xE09E).unwrap();
    assert_eq!(chip.mem().pc, 2 * INST_STEP);

    chip.mem().pc = 0;
    chip.exec(0xE09E).unwrap();
    assert_eq!(chip.mem().pc, INST_STEP);
}

#[test]
fn chip8_sknp_x() {
    let mut chip = chip();
    chip.keypad().set_sequence([Some(1), Some(2)].to_vec());

    chip.mem().pc = 0;
    chip.mem().reg.set(0, 1).unwrap();
    chip.exec(0xE0A1).unwrap();
    assert_eq!(chip.mem().pc, INST_STEP);

    chip.mem().pc = 0;
    chip.exec(0xE0A1).unwrap();
    assert_eq!(chip.mem().pc, 2 * INST_STEP);
}

#[test]
fn chip8_ld_x_dt() {
    let mut chip = chip();

    chip.mem().dt = 123;
    chip.exec(0xF007).unwrap();
    assert_eq!(reg(&mut chip, 0), 123);
}

#[test]
fn chip8_ld_x_key() {
    let mut chip = chip();
    chip.keypad().set_sequence([None, None, Some(1)].to_vec());

    chip.exec(0xF00A).unwrap();
    assert_eq!(reg(&mut chip, 0), 1);
}

#[test]
fn chip8_ld_dt_x() {
    let mut chip = preset(&[(0, 123)]);

    chip.exec(0xF015).unwrap();
    assert_eq!(chip.mem().dt, 123);
}

#[test]
fn chip8_ld_st_x() {
    let mut chip = preset(&[(0, 123)]);

    chip.exec(0xF018).unwrap();
    assert_eq!(chip.mem().st, 123);
}

#[test]
fn chip8_add_i_x() {
    let mut chip = preset(&[(0, 0x03)]);

    chip.mem().i = 0x120;
    chip.exec(0xF01E).unwrap();
    assert_eq!(chip.mem().i, 0x123);
}

#[test]
fn chip8_ld_sprite_x() {
    let mut chip = preset(&[(0, 0), (1, 0xF)]);
    let first = chip.mem().ram.to_sprite_addr(0).unwrap();
    let last = chip.mem().ram.to_sprite_addr(0xF).unwrap();

    chip.exec(0xF029).unwrap();
    assert_eq!(chip.mem().i, first);

    chip.exec(0xF129).unwrap();
    assert_eq!(chip.mem().i, last);
}

#[test]
fn chip8_ld_bcd_x() {
    let mut chip = preset(&[(0, 123)]);

    chip.mem().i = 0x300;
    chip.exec(0xF033).unwrap();
    assert_eq!(chip.mem().ram.read_bytes(0x300, 3).unwrap(), &[1, 2, 3]);
}

#[test]
fn chip8_ld_i_x() {
    let mut chip = chip();

    for vx in 0..16 {
        chip.mem().reg.set(vx, vx + 1).unwrap();
    }

    chip.mem().i = 0x300;
    chip.exec(0xFF55).unwrap();
    assert_eq!(
        chip.mem().ram.read_bytes(0x300, 16).unwrap(),
        [1, 2, 3, 4, 5, 6, 7, 8, 9, 10, 11, 12, 13, 14, 15, 16]
    );

    chip.mem().i = 0x400;
    chip.exec(0xF755).unwrap();
    assert_eq!(
        chip.mem().ram.read_bytes(0x400, 16).unwrap(),
        [1, 2, 3, 4, 5, 6, 7, 8, 0, 0, 0, 0, 0, 0, 0, 0]
    );
}

#[test]
fn chip8_ld_x_i() {
    let mut chip = chip();
    let data = [1, 2, 3, 4, 5, 6, 7, 8, 9, 10, 11, 12, 13, 14, 15, 16];

    chip.mem().ram.load(0x300, &data[..]).unwrap();
    chip.mem().i = 0x300;
    chip.exec(0xFF65).unwrap();

    for vx in 0..16 {
        assert_eq!(reg(&mut chip, vx), data[vx as usize]);
    }

    chip.mem().i = 0x308;
    chip.exec(0xF765).unwrap();

    for vx in 0..16 {
        assert_eq!(reg(&mut chip, vx), (vx % 8) + 9);
    }
}
