// The program builder.
use chip8::inst::ops;
use chip8::mem::{Error, Ram};
use chip8::{hexdump, CompileError, Program};

#[test]
fn prog_test() {
    let mut program = Program::new();

    let sub_inst = [ops::ld(2, 22), ops::add(3, 1), ops::ret()];

    let sub = program.sub(&sub_inst[..]).unwrap();
    let data = program.data(&[1, 2, 3, 4]).unwrap();

    let prog = [
        ops::call(sub),
        ops::ldi(data),
        ops::add(1, 2),
        ops::add(3, 4),
    ];

    program.main(&prog[..]).unwrap();

    let prog = program.compile().unwrap();

    let prog = prog.ram.read_bytes(0x200, 32).unwrap();
    hexdump(prog);
}

#[test]
fn program_test() {
    let mut program = Program::new();

    let sub_inst = [ops::ld(2, 22), ops::add(3, 1), ops::ret()];

    let sub = program.sub(&sub_inst[..]).unwrap();
    let data = program.data(&[1, 2, 3, 4]).unwrap();
    assert_eq!(sub, 0);
    assert_eq!(data, 32);

    let prog = [
        ops::call(sub),
        ops::ldi(data),
        ops::add(1, 2),
        ops::add(3, 4),
    ];

    program.main(&prog[..]).unwrap();

    let prog = program.compile().unwrap();

    let prog = prog.ram.read_bytes(0x200, 32).unwrap();
    hexdump(prog);
    // main at 0x200, the subroutine at 0x208, the data at 0x20E
    assert_eq!(
        prog,
        &[
            0x22, 0x08, 0xA2, 0x0E, 0x71, 0x02, 0x73, 0x04, // main
            0x62, 0x16, 0x73, 0x01, 0x00, 0xEE, // sub
            1, 2, 3, 4, // data
            0, 0, 0, 0, 0, 0, 0, 0, 0, 0, 0, 0, 0, 0,
        ]
    );
}

#[test]
fn a_compiled_image_keeps_the_font() {
    let mut program = Program::new();
    program.main(&[ops::cls()][..]).unwrap();
    let image = program.compile().unwrap().ram;
    let blank = Ram::new();
    assert_eq!(image.read_bytes(0, 0x200), blank.read_bytes(0, 0x200));
    assert_eq!(image.read_bytes(0x200, 4).unwrap(), &[0x00, 0xE0, 0, 0]);
}

#[test]
fn blocks_are_laid_out_in_the_order_main_subs_data() {
    let mut program = Program::new();
    let table = program.data(&[0xD0]).unwrap();
    let short = program.sub(&[0x6001u16][..]).unwrap();
    let byte = program.var(0xD1).unwrap();
    let long = program.sub(&[0x60u8, 0x02, 0x60, 0x03][..]).unwrap();
    assert_eq!((short, long, table, byte), (0, 1, 32, 33));
    program
        .main(&[ops::jp(long), ops::call(short), ops::ldi(byte), ops::jp0(table)][..])
        .unwrap();
    let image = program.compile().unwrap().ram;
    assert_eq!(
        image.read_bytes(0x200, 18).unwrap(),
        &[
            0x12, 0x0A, 0x22, 0x08, 0xA2, 0x0F, 0xB2, 0x0E, // main
            0x60, 0x01, // the short subroutine at 0x208
            0x60, 0x02, 0x60, 0x03, // the long one at 0x20A
            0xD0, // the table at 0x20E
            0xD1, // the byte at 0x20F
            0, 0,
        ]
    );
}

#[test]
fn references_in_subroutines_are_replaced_but_not_in_data() {
    let mut program = Program::new();
    let sub = program.sub(&[ops::jp(0x000), ops::ret()][..]).unwrap();
    let data = program.data(&[0x10, 0x00, 0x20, 0x20]).unwrap();
    program.main(&[ops::call(sub), ops::ldi(data)][..]).unwrap();
    let image = program.compile().unwrap().ram;
    assert_eq!(
        image.read_bytes(0x200, 12).unwrap(),
        &[0x22, 0x04, 0xA2, 0x08, 0x12, 0x04, 0x00, 0xEE, 0x10, 0x00, 0x20, 0x20]
    );
}

#[test]
fn only_jp_call_ldi_and_jp0_with_an_id_are_references() {
    let mut program = Program::new();
    let sub = program.sub(&[ops::ret()][..]).unwrap();
    assert_eq!(sub, 0);
    program
        .main(
            &[
                0x1000u16, // jp to the id 0
                0x1100,    // an address, no id: the high byte is not 0x10
                0x3000,    // se: no reference
                0x6000,    // ld: no reference
                0x1060,    // jp 0x060: 96 is no id
                0xB000,    // jp0 to the id 0
            ][..],
        )
        .unwrap();
    let image = program.compile().unwrap().ram;
    assert_eq!(
        image.read_bytes(0x200, 14).unwrap(),
        &[0x12, 0x0C, 0x11, 0x00, 0x30, 0x00, 0x60, 0x00, 0x10, 0x60, 0xB2, 0x0C, 0x00, 0xEE]
    );
}

#[test]
fn repeat_ends_with_a_jump_to_itself() {
    let mut program = Program::new();
    let first = program.sub(&[ops::ret()][..]).unwrap();
    let looper = program.repeat(&[ops::ld(1, 2), ops::add(1, 1)][..]).unwrap();
    assert_eq!((first, looper), (0, 1));
    program.main(&[ops::call(looper)][..]).unwrap();
    let image = program.compile().unwrap().ram;
    assert_eq!(
        image.read_bytes(0x200, 10).unwrap(),
        &[0x22, 0x04, 0x00, 0xEE, 0x61, 0x02, 0x71, 0x01, 0x12, 0x04]
    );
}

#[test]
fn compile_errors() {
    // no main routine
    let program = Program::new();
    assert_eq!(
        program.compile().err(),
        Some(CompileError::Memory(Error::StackEmpty))
    );

    // a reference to a subroutine that was not registered
    let mut program = Program::new();
    program.main(&[ops::call(3)][..]).unwrap();
    assert_eq!(program.compile().err(), Some(CompileError::Todo));

    // a reference to data that was not registered
    let mut program = Program::new();
    program.sub(&[ops::ret()][..]).unwrap();
    program.main(&[ops::ldi(32)][..]).unwrap();
    assert_eq!(program.compile().err(), Some(CompileError::Todo));

    // a routine with an odd number of bytes
    let mut program = Program::new();
    assert_eq!(program.main(&[1u8, 2, 3][..]), Err(CompileError::Todo));
    assert_eq!(program.sub(&[1u8][..]), Err(CompileError::Todo));
    assert_eq!(program.repeat(&[1u8][..]), Err(CompileError::Todo));
    // data may have any length
    assert_eq!(program.data(&[1, 2, 3]), Ok(32));
}

#[test]
fn the_tables_are_limited() {
    let mut program = Program::new();
    for id in 0..32 {
        assert_eq!(program.sub(&[ops::ret()][..]), Ok(id));
    }
    assert_eq!(program.sub(&[ops::ret()][..]), Err(CompileError::Todo));
    assert_eq!(program.repeat(&[ops::ret()][..]), Err(CompileError::Todo));
    for id in 0..64 {
        assert_eq!(program.var(id as u8), Ok(32 + id));
    }
    assert_eq!(program.var(0), Err(CompileError::Todo));
    assert_eq!(program.data(&[]), Err(CompileError::Todo));
}

#[test]
fn the_scratch_image_is_limited() {
    let mut program = Program::new();
    let big = [0u8; 0xE00];
    assert_eq!(
        program.data(&[0u8; 0xE01]),
        Err(CompileError::Memory(Error::LoadTooLong {
            addr: 0x200,
            len: 0xE01
        }))
    );
    assert_eq!(program.data(&big), Ok(32));
    assert_eq!(
        program.var(1),
        Err(CompileError::Memory(Error::InvalidAddress { addr: 0x1000 }))
    );
    assert_eq!(
        program.main(&[ops::cls()][..]),
        Err(CompileError::Memory(Error::InvalidAddress { addr: 0x1000 }))
    );
}

#[test]
fn a_block_cannot_start_where_ram_ends() {
    // an empty block of data is registered first, then a main routine that fills RAM
    let mut program = Program::new();
    assert_eq!(program.data(&[]), Ok(32));
    let main = [0x6000u16; 0x700];
    assert_eq!(program.main(&main[..]), Ok(()));
    assert_eq!(
        program.compile().err(),
        Some(CompileError::Memory(Error::InvalidAddress { addr: 0x1000 }))
    );

    // without the empty block the image is full to its last byte
    let mut program = Program::new();
    assert_eq!(program.main(&main[..]), Ok(()));
    let image = program.compile().unwrap().ram;
    assert_eq!(image.read_bytes(0xFFE, 2).unwrap(), &[0x60, 0x00]);
}

#[test]
fn a_second_main_routine_replaces_the_first() {
    let mut program = Program::new();
    program.main(&[ops::ld(1, 1), ops::ld(2, 2)][..]).unwrap();
    program.main(&[ops::ld(3, 3)][..]).unwrap();
    let image = program.compile().unwrap().ram;
    assert_eq!(image.read_bytes(0x200, 4).unwrap(), &[0x63, 0x03, 0, 0]);
}
