//! The assembler: one function for each mnemonic, from the instruction's
//! operands to its word. Operands wider than their field are masked.
use super::arch::Opcode;
use super::operands::{encoding, Operands};
use vstd::prelude::*;

verus! {

/// Clear the display.
pub fn cls() -> (inst: u16)
    ensures
        inst == encoding(Opcode::Cls, Operands::Exact),
{
    Opcode::Cls.code() | Operands::Exact.encode()
}

/// Return from a subroutine.
pub fn ret() -> (inst: u16)
    ensures
        inst == encoding(Opcode::Ret, Operands::Exact),
{
    Opcode::Ret.code() | Operands::Exact.encode()
}

/// Jump to location `addr`.
pub fn jp(addr: u16) -> (inst: u16)
    ensures
        inst == encoding(Opcode::Jp, Operands::Addr(addr)),
{
    Opcode::Jp.code() | Operands::Addr(addr).encode()
}

/// Call subroutine at `addr`.
pub fn call(addr: u16) -> (inst: u16)
    ensures
        inst == encoding(Opcode::Call, Operands::Addr(addr)),
{
    Opcode::Call.code() | Operands::Addr(addr).encode()
}

/// Skip next instruction if `vx` == `byte`.
pub fn se(vx: u8, byte: u8) -> (inst: u16)
    ensures
        inst == encoding(Opcode::Se, Operands::VxByte(vx, byte)),
{
    Opcode::Se.code() | Operands::VxByte(vx, byte).encode()
}

/// Skip next instruction if `vx` != `byte`.
pub fn sne(vx: u8, byte: u8) -> (inst: u16)
    ensures
        inst == encoding(Opcode::Sne, Operands::VxByte(vx, byte)),
{
    Opcode::Sne.code() | Operands::VxByte(vx, byte).encode()
}

/// Skip next instruction if `vx` == `vy`.
pub fn sev(vx: u8, vy: u8) -> (inst: u16)
    ensures
        inst == encoding(Opcode::Sev, Operands::VxVy(vx, vy)),
{
    Opcode::Sev.code() | Operands::VxVy(vx, vy).encode()
}

/// Set `vx` = `byte`.
pub fn ld(vx: u8, byte: u8) -> (inst: u16)
    ensures
        inst == encoding(Opcode::Ld, Operands::VxByte(vx, byte)),
{
    Opcode::Ld.code() | Operands::VxByte(vx, byte).encode()
}

/// Set `vx` = `vx` + `byte`.
pub fn add(vx: u8, byte: u8) -> (inst: u16)
    ensures
        inst == encoding(Opcode::Add, Operands::VxByte(vx, byte)),
{
    Opcode::Add.code() | Operands::VxByte(vx, byte).encode()
}

/// Set `vx` = `vy`.
pub fn ldv(vx: u8, vy: u8) -> (inst: u16)
    ensures
        inst == encoding(Opcode::Ldv, Operands::VxVy(vx, vy)),
{
    Opcode::Ldv.code() | Operands::VxVy(vx, vy).encode()
}

/// Set `vx` = `vx` OR `vy`.
pub fn or(vx: u8, vy: u8) -> (inst: u16)
    ensures
        inst == encoding(Opcode::Or, Operands::VxVy(vx, vy)),
{
    Opcode::Or.code() | Operands::VxVy(vx, vy).encode()
}

/// Set `vx` = `vx` AND `vy`.
pub fn and(vx: u8, vy: u8) -> (inst: u16)
    ensures
        inst == encoding(Opcode::And, Operands::VxVy(vx, vy)),
{
    Opcode::And.code() | Operands::VxVy(vx, vy).encode()
}

/// Set `vx` = `vx` XOR `vy`.
pub fn xor(vx: u8, vy: u8) -> (inst: u16)
    ensures
        inst == encoding(Opcode::Xor, Operands::VxVy(vx, vy)),
{
    Opcode::Xor.code() | Operands::VxVy(vx, vy).encode()
}

/// Set `vx` = `vx` + `vy`, set `vf` = carry.
pub fn addv(vx: u8, vy: u8) -> (inst: u16)
    ensures
        inst == encoding(Opcode::Addv, Operands::VxVy(vx, vy)),
{
    Opcode::Addv.code() | Operands::VxVy(vx, vy).encode()
}

/// Set `vx` = `vx` - `vy`, set `vf` = NOT borrow.
pub fn sub(vx: u8, vy: u8) -> (inst: u16)
    ensures
        inst == encoding(Opcode::Sub, Operands::VxVy(vx, vy)),
{
    Opcode::Sub.code() | Operands::VxVy(vx, vy).encode()
}

/// Set `vx` = `vx` SHR 1.
pub fn shr(vx: u8) -> (inst: u16)
    ensures
        inst == encoding(Opcode::Shr, Operands::Vx(vx)),
{
    Opcode::Shr.code() | Operands::Vx(vx).encode()
}

/// Set `vx` = `vy` - `vx`. Set `vf` = NOT borrow.
pub fn subn(vx: u8, vy: u8) -> (inst: u16)
    ensures
        inst == encoding(Opcode::Subn, Operands::VxVy(vx, vy)),
{
    Opcode::Subn.code() | Operands::VxVy(vx, vy).encode()
}

/// Set `vx` = `vx` SHL 1.
pub fn shl(vx: u8) -> (inst: u16)
    ensures
        inst == encoding(Opcode::Shl, Operands::Vx(vx)),
{
    Opcode::Shl.code() | Operands::Vx(vx).encode()
}

/// Skip next instruction if `vx` != `vy`.
pub fn snev(vx: u8, vy: u8) -> (inst: u16)
    ensures
        inst == encoding(Opcode::Snev, Operands::VxVy(vx, vy)),
{
    Opcode::Snev.code() | Operands::VxVy(vx, vy).encode()
}

/// Set **I** = `addr`.
pub fn ldi(addr: u16) -> (inst: u16)
    ensures
        inst == encoding(Opcode::Ldi, Operands::Addr(addr)),
{
    Opcode::Ldi.code() | Operands::Addr(addr).encode()
}

/// Jump to location `addr` + `v0`.
pub fn jp0(addr: u16) -> (inst: u16)
    ensures
        inst == encoding(Opcode::Jp0, Operands::Addr(addr)),
{
    Opcode::Jp0.code() | Operands::Addr(addr).encode()
}

/// Set `vx` = random byte AND `byte`
pub fn rnd(vx: u8, byte: u8) -> (inst: u16)
    ensures
        inst == encoding(Opcode::Rnd, Operands::VxByte(vx, byte)),
{
    Opcode::Rnd.code() | Operands::VxByte(vx, byte).encode()
}

/// Display n-byte sprite at (`vx`, `vy`) starting at memory location **I**.
/// Set `vf` = collision.
pub fn drw(vx: u8, vy: u8, nibble: u8) -> (inst: u16)
    ensures
        inst == encoding(Opcode::Drw, Operands::VxVyNibble(vx, vy, nibble)),
{
    Opcode::Drw.code() | Operands::VxVyNibble(vx, vy, nibble).encode()
}

/// Skip next instruction if key with the value of `vx` is pressed.
pub fn skp(vx: u8) -> (inst: u16)
    ensures
        inst == encoding(Opcode::Skp, Operands::Vx(vx)),
{
    Opcode::Skp.code() | Operands::Vx(vx).encode()
}

/// Skip next instruction if key with the value of `vx` is not pressed.
pub fn sknp(vx: u8) -> (inst: u16)
    ensures
        inst == encoding(Opcode::Sknp, Operands::Vx(vx)),
{
    Opcode::Sknp.code() | Operands::Vx(vx).encode()
}

/// Set `vx` = delay timer value.
pub fn lddtv(vx: u8) -> (inst: u16)
    ensures
        inst == encoding(Opcode::Lddtv, Operands::Vx(vx)),
{
    Opcode::Lddtv.code() | Operands::Vx(vx).encode()
}

/// Wait for a key press, store the value of the key in `vx`.
pub fn ldkey(vx: u8) -> (inst: u16)
    ensures
        inst == encoding(Opcode::Ldkey, Operands::Vx(vx)),
{
    Opcode::Ldkey.code() | Operands::Vx(vx).encode()
}

/// Set delay timer = `vx`.
pub fn lddt(vx: u8) -> (inst: u16)
    ensures
        inst == encoding(Opcode::Lddt, Operands::Vx(vx)),
{
    Opcode::Lddt.code() | Operands::Vx(vx).encode()
}

/// Set sound timer = `vx`.
pub fn ldst(vx: u8) -> (inst: u16)
    ensures
        inst == encoding(Opcode::Ldst, Operands::Vx(vx)),
{
    Opcode::Ldst.code() | Operands::Vx(vx).encode()
}

/// Set **I** = **I** + `vx`.
pub fn addi(vx: u8) -> (inst: u16)
    ensures
        inst == encoding(Opcode::Addi, Operands::Vx(vx)),
{
    Opcode::Addi.code() | Operands::Vx(vx).encode()
}

/// Set **I** = location of sprite for digit `vx`.
pub fn sprite(vx: u8) -> (inst: u16)
    ensures
        inst == encoding(Opcode::Sprite, Operands::Vx(vx)),
{
    Opcode::Sprite.code() | Operands::Vx(vx).encode()
}

/// Store BCD representation of `vx` in memory locations **I**, **I**+1, and
/// **I**+2.
pub fn bcd(vx: u8) -> (inst: u16)
    ensures
        inst == encoding(Opcode::Bcd, Operands::Vx(vx)),
{
    Opcode::Bcd.code() | Operands::Vx(vx).encode()
}

/// Store registers `v0` through `vx` in memory starting at location **I**.
pub fn sviv(vx: u8) -> (inst: u16)
    ensures
        inst == encoding(Opcode::Sviv, Operands::Vx(vx)),
{
    Opcode::Sviv.code() | Operands::Vx(vx).encode()
}

/// Read registers `v0` through `vx` from memory starting at location **I**.
pub fn ldiv(vx: u8) -> (inst: u16)
    ensures
        inst == encoding(Opcode::Ldiv, Operands::Vx(vx)),
{
    Opcode::Ldiv.code() | Operands::Vx(vx).encode()
}

} // verus!
