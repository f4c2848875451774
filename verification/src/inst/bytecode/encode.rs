//! Placing operands into the bit fields of an instruction word. Every
//! encoder masks its argument, so it is total and touches only its own field.
use vstd::prelude::*;

verus! {

/// The word that holds address `addr` in the field `nnn` (bits 0 to 11).
pub open spec fn spec_addr(addr: u16) -> u16 {
    addr & 0x0FFF
}

/// The word that holds `byte` in the field `kk` (bits 0 to 7).
pub open spec fn spec_byte(byte: u8) -> u16 {
    byte as u16
}

/// The word that holds register index `vx` in the field `x` (bits 8 to 11).
pub open spec fn spec_vx(vx: u8) -> u16 {
    ((vx & 0xF) as u16) << 8
}

/// The word that holds register index `vy` in the field `y` (bits 4 to 7).
pub open spec fn spec_vy(vy: u8) -> u16 {
    ((vy & 0xF) as u16) << 4
}

/// The word that holds `nibble` in the field `n` (bits 0 to 3).
pub open spec fn spec_nibble(nibble: u8) -> u16 {
    (nibble & 0xF) as u16
}

#[verifier::when_used_as_spec(spec_addr)]
pub fn addr(target: u16) -> (word: u16)
    ensures
        word == spec_addr(target),
{
    target & 0x0FFF
}

#[verifier::when_used_as_spec(spec_byte)]
pub fn byte(value: u8) -> (word: u16)
    ensures
        word == spec_byte(value),
{
    value as u16
}

#[verifier::when_used_as_spec(spec_vx)]
pub fn vx(index: u8) -> (word: u16)
    ensures
        word == spec_vx(index),
{
    ((index & 0xF) as u16) << 8
}

#[verifier::when_used_as_spec(spec_vy)]
pub fn vy(index: u8) -> (word: u16)
    ensures
        word == spec_vy(index),
{
    ((index & 0xF) as u16) << 4
}

#[verifier::when_used_as_spec(spec_nibble)]
pub fn nibble(value: u8) -> (word: u16)
    ensures
        word == spec_nibble(value),
{
    (value & 0xF) as u16
}

} // verus!
