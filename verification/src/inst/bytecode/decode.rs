//! Reading the operand fields of an instruction word. Every decoder extracts
//! its field and masks it, so it is total.
use vstd::prelude::*;

verus! {

/// The address field `nnn` of `inst`: its low twelve bits.
pub open spec fn spec_addr(inst: u16) -> u16 {
    inst & 0x0FFF
}

/// The byte field `kk` of `inst`: its low eight bits.
pub open spec fn spec_byte(inst: u16) -> u8 {
    (inst & 0x00FF) as u8
}

/// The register field `x` of `inst`: bits 8 to 11.
pub open spec fn spec_vx(inst: u16) -> u8 {
    ((inst & 0x0F00) >> 8) as u8
}

/// The register field `y` of `inst`: bits 4 to 7.
pub open spec fn spec_vy(inst: u16) -> u8 {
    ((inst & 0x00F0) >> 4) as u8
}

/// The nibble field `n` of `inst`: its low four bits.
pub open spec fn spec_nibble(inst: u16) -> u8 {
    (inst & 0x000F) as u8
}

/// Every field lies in the range of its width, whatever the word.
pub proof fn lemma_field_ranges(inst: u16)
    ensures
        spec_addr(inst) < 0x1000,
        spec_vx(inst) < 16,
        spec_vy(inst) < 16,
        spec_nibble(inst) < 16,
        inst & 0x00FF < 0x100,
        (inst & 0x0F00) >> 8 < 16,
        (inst & 0x00F0) >> 4 < 16,
        inst & 0x000F < 16,
{
    assert(inst & 0x0FFF < 0x1000 && inst & 0x00FF < 0x100 && (inst & 0x0F00) >> 8 < 16 && (inst
        & 0x00F0) >> 4 < 16 && inst & 0x000F < 16) by (bit_vector);
}

#[verifier::when_used_as_spec(spec_addr)]
pub fn addr(inst: u16) -> (field: u16)
    ensures
        field == spec_addr(inst),
        field < 0x1000,
{
    proof {
        lemma_field_ranges(inst);
    }
    inst & 0x0FFF
}

#[verifier::when_used_as_spec(spec_byte)]
pub fn byte(inst: u16) -> (field: u8)
    ensures
        field == spec_byte(inst),
{
    proof {
        lemma_field_ranges(inst);
    }
    (inst & 0x00FF) as u8
}

#[verifier::when_used_as_spec(spec_vx)]
pub fn vx(inst: u16) -> (field: u8)
    ensures
        field == spec_vx(inst),
        field < 16,
{
    proof {
        lemma_field_ranges(inst);
    }
    ((inst & 0x0F00) >> 8) as u8
}

#[verifier::when_used_as_spec(spec_vy)]
pub fn vy(inst: u16) -> (field: u8)
    ensures
        field == spec_vy(inst),
        field < 16,
{
    proof {
        lemma_field_ranges(inst);
    }
    ((inst & 0x00F0) >> 4) as u8
}

#[verifier::when_used_as_spec(spec_nibble)]
pub fn nibble(inst: u16) -> (field: u8)
    ensures
        field == spec_nibble(inst),
        field < 16,
{
    proof {
        lemma_field_ranges(inst);
    }
    (inst & 0x000F) as u8
}

} // verus!
