//! The fields of an instruction word.

use vstd::prelude::*;
use crate::flag::Flag;
use crate::word::signed_field;

verus! {

/// The operation code in bits 15 to 12.
pub open spec fn opcode(instr: u16) -> u16 {
    instr / 0x1000
}

/// The register number in bits 11 to 9: the destination of a load or an
/// arithmetic instruction, the source of a store.
pub open spec fn dr(instr: u16) -> int {
    ((instr / 0x200) % 8) as int
}

/// The register number in bits 8 to 6: the first source, or the base register.
pub open spec fn sr1(instr: u16) -> int {
    ((instr / 0x40) % 8) as int
}

/// The register number in bits 2 to 0: the second source.
pub open spec fn sr2(instr: u16) -> int {
    (instr % 8) as int
}

/// Bit 5: whether an arithmetic instruction takes an immediate operand.
pub open spec fn immediate_mode(instr: u16) -> bool {
    (instr / 0x20) % 2 == 1
}

/// Bit 11: whether a subroutine jump is relative to the program counter.
pub open spec fn relative_mode(instr: u16) -> bool {
    (instr / 0x800) % 2 == 1
}

/// The signed immediate operand in bits 4 to 0.
pub open spec fn imm5(instr: u16) -> int {
    signed_field((instr % 0x20) as int, 5)
}

/// The signed offset in bits 5 to 0.
pub open spec fn offset6(instr: u16) -> int {
    signed_field((instr % 0x40) as int, 6)
}

/// The signed offset in bits 8 to 0.
pub open spec fn offset9(instr: u16) -> int {
    signed_field((instr % 0x200) as int, 9)
}

/// The signed offset in bits 10 to 0.
pub open spec fn offset11(instr: u16) -> int {
    signed_field((instr % 0x800) as int, 11)
}

/// The trap vector in bits 7 to 0.
pub open spec fn trap_vector(instr: u16) -> u16 {
    instr % 0x100
}

/// The `n z p` bits of a branch, in bits 11 to 9, as a three-bit mask.
pub open spec fn condition_mask(instr: u16) -> u16 {
    (instr / 0x200) % 8
}

/// Whether a branch with the `n z p` bits of `instr` (bits 11, 10 and 9) is
/// taken under `flag`: the bit that stands for the flag is set.
pub open spec fn branch_taken(instr: u16, flag: Flag) -> bool {
    match flag {
        Flag::Negative => (instr / 0x800) % 2 == 1,
        Flag::Zero => (instr / 0x400) % 2 == 1,
        Flag::Positive => (instr / 0x200) % 2 == 1,
    }
}

/// A branch is taken exactly when the bitwise and of its `n z p` mask and
/// the mask of the condition flag is not zero, whichever of the eight masks
/// the instruction holds and whichever of the three flags is set.
pub proof fn lemma_branch_taken_is_mask_and(instr: u16, flag: Flag)
    ensures
        branch_taken(instr, flag) <==> (condition_mask(instr) & flag.mask_spec()) != 0,
        condition_mask(instr) == 0 ==> !branch_taken(instr, flag),
        condition_mask(instr) == 7 ==> branch_taken(instr, flag),
{
    let mask = condition_mask(instr);
    assert({
        &&& (mask & 0b100) != 0 <==> (instr / 0x800) % 2 == 1
        &&& (mask & 0b010) != 0 <==> (instr / 0x400) % 2 == 1
        &&& (mask & 0b001) != 0 <==> (instr / 0x200) % 2 == 1
    }) by (bit_vector)
        requires
            mask == (instr / 0x200) % 8,
    ;
}

/// The fields of an instruction word are what the shifts and masks that
/// extract them compute.
pub proof fn lemma_fields(instr: u16)
    by (bit_vector)
    ensures
        instr >> 12 == instr / 0x1000,
        (instr >> 9) & 0x7 == (instr / 0x200) % 8,
        (instr >> 6) & 0x7 == (instr / 0x40) % 8,
        instr & 0x7 == instr % 8,
        (instr >> 5) & 1 == (instr / 0x20) % 2,
        (instr >> 11) & 1 == (instr / 0x800) % 2,
        instr & 0x1F == instr % 0x20,
        instr & 0x3F == instr % 0x40,
        instr & 0x1FF == instr % 0x200,
        instr & 0x7FF == instr % 0x800,
        instr & 0xFF == instr % 0x100,
{
}

} // verus!
