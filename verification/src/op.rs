//! The sixteen operation codes and the six system-call vectors.

use vstd::prelude::*;
use vstd::std_specs::convert::TryFromSpecImpl;

verus! {

/// The operation selected by the top four bits of an instruction word,
/// listed in the order of their codes, from 0 to 15.
#[derive(Debug, Clone, Copy, PartialEq, Eq, Structural)]
pub enum Op {
    /// conditional branch
    Br,
    /// addition
    Add,
    /// load
    Ld,
    /// store
    St,
    /// jump to subroutine
    Jsr,
    /// bitwise and
    And,
    /// load base + offset
    Ldr,
    /// store base + offset
    Str,
    /// reserved
    Rti,
    /// bitwise complement
    Not,
    /// load indirect
    Ldi,
    /// store indirect
    Sti,
    /// jump
    Jmp,
    /// reserved
    Res,
    /// load effective address
    Lea,
    /// system call
    Trap,
}

impl Op {
    /// The four-bit code of the operation.
    pub open spec fn code_spec(self) -> u16 {
        match self {
            Op::Br => 0,
            Op::Add => 1,
            Op::Ld => 2,
            Op::St => 3,
            Op::Jsr => 4,
            Op::And => 5,
            Op::Ldr => 6,
            Op::Str => 7,
            Op::Rti => 8,
            Op::Not => 9,
            Op::Ldi => 10,
            Op::Sti => 11,
            Op::Jmp => 12,
            Op::Res => 13,
            Op::Lea => 14,
            Op::Trap => 15,
        }
    }

    /// The operation with code `v`, or an error where `v` is no four-bit code.
    pub open spec fn decode(v: u16) -> Result<Op, ()> {
        if v == 0 {
            Ok(Op::Br)
        } else if v == 1 {
            Ok(Op::Add)
        } else if v == 2 {
            Ok(Op::Ld)
        } else if v == 3 {
            Ok(Op::St)
        } else if v == 4 {
            Ok(Op::Jsr)
        } else if v == 5 {
            Ok(Op::And)
        } else if v == 6 {
            Ok(Op::Ldr)
        } else if v == 7 {
            Ok(Op::Str)
        } else if v == 8 {
            Ok(Op::Rti)
        } else if v == 9 {
            Ok(Op::Not)
        } else if v == 10 {
            Ok(Op::Ldi)
        } else if v == 11 {
            Ok(Op::Sti)
        } else if v == 12 {
            Ok(Op::Jmp)
        } else if v == 13 {
            Ok(Op::Res)
        } else if v == 14 {
            Ok(Op::Lea)
        } else if v == 15 {
            Ok(Op::Trap)
        } else {
            Err(())
        }
    }

    /// The four-bit code of the operation.
    #[verifier::when_used_as_spec(code_spec)]
    pub fn code(self) -> (c: u16)
        ensures
            c == self.code_spec(),
            c < 16,
    {
        match self {
            Op::Br => 0,
            Op::Add => 1,
            Op::Ld => 2,
            Op::St => 3,
            Op::Jsr => 4,
            Op::And => 5,
            Op::Ldr => 6,
            Op::Str => 7,
            Op::Rti => 8,
            Op::Not => 9,
            Op::Ldi => 10,
            Op::Sti => 11,
            Op::Jmp => 12,
            Op::Res => 13,
            Op::Lea => 14,
            Op::Trap => 15,
        }
    }

    /// Decoding is the inverse of [`Op::code`]: `v` decodes to `op` exactly
    /// when `v` is the code of `op`, and to an error exactly when `v >= 16`.
    pub proof fn lemma_decode_inverts_code(v: u16, op: Op)
        ensures
            Op::decode(v) == Ok::<Op, ()>(op) <==> op.code_spec() == v,
            Op::decode(v) is Err <==> v >= 16,
            Op::decode(op.code_spec()) == Ok::<Op, ()>(op),
    {
    }
}

impl TryFrom<u16> for Op {
    type Error = ();

    /// Decodes a four-bit operation code.
    fn try_from(v: u16) -> (r: Result<Self, ()>) {
        match v {
            0 => Ok(Op::Br),
            1 => Ok(Op::Add),
            2 => Ok(Op::Ld),
            3 => Ok(Op::St),
            4 => Ok(Op::Jsr),
            5 => Ok(Op::And),
            6 => Ok(Op::Ldr),
            7 => Ok(Op::Str),
            8 => Ok(Op::Rti),
            9 => Ok(Op::Not),
            10 => Ok(Op::Ldi),
            11 => Ok(Op::Sti),
            12 => Ok(Op::Jmp),
            13 => Ok(Op::Res),
            14 => Ok(Op::Lea),
            15 => Ok(Op::Trap),
            _ => Err(()),
        }
    }
}

impl TryFromSpecImpl<u16> for Op {
    open spec fn obeys_try_from_spec() -> bool {
        true
    }

    open spec fn try_from_spec(v: u16) -> Result<Self, ()> {
        Op::decode(v)
    }
}

/// A system call, selected by the low eight bits of a `TRAP` instruction.
#[derive(Debug, Clone, Copy, PartialEq, Eq, Structural)]
pub enum Trap {
    /// get character from keyboard, not echoed onto the terminal
    Getc,
    /// output a character
    Out,
    /// output a word string
    Puts,
    /// get character from keyboard, echoed onto the terminal
    In,
    /// output a byte string
    Putsp,
    /// halt the program
    Halt,
}

impl Trap {
    /// The trap vector of the system call.
    pub open spec fn vector_spec(self) -> u16 {
        match self {
            Trap::Getc => 0x20,
            Trap::Out => 0x21,
            Trap::Puts => 0x22,
            Trap::In => 0x23,
            Trap::Putsp => 0x24,
            Trap::Halt => 0x25,
        }
    }

    /// The system call with vector `v`, or an error where no system call has it.
    pub open spec fn decode(v: u16) -> Result<Trap, ()> {
        if v == 0x20 {
            Ok(Trap::Getc)
        } else if v == 0x21 {
            Ok(Trap::Out)
        } else if v == 0x22 {
            Ok(Trap::Puts)
        } else if v == 0x23 {
            Ok(Trap::In)
        } else if v == 0x24 {
            Ok(Trap::Putsp)
        } else if v == 0x25 {
            Ok(Trap::Halt)
        } else {
            Err(())
        }
    }

    /// The trap vector of the system call.
    #[verifier::when_used_as_spec(vector_spec)]
    pub fn vector(self) -> (v: u16)
        ensures
            v == self.vector_spec(),
            0x20 <= v <= 0x25,
    {
        match self {
            Trap::Getc => 0x20,
            Trap::Out => 0x21,
            Trap::Puts => 0x22,
            Trap::In => 0x23,
            Trap::Putsp => 0x24,
            Trap::Halt => 0x25,
        }
    }

    /// Decoding is the inverse of [`Trap::vector`]: `v` decodes to `trap`
    /// exactly when `v` is its vector, and to an error exactly outside
    /// `0x20..=0x25`.
    pub proof fn lemma_decode_inverts_vector(v: u16, trap: Trap)
        ensures
            Trap::decode(v) == Ok::<Trap, ()>(trap) <==> trap.vector_spec() == v,
            Trap::decode(v) is Err <==> !(0x20 <= v <= 0x25),
            Trap::decode(trap.vector_spec()) == Ok::<Trap, ()>(trap),
    {
    }
}

impl TryFrom<u16> for Trap {
    type Error = ();

    /// Decodes a trap vector.
    fn try_from(v: u16) -> (r: Result<Self, ()>) {
        match v {
            0x20 => Ok(Trap::Getc),
            0x21 => Ok(Trap::Out),
            0x22 => Ok(Trap::Puts),
            0x23 => Ok(Trap::In),
            0x24 => Ok(Trap::Putsp),
            0x25 => Ok(Trap::Halt),
            _ => Err(()),
        }
    }
}

impl TryFromSpecImpl<u16> for Trap {
    open spec fn obeys_try_from_spec() -> bool {
        true
    }

    open spec fn try_from_spec(v: u16) -> Result<Self, ()> {
        Trap::decode(v)
    }
}

} // verus!
