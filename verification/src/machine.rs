//! The mathematical model of the machine: its state as plain sequences and
//! words, and the effect of every instruction as a function from state to
//! state. The executable engine in [`crate::vm`] is specified against it.

use vstd::prelude::*;
use crate::fields::{
    branch_taken,
    dr,
    imm5,
    immediate_mode,
    offset11,
    offset6,
    offset9,
    opcode,
    relative_mode,
    sr1,
    sr2,
    trap_vector,
};
use crate::flag::Flag;
use crate::op::{Op, Trap};
use crate::word::{high_byte, low_byte, wrap16};

verus! {

/// Number of addressable words.
pub const MEMORY_SIZE: usize = 0x1_0000;

/// Address of the keyboard status register.
pub const MR_KBSR: u16 = 0xFE00;

/// Address of the keyboard data register.
pub const MR_KBDR: u16 = 0xFE02;

/// Status word that announces a character in the keyboard data register.
pub const KEY_READY: u16 = 0x8000;

/// The characters of the string of words that starts at `start`: the low
/// byte of each word up to the first zero word, or up to the end of memory.
pub open spec fn word_string(memory: Seq<u16>, start: int) -> Seq<u8>
    decreases memory.len() - start,
{
    if 0 <= start < memory.len() && memory[start] != 0 {
        seq![low_byte(memory[start])] + word_string(memory, start + 1)
    } else {
        Seq::empty()
    }
}

/// The characters of the string of packed bytes that starts at `start`: of
/// each word the low byte, then the high byte, up to the first zero byte, or
/// up to the end of memory.
pub open spec fn packed_string(memory: Seq<u16>, start: int) -> Seq<u8>
    decreases memory.len() - start,
{
    if 0 <= start < memory.len() && low_byte(memory[start]) != 0 {
        if high_byte(memory[start]) != 0 {
            seq![low_byte(memory[start]), high_byte(memory[start])] + packed_string(
                memory,
                start + 1,
            )
        } else {
            seq![low_byte(memory[start])]
        }
    } else {
        Seq::empty()
    }
}

/// What the `HALT` system call writes: a line that reads `HALT`, after a line break.
pub open spec fn halt_notice() -> Seq<u8> {
    seq!['\n' as u8, 'H' as u8, 'A' as u8, 'L' as u8, 'T' as u8, '\n' as u8]
}

/// What the `IN` system call writes before it reads: `Enter a character: `.
pub open spec fn input_prompt() -> Seq<u8> {
    seq![
        'E' as u8, 'n' as u8, 't' as u8, 'e' as u8, 'r' as u8, ' ' as u8,
        'a' as u8, ' ' as u8,
        'c' as u8, 'h' as u8, 'a' as u8, 'r' as u8, 'a' as u8, 'c' as u8,
        't' as u8, 'e' as u8, 'r' as u8, ':' as u8, ' ' as u8,
    ]
}

/// Why the engine stopped.
#[derive(Debug, Clone, Copy, PartialEq, Eq, Structural)]
pub enum Stop {
    /// The program executed `HALT`.
    Halted,
    /// The next instruction reads the console and no byte waits there.
    AwaitingInput,
    /// The steps that were granted are used up.
    StepLimit,
}

/// The state of the machine.
pub struct Machine {
    /// The 65,536 words of memory, by address.
    pub memory: Seq<u16>,
    /// The eight general-purpose registers.
    pub registers: Seq<u16>,
    /// The address of the next instruction.
    pub pc: u16,
    /// The condition flag.
    pub flag: Flag,
    /// Whether the machine has not halted.
    pub running: bool,
    /// The bytes that wait on the console, the next one first.
    pub input: Seq<u8>,
    /// The bytes written to the console and not yet taken from it.
    pub output: Seq<u8>,
    /// How many times the machine has read the console.
    pub reads: nat,
}

impl Machine {
    /// Memory and registers have their fixed sizes.
    pub open spec fn wf(self) -> bool {
        &&& self.memory.len() == MEMORY_SIZE
        &&& self.registers.len() == 8
    }

    /// The state with `value` in register `r` and the flag untouched.
    pub open spec fn set_register(self, r: int, value: u16) -> Machine {
        Machine { registers: self.registers.update(r, value), ..self }
    }

    /// The state after a flag-setting write of `value` to register `r`.
    pub open spec fn write_register(self, r: int, value: u16) -> Machine {
        Machine { registers: self.registers.update(r, value), flag: Flag::of(value), ..self }
    }

    /// The state with `value` at `address`.
    pub open spec fn write_memory(self, address: u16, value: u16) -> Machine {
        Machine { memory: self.memory.update(address as int, value), ..self }
    }

    /// The state with the program counter at `pc`.
    pub open spec fn jump(self, pc: u16) -> Machine {
        Machine { pc, ..self }
    }

    /// The state after `bytes` are written to the console.
    pub open spec fn emit(self, bytes: Seq<u8>) -> Machine {
        Machine { output: self.output + bytes, ..self }
    }

    /// The state after one read of the console: the next byte, if one waits,
    /// has left the queue.
    pub open spec fn take_input(self) -> Machine {
        Machine {
            input: if self.input.len() > 0 {
                self.input.drop_first()
            } else {
                self.input
            },
            reads: self.reads + 1,
            ..self
        }
    }

    /// The state after the keyboard is polled: one read of the console; a
    /// byte other than zero sets the status register to [`KEY_READY`] and goes
    /// to the data register, and without one the status register is cleared.
    pub open spec fn poll_keyboard(self) -> Machine {
        let polled = self.take_input();
        if self.input.len() > 0 && self.input[0] != 0 {
            polled.write_memory(MR_KBSR, KEY_READY).write_memory(MR_KBDR, self.input[0] as u16)
        } else {
            polled.write_memory(MR_KBSR, 0)
        }
    }

    /// The state after a read of `address`: reading the keyboard status
    /// register polls the keyboard, and reading any other address changes
    /// nothing.
    pub open spec fn read_memory(self, address: u16) -> Machine {
        if address == MR_KBSR {
            self.poll_keyboard()
        } else {
            self
        }
    }

    /// The word that a read of `address` returns: the word at `address` once
    /// the read has had its effect.
    pub open spec fn read_value(self, address: u16) -> u16 {
        self.read_memory(address).memory[address as int]
    }

    /// The address `offset` words from the program counter.
    pub open spec fn pc_relative(self, offset: int) -> u16 {
        wrap16(self.pc + offset)
    }

    /// The address `offset6` words from the base register of `instr`.
    pub open spec fn base_relative(self, instr: u16) -> u16 {
        wrap16(self.registers[sr1(instr)] + offset6(instr))
    }

    /// The second operand of an arithmetic instruction: the sign-extended
    /// immediate where bit 5 is set, the second source register where it is not.
    pub open spec fn operand(self, instr: u16) -> u16 {
        if immediate_mode(instr) {
            wrap16(imm5(instr))
        } else {
            self.registers[sr2(instr)]
        }
    }

    /// `LEA`: the destination receives the address `offset9` from the program counter.
    pub open spec fn lea(self, instr: u16) -> Machine {
        self.write_register(dr(instr), self.pc_relative(offset9(instr)))
    }

    /// `ADD`: the destination receives the sum of the first source and the
    /// operand, modulo 65,536.
    pub open spec fn add(self, instr: u16) -> Machine {
        self.write_register(
            dr(instr),
            wrap16(self.registers[sr1(instr)] + self.operand(instr)),
        )
    }

    /// `AND`: the destination receives the bitwise and of the first source and the operand.
    pub open spec fn and(self, instr: u16) -> Machine {
        self.write_register(dr(instr), self.registers[sr1(instr)] & self.operand(instr))
    }

    /// `NOT`: the destination receives the bitwise complement of the source.
    pub open spec fn not(self, instr: u16) -> Machine {
        self.write_register(dr(instr), (0xFFFF - self.registers[sr1(instr)]) as u16)
    }

    /// `LD`: the destination receives what a read of the address `offset9`
    /// from the program counter returns.
    pub open spec fn ld(self, instr: u16) -> Machine {
        let address = self.pc_relative(offset9(instr));
        self.read_memory(address).write_register(dr(instr), self.read_value(address))
    }

    /// `LDI`: a first read, of the address `offset9` from the program counter,
    /// returns a pointer; the destination receives what a second read, of
    /// the pointer, returns.
    pub open spec fn ldi(self, instr: u16) -> Machine {
        let first = self.read_memory(self.pc_relative(offset9(instr)));
        let pointer = self.read_value(self.pc_relative(offset9(instr)));
        first.read_memory(pointer).write_register(dr(instr), first.read_value(pointer))
    }

    /// `LDR`: the destination receives what a read of the address `offset6`
    /// from the base register returns.
    pub open spec fn ldr(self, instr: u16) -> Machine {
        let address = self.base_relative(instr);
        self.read_memory(address).write_register(dr(instr), self.read_value(address))
    }

    /// `ST`: the source register is stored at the address `offset9` from the
    /// program counter.
    pub open spec fn st(self, instr: u16) -> Machine {
        self.write_memory(self.pc_relative(offset9(instr)), self.registers[dr(instr)])
    }

    /// `STI`: a read of the address `offset9` from the program counter returns
    /// a pointer; the source register is stored at the pointer.
    pub open spec fn sti(self, instr: u16) -> Machine {
        let first = self.read_memory(self.pc_relative(offset9(instr)));
        let pointer = self.read_value(self.pc_relative(offset9(instr)));
        first.write_memory(pointer, self.registers[dr(instr)])
    }

    /// `STR`: the source register is stored at the address `offset6` from the
    /// base register.
    pub open spec fn str(self, instr: u16) -> Machine {
        self.write_memory(self.base_relative(instr), self.registers[dr(instr)])
    }

    /// `BR`: where the branch is taken, the program counter moves by `offset9`.
    pub open spec fn br(self, instr: u16) -> Machine {
        if branch_taken(instr, self.flag) {
            self.jump(self.pc_relative(offset9(instr)))
        } else {
            self
        }
    }

    /// `JMP`: the program counter receives the base register.
    pub open spec fn jmp(self, instr: u16) -> Machine {
        self.jump(self.registers[sr1(instr)])
    }

    /// `JSR` and `JSRR`: register 7 receives the program counter by a
    /// flag-setting write; then the program counter moves by `offset11` where
    /// bit 11 is set, and receives the base register, as it then stands,
    /// where it is not.
    pub open spec fn jsr(self, instr: u16) -> Machine {
        let linked = self.write_register(7, self.pc);
        if relative_mode(instr) {
            linked.jump(self.pc_relative(offset11(instr)))
        } else {
            linked.jump(linked.registers[sr1(instr)])
        }
    }

    /// `GETC`: the next byte of the console goes to register 0; the flag
    /// stays. Without a byte nothing changes.
    pub open spec fn getc(self) -> Machine {
        if self.input.len() > 0 {
            self.take_input().set_register(0, self.input[0] as u16)
        } else {
            self
        }
    }

    /// `OUT`: the low byte of register 0 is written to the console.
    pub open spec fn out(self) -> Machine {
        self.emit(seq![low_byte(self.registers[0])])
    }

    /// `PUTS`: the string of words at the address in register 0 is written
    /// to the console. The string is taken from memory as it stands: no
    /// keyboard is polled for it.
    pub open spec fn puts(self) -> Machine {
        self.emit(word_string(self.memory, self.registers[0] as int))
    }

    /// `IN`: the prompt is written, the next byte of the console is read and
    /// written back with a line break, and goes to register 0 by a
    /// flag-setting write. Without a byte nothing changes.
    pub open spec fn t_in(self) -> Machine {
        if self.input.len() > 0 {
            self.emit(input_prompt()).take_input().emit(seq![self.input[0], '\n' as u8]).write_register(
                0,
                self.input[0] as u16,
            )
        } else {
            self
        }
    }

    /// `PUTSP`: the string of packed bytes at the address in register 0 is
    /// written to the console. The string is taken from memory as it stands:
    /// no keyboard is polled for it.
    pub open spec fn putsp(self) -> Machine {
        self.emit(packed_string(self.memory, self.registers[0] as int))
    }

    /// `HALT`: the notice is written and the machine stops running.
    pub open spec fn halt(self) -> Machine {
        Machine { running: false, ..self.emit(halt_notice()) }
    }

    /// Whether the system call of `instr` cannot be served: it reads a
    /// character and none waits on the console.
    pub open spec fn trap_fails(self, instr: u16) -> bool {
        &&& self.input.len() == 0
        &&& (Trap::decode(trap_vector(instr)) == Ok::<Trap, ()>(Trap::Getc) || Trap::decode(
            trap_vector(instr),
        ) == Ok::<Trap, ()>(Trap::In))
    }

    /// `TRAP`: the system call that the trap vector selects; a vector that
    /// selects none changes nothing.
    pub open spec fn trap(self, instr: u16) -> Machine {
        match Trap::decode(trap_vector(instr)) {
            Ok(Trap::Getc) => self.getc(),
            Ok(Trap::Out) => self.out(),
            Ok(Trap::Puts) => self.puts(),
            Ok(Trap::In) => self.t_in(),
            Ok(Trap::Putsp) => self.putsp(),
            Ok(Trap::Halt) => self.halt(),
            Err(_) => self,
        }
    }

    /// Whether executing `instr` fails: it is a system call that cannot be served.
    pub open spec fn execute_fails(self, instr: u16) -> bool {
        Op::decode(opcode(instr)) == Ok::<Op, ()>(Op::Trap) && self.trap_fails(instr)
    }

    /// The state after `instr` is executed, the program counter standing
    /// behind it. The reserved operations `RTI` and `RES` change nothing.
    pub open spec fn execute(self, instr: u16) -> Machine {
        match Op::decode(opcode(instr)) {
            Ok(Op::Br) => self.br(instr),
            Ok(Op::Add) => self.add(instr),
            Ok(Op::Ld) => self.ld(instr),
            Ok(Op::St) => self.st(instr),
            Ok(Op::Jsr) => self.jsr(instr),
            Ok(Op::And) => self.and(instr),
            Ok(Op::Ldr) => self.ldr(instr),
            Ok(Op::Str) => self.str(instr),
            Ok(Op::Rti) => self,
            Ok(Op::Not) => self.not(instr),
            Ok(Op::Ldi) => self.ldi(instr),
            Ok(Op::Sti) => self.sti(instr),
            Ok(Op::Jmp) => self.jmp(instr),
            Ok(Op::Res) => self,
            Ok(Op::Lea) => self.lea(instr),
            Ok(Op::Trap) => self.trap(instr),
            Err(_) => self,
        }
    }

    /// The instruction that the next step executes: what a read of the
    /// program counter's address returns.
    pub open spec fn fetched(self) -> u16 {
        self.read_value(self.pc)
    }

    /// The state after the fetch: the instruction is read and the program
    /// counter has advanced by one, from `0xFFFF` to zero.
    pub open spec fn fetch(self) -> Machine {
        self.read_memory(self.pc).jump(wrap16(self.pc + 1))
    }

    /// Whether the next step fails: the machine runs and the instruction it
    /// fetches is a system call that cannot be served.
    pub open spec fn step_fails(self) -> bool {
        self.running && self.fetch().execute_fails(self.fetched())
    }

    /// The state after one step: a running machine fetches an instruction
    /// and executes it; a halted machine, and one whose step fails, stays as
    /// it is.
    pub open spec fn step(self) -> Machine {
        if self.running && !self.step_fails() {
            self.fetch().execute(self.fetched())
        } else {
            self
        }
    }

    /// Whether executing `instr` reads the console: it reads the keyboard
    /// status register, for a value or for a pointer, or it is a system call
    /// that reads a character.
    pub open spec fn reads_console(self, instr: u16) -> bool {
        match Op::decode(opcode(instr)) {
            Ok(Op::Ld) | Ok(Op::Sti) => self.pc_relative(offset9(instr)) == MR_KBSR,
            Ok(Op::Ldi) => {
                ||| self.pc_relative(offset9(instr)) == MR_KBSR
                ||| self.memory[self.pc_relative(offset9(instr)) as int] == MR_KBSR
            },
            Ok(Op::Ldr) => self.base_relative(instr) == MR_KBSR,
            Ok(Op::Trap) => {
                ||| Trap::decode(trap_vector(instr)) == Ok::<Trap, ()>(Trap::Getc)
                ||| Trap::decode(trap_vector(instr)) == Ok::<Trap, ()>(Trap::In)
            },
            _ => false,
        }
    }

    /// Whether the next step reads the console: the machine runs, and
    /// either the program counter stands at the keyboard status register,
    /// so that the fetch polls the keyboard, or the instruction there reads
    /// the console once the program counter has moved behind it.
    pub open spec fn wants_input(self) -> bool {
        self.running && (self.pc == MR_KBSR || self.jump(wrap16(self.pc + 1)).reads_console(
            self.memory[self.pc as int],
        ))
    }

    /// Whether the machine waits for the console: its next step reads the
    /// console and no byte waits there.
    pub open spec fn blocked(self) -> bool {
        self.running && self.input.len() == 0 && self.wants_input()
    }

    /// The state in which `run` stops when it is given `fuel` steps, and why
    /// it stops there.
    pub open spec fn run(self, fuel: nat) -> (Machine, Stop)
        decreases fuel,
    {
        if !self.running {
            (self, Stop::Halted)
        } else if self.blocked() {
            (self, Stop::AwaitingInput)
        } else if fuel == 0 {
            (self, Stop::StepLimit)
        } else {
            self.step().run((fuel - 1) as nat)
        }
    }
}

} // verus!
