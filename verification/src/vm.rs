//! The engine: the machine's state in executable form, the handlers of the
//! instructions, and the fetch-decode-execute loop.

use vstd::prelude::*;
use std::collections::VecDeque;
use crate::image::{boot, image_origin, image_valid, image_word, read_image_word};
use crate::fields::{lemma_branch_taken_is_mask_and, lemma_fields, trap_vector};
use crate::flag::Flag;
use crate::laws::{lemma_failed_execute, lemma_wants_input};
use crate::machine::{
    packed_string,
    word_string,
    Machine,
    Stop,
    KEY_READY,
    MEMORY_SIZE,
    MR_KBDR,
    MR_KBSR,
};
use crate::op::{Op, Trap};
use crate::word::{
    add_offset,
    lemma_sign_extend_is_signed_value,
    lemma_word_bits,
    offset_address,
    sign_extend,
    wrap16,
};

verus! {

/// What can go wrong in the engine.
#[derive(Debug, Clone, Copy, PartialEq, Eq, Structural)]
pub enum VmError {
    /// The image is empty, has an odd number of bytes, or holds a program
    /// that would run past the last address.
    InvalidImage,
    /// The system call with trap vector `vector`, in the instruction at
    /// address `pc`, needed a character and the console had none.
    ConsoleRead { vector: u16, pc: u16 },
}

/// A machine: memory, registers, program counter, condition flag, and the
/// console as a queue of bytes to read and a buffer of bytes written.
pub struct VM {
    memory: Box<[u16; MEMORY_SIZE]>,
    registers: [u16; 8],
    running: bool,
    /// program counter
    pc: u16,
    /// condition flag
    cflag: Flag,
    /// bytes that wait on the console
    input: VecDeque<u8>,
    /// bytes written to the console
    output: Vec<u8>,
    /// number of reads of the console
    reads: Ghost<nat>,
}

impl View for VM {
    type V = Machine;

    closed spec fn view(&self) -> Machine {
        Machine {
            memory: (*self.memory)@,
            registers: self.registers@,
            pc: self.pc,
            flag: self.cflag,
            running: self.running,
            input: self.input@,
            output: self.output@,
            reads: self.reads@,
        }
    }
}

impl VM {
    /// The state of every machine is well formed.
    pub proof fn lemma_wf(&self)
        ensures
            self@.wf(),
    {
    }

    /// Loads an image and starts a machine on it.
    pub fn new(binary: Vec<u8>) -> (r: Result<VM, VmError>)
        ensures
            r is Ok <==> image_valid(binary@),
            r matches Ok(vm) ==> vm@ == boot(binary@) && vm@.wf(),
            r matches Err(e) ==> e == VmError::InvalidImage,
    {
        let len: usize = binary.len();
        if len == 0 || len % 2 != 0 {
            return Err(VmError::InvalidImage);
        }
        let origin: u16 = read_image_word(&binary, 0);
        let count: usize = len / 2 - 1;
        if count > MEMORY_SIZE - origin as usize {
            return Err(VmError::InvalidImage);
        }
        let mut memory: [u16; MEMORY_SIZE] = [0u16; MEMORY_SIZE];
        let mut index: usize = 0;
        while index < count
            invariant
                index <= count,
                count == binary.len() / 2 - 1,
                binary.len() % 2 == 0,
                origin as int + count <= MEMORY_SIZE,
                origin == image_origin(binary@),
                forall|a: int|
                    0 <= a < MEMORY_SIZE ==> memory@[a] == if origin <= a < origin + index {
                        image_word(binary@, a - origin + 1)
                    } else {
                        0u16
                    },
            decreases count - index,
        {
            let word: u16 = read_image_word(&binary, index + 1);
            memory[origin as usize + index] = word;
            index += 1;
        }
        let vm = VM {
            memory: Box::new(memory),
            registers: [0u16; 8],
            running: true,
            pc: origin,
            cflag: Flag::Zero,
            input: VecDeque::new(),
            output: Vec::new(),
            reads: Ghost(0),
        };
        assert(vm@.memory =~= boot(binary@).memory);
        assert(vm@.registers =~= boot(binary@).registers);
        Ok(vm)
    }

    /// The program counter.
    pub fn pc(&self) -> (pc: u16)
        ensures
            self@.wf(),
            pc == self@.pc,
    {
        self.pc
    }

    /// The condition flag.
    pub fn flag(&self) -> (flag: Flag)
        ensures
            self@.wf(),
            flag == self@.flag,
    {
        self.cflag
    }

    /// Whether the machine has not halted.
    pub fn is_running(&self) -> (running: bool)
        ensures
            self@.wf(),
            running == self@.running,
    {
        self.running
    }

    /// The word at `address`, as it stands: unlike [`VM::read_memory`], this
    /// never polls the keyboard.
    pub fn peek_memory(&self, address: u16) -> (value: u16)
        ensures
            self@.wf(),
            value == self@.memory[address as int],
    {
        self.memory[address as usize]
    }

    /// How many bytes wait on the console.
    pub fn pending_input(&self) -> (count: usize)
        ensures
            self@.wf(),
            count == self@.input.len(),
    {
        self.input.len()
    }

    /// Puts `byte` at the end of the bytes that wait on the console.
    pub fn feed(&mut self, byte: u8)
        ensures
            old(self)@.wf(),
            final(self)@.wf(),
            final(self)@ == (Machine { input: old(self)@.input.push(byte), ..old(self)@ }),
    {
        self.input.push_back(byte);
    }

    /// Takes the bytes written to the console since they were last taken.
    pub fn take_output(&mut self) -> (bytes: Vec<u8>)
        ensures
            old(self)@.wf(),
            final(self)@.wf(),
            bytes@ == old(self)@.output,
            final(self)@ == (Machine { output: Seq::empty(), ..old(self)@ }),
    {
        let mut bytes: Vec<u8> = Vec::new();
        bytes.append(&mut self.output);
        bytes
    }

    /// The value of a register.
    pub fn read_register(&self, register: u16) -> (value: u16)
        requires
            register < 8,
        ensures
            self@.wf(),
            value == self@.registers[register as int],
    {
        self.registers[register as usize]
    }

    /// Writes a register and sets the condition flag by the value written.
    pub fn write_register(&mut self, register: u16, value: u16)
        requires
            register < 8,
        ensures
            old(self)@.wf(),
            final(self)@.wf(),
            final(self)@ == old(self)@.write_register(register as int, value),
    {
        self.registers[register as usize] = value;
        self.cflag = Flag::for_value(value);
    }

    /// Writes a word to memory.
    pub fn write_memory(&mut self, address: u16, value: u16)
        ensures
            old(self)@.wf(),
            final(self)@.wf(),
            final(self)@ == old(self)@.write_memory(address, value),
    {
        self.memory[address as usize] = value;
    }

    /// Reads the console once: takes the next byte that waits there, if any.
    pub fn read_char(&mut self) -> (byte: Option<u8>)
        ensures
            old(self)@.wf(),
            final(self)@.wf(),
            final(self)@ == old(self)@.take_input(),
            byte == if old(self)@.input.len() > 0 {
                Some(old(self)@.input[0])
            } else {
                None
            },
    {
        let byte: Option<u8> = self.input.pop_front();
        proof {
            self.reads@ = self.reads@ + 1;
        }
        byte
    }

    /// Reads a word from memory. Reading the keyboard status register first
    /// polls the keyboard: the console is read exactly once, and the word
    /// returned is the status as that read left it. Reading any other
    /// address reads no console and changes nothing.
    pub fn read_memory(&mut self, address: u16) -> (value: u16)
        ensures
            old(self)@.wf(),
            final(self)@.wf(),
            final(self)@ == old(self)@.read_memory(address),
            value == old(self)@.read_value(address),
            final(self)@.reads == old(self)@.reads + if address == MR_KBSR {
                1nat
            } else {
                0nat
            },
    {
        if address == MR_KBSR {
            let c: Option<u8> = self.read_char();
            match c {
                Some(byte) if byte != 0 => {
                    self.write_memory(MR_KBSR, KEY_READY);
                    self.write_memory(MR_KBDR, byte as u16);
                },
                _ => {
                    self.write_memory(MR_KBSR, 0);
                },
            }
        }
        self.memory[address as usize]
    }

    /// Load Effective Address
    ///
    /// ```encoding
    /// | 1110        | DR      | PCoffset9         |
    /// | 15 14 13 12 | 11 10 9 | 8 7 6 5 4 3 2 1 0 |
    /// ```
    ///
    /// ```operation
    /// DR = PC + SEXT(PCoffset9);
    /// setcc();
    /// ```
    pub fn lea(&mut self, instr: u16)
        ensures
            old(self)@.wf(),
            final(self)@.wf(),
            final(self)@ == old(self)@.lea(instr),
    {
        proof {
            lemma_fields(instr);
        }
        let dr: u16 = (instr >> 9) & 0b111;
        let address: u16 = offset_address(self.pc, instr & 0x1FF, 9);
        self.write_register(dr, address);
    }

    /// Addition
    ///
    /// ```encoding
    /// | 0001        | DR      | SR1   | 0 |     | SR2   |
    /// | 15 14 13 12 | 11 10 9 | 8 7 6 | 5 | 4 3 | 2 1 0 |
    ///
    /// | 0001        | DR      | SR1   | 1 | imm5      |
    /// | 15 14 13 12 | 11 10 9 | 8 7 6 | 5 | 4 3 2 1 0 |
    /// ```
    ///
    /// ```operation
    /// if (bit[5] == 0)
    ///     DR = SR1 + SR2;
    /// else
    ///     DR = SR1 + SEXT(imm5);
    /// setcc();
    /// ```
    pub fn add(&mut self, instr: u16)
        ensures
            old(self)@.wf(),
            final(self)@.wf(),
            final(self)@ == old(self)@.add(instr),
    {
        proof {
            lemma_fields(instr);
        }
        let dr: u16 = (instr >> 9) & 0x7;
        let r1: u16 = (instr >> 6) & 0x7;
        let imm_flag: u16 = (instr >> 5) & 1;

        if imm_flag == 1 {
            let imm5: u32 = sign_extend(instr & 0x1F, 5);
            proof {
                lemma_sign_extend_is_signed_value(instr & 0x1F, 5);
            }
            let result: u16 = add_offset(self.read_register(r1), imm5);
            self.write_register(dr, result);
        } else {
            let r2: u16 = instr & 0b111;
            let result: u16 = add_offset(self.read_register(r1), self.read_register(r2) as u32);
            self.write_register(dr, result);
        }
    }

    /// Bit-Wise Logical AND
    ///
    /// ```encoding
    /// | 0101        | DR      | SR1   | 0 |     | SR2   |
    /// | 15 14 13 12 | 11 10 9 | 8 7 6 | 5 | 4 3 | 2 1 0 |
    ///
    /// | 0101        | DR      | SR1   | 1 | imm5      |
    /// | 15 14 13 12 | 11 10 9 | 8 7 6 | 5 | 4 3 2 1 0 |
    /// ```
    ///
    /// ```operation
    /// if (bit[5] == 0)
    ///     DR = SR1 AND SR2;
    /// else
    ///     DR = SR1 AND SEXT(imm5);
    /// setcc();
    /// ```
    pub fn and(&mut self, instr: u16)
        ensures
            old(self)@.wf(),
            final(self)@.wf(),
            final(self)@ == old(self)@.and(instr),
    {
        proof {
            lemma_fields(instr);
        }
        let dr: u16 = (instr >> 9) & 0x7;
        let sr1: u16 = (instr >> 6) & 0x7;
        let flag: u16 = (instr >> 5) & 1;

        if flag == 1 {
            let imm5: u16 = instr & 0x1F;
            proof {
                lemma_sign_extend_is_signed_value(imm5, 5);
            }
            let result: u16 = self.read_register(sr1) & sign_extend(imm5, 5) as u16;
            self.write_register(dr, result);
        } else {
            let sr2: u16 = instr & 0x7;
            let result: u16 = self.read_register(sr1) & self.read_register(sr2);
            self.write_register(dr, result);
        }
    }

    /// Bit-Wise Complement
    ///
    /// ```encoding
    /// | 1001        | DR      | SR    |             |
    /// | 15 14 13 12 | 11 10 9 | 8 7 6 | 5 4 3 2 1 0 |
    /// ```
    ///
    /// ```operation
    /// DR = NOT(SR);
    /// setcc();
    /// ```
    pub fn not(&mut self, instr: u16)
        ensures
            old(self)@.wf(),
            final(self)@.wf(),
            final(self)@ == old(self)@.not(instr),
    {
        let dr: u16 = (instr >> 9) & 0x7;
        let sr: u16 = (instr >> 6) & 0x7;
        proof {
            lemma_fields(instr);
        }
        let value: u16 = self.read_register(sr);
        proof {
            lemma_word_bits(value);
        }
        self.write_register(dr, !value);
    }

    /// Load
    ///
    /// ```encoding
    /// | 0010        | DR      | PCoffset9         |
    /// | 15 14 13 12 | 11 10 9 | 8 7 6 5 4 3 2 1 0 |
    /// ```
    ///
    /// ```operation
    /// DR = mem[PC + SEXT(PCoffset9)];
    /// setcc();
    /// ```
    pub fn ld(&mut self, instr: u16)
        ensures
            old(self)@.wf(),
            final(self)@.wf(),
            final(self)@ == old(self)@.ld(instr),
    {
        proof {
            lemma_fields(instr);
        }
        let dr: u16 = (instr >> 9) & 0x7;
        let address: u16 = offset_address(self.pc, instr & 0x1FF, 9);
        let result: u16 = self.read_memory(address);
        self.write_register(dr, result);
    }

    /// Load Indirect
    ///
    /// ```encoding
    /// | 1010        | DR      | PCoffset9         |
    /// | 15 14 13 12 | 11 10 9 | 8 7 6 5 4 3 2 1 0 |
    /// ```
    ///
    /// ```operation
    /// DR = mem[mem[PC + SEXT(PCoffset9)]];
    /// setcc();
    /// ```
    pub fn ldi(&mut self, instr: u16)
        ensures
            old(self)@.wf(),
            final(self)@.wf(),
            final(self)@ == old(self)@.ldi(instr),
    {
        proof {
            lemma_fields(instr);
        }
        let dr: u16 = (instr >> 9) & 0x7;
        let address_of_address: u16 = offset_address(self.pc, instr & 0x1FF, 9);
        let address: u16 = self.read_memory(address_of_address);
        let result: u16 = self.read_memory(address);
        self.write_register(dr, result);
    }

    /// Load Base + offset
    ///
    /// ```encoding
    /// | 0110        | DR      | BaseR | offset6     |
    /// | 15 14 13 12 | 11 10 9 | 8 7 6 | 5 4 3 2 1 0 |
    /// ```
    ///
    /// ```operation
    /// DR = mem[BaseR + SEXT(offset6)];
    /// setcc();
    /// ```
    pub fn ldr(&mut self, instr: u16)
        ensures
            old(self)@.wf(),
            final(self)@.wf(),
            final(self)@ == old(self)@.ldr(instr),
    {
        proof {
            lemma_fields(instr);
        }
        let dr: u16 = (instr >> 9) & 0x7;
        let base_r: u16 = (instr >> 6) & 0x7;
        let address: u16 = offset_address(self.read_register(base_r), instr & 0x3F, 6);
        let loaded: u16 = self.read_memory(address);
        self.write_register(dr, loaded);
    }

    /// Store
    ///
    /// ```encoding
    /// | 0011        | SR      | PCoffset9         |
    /// | 15 14 13 12 | 11 10 9 | 8 7 6 5 4 3 2 1 0 |
    /// ```
    ///
    /// ```operation
    /// mem[PC + SEXT(PCoffset9)] = SR;
    /// ```
    pub fn st(&mut self, instr: u16)
        ensures
            old(self)@.wf(),
            final(self)@.wf(),
            final(self)@ == old(self)@.st(instr),
    {
        proof {
            lemma_fields(instr);
        }
        let sr: u16 = (instr >> 9) & 0x7;
        let address: u16 = offset_address(self.pc, instr & 0x1FF, 9);
        let value: u16 = self.read_register(sr);
        self.write_memory(address, value);
    }

    /// Store Indirect
    ///
    /// ```encoding
    /// | 1011        | SR      | PCoffset9         |
    /// | 15 14 13 12 | 11 10 9 | 8 7 6 5 4 3 2 1 0 |
    /// ```
    ///
    /// ```operation
    /// mem[mem[PC + SEXT(PCoffset9)]] = SR;
    /// ```
    pub fn sti(&mut self, instr: u16)
        ensures
            old(self)@.wf(),
            final(self)@.wf(),
            final(self)@ == old(self)@.sti(instr),
    {
        proof {
            lemma_fields(instr);
        }
        let sr: u16 = (instr >> 9) & 0x7;
        let address_of_address: u16 = offset_address(self.pc, instr & 0x1FF, 9);
        let value: u16 = self.read_register(sr);
        let address: u16 = self.read_memory(address_of_address);
        self.write_memory(address, value);
    }

    /// Store Base + offset
    ///
    /// ```encoding
    /// | 0111        | SR      | BaseR | offset6     |
    /// | 15 14 13 12 | 11 10 9 | 8 7 6 | 5 4 3 2 1 0 |
    /// ```
    ///
    /// ```operation
    /// mem[BaseR + SEXT(offset6)] = SR;
    /// ```
    pub fn str(&mut self, instr: u16)
        ensures
            old(self)@.wf(),
            final(self)@.wf(),
            final(self)@ == old(self)@.str(instr),
    {
        proof {
            lemma_fields(instr);
        }
        let sr: u16 = self.read_register((instr >> 9) & 0x7);
        let base_r: u16 = self.read_register((instr >> 6) & 0x7);
        let address: u16 = offset_address(base_r, instr & 0x3F, 6);
        self.write_memory(address, sr);
    }

    /// Conditional Branch
    ///
    /// ```encoding
    /// | 0000        | n  z  p | PCoffset9         |
    /// | 15 14 13 12 | 11 10 9 | 8 7 6 5 4 3 2 1 0 |
    /// ```
    ///
    /// ```operation
    /// if ((n AND N) OR (z AND Z) OR (p AND P))
    ///     PC = PC + SEXT(PCoffset9);
    /// ```
    pub fn br(&mut self, instr: u16)
        ensures
            old(self)@.wf(),
            final(self)@.wf(),
            final(self)@ == old(self)@.br(instr),
    {
        proof {
            lemma_fields(instr);
            lemma_branch_taken_is_mask_and(instr, self.cflag);
        }
        let target: u16 = offset_address(self.pc, instr & 0x1FF, 9);
        let cond_flag: u16 = (instr >> 9) & 0x7;
        if (cond_flag & self.cflag.mask()) != 0 {
            self.pc = target;
        }
    }

    /// Jump
    ///
    /// ```encoding
    /// | 1100        |         | BaseR |             |
    /// | 15 14 13 12 | 11 10 9 | 8 7 6 | 5 4 3 2 1 0 |
    /// ```
    ///
    /// Return from Subroutine
    ///
    /// ```encoding
    /// | 1100        |         | 1 1 1 |             |
    /// | 15 14 13 12 | 11 10 9 | 8 7 6 | 5 4 3 2 1 0 |
    /// ```
    ///
    /// ```operation
    /// PC = BaseR;
    /// ```
    pub fn jmp(&mut self, instr: u16)
        ensures
            old(self)@.wf(),
            final(self)@.wf(),
            final(self)@ == old(self)@.jmp(instr),
    {
        proof {
            lemma_fields(instr);
        }
        let base_r: u16 = (instr >> 6) & 0x7;
        self.pc = self.read_register(base_r);
    }

    /// Jump to Subroutine
    ///
    /// JSR
    ///
    /// ```encoding
    /// | 0100        | 1  | PCoffset11             |
    /// | 15 14 13 12 | 11 | 10 9 8 7 6 5 4 3 2 1 0 |
    /// ```
    ///
    /// JSRR
    ///
    /// ```encoding
    /// | 0100        | 0  |      | BaseR |             |
    /// | 15 14 13 12 | 11 | 10 9 | 8 7 6 | 5 4 3 2 1 0 |
    /// ```
    ///
    /// ```operation
    /// R7 = PC;
    /// setcc();
    /// if (bit[11] == 0)
    ///     PC = BaseR;
    /// else
    ///     PC = PC + SEXT(PCoffset11);
    /// ```
    pub fn jsr(&mut self, instr: u16)
        ensures
            old(self)@.wf(),
            final(self)@.wf(),
            final(self)@ == old(self)@.jsr(instr),
    {
        proof {
            lemma_fields(instr);
        }
        let pc: u16 = self.pc;
        self.write_register(7, pc);
        let jsr_flag: u16 = (instr >> 11) & 1;
        if jsr_flag == 1 {
            self.pc = offset_address(pc, instr & 0x7FF, 11);
        } else {
            self.pc = self.read_register((instr >> 6) & 0x7);
        }
    }

    /// Writes `bytes` to the console.
    fn emit(&mut self, bytes: Vec<u8>)
        ensures
            old(self)@.wf(),
            final(self)@.wf(),
            final(self)@ == old(self)@.emit(bytes@),
    {
        let mut bytes = bytes;
        self.output.append(&mut bytes);
    }

    /// `GETC`: reads a character from the console into register 0, without
    /// an echo and without a change of the flag. Says whether there was one.
    pub fn getc(&mut self) -> (served: bool)
        ensures
            old(self)@.wf(),
            final(self)@.wf(),
            served == (old(self)@.input.len() > 0),
            final(self)@ == old(self)@.getc(),
    {
        if self.input.len() == 0 {
            return false;
        }
        let c: Option<u8> = self.read_char();
        match c {
            Some(byte) => {
                self.registers[0] = byte as u16;
                true
            },
            None => false,
        }
    }

    /// `OUT`: writes the low byte of register 0 to the console.
    pub fn out(&mut self)
        ensures
            old(self)@.wf(),
            final(self)@.wf(),
            final(self)@ == old(self)@.out(),
    {
        let word: u16 = self.read_register(0);
        proof {
            lemma_word_bits(word);
        }
        self.output.push((word & 0xFF) as u8);
        assert(self@.output =~= old(self)@.out().output);
    }

    /// `PUTS`: writes the string of words at the address in register 0 to
    /// the console, one character from the low byte of each word, up to the
    /// first zero word.
    pub fn puts(&mut self)
        ensures
            old(self)@.wf(),
            final(self)@.wf(),
            final(self)@ == old(self)@.puts(),
    {
        let mut address: usize = self.registers[0] as usize;
        while address < MEMORY_SIZE && self.memory[address] != 0
            invariant
                address <= MEMORY_SIZE,
                self@ == (Machine { output: self@.output, ..old(self)@ }),
                self@.output + word_string(self@.memory, address as int) == old(self)@.output
                    + word_string(old(self)@.memory, old(self)@.registers[0] as int),
            decreases MEMORY_SIZE - address,
        {
            let word: u16 = self.memory[address];
            proof {
                lemma_word_bits(word);
            }
            let ghost before = self@.output;
            self.output.push((word & 0xFF) as u8);
            assert(self@.output + word_string(self@.memory, address + 1) =~= before + word_string(
                self@.memory,
                address as int,
            ));
            address += 1;
        }
        assert(self@.output =~= old(self)@.puts().output);
    }

    /// `IN`: writes a prompt, reads a character from the console, writes it
    /// back with a line break, and puts it in register 0 with the flag set
    /// by it. Says whether there was a character.
    pub fn t_in(&mut self) -> (served: bool)
        ensures
            old(self)@.wf(),
            final(self)@.wf(),
            served == (old(self)@.input.len() > 0),
            final(self)@ == old(self)@.t_in(),
    {
        if self.input.len() == 0 {
            return false;
        }
        self.emit(
            vec![
                'E' as u8, 'n' as u8, 't' as u8, 'e' as u8, 'r' as u8, ' ' as u8,
                'a' as u8, ' ' as u8,
                'c' as u8, 'h' as u8, 'a' as u8, 'r' as u8, 'a' as u8, 'c' as u8,
                't' as u8, 'e' as u8, 'r' as u8, ':' as u8, ' ' as u8,
            ],
        );
        let c: Option<u8> = self.read_char();
        match c {
            Some(byte) => {
                self.emit(vec![byte, '\n' as u8]);
                self.write_register(0, byte as u16);
                true
            },
            None => false,
        }
    }

    /// `PUTSP`: writes the string of packed bytes at the address in register
    /// 0 to the console, of each word the low byte and then the high byte,
    /// up to the first zero byte.
    pub fn putsp(&mut self)
        ensures
            old(self)@.wf(),
            final(self)@.wf(),
            final(self)@ == old(self)@.putsp(),
    {
        let mut address: usize = self.registers[0] as usize;
        let mut open: bool = true;
        while open && address < MEMORY_SIZE
            invariant
                address <= MEMORY_SIZE,
                self@ == (Machine { output: self@.output, ..old(self)@ }),
                open ==> self@.output + packed_string(self@.memory, address as int) == old(
                    self,
                )@.output + packed_string(old(self)@.memory, old(self)@.registers[0] as int),
                !open ==> self@.output == old(self)@.output + packed_string(
                    old(self)@.memory,
                    old(self)@.registers[0] as int,
                ),
            decreases MEMORY_SIZE - address + if open { 1int } else { 0int },
        {
            let word: u16 = self.memory[address];
            proof {
                lemma_word_bits(word);
            }
            let low: u8 = (word & 0xFF) as u8;
            let high: u8 = (word >> 8) as u8;
            let ghost before = self@.output;
            if low == 0 {
                open = false;
                assert(before + packed_string(self@.memory, address as int) =~= before);
            } else if high == 0 {
                self.output.push(low);
                open = false;
                assert(self@.output =~= before + packed_string(self@.memory, address as int));
            } else {
                self.output.push(low);
                self.output.push(high);
                assert(self@.output + packed_string(self@.memory, address + 1) =~= before
                    + packed_string(self@.memory, address as int));
                address += 1;
            }
        }
        assert(self@.output =~= old(self)@.putsp().output);
    }

    /// `HALT`: writes the halt notice to the console and stops the machine.
    pub fn halt(&mut self)
        ensures
            old(self)@.wf(),
            final(self)@.wf(),
            final(self)@ == old(self)@.halt(),
    {
        self.emit(vec!['\n' as u8, 'H' as u8, 'A' as u8, 'L' as u8, 'T' as u8, '\n' as u8]);
        self.running = false;
    }

    /// System Call
    ///
    /// ```encoding
    /// | 1111        |           | trapvect8       |
    /// | 15 14 13 12 | 11 10 9 8 | 7 6 5 4 3 2 1 0 |
    /// ```
    ///
    /// Fails, and changes nothing, where the system call reads a character
    /// and none waits on the console; the error names the trap vector and
    /// the address before the program counter, where the instruction stands.
    pub fn trap(&mut self, instr: u16) -> (r: Result<(), VmError>)
        ensures
            old(self)@.wf(),
            final(self)@.wf(),
            r is Err <==> old(self)@.trap_fails(instr),
            r matches Err(e) ==> e == (VmError::ConsoleRead {
                vector: trap_vector(instr),
                pc: wrap16(old(self)@.pc - 1),
            }),
            final(self)@ == old(self)@.trap(instr),
    {
        proof {
            lemma_fields(instr);
        }
        let trap: u16 = instr & 0xff;
        let served: bool = match Trap::try_from(trap) {
            Ok(Trap::Puts) => {
                self.puts();
                true
            },
            Ok(Trap::Halt) => {
                self.halt();
                true
            },
            Ok(Trap::Getc) => self.getc(),
            Ok(Trap::Out) => {
                self.out();
                true
            },
            Ok(Trap::In) => self.t_in(),
            Ok(Trap::Putsp) => {
                self.putsp();
                true
            },
            Err(_) => true,
        };
        if served {
            Ok(())
        } else {
            Err(VmError::ConsoleRead { vector: trap, pc: self.pc.wrapping_sub(1) })
        }
    }

    /// Executes `instr`, with the program counter standing behind it. The
    /// reserved operations `RTI` and `RES` do nothing. Fails where
    /// [`VM::trap`] does.
    pub fn execute(&mut self, instr: u16) -> (r: Result<(), VmError>)
        ensures
            old(self)@.wf(),
            final(self)@.wf(),
            r is Err <==> old(self)@.execute_fails(instr),
            r matches Err(e) ==> e == (VmError::ConsoleRead {
                vector: trap_vector(instr),
                pc: wrap16(old(self)@.pc - 1),
            }),
            final(self)@ == old(self)@.execute(instr),
    {
        proof {
            lemma_fields(instr);
        }
        let op: u16 = instr >> 12;
        match Op::try_from(op) {
            Ok(Op::Lea) => self.lea(instr),
            Ok(Op::Add) => self.add(instr),
            Ok(Op::Trap) => {
                return self.trap(instr);
            },
            Ok(Op::Ld) => self.ld(instr),
            Ok(Op::Jsr) => self.jsr(instr),
            Ok(Op::Br) => self.br(instr),
            Ok(Op::St) => self.st(instr),
            Ok(Op::Sti) => self.sti(instr),
            Ok(Op::Str) => self.str(instr),
            Ok(Op::And) => self.and(instr),
            Ok(Op::Ldr) => self.ldr(instr),
            Ok(Op::Jmp) => self.jmp(instr),
            Ok(Op::Not) => self.not(instr),
            Ok(Op::Ldi) => self.ldi(instr),
            Ok(Op::Rti) => (),
            Ok(Op::Res) => (),
            Err(_) => (),
        }
        Ok(())
    }

    /// Reads the instruction at the program counter and moves the program
    /// counter behind it, from the last address to the first.
    pub fn fetch(&mut self) -> (instr: u16)
        ensures
            old(self)@.wf(),
            final(self)@.wf(),
            final(self)@ == old(self)@.fetch(),
            instr == old(self)@.fetched(),
    {
        let at: u16 = self.pc;
        let instr: u16 = self.read_memory(at);
        self.pc = at.wrapping_add(1);
        instr
    }

    /// One turn of the loop: fetches the instruction at the program counter,
    /// moves the program counter behind it and executes it. A halted machine
    /// does nothing. Where the instruction fails, the machine is left as it
    /// was before the fetch, and the error names the instruction's address.
    #[verifier::spinoff_prover]
    #[verifier::rlimit(30)]
    pub fn step(&mut self) -> (r: Result<(), VmError>)
        ensures
            old(self)@.wf(),
            final(self)@.wf(),
            r is Err <==> old(self)@.step_fails(),
            r matches Err(e) ==> e == (VmError::ConsoleRead {
                vector: trap_vector(old(self)@.fetched()),
                pc: old(self)@.pc,
            }),
            final(self)@ == old(self)@.step(),
    {
        if !self.running {
            return Ok(());
        }
        let at: u16 = self.pc;
        let instr: u16 = self.fetch();
        let ghost fetched = self@;
        let r = self.execute(instr);
        if r.is_err() {
            proof {
                lemma_wants_input(old(self)@);
                lemma_failed_execute(fetched, instr);
                assert(wrap16(wrap16(at + 1) - 1) == at);
                assert(fetched == old(self)@.jump(wrap16(at + 1)));
            }
            self.pc = at;
            assert(self@ == old(self)@);
        }
        r
    }

    /// Whether executing the next instruction reads the console.
    #[verifier::spinoff_prover]
    pub fn wants_input(&self) -> (wanted: bool)
        ensures
            self@.wf(),
            wanted == self@.wants_input(),
    {
        if !self.running {
            return false;
        }
        if self.pc == MR_KBSR {
            return true;
        }
        let instr: u16 = self.memory[self.pc as usize];
        let pc: u16 = self.pc.wrapping_add(1);
        proof {
            lemma_fields(instr);
        }
        let op: u16 = instr >> 12;
        match Op::try_from(op) {
            Ok(Op::Ld) | Ok(Op::Sti) => offset_address(pc, instr & 0x1FF, 9) == MR_KBSR,
            Ok(Op::Ldi) => {
                let address: u16 = offset_address(pc, instr & 0x1FF, 9);
                address == MR_KBSR || self.memory[address as usize] == MR_KBSR
            },
            Ok(Op::Ldr) => {
                let base_r: u16 = self.read_register((instr >> 6) & 0x7);
                offset_address(base_r, instr & 0x3F, 6) == MR_KBSR
            },
            Ok(Op::Trap) => {
                let trap: u16 = instr & 0xff;
                trap == 0x20 || trap == 0x23
            },
            _ => false,
        }
    }

    /// Whether the machine waits for the console: it runs, its next
    /// instruction reads the console, and no byte waits there.
    pub fn awaits_input(&self) -> (waiting: bool)
        ensures
            self@.wf(),
            waiting == self@.blocked(),
    {
        self.running && self.input.len() == 0 && self.wants_input()
    }

    /// Runs the fetch-decode-execute loop for at most `max_steps`
    /// instructions. Before each instruction it stops where the machine has
    /// halted, else where the machine waits for the console, else where no
    /// step is left. No step of the loop fails: an instruction that reads an
    /// empty console is not begun.
    pub fn run(&mut self, max_steps: u64) -> (stop: Stop)
        ensures
            old(self)@.wf(),
            final(self)@.wf(),
            (final(self)@, stop) == old(self)@.run(max_steps as nat),
    {
        let mut left: u64 = max_steps;
        loop
            invariant
                self@.run(left as nat) == old(self)@.run(max_steps as nat),
            decreases left,
        {
            if !self.running {
                return Stop::Halted;
            }
            if self.awaits_input() {
                return Stop::AwaitingInput;
            }
            if left == 0 {
                return Stop::StepLimit;
            }
            let _ = self.step();
            left -= 1;
        }
    }
}

} // verus!
