//! Laws of the machine: what holds of every state, and how its operations
//! relate to one another.

use vstd::prelude::*;
use crate::fields::{dr, imm5, immediate_mode, offset9, opcode, sr1, sr2, trap_vector};
use crate::flag::Flag;
use crate::image::{boot, image_origin, image_valid, image_word, program_len};
use crate::machine::{halt_notice, Machine, Stop, KEY_READY, MEMORY_SIZE, MR_KBDR, MR_KBSR};
use crate::op::{Op, Trap};
use crate::word::wrap16;

verus! {

/// A machine that starts on a valid image is well formed; its memory holds
/// the words of the program from the origin on, and zero at every other
/// address.
pub proof fn lemma_boot_memory(image: Seq<u8>, address: int)
    requires
        image_valid(image),
        0 <= address < MEMORY_SIZE,
    ensures
        boot(image).wf(),
        boot(image).pc == image_origin(image),
        0 <= address - image_origin(image) < program_len(image) ==> boot(image).memory[address]
            == image_word(image, address - image_origin(image) + 1),
        !(0 <= address - image_origin(image) < program_len(image)) ==> boot(image).memory[address]
            == 0,
{
}

/// Executing an instruction keeps memory and registers at their sizes, and
/// so do the fetch and a step.
pub proof fn lemma_step_keeps_wf(m: Machine, instr: u16)
    requires
        m.wf(),
    ensures
        m.execute(instr).wf(),
        m.fetch().wf(),
        m.step().wf(),
{
    lemma_execute_keeps_wf(m.fetch(), m.fetched());
    lemma_execute_keeps_wf(m, instr);
}

proof fn lemma_execute_keeps_wf(m: Machine, instr: u16)
    requires
        m.wf(),
    ensures
        m.execute(instr).wf(),
{
}

/// The loop keeps memory and registers at their sizes.
pub proof fn lemma_run_keeps_wf(m: Machine, fuel: nat)
    requires
        m.wf(),
    ensures
        m.run(fuel).0.wf(),
    decreases fuel,
{
    if m.running && !m.blocked() && fuel > 0 {
        lemma_step_keeps_wf(m, 0);
        lemma_run_keeps_wf(m.step(), (fuel - 1) as nat);
    }
}

/// `ADD` and `AND` choose their second operand by bit 5 of the instruction
/// alone: the sign-extended immediate where it is set, the second source
/// register where it is clear. In both modes the flag is set by the value
/// that the destination receives, and nothing but that register and the
/// flag changes.
pub proof fn lemma_alu_mode(m: Machine, instr: u16)
    requires
        m.wf(),
    ensures
        immediate_mode(instr) ==> m.add(instr).registers[dr(instr)] == wrap16(
            m.registers[sr1(instr)] + imm5(instr),
        ),
        !immediate_mode(instr) ==> m.add(instr).registers[dr(instr)] == wrap16(
            m.registers[sr1(instr)] + m.registers[sr2(instr)],
        ),
        immediate_mode(instr) ==> m.and(instr).registers[dr(instr)] == m.registers[sr1(instr)]
            & wrap16(imm5(instr)),
        !immediate_mode(instr) ==> m.and(instr).registers[dr(instr)] == m.registers[sr1(instr)]
            & m.registers[sr2(instr)],
        m.add(instr).flag == Flag::of(m.add(instr).registers[dr(instr)]),
        m.and(instr).flag == Flag::of(m.and(instr).registers[dr(instr)]),
        m.add(instr) == m.write_register(dr(instr), m.add(instr).registers[dr(instr)]),
        m.and(instr) == m.write_register(dr(instr), m.and(instr).registers[dr(instr)]),
{
    assert(wrap16(m.registers[sr1(instr)] + wrap16(imm5(instr))) == wrap16(
        m.registers[sr1(instr)] + imm5(instr),
    ));
}

/// Besides the destination and the first source, an `ADD` or `AND` in
/// register mode depends on the second source alone, and one in immediate
/// mode on the immediate alone: two instructions of the same mode that agree
/// on these have the same effect, whatever their other bits hold.
pub proof fn lemma_alu_operand_fields(m: Machine, instr: u16, other: u16)
    requires
        m.wf(),
        dr(instr) == dr(other),
        sr1(instr) == sr1(other),
        immediate_mode(instr) == immediate_mode(other),
        immediate_mode(instr) ==> imm5(instr) == imm5(other),
        !immediate_mode(instr) ==> sr2(instr) == sr2(other),
    ensures
        m.add(instr) == m.add(other),
        m.and(instr) == m.and(other),
{
}

/// `LDI` reads twice, and the second read depends on the first: it loads
/// the word at the address that the pointer cell holds when the instruction
/// runs. So a pointer stored in the cell beforehand decides what the next
/// `LDI` from that cell loads. The cell must not be the keyboard status
/// register, whose content every read replaces.
pub proof fn lemma_ldi_follows_pointer(m: Machine, instr: u16, pointer: u16)
    requires
        m.wf(),
        m.pc_relative(offset9(instr)) != MR_KBSR,
    ensures
        ({
            let cell = m.pc_relative(offset9(instr));
            let stored = m.write_memory(cell, pointer);
            let loaded = stored.ldi(instr);
            &&& loaded.registers[dr(instr)] == loaded.memory[pointer as int]
            &&& loaded.flag == Flag::of(loaded.registers[dr(instr)])
            &&& pointer != MR_KBSR ==> loaded == stored.write_register(
                dr(instr),
                stored.memory[pointer as int],
            )
        }),
{
}

/// Every read of the keyboard status register reads the console exactly
/// once, and a read of any other address never does. Two reads in a row take
/// two bytes in a row, and each returns the status that its own byte gives:
/// nothing is kept from one read to the next.
pub proof fn lemma_status_reads_are_separate(m: Machine, address: u16)
    requires
        m.wf(),
    ensures
        address != MR_KBSR ==> m.read_memory(address) == m,
        m.read_memory(MR_KBSR).reads == m.reads + 1,
        m.read_memory(MR_KBSR).read_memory(MR_KBSR).reads == m.reads + 2,
        m.input.len() == 0 ==> m.read_memory(MR_KBSR).input == m.input,
        m.input.len() >= 1 ==> m.read_memory(MR_KBSR).input == m.input.drop_first(),
        m.input.len() >= 2 ==> m.read_memory(MR_KBSR).read_memory(MR_KBSR).input
            == m.input.drop_first().drop_first(),
        m.read_value(MR_KBSR) == if m.input.len() >= 1 && m.input[0] != 0 {
            KEY_READY
        } else {
            0u16
        },
        m.read_memory(MR_KBSR).read_value(MR_KBSR) == if m.input.len() >= 2 && m.input[1] != 0 {
            KEY_READY
        } else {
            0u16
        },
        m.input.len() >= 1 && m.input[0] != 0 ==> m.read_memory(MR_KBSR).memory[MR_KBDR as int]
            == m.input[0],
        m.input.len() >= 2 && m.input[1] != 0 ==> m.read_memory(MR_KBSR).read_memory(
            MR_KBSR,
        ).memory[MR_KBDR as int] == m.input[1],
{
}

/// Executing an instruction reads the console once where
/// [`Machine::reads_console`] holds and the instruction does not fail, and
/// never otherwise; and an instruction fails only where it would read.
pub proof fn lemma_execute_reads(m: Machine, instr: u16)
    requires
        m.wf(),
    ensures
        m.execute_fails(instr) ==> m.reads_console(instr),
        m.execute(instr).reads == m.reads + if m.reads_console(instr) && !m.execute_fails(instr) {
            1nat
        } else {
            0nat
        },
{
}

/// An instruction that fails changes nothing.
pub proof fn lemma_failed_execute(m: Machine, instr: u16)
    ensures
        m.execute_fails(instr) ==> m.execute(instr) == m,
{
}

/// A step reads the console at most once. It reads the console, or fails
/// for want of a character, exactly where [`Machine::wants_input`] holds; a
/// step that does not read leaves the waiting bytes alone; and a step fails
/// only where no byte waits, and never in the fetch.
pub proof fn lemma_wants_input(m: Machine)
    requires
        m.wf(),
    ensures
        m.wants_input() <==> m.step_fails() || m.step().reads == m.reads + 1,
        !m.wants_input() ==> m.step().reads == m.reads && m.step().input == m.input,
        m.step_fails() ==> m.input.len() == 0 && m.pc != MR_KBSR,
        m.blocked() || !m.step_fails(),
{
    if m.running {
        let instr = m.fetched();
        let fetched = m.fetch();
        lemma_execute_reads(fetched, instr);
        if m.pc == MR_KBSR {
            assert(instr == KEY_READY || instr == 0);
            assert(!fetched.reads_console(instr));
        }
    }
}

/// Once the machine has halted it stays as it is: a step changes nothing
/// and fetches nothing, and the loop stops at once, whatever it is granted.
pub proof fn lemma_halted_stays_halted(m: Machine, fuel: nat)
    requires
        !m.running,
    ensures
        m.step() == m,
        !m.step_fails(),
        !m.wants_input(),
        !m.blocked(),
        m.run(fuel) == (m, Stop::Halted),
{
}

/// `HALT` writes its notice, stops the machine and changes nothing else;
/// the loop does not move the machine from there.
pub proof fn lemma_halt_stops(m: Machine, fuel: nat)
    ensures
        !m.halt().running,
        m.halt() == (Machine { running: false, output: m.output + halt_notice(), ..m }),
        m.halt().run(fuel) == (m.halt(), Stop::Halted),
        m.halt().step() == m.halt(),
{
}

/// Only `HALT` stops the machine: where a step of a running machine leaves
/// it halted, the instruction it fetched is a `TRAP` with the vector of
/// `HALT`.
pub proof fn lemma_only_halt_stops(m: Machine)
    requires
        m.wf(),
        m.running,
        !m.step().running,
    ensures
        Op::decode(opcode(m.fetched())) == Ok::<Op, ()>(Op::Trap),
        Trap::decode(trap_vector(m.fetched())) == Ok::<Trap, ()>(Trap::Halt),
        m.step() == m.fetch().halt(),
{
}

/// The loop stops halted exactly on a halted machine, waiting exactly on a
/// machine that waits for the console, and for want of steps only on a
/// machine that could go on.
pub proof fn lemma_run_stop(m: Machine, fuel: nat)
    ensures
        m.run(fuel).1 == Stop::Halted <==> !m.run(fuel).0.running,
        m.run(fuel).1 == Stop::AwaitingInput <==> m.run(fuel).0.blocked(),
        m.run(fuel).1 == Stop::StepLimit <==> m.run(fuel).0.running && !m.run(fuel).0.blocked(),
        fuel == 0 && m.running && !m.blocked() ==> m.run(fuel) == (m, Stop::StepLimit),
    decreases fuel,
{
    if m.running && !m.blocked() && fuel > 0 {
        lemma_run_stop(m.step(), (fuel - 1) as nat);
    }
}

/// The loop can be run in turns: to grant `first` steps and then, where
/// they are used up, `second` more is to grant them all at once; and where
/// the loop stops for another reason, more steps change nothing.
pub proof fn lemma_run_resumes(m: Machine, first: nat, second: nat)
    ensures
        m.run(first).1 == Stop::StepLimit ==> m.run(first + second) == m.run(first).0.run(second),
        m.run(first).1 != Stop::StepLimit ==> m.run(first + second) == m.run(first),
    decreases first,
{
    if m.running && !m.blocked() && first > 0 {
        lemma_run_resumes(m.step(), (first - 1) as nat, second);
        assert(m.run(first + second) == m.step().run((first + second - 1) as nat));
    }
}

} // verus!
