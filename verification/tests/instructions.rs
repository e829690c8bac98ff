use lc3_vm::flag::Flag;
use lc3_vm::vm::VM;

const ORIGIN: u16 = 0x3000;

fn image(origin: u16, words: &[u16]) -> Vec<u8> {
    let mut bytes = vec![(origin >> 8) as u8, origin as u8];
    for word in words {
        bytes.push((word >> 8) as u8);
        bytes.push(*word as u8);
    }
    bytes
}

fn machine(words: &[u16]) -> VM {
    VM::new(image(ORIGIN, words)).unwrap()
}

#[test]
fn lea_after_one_step_holds_the_address_behind_the_instruction() {
    // LEA R0, #0
    let mut vm = machine(&[0xE000]);
    assert_eq!(vm.step(), Ok(()));
    assert_eq!(vm.pc(), 0x3001);
    assert_eq!(vm.read_register(0), 0x3001);
    assert_eq!(vm.flag(), Flag::Positive);
}

#[test]
fn lea_with_offset_minus_one_gives_its_own_address() {
    // LEA R0, #-1
    let mut vm = machine(&[0xE1FF]);
    assert_eq!(vm.step(), Ok(()));
    assert_eq!(vm.read_register(0), 0x3000);
    assert_eq!(vm.flag(), Flag::Positive);
}

#[test]
fn lea_handler_adds_the_signed_offset_to_the_program_counter() {
    let mut vm = machine(&[]);
    // LEA R3, #-256
    vm.lea(0xE700);
    assert_eq!(vm.read_register(3), 0x2F00);
    assert_eq!(vm.flag(), Flag::Positive);
    // LEA R4, #255
    vm.lea(0xE8FF);
    assert_eq!(vm.read_register(4), 0x30FF);
    assert_eq!(vm.pc(), ORIGIN);
}

#[test]
fn add_immediate_and_register_modes() {
    let mut vm = machine(&[]);
    // ADD R1, R1, #5
    vm.add(0x1265);
    assert_eq!(vm.read_register(1), 5);
    assert_eq!(vm.flag(), Flag::Positive);
    // ADD R2, R1, #-1
    vm.add(0x147F);
    assert_eq!(vm.read_register(2), 4);
    // ADD R3, R1, R2
    vm.add(0x1642);
    assert_eq!(vm.read_register(3), 9);
    assert_eq!(vm.flag(), Flag::Positive);
    // ADD R4, R4, #-16
    vm.add(0x1930);
    assert_eq!(vm.read_register(4), 0xFFF0);
    assert_eq!(vm.flag(), Flag::Negative);
}

#[test]
fn add_mode_is_selected_by_bit_five_alone() {
    let mut vm = machine(&[]);
    vm.write_register(1, 100);
    vm.write_register(2, 7);
    // bits 4 and 3 of a register-mode ADD are ignored: ADD R0, R1, R2
    vm.add(0x1042);
    assert_eq!(vm.read_register(0), 107);
    vm.add(0x1042 | 0x18);
    assert_eq!(vm.read_register(0), 107);
    // with bit 5 set the same low bits are an immediate: 0b11010 is -6
    vm.add(0x1042 | 0x18 | 0x20);
    assert_eq!(vm.read_register(0), 94);
    // with bit 5 set and immediate 2: ADD R0, R1, #2
    vm.add(0x1062);
    assert_eq!(vm.read_register(0), 102);
}

#[test]
fn add_wraps_modulo_65536_and_sets_the_flag_alike_in_both_modes() {
    let mut vm = machine(&[]);
    vm.write_register(1, 0xFFFF);
    vm.write_register(2, 1);
    // ADD R0, R1, R2
    vm.add(0x1042);
    assert_eq!(vm.read_register(0), 0);
    assert_eq!(vm.flag(), Flag::Zero);
    // ADD R0, R1, #1
    vm.add(0x1061);
    assert_eq!(vm.read_register(0), 0);
    assert_eq!(vm.flag(), Flag::Zero);
    vm.write_register(1, 0x7FFF);
    // ADD R0, R1, R2
    vm.add(0x1042);
    assert_eq!(vm.read_register(0), 0x8000);
    assert_eq!(vm.flag(), Flag::Negative);
    // ADD R0, R1, #1
    vm.add(0x1061);
    assert_eq!(vm.read_register(0), 0x8000);
    assert_eq!(vm.flag(), Flag::Negative);
}

#[test]
fn and_immediate_and_register_modes() {
    let mut vm = machine(&[]);
    vm.write_register(1, 0x0F0F);
    vm.write_register(2, 0x00FF);
    // AND R0, R1, R2
    vm.and(0x5042);
    assert_eq!(vm.read_register(0), 0x000F);
    assert_eq!(vm.flag(), Flag::Positive);
    // AND R0, R1, #0
    vm.and(0x5060);
    assert_eq!(vm.read_register(0), 0);
    assert_eq!(vm.flag(), Flag::Zero);
    // AND R0, R1, #-1: the immediate is sign-extended to 0xFFFF
    vm.and(0x507F);
    assert_eq!(vm.read_register(0), 0x0F0F);
    // AND R0, R1, #-16: 0xFFF0
    vm.and(0x5070);
    assert_eq!(vm.read_register(0), 0x0F00);
    // AND R0, R1, #15
    vm.and(0x506F);
    assert_eq!(vm.read_register(0), 0x000F);
}

#[test]
fn and_mode_is_selected_by_bit_five_alone() {
    let mut vm = machine(&[]);
    vm.write_register(1, 0xFFFF);
    vm.write_register(2, 0x1234);
    // AND R0, R1, R2 with bits 4 and 3 set
    vm.and(0x5042 | 0x18);
    assert_eq!(vm.read_register(0), 0x1234);
    assert_eq!(vm.flag(), Flag::Positive);
    // the same low bits as an immediate: 0b11010 is 0xFFFA
    vm.and(0x5042 | 0x18 | 0x20);
    assert_eq!(vm.read_register(0), 0xFFFA);
    assert_eq!(vm.flag(), Flag::Negative);
}

#[test]
fn not_complements_every_bit() {
    let mut vm = machine(&[]);
    vm.write_register(1, 0x00FF);
    // NOT R0, R1
    vm.not(0x907F);
    assert_eq!(vm.read_register(0), 0xFF00);
    assert_eq!(vm.flag(), Flag::Negative);
    vm.write_register(1, 0xFFFF);
    vm.not(0x907F);
    assert_eq!(vm.read_register(0), 0);
    assert_eq!(vm.flag(), Flag::Zero);
    vm.write_register(1, 0x8000);
    vm.not(0x907F);
    assert_eq!(vm.read_register(0), 0x7FFF);
    assert_eq!(vm.flag(), Flag::Positive);
}

#[test]
fn ld_loads_relative_to_the_program_counter() {
    // LD R1, #1 ; (skipped) ; data
    let mut vm = machine(&[0x2201, 0x0000, 0xBEEF]);
    assert_eq!(vm.step(), Ok(()));
    assert_eq!(vm.read_register(1), 0xBEEF);
    assert_eq!(vm.flag(), Flag::Negative);
    assert_eq!(vm.pc(), 0x3001);
}

#[test]
fn ld_with_negative_offset_reads_below_the_program_counter() {
    // a branch that is never taken ; LD R2, #-2
    let mut vm = machine(&[0x0042, 0x25FE]);
    assert_eq!(vm.step(), Ok(()));
    // the load stands at 0x3001 and reads 0x3002 - 2 = 0x3000
    assert_eq!(vm.step(), Ok(()));
    assert_eq!(vm.read_register(2), 0x0042);
    assert_eq!(vm.flag(), Flag::Positive);
}

#[test]
fn ldi_loads_through_the_pointer_cell() {
    // LDI R0, #1 ; (skipped) ; pointer
    let mut vm = machine(&[0xA001, 0x0000, 0x4000]);
    vm.write_memory(0x4000, 0x1234);
    vm.write_memory(0x5000, 0x8765);
    assert_eq!(vm.step(), Ok(()));
    assert_eq!(vm.read_register(0), 0x1234);
    assert_eq!(vm.flag(), Flag::Positive);
}

#[test]
fn ldi_observes_a_pointer_changed_between_two_loads() {
    // LDI R0, #1 ; LDI R1, #0 ; pointer
    let mut vm = machine(&[0xA001, 0xA200, 0x4000]);
    vm.write_memory(0x4000, 0x1234);
    vm.write_memory(0x5000, 0x8765);
    assert_eq!(vm.step(), Ok(()));
    assert_eq!(vm.read_register(0), 0x1234);
    // the pointer cell now points elsewhere
    vm.write_memory(0x3002, 0x5000);
    assert_eq!(vm.step(), Ok(()));
    assert_eq!(vm.read_register(1), 0x8765);
    assert_eq!(vm.flag(), Flag::Negative);
}

#[test]
fn ldi_observes_a_pointer_stored_by_the_program() {
    // LDI R0, #3 ; ST R2, #2 ; LDI R1, #1 ; HALT ; pointer
    let mut vm = machine(&[0xA003, 0x3402, 0xA201, 0xF025, 0x4000]);
    vm.write_memory(0x4000, 11);
    vm.write_memory(0x5000, 22);
    vm.write_register(2, 0x5000);
    assert_eq!(vm.step(), Ok(()));
    assert_eq!(vm.read_register(0), 11);
    assert_eq!(vm.step(), Ok(()));
    assert_eq!(vm.peek_memory(0x3004), 0x5000);
    assert_eq!(vm.step(), Ok(()));
    assert_eq!(vm.read_register(1), 22);
}

#[test]
fn ldr_loads_relative_to_the_base_register() {
    let mut vm = machine(&[]);
    vm.write_register(2, 0x4000);
    vm.write_memory(0x4003, 0x00AA);
    vm.write_memory(0x3FFF, 0x00BB);
    // LDR R1, R2, #3
    vm.ldr(0x6283);
    assert_eq!(vm.read_register(1), 0x00AA);
    // LDR R1, R2, #-1
    vm.ldr(0x62BF);
    assert_eq!(vm.read_register(1), 0x00BB);
    assert_eq!(vm.flag(), Flag::Positive);
}

#[test]
fn st_stores_relative_to_the_program_counter_and_keeps_the_flag() {
    let mut vm = machine(&[]);
    vm.write_register(3, 0x8001);
    vm.write_register(4, 0);
    assert_eq!(vm.flag(), Flag::Zero);
    // ST R3, #16
    vm.st(0x3610);
    assert_eq!(vm.peek_memory(0x3010), 0x8001);
    assert_eq!(vm.flag(), Flag::Zero);
    // ST R3, #-1
    vm.st(0x37FF);
    assert_eq!(vm.peek_memory(0x2FFF), 0x8001);
}

#[test]
fn sti_stores_through_the_pointer_cell() {
    let mut vm = machine(&[]);
    vm.write_memory(0x3005, 0x6000);
    vm.write_register(1, 0x00C3);
    vm.write_register(2, 0);
    // STI R1, #5
    vm.sti(0xB205);
    assert_eq!(vm.peek_memory(0x6000), 0x00C3);
    assert_eq!(vm.peek_memory(0x3005), 0x6000);
    assert_eq!(vm.flag(), Flag::Zero);
}

#[test]
fn sti_through_a_step_is_implemented() {
    // STI R1, #1 ; (skipped) ; pointer
    let mut vm = machine(&[0xB201, 0x0000, 0x7000]);
    vm.write_register(1, 0x0BAD);
    assert_eq!(vm.step(), Ok(()));
    assert_eq!(vm.peek_memory(0x7000), 0x0BAD);
    assert!(vm.is_running());
}

#[test]
fn str_stores_relative_to_the_base_register() {
    let mut vm = machine(&[]);
    vm.write_register(1, 0x1111);
    vm.write_register(2, 0x4000);
    // STR R1, R2, #2
    vm.str(0x7282);
    assert_eq!(vm.peek_memory(0x4002), 0x1111);
    // STR R1, R2, #-32
    vm.str(0x72A0);
    assert_eq!(vm.peek_memory(0x3FE0), 0x1111);
    assert_eq!(vm.flag(), Flag::Positive);
}

#[test]
fn address_arithmetic_wraps_at_both_ends() {
    let mut vm = machine(&[]);
    vm.write_register(2, 0xFFFF);
    vm.write_register(1, 0x0077);
    // STR R1, R2, #1 wraps to address 0
    vm.str(0x7281);
    assert_eq!(vm.peek_memory(0), 0x0077);
    vm.write_register(2, 0);
    // STR R1, R2, #-1 wraps to address 0xFFFF
    vm.str(0x72BF);
    assert_eq!(vm.peek_memory(0xFFFF), 0x0077);
}

#[test]
fn br_decision_matches_the_logical_and_for_all_masks_and_flags() {
    let flags: [(u16, Flag); 3] = [(1, Flag::Positive), (0, Flag::Zero), (0x8000, Flag::Negative)];
    for (value, flag) in flags {
        for mask in 0..8u16 {
            let mut vm = machine(&[]);
            vm.write_register(0, value);
            assert_eq!(vm.flag(), flag);
            // BR<mask> #4
            vm.br((mask << 9) | 0x004);
            let taken = mask & flag.mask() != 0;
            let expected = if taken { ORIGIN + 4 } else { ORIGIN };
            assert_eq!(vm.pc(), expected);
            assert_eq!(vm.flag(), flag);
        }
    }
}

#[test]
fn br_takes_negative_offsets() {
    let mut vm = machine(&[]);
    // BRnzp #-3
    vm.br(0x0FFD);
    assert_eq!(vm.pc(), 0x2FFD);
}

#[test]
fn br_each_condition_bit_answers_to_its_flag() {
    let mut vm = machine(&[]);
    vm.write_register(0, 0xFFFF);
    // BRn #1
    vm.br(0x0801);
    assert_eq!(vm.pc(), 0x3001);
    // BRz #1 and BRp #1 are not taken
    vm.br(0x0401);
    vm.br(0x0201);
    assert_eq!(vm.pc(), 0x3001);
    vm.write_register(0, 0);
    // BRz #1
    vm.br(0x0401);
    assert_eq!(vm.pc(), 0x3002);
    vm.write_register(0, 1);
    // BRp #1
    vm.br(0x0201);
    assert_eq!(vm.pc(), 0x3003);
    // BRnz #1 is not taken
    vm.br(0x0C01);
    assert_eq!(vm.pc(), 0x3003);
}

#[test]
fn jmp_sets_the_program_counter_from_the_base_register() {
    let mut vm = machine(&[]);
    vm.write_register(3, 0x1234);
    // JMP R3
    vm.jmp(0xC0C0);
    assert_eq!(vm.pc(), 0x1234);
    vm.write_register(7, 0x4321);
    // RET
    vm.jmp(0xC1C0);
    assert_eq!(vm.pc(), 0x4321);
    assert_eq!(vm.flag(), Flag::Positive);
}

#[test]
fn jsr_links_and_jumps_relative() {
    // JSR #16
    let mut vm = machine(&[0x4810]);
    assert_eq!(vm.step(), Ok(()));
    assert_eq!(vm.read_register(7), 0x3001);
    assert_eq!(vm.pc(), 0x3011);
    // the link is a flag-setting write
    assert_eq!(vm.flag(), Flag::Positive);
}

#[test]
fn jsr_with_negative_offset() {
    let mut vm = machine(&[]);
    // JSR #-1024
    vm.jsr(0x4C00);
    assert_eq!(vm.read_register(7), 0x3000);
    assert_eq!(vm.pc(), 0x2C00);
}

#[test]
fn jsrr_links_and_jumps_to_the_base_register() {
    let mut vm = machine(&[]);
    vm.write_register(2, 0x5000);
    // JSRR R2
    vm.jsr(0x4080);
    assert_eq!(vm.read_register(7), 0x3000);
    assert_eq!(vm.pc(), 0x5000);
}

#[test]
fn jsrr_through_register_seven_reads_the_link_just_written() {
    let mut vm = machine(&[]);
    vm.write_register(7, 0x5000);
    // JSRR R7
    vm.jsr(0x41C0);
    assert_eq!(vm.read_register(7), 0x3000);
    assert_eq!(vm.pc(), 0x3000);
}

#[test]
fn reserved_operations_do_nothing_but_advance() {
    // RTI ; RES
    let mut vm = machine(&[0x8000, 0xD000]);
    vm.write_register(1, 0x8000);
    assert_eq!(vm.step(), Ok(()));
    assert_eq!(vm.pc(), 0x3001);
    assert_eq!(vm.step(), Ok(()));
    assert_eq!(vm.pc(), 0x3002);
    assert!(vm.is_running());
    assert_eq!(vm.read_register(1), 0x8000);
    assert_eq!(vm.flag(), Flag::Negative);
    assert_eq!(vm.take_output(), Vec::<u8>::new());
}

#[test]
fn execute_dispatches_on_the_top_four_bits() {
    let mut vm = machine(&[]);
    // ADD R0, R0, #7
    assert_eq!(vm.execute(0x1027), Ok(()));
    assert_eq!(vm.read_register(0), 7);
    // NOT R1, R0
    assert_eq!(vm.execute(0x923F), Ok(()));
    assert_eq!(vm.read_register(1), 0xFFF8);
    // JMP R0
    assert_eq!(vm.execute(0xC000), Ok(()));
    assert_eq!(vm.pc(), 7);
}

#[test]
fn write_register_sets_the_flag_by_the_value() {
    let mut vm = machine(&[]);
    vm.write_register(5, 0x8000);
    assert_eq!(vm.flag(), Flag::Negative);
    assert_eq!(vm.read_register(5), 0x8000);
    vm.write_register(6, 0x7FFF);
    assert_eq!(vm.flag(), Flag::Positive);
    vm.write_register(7, 0);
    assert_eq!(vm.flag(), Flag::Zero);
    assert_eq!(vm.read_register(5), 0x8000);
    assert_eq!(vm.read_register(6), 0x7FFF);
}

#[test]
fn program_counter_wraps_from_the_last_address_to_zero() {
    // ADD R0, R0, #1 at 0xFFFF
    let mut vm = VM::new(image(0xFFFF, &[0x1021])).unwrap();
    assert_eq!(vm.step(), Ok(()));
    assert_eq!(vm.pc(), 0);
    assert_eq!(vm.read_register(0), 1);
}
