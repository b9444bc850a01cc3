use cpu6502::CPU;
use cpu6502::VecMemory;
use cpu6502::instructions::bcc;
use cpu6502::instructions::bcs;
use cpu6502::instructions::beq;
use cpu6502::instructions::bne;
use cpu6502::instructions::jmp_a;
use cpu6502::instructions::jmp_in;
use cpu6502::instructions::jsr_a;
use cpu6502::instructions::rts;

fn memory_mock(payload: &[u8]) -> VecMemory {
    let mut memory = VecMemory::new();
    let mut i: usize = 0;
    while i < payload.len() {
        memory.write(i as u16, payload[i]);
        i += 1;
    }
    memory
}

#[test]
fn should_fetch_address_pointed_by_program_counter_and_put_in_program_counter() {
        let mut cpu = CPU::new(memory_mock(&[0x44, 0x51, 0x88]));
        cpu.program_counter = 0x00;
        cpu.stack_pointer = 0xFF;

        jsr_a(&mut cpu);

        assert_eq!(cpu.program_counter, 0x5144);
    }

#[test]
fn should_save_program_counter_shifted_once_into_stack_pointer() {
        let mut cpu = CPU::new(memory_mock(&[0x44, 0x51, 0x88]));
        cpu.program_counter = 0x00;
        cpu.stack_pointer = 0xFF;

        jsr_a(&mut cpu);

        assert_eq!(cpu.memory.read(0x01FF), 0x00);
        assert_eq!(cpu.memory.read(0x01FE), 0x01);
    }

#[test]
fn should_decrement_stack_pointer_twice() {
        let mut cpu = CPU::new(memory_mock(&[0x44, 0x51, 0x88]));
        cpu.program_counter = 0x00;
        cpu.stack_pointer = 0xFF;

        jsr_a(&mut cpu);

        assert_eq!(cpu.stack_pointer, 0xFD);
    }

#[test]
fn tests_should_take_five_cycles() {
        let mut cpu = CPU::new(memory_mock(&[0x44, 0x51, 0x88]));
        cpu.program_counter = 0x00;
        cpu.cycle = 0;

        jsr_a(&mut cpu);

        assert_eq!(cpu.cycle, 5);
    }

#[test]
fn should_fetch_address_from_stack_and_put_it_in_program_counter_incremented_by_one() {
        let mut cpu = CPU::new(memory_mock(&[0x01, 0x02, 0x03]));
        cpu.program_counter = 0x00;
        cpu.memory.write(0x01FF, 0x44);
        cpu.memory.write(0x01FE, 0x51);
        cpu.stack_pointer = 0xFD;

        rts(&mut cpu);

        assert_eq!(cpu.program_counter, 0x4452);
    }

#[test]
fn should_increment_stack_pointer_twice() {
        let mut cpu = CPU::new(memory_mock(&[0x01, 0x02, 0x03]));
        cpu.program_counter = 0x00;
        cpu.memory.write(0x01FF, 0x44);
        cpu.memory.write(0x01FE, 0x51);
        cpu.stack_pointer = 0xFD;

        rts(&mut cpu);

        assert_eq!(cpu.stack_pointer, 0xFF);
    }

#[test]
fn should_take_five_cycles() {
        let mut cpu = CPU::new(memory_mock(&[0x01, 0x02, 0x03]));
        cpu.program_counter = 0x00;
        cpu.memory.write(0x01FF, 0x44);
        cpu.memory.write(0x01FE, 0x51);
        cpu.stack_pointer = 0xFD;
        cpu.cycle = 0;

        rts(&mut cpu);

        assert_eq!(cpu.cycle, 5);
    }

#[test]
fn should_put_address_stored_in_memory_at_program_counter_as_a_new_program_counter() {
        let mut cpu = CPU::new(memory_mock(&[0x44, 0x51, 0x88]));
        cpu.program_counter = 0x00;

        jmp_a(&mut cpu);

        assert_eq!(cpu.program_counter, 0x5144);
    }

#[test]
fn should_fetch_indirect_address_from_memory_and_put_in_program_counter() {
        let mut cpu = CPU::new(memory_mock(&[0x02, 0x00, 0x01, 0x00]));
        cpu.program_counter = 0x00;

        jmp_in(&mut cpu);

        assert_eq!(cpu.program_counter, 0x0001);
    }

#[test]
fn tests_should_take_four_cycles() {
        let mut cpu = CPU::new(memory_mock(&[0x02, 0x00, 0x01, 0x00]));
        cpu.program_counter = 0x00;
        cpu.cycle = 0;

        jmp_in(&mut cpu);

        assert_eq!(cpu.cycle, 4);
    }

#[test]
fn should_not_take_branch_when_zero_flag_is_clear_and_advance_past_operand() {
        let mut cpu = CPU::new(memory_mock(&[0x22, 0x00, 0x01, 0x00]));
        cpu.processor_status.set_zero_flag(false);
        cpu.program_counter = 0x00;

        beq(&mut cpu);

        assert_eq!(cpu.program_counter, 0x0001);
    }

#[test]
fn should_take_branch_when_zero_flag_is_set_and_offset_program_counter_by_operand() {
        let mut cpu = CPU::new(memory_mock(&[0x03, 0x00, 0x01, 0x00]));
        cpu.processor_status.set_zero_flag(true);
        cpu.program_counter = 0x00;

        beq(&mut cpu);

        assert_eq!(cpu.program_counter, 0x0004);
    }

#[test]
fn should_take_branch_when_zero_flag_is_set_and_offset_program_counter_backwards_by_negative_operand() {
        let mut cpu = CPU::new(memory_mock(&[0x22, 0x00, 0x83, 0x00]));
        cpu.processor_status.set_zero_flag(true);
        cpu.program_counter = 0x02;

        beq(&mut cpu);

        assert_eq!(cpu.program_counter, 0x00);
    }

#[test]
fn should_take_branch_when_zero_flag_is_set_and_offset_program_counter_over_page_flip_by_operand() {
        let mut memory: [u8; 512] = [0x00; 512];
        memory[0x00FE] = 0x04;
        let mut cpu = CPU::new(memory_mock(&memory));
        cpu.processor_status.set_zero_flag(true);
        cpu.program_counter = 0x00FE;
        cpu.cycle = 0;

        beq(&mut cpu);

        assert_eq!(cpu.program_counter, 0x0103);
    }

#[test]
fn should_take_branch_when_zero_flag_is_set_and_offset_program_counter_backwards_over_page_flip_by_negative_operand() {
        let mut cpu = CPU::new(memory_mock(&[0x83, 0x00, 0x00, 0x00]));
        cpu.processor_status.set_zero_flag(true);
        cpu.program_counter = 0x00;
        cpu.cycle = 0;

        beq(&mut cpu);

        assert_eq!(cpu.program_counter, 0xFFFE);
    }

#[test]
fn tests_should_take_one_cycle_when_not_branching() {
        let mut cpu = CPU::new(memory_mock(&[0x02, 0x00, 0x01, 0x00]));
        cpu.processor_status.set_zero_flag(false);
        cpu.program_counter = 0x00;
        cpu.cycle = 0;

        beq(&mut cpu);

        assert_eq!(cpu.cycle, 1);
    }

#[test]
fn tests_should_take_two_cycles_when_branching_without_crossing_a_page_flip() {
        let mut cpu = CPU::new(memory_mock(&[0x03, 0x00, 0x01, 0x00]));
        cpu.processor_status.set_zero_flag(true);
        cpu.program_counter = 0x00;
        cpu.cycle = 0;

        beq(&mut cpu);

        assert_eq!(cpu.cycle, 2);
    }

#[test]
fn tests_should_take_three_cycles_when_branching_with_a_page_flips_crossing() {
        let mut memory: [u8; 512] = [0x00; 512];
        memory[0x00FE] = 0x04;
        let mut cpu = CPU::new(memory_mock(&memory));
        cpu.processor_status.set_zero_flag(true);
        cpu.program_counter = 0x00FE;
        cpu.cycle = 0;

        beq(&mut cpu);

        assert_eq!(cpu.cycle, 3);
    }

#[test]
fn should_not_take_branch_when_zero_flag_is_set_and_advance_past_operand() {
        let mut cpu = CPU::new(memory_mock(&[0x22, 0x00, 0x01, 0x00]));
        cpu.processor_status.set_zero_flag(true);
        cpu.program_counter = 0x00;

        bne(&mut cpu);

        assert_eq!(cpu.program_counter, 0x0001);
    }

#[test]
fn should_take_branch_when_zero_flag_is_clear_and_offset_program_counter_by_operand() {
        let mut cpu = CPU::new(memory_mock(&[0x03, 0x00, 0x01, 0x00]));
        cpu.processor_status.set_zero_flag(false);
        cpu.program_counter = 0x00;

        bne(&mut cpu);

        assert_eq!(cpu.program_counter, 0x0004);
    }

#[test]
fn should_take_branch_when_zero_flag_is_clear_and_offset_program_counter_backwards_by_negative_operand() {
        let mut cpu = CPU::new(memory_mock(&[0x22, 0x00, 0x83, 0x00]));
        cpu.processor_status.set_zero_flag(false);
        cpu.program_counter = 0x02;

        bne(&mut cpu);

        assert_eq!(cpu.program_counter, 0x00);
    }

#[test]
fn should_take_branch_when_zero_flag_is_clear_and_offset_program_counter_over_page_flip_by_operand() {
        let mut memory: [u8; 512] = [0x00; 512];
        memory[0x00FE] = 0x04;
        let mut cpu = CPU::new(memory_mock(&memory));
        cpu.processor_status.set_zero_flag(false);
        cpu.program_counter = 0x00FE;
        cpu.cycle = 0;

        bne(&mut cpu);

        assert_eq!(cpu.program_counter, 0x0103);
    }

#[test]
fn should_take_branch_when_zero_flag_is_clear_and_offset_program_counter_backwards_over_page_flip_by_negative_operand() {
        let mut cpu = CPU::new(memory_mock(&[0x83, 0x00, 0x00, 0x00]));
        cpu.processor_status.set_zero_flag(false);
        cpu.program_counter = 0x00;
        cpu.cycle = 0;

        bne(&mut cpu);

        assert_eq!(cpu.program_counter, 0xFFFE);
    }

#[test]
fn should_take_one_cycle_when_not_branching() {
        let mut cpu = CPU::new(memory_mock(&[0x02, 0x00, 0x01, 0x00]));
        cpu.processor_status.set_zero_flag(true);
        cpu.program_counter = 0x00;
        cpu.cycle = 0;

        bne(&mut cpu);

        assert_eq!(cpu.cycle, 1);
    }

#[test]
fn should_take_two_cycles_when_branching_without_crossing_a_page_flip() {
        let mut cpu = CPU::new(memory_mock(&[0x03, 0x00, 0x01, 0x00]));
        cpu.processor_status.set_zero_flag(false);
        cpu.program_counter = 0x00;
        cpu.cycle = 0;

        bne(&mut cpu);

        assert_eq!(cpu.cycle, 2);
    }

#[test]
fn should_take_three_cycles_when_branching_with_a_page_flips_crossing() {
        let mut memory: [u8; 512] = [0x00; 512];
        memory[0x00FE] = 0x04;
        let mut cpu = CPU::new(memory_mock(&memory));
        cpu.processor_status.set_zero_flag(false);
        cpu.program_counter = 0x00FE;
        cpu.cycle = 0;

        bne(&mut cpu);

        assert_eq!(cpu.cycle, 3);
    }

#[test]
fn should_not_take_branch_when_carry_flag_is_clear_and_advance_past_operand() {
        let mut cpu = CPU::new(memory_mock(&[0x22, 0x00, 0x01, 0x00]));
        cpu.processor_status.set_carry_flag(false);
        cpu.program_counter = 0x00;

        bcs(&mut cpu);

        assert_eq!(cpu.program_counter, 0x0001);
    }

#[test]
fn should_take_branch_when_carry_flag_is_set_and_offset_program_counter_by_operand() {
        let mut cpu = CPU::new(memory_mock(&[0x03, 0x00, 0x01, 0x00]));
        cpu.processor_status.set_carry_flag(true);
        cpu.program_counter = 0x00;

        bcs(&mut cpu);

        assert_eq!(cpu.program_counter, 0x0004);
    }

#[test]
fn should_take_branch_when_carry_flag_is_set_and_offset_program_counter_backwards_by_negative_operand() {
        let mut cpu = CPU::new(memory_mock(&[0x22, 0x00, 0x83, 0x00]));
        cpu.processor_status.set_carry_flag(true);
        cpu.program_counter = 0x02;

        bcs(&mut cpu);

        assert_eq!(cpu.program_counter, 0x00);
    }

#[test]
fn should_take_branch_when_carry_flag_is_set_and_offset_program_counter_over_page_flip_by_operand() {
        let mut memory: [u8; 512] = [0x00; 512];
        memory[0x00FE] = 0x04;
        let mut cpu = CPU::new(memory_mock(&memory));
        cpu.processor_status.set_carry_flag(true);
        cpu.program_counter = 0x00FE;
        cpu.cycle = 0;

        bcs(&mut cpu);

        assert_eq!(cpu.program_counter, 0x0103);
    }

#[test]
fn should_take_branch_when_carry_flag_is_set_and_offset_program_counter_backwards_over_page_flip_by_negative_operand() {
        let mut cpu = CPU::new(memory_mock(&[0x83, 0x00, 0x00, 0x00]));
        cpu.processor_status.set_carry_flag(true);
        cpu.program_counter = 0x00;
        cpu.cycle = 0;

        bcs(&mut cpu);

        assert_eq!(cpu.program_counter, 0xFFFE);
    }

#[test]
fn should_not_take_branch_when_carry_flag_is_set_and_advance_past_operand() {
        let mut cpu = CPU::new(memory_mock(&[0x22, 0x00, 0x01, 0x00]));
        cpu.processor_status.set_carry_flag(true);
        cpu.program_counter = 0x00;

        bcc(&mut cpu);

        assert_eq!(cpu.program_counter, 0x0001);
    }

#[test]
fn should_take_branch_when_carry_flag_is_clear_and_offset_program_counter_by_operand() {
        let mut cpu = CPU::new(memory_mock(&[0x03, 0x00, 0x01, 0x00]));
        cpu.processor_status.set_carry_flag(false);
        cpu.program_counter = 0x00;

        bcc(&mut cpu);

        assert_eq!(cpu.program_counter, 0x0004);
    }

#[test]
fn should_take_branch_when_carry_flag_is_clear_and_offset_program_counter_backwards_by_negative_operand() {
        let mut cpu = CPU::new(memory_mock(&[0x22, 0x00, 0x83, 0x00]));
        cpu.processor_status.set_carry_flag(false);
        cpu.program_counter = 0x02;

        bcc(&mut cpu);

        assert_eq!(cpu.program_counter, 0x00);
    }

#[test]
fn should_take_branch_when_carry_flag_is_clear_and_offset_program_counter_over_page_flip_by_operand() {
        let mut memory: [u8; 512] = [0x00; 512];
        memory[0x00FE] = 0x04;
        let mut cpu = CPU::new(memory_mock(&memory));
        cpu.processor_status.set_carry_flag(false);
        cpu.program_counter = 0x00FE;
        cpu.cycle = 0;

        bcc(&mut cpu);

        assert_eq!(cpu.program_counter, 0x0103);
    }

#[test]
fn should_take_branch_when_carry_flag_is_clear_and_offset_program_counter_backwards_over_page_flip_by_negative_operand() {
        let mut cpu = CPU::new(memory_mock(&[0x83, 0x00, 0x00, 0x00]));
        cpu.processor_status.set_carry_flag(false);
        cpu.program_counter = 0x00;
        cpu.cycle = 0;

        bcc(&mut cpu);

        assert_eq!(cpu.program_counter, 0xFFFE);
    }
