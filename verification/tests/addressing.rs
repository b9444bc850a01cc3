use cpu6502::AddressingMode;
use cpu6502::CPU;
use cpu6502::MemoryOperation;
use cpu6502::VecMemory;

fn memory_mock(payload: &[u8]) -> VecMemory {
    let mut memory = VecMemory::new();
    let mut i: usize = 0;
    while i < payload.len() {
        memory.write(i as u16, payload[i]);
        i += 1;
    }
    memory
}

#[test]
fn should_return_program_counter_address() {
            let mut uut = CPU::new(memory_mock(&[0x03, 0xFF, 0xCB, 0x52]));
            uut.program_counter = 0xCB;

            let result = uut.get_address(AddressingMode::Immediate, MemoryOperation::Read);

            assert_eq!(result.unwrap(), 0xCB);
        }

#[test]
fn should_not_change_program_counter() {
            let mut uut = CPU::new(memory_mock(&[0x03, 0xFF, 0xCB, 0x52]));
            uut.program_counter = 0xCB;

            uut.get_address(AddressingMode::Immediate, MemoryOperation::Read);

            assert_eq!(uut.program_counter, 0xCB);
        }

#[test]
fn should_not_take_any_cycles() {
            let mut uut = CPU::new(memory_mock(&[0x03, 0xFF, 0xCB, 0x52]));
            uut.program_counter = 0xCB;
            uut.cycle = 0;

            uut.get_address(AddressingMode::Immediate, MemoryOperation::Read);

            assert_eq!(uut.cycle, 0);
        }

#[test]
fn should_return_address_from_next_word_in_memory_relative_to_program_counter() {
            let mut uut = CPU::new(memory_mock(&[0x03, 0xFF, 0xCB, 0x52]));
            uut.program_counter = 0x01;

            let result = uut.get_address(AddressingMode::Absolute, MemoryOperation::Read);

            assert_eq!(result.unwrap(), 0xCBFF);
        }

#[test]
fn tests_should_advance_program_counter_twice() {
            let mut uut = CPU::new(memory_mock(&[0x03, 0xFF, 0xCB, 0x52]));
            uut.program_counter = 0x01;

            uut.get_address(AddressingMode::Absolute, MemoryOperation::Read);

            assert_eq!(uut.program_counter, 0x03);
        }

#[test]
fn should_return_address_offset_by_index_register_x_from_next_word_in_memory_relative_to_program_counter() {
            let mut uut = CPU::new(memory_mock(&[0x03, 0xFF, 0xCB, 0x52]));
            uut.program_counter = 0x02;
            uut.index_register_x = 0x01;

            let result = uut.get_address(AddressingMode::AbsoluteX, MemoryOperation::Read);

            assert_eq!(result.unwrap(), 0x52CC);
        }

#[test]
fn should_advance_program_counter_twice() {
            let mut uut = CPU::new(memory_mock(&[0x03, 0xFF, 0xCB, 0x52]));
            uut.program_counter = 0x02;
            uut.index_register_x = 0x01;

            uut.get_address(AddressingMode::AbsoluteX, MemoryOperation::Read);

            assert_eq!(uut.program_counter, 0x04);
        }

#[test]
fn tests_should_take_three_cycles_when_not_crossing_page_boundary_during_offset_addition_for_a_read_operation_address() {
            let mut uut = CPU::new(memory_mock(&[0x03, 0xFF, 0xCB, 0x52]));
            uut.program_counter = 0x02;
            uut.index_register_x = 0x01;
            uut.cycle = 0;

            uut.get_address(AddressingMode::AbsoluteX, MemoryOperation::Read);

            assert_eq!(uut.cycle, 3);
        }

#[test]
fn tests_should_take_four_cycles_when_crossing_page_boundary_during_offset_addition_for_a_read_operation_address() {
            let mut uut = CPU::new(memory_mock(&[0x03, 0xFF, 0xCB, 0x52]));
            uut.program_counter = 0x02;
            uut.index_register_x = 0xFF;
            uut.cycle = 0;

            uut.get_address(AddressingMode::AbsoluteX, MemoryOperation::Read);

            assert_eq!(uut.cycle, 4);
        }

#[test]
fn tests_should_take_four_cycles_for_a_modification_operation_address() {
            let mut uut = CPU::new(memory_mock(&[0x03, 0xFF, 0xCB, 0x52]));
            uut.program_counter = 0x02;
            uut.index_register_x = 0x01;
            uut.cycle = 0;

            uut.get_address(AddressingMode::AbsoluteX, MemoryOperation::Modify);

            assert_eq!(uut.cycle, 4);
        }

#[test]
fn tests_should_take_four_cycles_for_a_write_operation_address() {
            let mut uut = CPU::new(memory_mock(&[0x03, 0xFF, 0xCB, 0x52]));
            uut.program_counter = 0x02;
            uut.index_register_x = 0x01;
            uut.cycle = 0;

            uut.get_address(AddressingMode::AbsoluteX, MemoryOperation::Write);

            assert_eq!(uut.cycle, 4);
        }

#[test]
fn should_return_address_offset_by_index_register_y_from_next_word_in_memory_relative_to_program_counter() {
            let mut uut = CPU::new(memory_mock(&[0x03, 0xFF, 0xCB, 0x52]));
            uut.index_register_y = 0x01;
            uut.program_counter = 0x02;

            let result = uut.get_address(AddressingMode::AbsoluteY, MemoryOperation::Read);

            assert_eq!(result.unwrap(), 0x52CC);
        }

#[test]
fn should_take_three_cycles_when_not_crossing_page_boundary_during_offset_addition_for_a_read_operation_address() {
            let mut uut = CPU::new(memory_mock(&[0x03, 0xFF, 0xCB, 0x52]));
            uut.program_counter = 0x02;
            uut.index_register_y = 0x01;
            uut.cycle = 0;

            uut.get_address(AddressingMode::AbsoluteY, MemoryOperation::Read);

            assert_eq!(uut.cycle, 3);
        }

#[test]
fn should_take_four_cycles_when_crossing_page_boundary_during_offset_addition_for_a_read_operation_address() {
            let mut uut = CPU::new(memory_mock(&[0x03, 0xFF, 0xCB, 0x52]));
            uut.program_counter = 0x02;
            uut.index_register_y = 0xFF;
            uut.cycle = 0;

            uut.get_address(AddressingMode::AbsoluteY, MemoryOperation::Read);

            assert_eq!(uut.cycle, 4);
        }

#[test]
fn should_take_four_cycles_for_a_modification_operation_address() {
            let mut uut = CPU::new(memory_mock(&[0x03, 0xFF, 0xCB, 0x52]));
            uut.program_counter = 0x02;
            uut.index_register_y = 0x01;
            uut.cycle = 0;

            uut.get_address(AddressingMode::AbsoluteY, MemoryOperation::Modify);

            assert_eq!(uut.cycle, 4);
        }

#[test]
fn should_take_four_cycles_for_a_write_operation_address() {
            let mut uut = CPU::new(memory_mock(&[0x03, 0xFF, 0xCB, 0x52]));
            uut.program_counter = 0x02;
            uut.index_register_y = 0x01;
            uut.cycle = 0;

            uut.get_address(AddressingMode::AbsoluteY, MemoryOperation::Write);

            assert_eq!(uut.cycle, 4);
        }

#[test]
fn should_return_address_in_zero_page_from_next_byte_in_memory_relative_to_program_counter() {
            let mut uut = CPU::new(memory_mock(&[0x03, 0xFF, 0xCB, 0x52]));
            uut.program_counter = 0x02;

            let result = uut.get_address(AddressingMode::ZeroPage, MemoryOperation::Read);

            assert_eq!(result.unwrap(), 0x00CB);
        }

#[test]
fn tests_should_advance_program_counter_once() {
            let mut uut = CPU::new(memory_mock(&[0x03, 0xFF, 0xCB, 0x52]));
            uut.program_counter = 0x02;

            uut.get_address(AddressingMode::ZeroPage, MemoryOperation::Read);

            assert_eq!(uut.program_counter, 0x03);
        }

#[test]
fn should_return_address_in_zero_page_from_next_byte_in_memory_relative_to_program_counter_summed_with_index_register_x() {
            let mut uut = CPU::new(memory_mock(&[0x03, 0xFF, 0xCB, 0x52]));
            uut.program_counter = 0x02;
            uut.index_register_x = 0x03;

            let result = uut.get_address(AddressingMode::ZeroPageX, MemoryOperation::Read);

            assert_eq!(result.unwrap(), 0x00CE);
        }

#[test]
fn should_advance_program_counter_once() {
            let mut uut = CPU::new(memory_mock(&[0x03, 0xFF, 0xCB, 0x52]));
            uut.program_counter = 0x02;
            uut.index_register_x = 0x03;

            uut.get_address(AddressingMode::ZeroPageX, MemoryOperation::Read);

            assert_eq!(uut.program_counter, 0x03);
        }

#[test]
fn should_return_address_in_zero_page_from_next_byte_in_memory_relative_to_program_counter_summed_with_index_register_y() {
            let mut uut = CPU::new(memory_mock(&[0x03, 0xFF, 0xCB, 0x52]));
            uut.program_counter = 0x03;
            uut.index_register_y = 0x03;

            let result = uut.get_address(AddressingMode::ZeroPageY, MemoryOperation::Read);

            assert_eq!(result.unwrap(), 0x0055);
        }

#[test]
fn should_return_address_stored_in_place_pointed_by_zero_page_address_in_next_byte_relative_to_program_counter_summed_with_index_register_x() {
            let mut uut = CPU::new(memory_mock(&[0x01, 0xFF, 0x03, 0xDD, 0x25]));
            uut.program_counter = 0x00;
            uut.index_register_x = 0x01;

            let result = uut.get_address(AddressingMode::IndexIndirectX, MemoryOperation::Read);

            assert_eq!(result.unwrap(), 0xDD03);
        }

#[test]
fn should_return_address_offset_by_index_register_y_which_is_stored_at_zero_page_address() {
            let mut uut = CPU::new(memory_mock(&[0x02, 0xFF, 0x03, 0xDD, 0x25]));
            uut.index_register_y = 0x02;
            uut.program_counter = 0x00;

            let result = uut.get_address(AddressingMode::IndirectIndexY, MemoryOperation::Read);

            assert_eq!(result.unwrap(), 0xDD05);
        }

#[test]
fn should_take_four_cycles_when_not_crossing_page_boundary_during_offset_addition_for_a_read_operation_address() {
            let mut uut = CPU::new(memory_mock(&[0x02, 0xFF, 0x03, 0xDD, 0x25]));
            uut.index_register_y = 0x02;
            uut.program_counter = 0x00;
            uut.cycle = 0;

            uut.get_address(AddressingMode::IndirectIndexY, MemoryOperation::Read);

            assert_eq!(uut.cycle, 4);
        }

#[test]
fn should_take_five_cycles_when_crossing_page_boundary_during_offset_addition_for_a_read_operation_address() {
            let mut uut = CPU::new(memory_mock(&[0x02, 0xFF, 0x03, 0xDD, 0x25]));
            uut.index_register_y = 0xFF;
            uut.program_counter = 0x00;
            uut.cycle = 0;

            uut.get_address(AddressingMode::IndirectIndexY, MemoryOperation::Read);

            assert_eq!(uut.cycle, 5);
        }

#[test]
fn should_return_address_from_place_in_memory_stored_in_next_word_relative_to_program_counter() {
            let mut uut = CPU::new(memory_mock(&[0x02, 0x00, 0x01, 0x00]));
            uut.program_counter = 0x00;

            let result = uut.get_address(AddressingMode::Indirect, MemoryOperation::Read);

            assert_eq!(result.unwrap(), 0x0001);
        }

#[test]
fn should_incorrectly_fetch_fetch_target_address_when_indirect_address_is_falling_on_a_page_boundary_and_take_lo_from_correct_address_but_use_indirect_address_for_hi() {

            let mut memory: [u8; 512] = [0x00; 512];
            memory[0x0000] = 0x09;
            memory[0x0001] = 0xFF;
            memory[0x0002] = 0x00;
            memory[0x00FF] = 0xA5;
            memory[0x0100] = 0xCC;

            let mut uut = CPU::new(memory_mock(&memory));
            uut.program_counter = 0x0001;
            uut.cycle = 0;

            let result = uut.get_address(AddressingMode::Indirect, MemoryOperation::Read);

            assert_eq!(result, Some(0x09A5));
        }

#[test]
fn tests_should_return_none() {
            let mut uut = CPU::new(memory_mock(&[0x02, 0x00, 0x01, 0x00]));
            uut.program_counter = 0x00;

            let result = uut.get_address(AddressingMode::Implicit, MemoryOperation::Read);

            assert_eq!(result.is_none(), true);
        }

#[test]
fn tests_should_not_advance_program_counter() {
            let mut uut = CPU::new(memory_mock(&[0x02, 0x00, 0x01, 0x00]));
            uut.program_counter = 0x00;

            uut.get_address(AddressingMode::Implicit, MemoryOperation::Read);

            assert_eq!(uut.program_counter, 0x00);
        }

#[test]
fn tests_should_take_zero_cycles() {
            let mut uut = CPU::new(memory_mock(&[0x02, 0x00, 0x01, 0x00]));
            uut.program_counter = 0x02;
            uut.cycle = 0;

            uut.get_address(AddressingMode::Implicit, MemoryOperation::Read);

            assert_eq!(uut.cycle, 0);
        }

#[test]
fn should_return_none() {
            let mut uut = CPU::new(memory_mock(&[0x02, 0x00, 0x01, 0x00]));
            uut.program_counter = 0x00;

            let result = uut.get_address(AddressingMode::Relative, MemoryOperation::Read);

            assert_eq!(result.is_none(), true);
        }

#[test]
fn should_not_advance_program_counter() {
            let mut uut = CPU::new(memory_mock(&[0x02, 0x00, 0x01, 0x00]));
            uut.program_counter = 0x00;

            uut.get_address(AddressingMode::Relative, MemoryOperation::Read);

            assert_eq!(uut.program_counter, 0x00);
        }

#[test]
fn should_take_zero_cycles() {
            let mut uut = CPU::new(memory_mock(&[0x02, 0x00, 0x01, 0x00]));
            uut.program_counter = 0x02;
            uut.cycle = 0;

            uut.get_address(AddressingMode::Relative, MemoryOperation::Read);

            assert_eq!(uut.cycle, 0);
        }
