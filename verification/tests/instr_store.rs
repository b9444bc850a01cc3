use cpu6502::CPU;
use cpu6502::VecMemory;
use cpu6502::instructions::sta_a;
use cpu6502::instructions::sta_a_x;
use cpu6502::instructions::sta_a_y;
use cpu6502::instructions::sta_in_x;
use cpu6502::instructions::sta_in_y;
use cpu6502::instructions::sta_zp;
use cpu6502::instructions::sta_zpx;
use cpu6502::instructions::stx_a;
use cpu6502::instructions::stx_zp;
use cpu6502::instructions::stx_zpy;
use cpu6502::instructions::sty_a;
use cpu6502::instructions::sty_zp;
use cpu6502::instructions::sty_zpx;

fn memory_mock(payload: &[u8]) -> VecMemory {
    let mut memory = VecMemory::new();
    let mut i: usize = 0;
    while i < payload.len() {
        memory.write(i as u16, payload[i]);
        i += 1;
    }
    memory
}

#[test]
fn should_store_accumulator_in_memory_at_a_zero_page_address() {
            let mut cpu = CPU::new(memory_mock(&[
                0x03,
                0xFF,
                0x00,
                0x00,
            ]));
            cpu.accumulator = 0x02;
            cpu.program_counter = 0x00;

            sta_zp(&mut cpu);

            assert_eq!(cpu.memory.read(0x03 as u16), 0x02);
        }

#[test]
fn should_store_accumulator_in_memory_at_a_zero_page_address_summed_with_index_register_x() {
            let mut cpu = CPU::new(memory_mock(&[
                0x01,
                0xFF,
                0x00,
                0x00,
            ]));
            cpu.accumulator = 0x05;
            cpu.index_register_x = 0x02;
            cpu.program_counter = 0x00;

            sta_zpx(&mut cpu);

            assert_eq!(cpu.memory.read(0x03), 0x05);
        }

#[test]
fn should_store_accumulator_in_memory_at_an_absolute_address() {
            let mut cpu = CPU::new(memory_mock(&[
                0x04, 0x00, 0x00, 0x00, 0x00,
            ]));
            cpu.accumulator = 0x0A;
            cpu.program_counter = 0x00;

            sta_a(&mut cpu);

            assert_eq!(cpu.memory.read(0x0004 as u16), 0x0A);
        }

#[test]
fn should_store_accumulator_in_memory_at_an_absolute_address_offset_by_index_register_x() {
            let mut cpu = CPU::new(memory_mock(&[
                0x02, 0x00, 0x00, 0x00, 0x00,
            ]));
            cpu.accumulator = 0x08;
            cpu.program_counter = 0x00;
            cpu.index_register_x = 0x02;

            sta_a_x(&mut cpu);

            assert_eq!(cpu.memory.read(0x0004), 0x08);
        }

#[test]
fn should_store_accumulator_in_memory_at_an_absolute_address_offset_by_index_register_y() {
            let mut cpu = CPU::new(memory_mock(&[
                0x02, 0x00, 0x00, 0x00, 0x00,
            ]));
            cpu.accumulator = 0x08;
            cpu.program_counter = 0x00;
            cpu.index_register_y = 0x02;

            sta_a_y(&mut cpu);

            assert_eq!(cpu.memory.read(0x0004), 0x08);
        }

#[test]
fn should_store_accumulator_in_an_indirect_adress_stored_in_zero_page_offset_with_index_register_x() {
            let mut cpu = CPU::new(memory_mock(&[
                0x02,
                0x00,
                0x00,
                0x05,
                0x00,
                0x00,
                0x00,
            ]));
            cpu.program_counter = 0x00;
            cpu.accumulator = 0xA9;
            cpu.index_register_x = 0x01;

            sta_in_x(&mut cpu);

            assert_eq!(cpu.memory.read(0x0005), 0xA9);
        }

#[test]
fn should_store_accumulator_in_offset_with_index_register_y_indirect_adress_stored_in_zero_page() {
            let mut cpu = CPU::new(memory_mock(&[
                0x01, 0x03, 0x00, 0x00, 0x00,
            ]));
            cpu.accumulator = 0xDF;
            cpu.index_register_y = 0x01;
            cpu.program_counter = 0x00;

            sta_in_y(&mut cpu);

            assert_eq!(cpu.memory.read(0x0004), 0xDF);
        }

#[test]
fn should_store_index_register_x_in_memory_at_a_zero_page_address() {
            let mut cpu = CPU::new(memory_mock(&[
                0x03,
                0xFF,
                0x00,
                0x00,
            ]));
            cpu.index_register_x = 0x02;
            cpu.program_counter = 0x00;

            stx_zp(&mut cpu);

            assert_eq!(cpu.memory.read(0x03 as u16), 0x02);
        }

#[test]
fn should_store_index_register_x_in_memory_at_a_zero_page_address_summed_with_index_register_y() {
            let mut cpu = CPU::new(memory_mock(&[
                0x01,
                0xFF,
                0x00,
                0x00,
            ]));
            cpu.index_register_x = 0x05;
            cpu.index_register_y = 0x02;
            cpu.program_counter = 0x00;

            stx_zpy(&mut cpu);

            assert_eq!(cpu.memory.read(0x03), 0x05);
        }

#[test]
fn should_store_index_register_x_in_memory_at_an_absolute_address() {
            let mut cpu = CPU::new(memory_mock(&[
                0x04, 0x00, 0x00, 0x00, 0x00,
            ]));
            cpu.index_register_x = 0x0A;
            cpu.program_counter = 0x00;

            stx_a(&mut cpu);

            assert_eq!(cpu.memory.read(0x0004 as u16), 0x0A);
        }

#[test]
fn should_store_index_register_y_in_memory_at_a_zero_page_address() {
            let mut cpu = CPU::new(memory_mock(&[
                0x03,
                0xFF,
                0x00,
                0x00,
            ]));
            cpu.index_register_y = 0x02;
            cpu.program_counter = 0x00;

            sty_zp(&mut cpu);

            assert_eq!(cpu.memory.read(0x03 as u16), 0x02);
        }

#[test]
fn should_store_index_register_y_in_memory_at_a_zero_page_address_summed_with_index_register_x() {
            let mut cpu = CPU::new(memory_mock(&[
                0x01,
                0xFF,
                0x00,
                0x00,
            ]));
            cpu.index_register_y = 0x05;
            cpu.index_register_x = 0x02;
            cpu.program_counter = 0x00;

            sty_zpx(&mut cpu);

            assert_eq!(cpu.memory.read(0x03), 0x05);
        }

#[test]
fn should_store_index_register_y_in_memory_at_an_absolute_address() {
            let mut cpu = CPU::new(memory_mock(&[
                0x04, 0x00, 0x00, 0x00, 0x00,
            ]));
            cpu.index_register_y = 0x0A;
            cpu.program_counter = 0x00;

            sty_a(&mut cpu);

            assert_eq!(cpu.memory.read(0x0004 as u16), 0x0A);
        }
