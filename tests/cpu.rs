use nes_core::cpu::{CpuError, Operand, CPU};
use nes_core::instruction::AddressingMode;
use nes_core::memory::Memory;
use nes_core::status::Flag;

#[test]
fn test_lda_negative() {
    let mut cpu = CPU::new();
    cpu.lda(0b1000_0101);

    assert_eq!(cpu.accumulator, 0b1000_0101);
    assert!(cpu.status.contains(Flag::Negative));
}

#[test]
fn test_lda_zero() {
    let mut cpu = CPU::new();
    cpu.execute_commands(vec![0xA9, 0]).unwrap();

    assert_eq!(cpu.accumulator, 0);
    assert!(cpu.status.contains(Flag::Zero));
}

#[test]
fn test_tax_negative() {
    let mut cpu = CPU::new();
    cpu.lda(0b1000_0101);
    cpu.tax();

    assert_eq!(cpu.register_x, 0b1000_0101);
    assert!(cpu.status.contains(Flag::Negative));
}

#[test]
fn test_tax_zero() {
    let mut cpu = CPU::new();
    cpu.execute_commands(vec![0xA9, 0, 0xAA]).unwrap();

    assert_eq!(cpu.register_x, 0);
    assert!(cpu.status.contains(Flag::Zero));
}

#[test]
fn test_adc() {
    let mut cpu = CPU::new();
    cpu.status.insert(Flag::Carry);
    cpu.execute_commands(vec![0xA9, 20, 0x69, 40]).unwrap();

    assert_eq!(cpu.accumulator, 61);
}

// 255 + 129 adds two negative operands (-1 and -127) and gives a negative
// result (-128): the two's-complement rule leaves Overflow clear.
#[test]
fn test_adc_overflow() {
    let mut cpu = CPU::new();
    cpu.execute_commands(vec![0xA9, 255, 0x69, 129]).unwrap();

    assert_eq!(cpu.accumulator, 128);
    assert!(!cpu.status.contains(Flag::Overflow));
}

#[test]
fn test_adc_carry() {
    let mut cpu = CPU::new();
    cpu.execute_commands(vec![0xA9, 128, 0x69, 128]).unwrap();

    assert_eq!(cpu.accumulator, 0);
    assert!(cpu.status.contains(Flag::Carry));
}

#[test]
fn lda_negative_clears_zero() {
    let mut cpu = CPU::new();
    cpu.execute_commands(vec![0xA9, 0x85]).unwrap();
    assert_eq!(cpu.accumulator, 0x85);
    assert!(cpu.status.contains(Flag::Negative));
    assert!(!cpu.status.contains(Flag::Zero));
}

#[test]
fn lda_zero_leaves_negative_clear() {
    let mut cpu = CPU::new();
    cpu.execute_commands(vec![0xA9, 0x00]).unwrap();
    assert!(cpu.status.contains(Flag::Zero));
    assert!(!cpu.status.contains(Flag::Negative));
}

#[test]
fn adc_signed_overflow_of_two_positives() {
    let mut cpu = CPU::new();
    cpu.execute_commands(vec![0xA9, 0x50, 0x69, 0x50]).unwrap();
    assert_eq!(cpu.accumulator, 0xA0);
    assert!(cpu.status.contains(Flag::Overflow));
    assert!(cpu.status.contains(Flag::Negative));
    assert!(!cpu.status.contains(Flag::Carry));
}

#[test]
fn adc_carry_also_sets_overflow_of_two_negatives() {
    let mut cpu = CPU::new();
    cpu.execute_commands(vec![0xA9, 128, 0x69, 128]).unwrap();
    assert!(cpu.status.contains(Flag::Overflow));
    assert!(cpu.status.contains(Flag::Zero));
}

#[test]
fn adc_ignores_decimal_mode() {
    let mut cpu = CPU::new();
    cpu.execute_commands(vec![0xF8, 0xA9, 0x09, 0x69, 0x01]).unwrap();
    assert!(cpu.status.contains(Flag::DecimalMode));
    assert_eq!(cpu.accumulator, 0x0A);
}

#[test]
fn sbc_subtracts_with_borrow() {
    let mut cpu = CPU::new();
    cpu.execute_commands(vec![0x38, 0xA9, 10, 0xE9, 3]).unwrap();
    assert_eq!(cpu.accumulator, 7);
    assert!(cpu.status.contains(Flag::Carry));
    let mut cpu = CPU::new();
    cpu.execute_commands(vec![0xA9, 10, 0xE9, 3]).unwrap();
    assert_eq!(cpu.accumulator, 6);
}

#[test]
fn compare_sets_carry_and_zero() {
    let mut cpu = CPU::new();
    cpu.execute_commands(vec![0xA9, 5, 0xC9, 5]).unwrap();
    assert!(cpu.status.contains(Flag::Carry));
    assert!(cpu.status.contains(Flag::Zero));
    cpu.execute_commands(vec![0xA9, 5, 0xC9, 5, 0xC9, 6]).unwrap();
    assert!(!cpu.status.contains(Flag::Carry));
    assert!(cpu.status.contains(Flag::Negative));
}

#[test]
fn inx_wraps_to_zero() {
    let mut cpu = CPU::new();
    cpu.register_x = 0xFF;
    cpu.execute_commands(vec![0xE8]).unwrap();
    assert_eq!(cpu.register_x, 0);
    assert!(cpu.status.contains(Flag::Zero));
}

#[test]
fn store_and_increment_memory() {
    let mut cpu = CPU::new();
    let mut bus = Memory::new();
    bus.write(0, 0xA9);
    bus.write(1, 0x7F);
    bus.write(2, 0x85);
    bus.write(3, 0x40);
    bus.write(4, 0xE6);
    bus.write(5, 0x40);
    assert_eq!(cpu.step(&mut bus), Ok(2));
    assert_eq!(cpu.step(&mut bus), Ok(3));
    assert_eq!(bus.read(0x40), 0x7F);
    assert_eq!(cpu.step(&mut bus), Ok(5));
    assert_eq!(bus.read(0x40), 0x80);
    assert!(cpu.status.contains(Flag::Negative));
    assert_eq!(cpu.program_counter, 6);
}

#[test]
fn zero_page_x_wraps_within_page_zero() {
    let mut cpu = CPU::new();
    cpu.register_x = 2;
    cpu.program_counter = 0x200;
    let mut bus = Memory::new();
    bus.write(0x200, 0xB5);
    bus.write(0x201, 0xFF);
    assert_eq!(cpu.resolve(AddressingMode::ZeroPageX, &bus), (Operand::Address(0x01), false));
    bus.write(0x01, 0x33);
    bus.write(0x101, 0x44);
    assert_eq!(cpu.step(&mut bus), Ok(4));
    assert_eq!(cpu.accumulator, 0x33);
}

#[test]
fn indirect_jump_reads_high_byte_from_same_page() {
    let mut cpu = CPU::new();
    let mut bus = Memory::new();
    bus.write(0, 0x6C);
    bus.write(1, 0xFF);
    bus.write(2, 0x30);
    bus.write(0x30FF, 0x80);
    bus.write(0x3000, 0x50);
    bus.write(0x3100, 0x40);
    assert_eq!(cpu.step(&mut bus), Ok(5));
    assert_eq!(cpu.program_counter, 0x5080);
}

#[test]
fn absolute_jump_sets_program_counter() {
    let mut cpu = CPU::new();
    let mut bus = Memory::new();
    bus.write(0, 0x4C);
    bus.write(1, 0x34);
    bus.write(2, 0x12);
    assert_eq!(cpu.step(&mut bus), Ok(3));
    assert_eq!(cpu.program_counter, 0x1234);
}

#[test]
fn indexed_read_across_page_costs_a_cycle() {
    let mut cpu = CPU::new();
    cpu.register_x = 1;
    let mut bus = Memory::new();
    bus.write(0, 0xBD);
    bus.write(1, 0xFF);
    bus.write(2, 0x10);
    bus.write(0x1100, 9);
    assert_eq!(cpu.step(&mut bus), Ok(5));
    assert_eq!(cpu.accumulator, 9);

    let mut cpu = CPU::new();
    cpu.register_x = 1;
    bus.write(1, 0x10);
    bus.write(0x1011, 4);
    assert_eq!(cpu.step(&mut bus), Ok(4));
    assert_eq!(cpu.accumulator, 4);
}

#[test]
fn indexed_store_pays_no_page_penalty() {
    let mut cpu = CPU::new();
    cpu.register_x = 1;
    cpu.accumulator = 7;
    let mut bus = Memory::new();
    bus.write(0, 0x9D);
    bus.write(1, 0xFF);
    bus.write(2, 0x10);
    assert_eq!(cpu.step(&mut bus), Ok(5));
    assert_eq!(bus.read(0x1100), 7);
}

#[test]
fn indirect_y_adds_y_to_pointer() {
    let mut cpu = CPU::new();
    cpu.register_y = 0x10;
    let mut bus = Memory::new();
    bus.write(0, 0xB1);
    bus.write(1, 0xFF);
    bus.write(0xFF, 0xF8);
    bus.write(0x00, 0xB1);
    bus.write(0xB208, 0x66);
    // pointer bytes at 0xFF and 0x00: base 0xB1F8, plus 0x10 crosses a page
    assert_eq!(cpu.step(&mut bus), Ok(6));
    assert_eq!(cpu.accumulator, 0x66);
}

#[test]
fn status_push_pull_round_trip() {
    let mut cpu = CPU::new();
    cpu.stack_pointer = 0xFD;
    cpu.status.insert(Flag::Carry);
    cpu.status.insert(Flag::Overflow);
    cpu.status.insert(Flag::DecimalMode);
    let before = cpu.status;
    let mut bus = Memory::new();
    bus.write(0, 0x08);
    bus.write(1, 0x28);
    assert_eq!(cpu.step(&mut bus), Ok(3));
    assert_eq!(cpu.stack_pointer, 0xFC);
    assert_eq!(bus.read(0x1FD), 0b0110_1001);
    assert_eq!(cpu.step(&mut bus), Ok(4));
    assert_eq!(cpu.status, before);
    assert_eq!(cpu.stack_pointer, 0xFD);
}

#[test]
fn pull_status_forces_constant_bit() {
    let mut cpu = CPU::new();
    cpu.stack_pointer = 0xFE;
    let mut bus = Memory::new();
    bus.write(0x1FF, 0b1000_0011);
    bus.write(0, 0x28);
    assert_eq!(cpu.step(&mut bus), Ok(4));
    assert!(cpu.status.contains(Flag::Carry));
    assert!(cpu.status.contains(Flag::Zero));
    assert!(cpu.status.contains(Flag::Negative));
    assert!(!cpu.status.contains(Flag::Overflow));
    assert_eq!(cpu.status.as_byte(), 0b1010_0011);
}

#[test]
fn push_wraps_stack_pointer() {
    let mut cpu = CPU::new();
    cpu.accumulator = 0x42;
    let mut bus = Memory::new();
    bus.write(0, 0x48);
    assert_eq!(cpu.step(&mut bus), Ok(3));
    assert_eq!(cpu.stack_pointer, 0xFF);
    assert_eq!(bus.read(0x100), 0x42);
    bus.write(1, 0x68);
    cpu.accumulator = 0;
    assert_eq!(cpu.step(&mut bus), Ok(4));
    assert_eq!(cpu.accumulator, 0x42);
    assert_eq!(cpu.stack_pointer, 0);
}

#[test]
fn halting_opcode_halts() {
    let mut cpu = CPU::new();
    let mut bus = Memory::new();
    bus.write(0, 0x02);
    assert_eq!(cpu.step(&mut bus), Err(CpuError::IllegalOpcodeHalt { opcode: 0x02 }));
    assert!(cpu.is_halted());
    assert_eq!(cpu.step(&mut bus), Err(CpuError::Halted));
    cpu.reset(&bus);
    assert!(!cpu.is_halted());
}

#[test]
fn unmodelled_opcode_is_reported() {
    let mut cpu = CPU::new();
    assert_eq!(cpu.execute_commands(vec![0xA9, 1, 0x9B, 5, 0]), Err(CpuError::Unimplemented { opcode: 0x9B }));
    assert_eq!(cpu.accumulator, 1);
    assert_eq!(cpu.program_counter, 2);
}

#[test]
fn raw_stream_stops_on_backward_jump() {
    let mut cpu = CPU::new();
    assert_eq!(
        cpu.execute_commands(vec![0xE8, 0x4C, 0x00, 0x00]),
        Err(CpuError::NoForwardProgress { address: 1 })
    );
    assert_eq!(cpu.register_x, 1);
}

#[test]
fn reset_loads_vector() {
    let mut cpu = CPU::new();
    cpu.accumulator = 3;
    let mut bus = Memory::new();
    bus.write(0xFFFC, 0x00);
    bus.write(0xFFFD, 0x80);
    cpu.reset(&bus);
    assert_eq!(cpu.program_counter, 0x8000);
    assert_eq!(cpu.accumulator, 0);
}

#[test]
fn flag_setters_touch_one_flag() {
    let mut cpu = CPU::new();
    cpu.set_carry_flag(true);
    cpu.set_interrupt_disable_flag(true);
    cpu.set_decimal_mode_flag(true);
    cpu.set_break_command_flag(true);
    cpu.set_overflow_flag(true);
    cpu.update_zero_flag(0);
    cpu.update_negative_flag(0x80);
    assert_eq!(cpu.status.as_byte(), 0xFF);
    cpu.set_break_command_flag(false);
    assert_eq!(cpu.status.as_byte(), 0xEF);
    cpu.increment_program_counter(0xFFFF);
    cpu.increment_program_counter(2);
    assert_eq!(cpu.program_counter, 1);
}

fn memory_with(program: &[u8], at: u16) -> Memory {
    let mut bus = Memory::new();
    let mut a = at;
    for b in program {
        bus.write(a, *b);
        a = a.wrapping_add(1);
    }
    bus
}

#[test]
fn branch_not_taken_costs_base() {
    let mut cpu = CPU::new();
    cpu.program_counter = 0x200;
    let mut bus = memory_with(&[0xF0, 0x10], 0x200);
    assert_eq!(cpu.step(&mut bus), Ok(2));
    assert_eq!(cpu.program_counter, 0x202);
}

#[test]
fn branch_taken_same_page_costs_one_more() {
    let mut cpu = CPU::new();
    cpu.program_counter = 0x200;
    let mut bus = memory_with(&[0xD0, 0x10], 0x200);
    assert_eq!(cpu.step(&mut bus), Ok(3));
    assert_eq!(cpu.program_counter, 0x212);
}

#[test]
fn branch_backward_across_page_costs_two_more() {
    let mut cpu = CPU::new();
    cpu.program_counter = 0x200;
    cpu.status.insert(Flag::Carry);
    let mut bus = memory_with(&[0xB0, 0xFC], 0x200);
    assert_eq!(cpu.step(&mut bus), Ok(4));
    assert_eq!(cpu.program_counter, 0x1FE);
}

#[test]
fn call_and_return() {
    let mut cpu = CPU::new();
    cpu.program_counter = 0x600;
    cpu.stack_pointer = 0xFF;
    let mut bus = memory_with(&[0x20, 0x00, 0x07], 0x600);
    bus.write(0x700, 0x60);
    assert_eq!(cpu.step(&mut bus), Ok(6));
    assert_eq!(cpu.program_counter, 0x700);
    assert_eq!(cpu.stack_pointer, 0xFD);
    assert_eq!(bus.read(0x1FF), 0x06);
    assert_eq!(bus.read(0x1FE), 0x02);
    assert_eq!(cpu.step(&mut bus), Ok(6));
    assert_eq!(cpu.program_counter, 0x603);
    assert_eq!(cpu.stack_pointer, 0xFF);
}

#[test]
fn break_and_return_from_interrupt() {
    let mut cpu = CPU::new();
    cpu.program_counter = 0x600;
    cpu.stack_pointer = 0xFF;
    cpu.status.insert(Flag::Carry);
    let mut bus = memory_with(&[0x00], 0x600);
    bus.write(0xFFFE, 0x00);
    bus.write(0xFFFF, 0x90);
    bus.write(0x9000, 0x40);
    assert_eq!(cpu.step(&mut bus), Ok(7));
    assert_eq!(cpu.program_counter, 0x9000);
    assert!(cpu.status.contains(Flag::InterruptDisable));
    assert_eq!(bus.read(0x1FF), 0x06);
    assert_eq!(bus.read(0x1FE), 0x02);
    assert_eq!(bus.read(0x1FD), 0b0011_0001);
    assert_eq!(cpu.step(&mut bus), Ok(6));
    assert_eq!(cpu.program_counter, 0x602);
    assert!(!cpu.status.contains(Flag::InterruptDisable));
    assert!(cpu.status.contains(Flag::Carry));
    assert_eq!(cpu.stack_pointer, 0xFF);
}

#[test]
fn shifts_and_rotates() {
    let mut cpu = CPU::new();
    cpu.execute_commands(vec![0xA9, 0x81, 0x0A]).unwrap();
    assert_eq!(cpu.accumulator, 0x02);
    assert!(cpu.status.contains(Flag::Carry));
    let mut cpu = CPU::new();
    cpu.execute_commands(vec![0x38, 0xA9, 0x01, 0x6A]).unwrap();
    assert_eq!(cpu.accumulator, 0x80);
    assert!(cpu.status.contains(Flag::Carry));
    assert!(cpu.status.contains(Flag::Negative));
    let mut cpu = CPU::new();
    cpu.execute_commands(vec![0xA9, 0x01, 0x4A]).unwrap();
    assert_eq!(cpu.accumulator, 0);
    assert!(cpu.status.contains(Flag::Zero));
    assert!(cpu.status.contains(Flag::Carry));
    let mut cpu = CPU::new();
    cpu.execute_commands(vec![0x38, 0xA9, 0x40, 0x2A]).unwrap();
    assert_eq!(cpu.accumulator, 0x81);
    assert!(!cpu.status.contains(Flag::Carry));
}

#[test]
fn shift_memory_operand() {
    let mut cpu = CPU::new();
    cpu.program_counter = 0x200;
    let mut bus = memory_with(&[0x06, 0x10], 0x200);
    bus.write(0x10, 0x40);
    assert_eq!(cpu.step(&mut bus), Ok(5));
    assert_eq!(bus.read(0x10), 0x80);
    assert!(cpu.status.contains(Flag::Negative));
}

#[test]
fn bit_test_copies_high_bits() {
    let mut cpu = CPU::new();
    cpu.program_counter = 0x200;
    cpu.accumulator = 0x01;
    let mut bus = memory_with(&[0x24, 0x10], 0x200);
    bus.write(0x10, 0xC0);
    assert_eq!(cpu.step(&mut bus), Ok(3));
    assert!(cpu.status.contains(Flag::Zero));
    assert!(cpu.status.contains(Flag::Overflow));
    assert!(cpu.status.contains(Flag::Negative));
}

#[test]
fn unofficial_load_and_store() {
    let mut cpu = CPU::new();
    cpu.program_counter = 0x200;
    let mut bus = memory_with(&[0xA7, 0x10, 0x87, 0x11], 0x200);
    bus.write(0x10, 0x3C);
    assert_eq!(cpu.step(&mut bus), Ok(3));
    assert_eq!(cpu.accumulator, 0x3C);
    assert_eq!(cpu.register_x, 0x3C);
    cpu.register_x = 0x0F;
    assert_eq!(cpu.step(&mut bus), Ok(3));
    assert_eq!(bus.read(0x11), 0x0C);
}

#[test]
fn unofficial_nop_skips_operand_and_pays_page_penalty() {
    let mut cpu = CPU::new();
    cpu.program_counter = 0x200;
    cpu.register_x = 1;
    let mut bus = memory_with(&[0x1C, 0xFF, 0x10], 0x200);
    assert_eq!(cpu.step(&mut bus), Ok(5));
    assert_eq!(cpu.program_counter, 0x203);
}

#[test]
fn unofficial_read_modify_write() {
    let mut cpu = CPU::new();
    cpu.program_counter = 0x200;
    cpu.accumulator = 0x01;
    // SLO: shift memory left, then OR it into the accumulator
    let mut bus = memory_with(&[0x07, 0x10, 0xC7, 0x11, 0xE7, 0x12], 0x200);
    bus.write(0x10, 0x81);
    bus.write(0x11, 0x06);
    bus.write(0x12, 0x01);
    assert_eq!(cpu.step(&mut bus), Ok(5));
    assert_eq!(bus.read(0x10), 0x02);
    assert_eq!(cpu.accumulator, 0x03);
    assert!(cpu.status.contains(Flag::Carry));
    // DCP: decrement memory, then compare with the accumulator
    assert_eq!(cpu.step(&mut bus), Ok(5));
    assert_eq!(bus.read(0x11), 0x05);
    assert!(!cpu.status.contains(Flag::Carry));
    // ISC: increment memory, then subtract it with borrow
    cpu.status.insert(Flag::Carry);
    assert_eq!(cpu.step(&mut bus), Ok(5));
    assert_eq!(bus.read(0x12), 0x02);
    assert_eq!(cpu.accumulator, 0x01);
}

#[test]
fn unofficial_immediate_combinations() {
    let mut cpu = CPU::new();
    cpu.execute_commands(vec![0xA9, 0xF0, 0x0B, 0x80]).unwrap();
    assert_eq!(cpu.accumulator, 0x80);
    assert!(cpu.status.contains(Flag::Carry));
    let mut cpu = CPU::new();
    cpu.execute_commands(vec![0xA9, 0x0F, 0x4B, 0x03]).unwrap();
    assert_eq!(cpu.accumulator, 0x01);
    assert!(cpu.status.contains(Flag::Carry));
    let mut cpu = CPU::new();
    cpu.execute_commands(vec![0x38, 0xA9, 0xFF, 0x6B, 0xFF]).unwrap();
    assert_eq!(cpu.accumulator, 0xFF);
    assert!(cpu.status.contains(Flag::Carry));
    assert!(!cpu.status.contains(Flag::Overflow));
    let mut cpu = CPU::new();
    cpu.execute_commands(vec![0xA9, 0x0F, 0xA2, 0x07, 0xCB, 0x02]).unwrap();
    assert_eq!(cpu.register_x, 0x05);
    assert!(cpu.status.contains(Flag::Carry));
}

#[test]
fn unstable_unofficial_opcode_is_reported() {
    let mut cpu = CPU::new();
    assert_eq!(cpu.execute_commands(vec![0x8B, 0x00]), Err(CpuError::Unimplemented { opcode: 0x8B }));
    assert_eq!(cpu.program_counter, 0);
}
