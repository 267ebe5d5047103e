use nes_core::instruction::{AddressingMode, Instruction};
use nes_core::nes::NES;
use nes_core::status::{Flag, StatusRegister};

#[test]
fn every_opcode_has_a_descriptor() {
    for code in 0..=255u8 {
        let d = Instruction::from_code(code);
        assert_eq!(d.opcode, code);
        assert!(d.len >= 1 && d.len <= 3);
        assert_eq!(d.len, d.addressing_mode.len());
        assert!(d.cycle >= 2 && d.cycle <= 8);
    }
}

#[test]
fn canonical_descriptors() {
    let d = Instruction::from_code(0x69);
    assert_eq!((d.len, d.cycle, d.addressing_mode), (2, 2, AddressingMode::Immediate));
    let d = Instruction::from_code(0x6C);
    assert_eq!((d.len, d.cycle, d.addressing_mode), (3, 5, AddressingMode::Indirect));
    let d = Instruction::from_code(0x96);
    assert_eq!((d.len, d.cycle, d.addressing_mode), (2, 4, AddressingMode::ZeroPageY));
    let d = Instruction::from_code(0x1E);
    assert_eq!((d.len, d.cycle, d.addressing_mode), (3, 7, AddressingMode::AbsoluteX));
    let d = Instruction::from_code(0x91);
    assert_eq!((d.len, d.cycle, d.addressing_mode), (2, 6, AddressingMode::IndirectY));
    let d = Instruction::from_code(0x00);
    assert_eq!((d.len, d.cycle, d.addressing_mode), (1, 7, AddressingMode::Implied));
    let d = Instruction::from_code(0xBB);
    assert_eq!((d.len, d.cycle, d.addressing_mode), (3, 4, AddressingMode::AbsoluteY));
    assert!(!d.halts);
}

#[test]
fn halting_opcodes_are_flagged() {
    let halting = [0x02u8, 0x12, 0x22, 0x32, 0x42, 0x52, 0x62, 0x72, 0x92, 0xB2, 0xD2, 0xF2];
    for code in 0..=255u8 {
        assert_eq!(Instruction::from_code(code).halts, halting.contains(&code));
    }
}

#[test]
fn new_builds_a_descriptor() {
    let d = Instruction::new(0xEA, 1, 2, AddressingMode::Implied);
    assert_eq!(d.opcode, 0xEA);
    assert!(!d.halts);
}

#[test]
fn status_byte_round_trip() {
    for b in 0..=255u8 {
        let s = StatusRegister::from_byte(b);
        assert_eq!(s.as_byte(), b | 0x20);
        assert_eq!(StatusRegister::from_byte(s.as_byte()), s);
    }
    let mut s = StatusRegister::empty();
    assert_eq!(s.as_byte(), 0x20);
    s.insert(Flag::Negative);
    s.set(Flag::Zero, true);
    assert_eq!(s.as_byte(), 0xA2);
    s.remove(Flag::Negative);
    assert!(!s.contains(Flag::Negative));
    assert!(s.contains(Flag::Zero));
}

#[test]
fn console_starts_at_power_on_state() {
    let nes = NES::new();
    assert_eq!(nes.cpu.program_counter, 0);
    assert_eq!(nes.cpu.accumulator, 0);
    assert!(!nes.cpu.is_halted());
}
