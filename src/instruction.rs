//! The opcode table: for every byte value, the instruction's length,
//! base cycle cost and addressing mode.
use vstd::prelude::*;

verus! {

/// How an instruction finds its operand.
#[derive(Clone, Copy, Debug, PartialEq, Eq, Structural)]
pub enum AddressingMode {
    Immediate,
    ZeroPage,
    ZeroPageX,
    ZeroPageY,
    Absolute,
    AbsoluteX,
    AbsoluteY,
    Indirect,
    IndirectX,
    IndirectY,
    Accumulator,
    Relative,
    Implied,
}

impl AddressingMode {
    /// Length in bytes of an instruction in this mode, opcode included.
    pub open spec fn spec_len(self) -> u8 {
        match self {
            AddressingMode::Accumulator | AddressingMode::Implied => 1u8,
            AddressingMode::Absolute | AddressingMode::AbsoluteX | AddressingMode::AbsoluteY
            | AddressingMode::Indirect => 3u8,
            _ => 2u8,
        }
    }
}

/// The addressing mode of each opcode.
pub open spec fn mode_of(code: u8) -> AddressingMode {
    match code {
        0x09 | 0x0B | 0x29 | 0x2B | 0x49 | 0x4B | 0x69 | 0x6B |
        0x80 | 0x82 | 0x89 | 0x8B | 0xA0 | 0xA2 | 0xA9 | 0xAB |
        0xC0 | 0xC2 | 0xC9 | 0xCB | 0xE0 | 0xE2 | 0xE9 | 0xEB => AddressingMode::Immediate,
        0x04 | 0x05 | 0x06 | 0x07 | 0x24 | 0x25 | 0x26 | 0x27 |
        0x44 | 0x45 | 0x46 | 0x47 | 0x64 | 0x65 | 0x66 | 0x67 |
        0x84 | 0x85 | 0x86 | 0x87 | 0xA4 | 0xA5 | 0xA6 | 0xA7 |
        0xC4 | 0xC5 | 0xC6 | 0xC7 | 0xE4 | 0xE5 | 0xE6 | 0xE7 => AddressingMode::ZeroPage,
        0x14 | 0x15 | 0x16 | 0x17 | 0x34 | 0x35 | 0x36 | 0x37 |
        0x54 | 0x55 | 0x56 | 0x57 | 0x74 | 0x75 | 0x76 | 0x77 |
        0x94 | 0x95 | 0xB4 | 0xB5 | 0xD4 | 0xD5 | 0xD6 | 0xD7 |
        0xF4 | 0xF5 | 0xF6 | 0xF7 => AddressingMode::ZeroPageX,
        0x96 | 0x97 | 0xB6 | 0xB7 => AddressingMode::ZeroPageY,
        0x0C | 0x0D | 0x0E | 0x0F | 0x20 | 0x2C | 0x2D | 0x2E |
        0x2F | 0x4C | 0x4D | 0x4E | 0x4F | 0x6D | 0x6E | 0x6F |
        0x8C | 0x8D | 0x8E | 0x8F | 0xAC | 0xAD | 0xAE | 0xAF |
        0xCC | 0xCD | 0xCE | 0xCF | 0xEC | 0xED | 0xEE | 0xEF => AddressingMode::Absolute,
        0x1C | 0x1D | 0x1E | 0x1F | 0x3C | 0x3D | 0x3E | 0x3F |
        0x5C | 0x5D | 0x5E | 0x5F | 0x7C | 0x7D | 0x7E | 0x7F |
        0x9C | 0x9D | 0xBC | 0xBD | 0xDC | 0xDD | 0xDE | 0xDF |
        0xFC | 0xFD | 0xFE | 0xFF => AddressingMode::AbsoluteX,
        0x19 | 0x1B | 0x39 | 0x3B | 0x59 | 0x5B | 0x79 | 0x7B |
        0x99 | 0x9B | 0x9E | 0x9F | 0xB9 | 0xBB | 0xBE | 0xBF |
        0xD9 | 0xDB | 0xF9 | 0xFB => AddressingMode::AbsoluteY,
        0x6C => AddressingMode::Indirect,
        0x01 | 0x03 | 0x21 | 0x23 | 0x41 | 0x43 | 0x61 | 0x63 |
        0x81 | 0x83 | 0xA1 | 0xA3 | 0xC1 | 0xC3 | 0xE1 | 0xE3 => AddressingMode::IndirectX,
        0x11 | 0x13 | 0x31 | 0x33 | 0x51 | 0x53 | 0x71 | 0x73 |
        0x91 | 0x93 | 0xB1 | 0xB3 | 0xD1 | 0xD3 | 0xF1 | 0xF3 => AddressingMode::IndirectY,
        0x0A | 0x2A | 0x4A | 0x6A => AddressingMode::Accumulator,
        0x10 | 0x30 | 0x50 | 0x70 | 0x90 | 0xB0 | 0xD0 | 0xF0 => AddressingMode::Relative,
        _ => AddressingMode::Implied,
    }
}

/// The base cycle cost of each opcode, before any page-crossing or
/// branch penalty.
pub open spec fn cycles_of(code: u8) -> u8 {
    match code {
        0x04 | 0x05 | 0x08 | 0x24 | 0x25 | 0x44 | 0x45 | 0x48 |
        0x4C | 0x64 | 0x65 | 0x84 | 0x85 | 0x86 | 0x87 | 0xA4 |
        0xA5 | 0xA6 | 0xA7 | 0xC4 | 0xC5 | 0xE4 | 0xE5 => 3u8,
        0x0C | 0x0D | 0x14 | 0x15 | 0x19 | 0x1C | 0x1D | 0x28 |
        0x2C | 0x2D | 0x34 | 0x35 | 0x39 | 0x3C | 0x3D | 0x4D |
        0x54 | 0x55 | 0x59 | 0x5C | 0x5D | 0x68 | 0x6D | 0x74 |
        0x75 | 0x79 | 0x7C | 0x7D | 0x8C | 0x8D | 0x8E | 0x8F |
        0x94 | 0x95 | 0x96 | 0x97 | 0xAC | 0xAD | 0xAE | 0xAF |
        0xB4 | 0xB5 | 0xB6 | 0xB7 | 0xB9 | 0xBB | 0xBC | 0xBD |
        0xBE | 0xBF | 0xCC | 0xCD | 0xD4 | 0xD5 | 0xD9 | 0xDC |
        0xDD | 0xEC | 0xED | 0xF4 | 0xF5 | 0xF9 | 0xFC | 0xFD => 4u8,
        0x06 | 0x07 | 0x11 | 0x26 | 0x27 | 0x31 | 0x46 | 0x47 |
        0x51 | 0x66 | 0x67 | 0x6C | 0x71 | 0x99 | 0x9B | 0x9C |
        0x9D | 0x9E | 0x9F | 0xB1 | 0xB3 | 0xC6 | 0xC7 | 0xD1 |
        0xE6 | 0xE7 | 0xF1 => 5u8,
        0x01 | 0x0E | 0x0F | 0x16 | 0x17 | 0x20 | 0x21 | 0x2E |
        0x2F | 0x36 | 0x37 | 0x40 | 0x41 | 0x4E | 0x4F | 0x56 |
        0x57 | 0x60 | 0x61 | 0x6E | 0x6F | 0x76 | 0x77 | 0x81 |
        0x83 | 0x91 | 0x93 | 0xA1 | 0xA3 | 0xC1 | 0xCE | 0xCF |
        0xD6 | 0xD7 | 0xE1 | 0xEE | 0xEF | 0xF6 | 0xF7 => 6u8,
        0x00 | 0x1B | 0x1E | 0x1F | 0x3B | 0x3E | 0x3F | 0x5B |
        0x5E | 0x5F | 0x7B | 0x7E | 0x7F | 0xDB | 0xDE | 0xDF |
        0xFB | 0xFE | 0xFF => 7u8,
        0x03 | 0x13 | 0x23 | 0x33 | 0x43 | 0x53 | 0x63 | 0x73 |
        0xC3 | 0xD3 | 0xE3 | 0xF3 => 8u8,
        _ => 2u8,
    }
}

/// The opcodes that stop the processor instead of executing.
pub open spec fn is_jam(code: u8) -> bool {
    match code {
        0x02 | 0x12 | 0x22 | 0x32 | 0x42 | 0x52 | 0x62 | 0x72 | 0x92 | 0xB2 | 0xD2 | 0xF2 => true,
        _ => false,
    }
}

/// What the table holds for one opcode.
#[derive(Clone, Copy, Debug, PartialEq, Eq, Structural)]
pub struct Instruction {
    pub opcode: u8,
    /// Length in bytes, opcode included.
    pub len: u8,
    /// Base cycle cost.
    pub cycle: u8,
    pub addressing_mode: AddressingMode,
    /// Executing this opcode halts the processor.
    pub halts: bool,
}

impl Instruction {
    /// The descriptor that the table holds for `code`.
    pub open spec fn spec_from_code(code: u8) -> Instruction {
        Instruction {
            opcode: code,
            len: mode_of(code).spec_len(),
            cycle: cycles_of(code),
            addressing_mode: mode_of(code),
            halts: is_jam(code),
        }
    }

    /// A descriptor of an opcode that executes.
    pub fn new(opcode: u8, len: u8, cycle: u8, addressing_mode: AddressingMode) -> (r: Self)
        ensures
            r == (Instruction { opcode, len, cycle, addressing_mode, halts: false }),
    {
        Instruction { opcode, len, cycle, addressing_mode, halts: false }
    }

    /// Looks up an opcode. Every byte value has a descriptor.
    pub fn from_code(code: u8) -> (r: Self)
        ensures
            r == Instruction::spec_from_code(code),
    {
        let addressing_mode = addressing_mode_of(code);
        Instruction {
            opcode: code,
            len: addressing_mode.len(),
            cycle: base_cycles(code),
            addressing_mode,
            halts: halts(code),
        }
    }
}

impl AddressingMode {
    /// Length in bytes of an instruction in this mode, opcode included.
    pub fn len(&self) -> (r: u8)
        ensures
            r == self.spec_len(),
    {
        match self {
            AddressingMode::Accumulator | AddressingMode::Implied => 1,
            AddressingMode::Absolute | AddressingMode::AbsoluteX | AddressingMode::AbsoluteY
            | AddressingMode::Indirect => 3,
            _ => 2,
        }
    }
}

fn addressing_mode_of(code: u8) -> (r: AddressingMode)
    ensures
        r == mode_of(code),
{
    match code {
        0x09 | 0x0B | 0x29 | 0x2B | 0x49 | 0x4B | 0x69 | 0x6B |
        0x80 | 0x82 | 0x89 | 0x8B | 0xA0 | 0xA2 | 0xA9 | 0xAB |
        0xC0 | 0xC2 | 0xC9 | 0xCB | 0xE0 | 0xE2 | 0xE9 | 0xEB => AddressingMode::Immediate,
        0x04 | 0x05 | 0x06 | 0x07 | 0x24 | 0x25 | 0x26 | 0x27 |
        0x44 | 0x45 | 0x46 | 0x47 | 0x64 | 0x65 | 0x66 | 0x67 |
        0x84 | 0x85 | 0x86 | 0x87 | 0xA4 | 0xA5 | 0xA6 | 0xA7 |
        0xC4 | 0xC5 | 0xC6 | 0xC7 | 0xE4 | 0xE5 | 0xE6 | 0xE7 => AddressingMode::ZeroPage,
        0x14 | 0x15 | 0x16 | 0x17 | 0x34 | 0x35 | 0x36 | 0x37 |
        0x54 | 0x55 | 0x56 | 0x57 | 0x74 | 0x75 | 0x76 | 0x77 |
        0x94 | 0x95 | 0xB4 | 0xB5 | 0xD4 | 0xD5 | 0xD6 | 0xD7 |
        0xF4 | 0xF5 | 0xF6 | 0xF7 => AddressingMode::ZeroPageX,
        0x96 | 0x97 | 0xB6 | 0xB7 => AddressingMode::ZeroPageY,
        0x0C | 0x0D | 0x0E | 0x0F | 0x20 | 0x2C | 0x2D | 0x2E |
        0x2F | 0x4C | 0x4D | 0x4E | 0x4F | 0x6D | 0x6E | 0x6F |
        0x8C | 0x8D | 0x8E | 0x8F | 0xAC | 0xAD | 0xAE | 0xAF |
        0xCC | 0xCD | 0xCE | 0xCF | 0xEC | 0xED | 0xEE | 0xEF => AddressingMode::Absolute,
        0x1C | 0x1D | 0x1E | 0x1F | 0x3C | 0x3D | 0x3E | 0x3F |
        0x5C | 0x5D | 0x5E | 0x5F | 0x7C | 0x7D | 0x7E | 0x7F |
        0x9C | 0x9D | 0xBC | 0xBD | 0xDC | 0xDD | 0xDE | 0xDF |
        0xFC | 0xFD | 0xFE | 0xFF => AddressingMode::AbsoluteX,
        0x19 | 0x1B | 0x39 | 0x3B | 0x59 | 0x5B | 0x79 | 0x7B |
        0x99 | 0x9B | 0x9E | 0x9F | 0xB9 | 0xBB | 0xBE | 0xBF |
        0xD9 | 0xDB | 0xF9 | 0xFB => AddressingMode::AbsoluteY,
        0x6C => AddressingMode::Indirect,
        0x01 | 0x03 | 0x21 | 0x23 | 0x41 | 0x43 | 0x61 | 0x63 |
        0x81 | 0x83 | 0xA1 | 0xA3 | 0xC1 | 0xC3 | 0xE1 | 0xE3 => AddressingMode::IndirectX,
        0x11 | 0x13 | 0x31 | 0x33 | 0x51 | 0x53 | 0x71 | 0x73 |
        0x91 | 0x93 | 0xB1 | 0xB3 | 0xD1 | 0xD3 | 0xF1 | 0xF3 => AddressingMode::IndirectY,
        0x0A | 0x2A | 0x4A | 0x6A => AddressingMode::Accumulator,
        0x10 | 0x30 | 0x50 | 0x70 | 0x90 | 0xB0 | 0xD0 | 0xF0 => AddressingMode::Relative,
        _ => AddressingMode::Implied,
    }
}

fn base_cycles(code: u8) -> (r: u8)
    ensures
        r == cycles_of(code),
{
    match code {
        0x04 | 0x05 | 0x08 | 0x24 | 0x25 | 0x44 | 0x45 | 0x48 |
        0x4C | 0x64 | 0x65 | 0x84 | 0x85 | 0x86 | 0x87 | 0xA4 |
        0xA5 | 0xA6 | 0xA7 | 0xC4 | 0xC5 | 0xE4 | 0xE5 => 3,
        0x0C | 0x0D | 0x14 | 0x15 | 0x19 | 0x1C | 0x1D | 0x28 |
        0x2C | 0x2D | 0x34 | 0x35 | 0x39 | 0x3C | 0x3D | 0x4D |
        0x54 | 0x55 | 0x59 | 0x5C | 0x5D | 0x68 | 0x6D | 0x74 |
        0x75 | 0x79 | 0x7C | 0x7D | 0x8C | 0x8D | 0x8E | 0x8F |
        0x94 | 0x95 | 0x96 | 0x97 | 0xAC | 0xAD | 0xAE | 0xAF |
        0xB4 | 0xB5 | 0xB6 | 0xB7 | 0xB9 | 0xBB | 0xBC | 0xBD |
        0xBE | 0xBF | 0xCC | 0xCD | 0xD4 | 0xD5 | 0xD9 | 0xDC |
        0xDD | 0xEC | 0xED | 0xF4 | 0xF5 | 0xF9 | 0xFC | 0xFD => 4,
        0x06 | 0x07 | 0x11 | 0x26 | 0x27 | 0x31 | 0x46 | 0x47 |
        0x51 | 0x66 | 0x67 | 0x6C | 0x71 | 0x99 | 0x9B | 0x9C |
        0x9D | 0x9E | 0x9F | 0xB1 | 0xB3 | 0xC6 | 0xC7 | 0xD1 |
        0xE6 | 0xE7 | 0xF1 => 5,
        0x01 | 0x0E | 0x0F | 0x16 | 0x17 | 0x20 | 0x21 | 0x2E |
        0x2F | 0x36 | 0x37 | 0x40 | 0x41 | 0x4E | 0x4F | 0x56 |
        0x57 | 0x60 | 0x61 | 0x6E | 0x6F | 0x76 | 0x77 | 0x81 |
        0x83 | 0x91 | 0x93 | 0xA1 | 0xA3 | 0xC1 | 0xCE | 0xCF |
        0xD6 | 0xD7 | 0xE1 | 0xEE | 0xEF | 0xF6 | 0xF7 => 6,
        0x00 | 0x1B | 0x1E | 0x1F | 0x3B | 0x3E | 0x3F | 0x5B |
        0x5E | 0x5F | 0x7B | 0x7E | 0x7F | 0xDB | 0xDE | 0xDF |
        0xFB | 0xFE | 0xFF => 7,
        0x03 | 0x13 | 0x23 | 0x33 | 0x43 | 0x53 | 0x63 | 0x73 |
        0xC3 | 0xD3 | 0xE3 | 0xF3 => 8,
        _ => 2,
    }
}

fn halts(code: u8) -> (r: bool)
    ensures
        r == is_jam(code),
{
    match code {
        0x02 | 0x12 | 0x22 | 0x32 | 0x42 | 0x52 | 0x62 | 0x72 | 0x92 | 0xB2 | 0xD2 | 0xF2 => true,
        _ => false,
    }
}

} // verus!
