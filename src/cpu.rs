//! Registers, addressing-mode resolution and the execution engine.
use vstd::prelude::*;
use crate::instruction::{AddressingMode, Instruction};
use crate::memory::{loaded, peek, word, Memory, MEMORY_SIZE};
use crate::status::{Flag, StatusRegister};

verus! {

/// Where the reset vector is stored.
pub const RESET_VECTOR: u16 = 0xFFFC;

/// Where the interrupt vector that a break jumps through is stored.
pub const IRQ_VECTOR: u16 = 0xFFFE;

/// Why a step did not execute an instruction.
#[derive(Clone, Copy, Debug, PartialEq, Eq, Structural)]
pub enum CpuError {
    /// The processor was already halted; only a reset brings it back.
    Halted,
    /// A halting opcode was fetched; the processor is now halted.
    IllegalOpcodeHalt { opcode: u8 },
    /// The opcode has a descriptor but its behaviour is not modelled.
    Unimplemented { opcode: u8 },
    /// In a raw instruction stream, the instruction at `address` did not move
    /// the program counter forward.
    NoForwardProgress { address: u16 },
}

/// Where an instruction's operand is.
#[derive(Clone, Copy, Debug, PartialEq, Eq, Structural)]
pub enum Operand {
    /// The byte that follows the opcode.
    Immediate(u8),
    /// A location on the bus.
    Address(u16),
    /// The accumulator register.
    Accumulator,
    /// No operand.
    Nothing,
}

/// What an opcode does, apart from where its operand is.
#[derive(Clone, Copy, Debug, PartialEq, Eq, Structural)]
pub enum Operation {
    Adc,
    And,
    Cmp,
    Cpx,
    Cpy,
    Dec,
    Eor,
    Inc,
    Lda,
    Ldx,
    Ldy,
    Ora,
    Sbc,
    Sta,
    Stx,
    Sty,
    Tax,
    Tay,
    Txa,
    Tya,
    Tsx,
    Txs,
    Inx,
    Iny,
    Dex,
    Dey,
    Clc,
    Sec,
    Cli,
    Sei,
    Cld,
    Sed,
    Clv,
    Pha,
    Php,
    Pla,
    Plp,
    Jmp,
    Nop,
    Asl,
    Lsr,
    Rol,
    Ror,
    Bit,
    Bcc,
    Bcs,
    Beq,
    Bmi,
    Bne,
    Bpl,
    Bvc,
    Bvs,
    Jsr,
    Rts,
    Rti,
    Brk,
    Lax,
    Sax,
    Slo,
    Rla,
    Sre,
    Rra,
    Dcp,
    Isc,
    Anc,
    Alr,
    Arr,
    Axs,
}

/// The operation of each opcode whose behaviour is modelled.
pub open spec fn operation_of(code: u8) -> Option<Operation> {
    match code {
        0x69 | 0x65 | 0x75 | 0x6D | 0x7D | 0x79 | 0x61 | 0x71 => Some(Operation::Adc),
        0x29 | 0x25 | 0x35 | 0x2D | 0x3D | 0x39 | 0x21 | 0x31 => Some(Operation::And),
        0xC9 | 0xC5 | 0xD5 | 0xCD | 0xDD | 0xD9 | 0xC1 | 0xD1 => Some(Operation::Cmp),
        0xE0 | 0xE4 | 0xEC => Some(Operation::Cpx),
        0xC0 | 0xC4 | 0xCC => Some(Operation::Cpy),
        0xC6 | 0xD6 | 0xCE | 0xDE => Some(Operation::Dec),
        0x49 | 0x45 | 0x55 | 0x4D | 0x5D | 0x59 | 0x41 | 0x51 => Some(Operation::Eor),
        0xE6 | 0xF6 | 0xEE | 0xFE => Some(Operation::Inc),
        0xA9 | 0xA5 | 0xB5 | 0xAD | 0xBD | 0xB9 | 0xA1 | 0xB1 => Some(Operation::Lda),
        0xA2 | 0xA6 | 0xB6 | 0xAE | 0xBE => Some(Operation::Ldx),
        0xA0 | 0xA4 | 0xB4 | 0xAC | 0xBC => Some(Operation::Ldy),
        0x09 | 0x05 | 0x15 | 0x0D | 0x1D | 0x19 | 0x01 | 0x11 => Some(Operation::Ora),
        0xE9 | 0xE5 | 0xF5 | 0xED | 0xFD | 0xF9 | 0xE1 | 0xF1 | 0xEB => Some(Operation::Sbc),
        0x85 | 0x95 | 0x8D | 0x9D | 0x99 | 0x81 | 0x91 => Some(Operation::Sta),
        0x86 | 0x96 | 0x8E => Some(Operation::Stx),
        0x84 | 0x94 | 0x8C => Some(Operation::Sty),
        0xAA => Some(Operation::Tax),
        0xA8 => Some(Operation::Tay),
        0x8A => Some(Operation::Txa),
        0x98 => Some(Operation::Tya),
        0xBA => Some(Operation::Tsx),
        0x9A => Some(Operation::Txs),
        0xE8 => Some(Operation::Inx),
        0xC8 => Some(Operation::Iny),
        0xCA => Some(Operation::Dex),
        0x88 => Some(Operation::Dey),
        0x18 => Some(Operation::Clc),
        0x38 => Some(Operation::Sec),
        0x58 => Some(Operation::Cli),
        0x78 => Some(Operation::Sei),
        0xD8 => Some(Operation::Cld),
        0xF8 => Some(Operation::Sed),
        0xB8 => Some(Operation::Clv),
        0x48 => Some(Operation::Pha),
        0x08 => Some(Operation::Php),
        0x68 => Some(Operation::Pla),
        0x28 => Some(Operation::Plp),
        0x4C | 0x6C => Some(Operation::Jmp),
        0xEA | 0x1A | 0x3A | 0x5A | 0x7A | 0xDA | 0xFA | 0x80 | 0x82 | 0x89 | 0xC2 | 0xE2 | 0x04
        | 0x44 | 0x64 | 0x14 | 0x34 | 0x54 | 0x74 | 0xD4 | 0xF4 | 0x0C | 0x1C | 0x3C | 0x5C
        | 0x7C | 0xDC | 0xFC => Some(Operation::Nop),
        0x0A | 0x06 | 0x16 | 0x0E | 0x1E => Some(Operation::Asl),
        0x4A | 0x46 | 0x56 | 0x4E | 0x5E => Some(Operation::Lsr),
        0x2A | 0x26 | 0x36 | 0x2E | 0x3E => Some(Operation::Rol),
        0x6A | 0x66 | 0x76 | 0x6E | 0x7E => Some(Operation::Ror),
        0x24 | 0x2C => Some(Operation::Bit),
        0x90 => Some(Operation::Bcc),
        0xB0 => Some(Operation::Bcs),
        0xF0 => Some(Operation::Beq),
        0x30 => Some(Operation::Bmi),
        0xD0 => Some(Operation::Bne),
        0x10 => Some(Operation::Bpl),
        0x50 => Some(Operation::Bvc),
        0x70 => Some(Operation::Bvs),
        0x20 => Some(Operation::Jsr),
        0x60 => Some(Operation::Rts),
        0x40 => Some(Operation::Rti),
        0x00 => Some(Operation::Brk),
        0xA7 | 0xB7 | 0xAF | 0xBF | 0xA3 | 0xB3 => Some(Operation::Lax),
        0x87 | 0x97 | 0x8F | 0x83 => Some(Operation::Sax),
        0x07 | 0x17 | 0x0F | 0x1F | 0x1B | 0x03 | 0x13 => Some(Operation::Slo),
        0x27 | 0x37 | 0x2F | 0x3F | 0x3B | 0x23 | 0x33 => Some(Operation::Rla),
        0x47 | 0x57 | 0x4F | 0x5F | 0x5B | 0x43 | 0x53 => Some(Operation::Sre),
        0x67 | 0x77 | 0x6F | 0x7F | 0x7B | 0x63 | 0x73 => Some(Operation::Rra),
        0xC7 | 0xD7 | 0xCF | 0xDF | 0xDB | 0xC3 | 0xD3 => Some(Operation::Dcp),
        0xE7 | 0xF7 | 0xEF | 0xFF | 0xFB | 0xE3 | 0xF3 => Some(Operation::Isc),
        0x0B | 0x2B => Some(Operation::Anc),
        0x4B => Some(Operation::Alr),
        0x6B => Some(Operation::Arr),
        0xCB => Some(Operation::Axs),
        _ => None,
    }
}

/// Operations that read their operand (the unofficial no-ops with a memory
/// operand among them) and take one more cycle when an indexed address
/// crosses a page.
pub open spec fn pays_page_penalty(op: Operation) -> bool {
    match op {
        Operation::Adc | Operation::And | Operation::Cmp | Operation::Eor | Operation::Lda
        | Operation::Ldx | Operation::Ldy | Operation::Ora | Operation::Sbc | Operation::Lax
        | Operation::Nop => true,
        _ => false,
    }
}

/// Branch operations.
pub open spec fn is_branch(op: Operation) -> bool {
    match op {
        Operation::Bcc | Operation::Bcs | Operation::Beq | Operation::Bmi | Operation::Bne
        | Operation::Bpl | Operation::Bvc | Operation::Bvs => true,
        _ => false,
    }
}

/// Whether branch `op` is taken under flags `st`.
pub open spec fn branch_taken(op: Operation, st: StatusRegister) -> bool {
    match op {
        Operation::Bcc => !st.carry,
        Operation::Bcs => st.carry,
        Operation::Beq => st.zero,
        Operation::Bmi => st.negative,
        Operation::Bne => !st.zero,
        Operation::Bpl => !st.negative,
        Operation::Bvc => !st.overflow,
        Operation::Bvs => st.overflow,
        _ => false,
    }
}

/// Cycles added to the base cost: for a branch, one when taken and one
/// more when the target lies on another page; for an indexed read, one
/// when indexing crossed a page.
pub open spec fn extra_cycles(op: Operation, st: StatusRegister, crossed: bool) -> int {
    if is_branch(op) {
        if branch_taken(op, st) {
            if crossed { 2 } else { 1 }
        } else {
            0
        }
    } else if crossed && pays_page_penalty(op) {
        1
    } else {
        0
    }
}

/// The result and the new carry of shift or rotate `op` on `v`, with
/// incoming carry `c`.
pub open spec fn shifted(op: Operation, v: u8, c: bool) -> (u8, bool) {
    match op {
        Operation::Asl => (((v as int * 2) % 256) as u8, v >= 128),
        Operation::Lsr => ((v / 2) as u8, v % 2 == 1),
        Operation::Rol => (((v as int * 2 + if c { 1int } else { 0 }) % 256) as u8, v >= 128),
        _ => ((v / 2 + if c { 128int } else { 0 }) as u8, v % 2 == 1),
    }
}

/// The page (high byte) of an address.
pub open spec fn page(a: int) -> int {
    a / 256
}

/// `base + offset` in the 16-bit address space, and whether the sum lies on
/// another page than `base`.
pub open spec fn indexed(base: u16, offset: u8) -> (Operand, bool) {
    let a = (base as int + offset as int) % 0x10000;
    (Operand::Address(a as u16), page(a) != page(base as int))
}

/// The address of the byte that follows `a` on the same page.
pub open spec fn same_page_next(a: u16) -> int {
    page(a as int) * 256 + (a as int % 256 + 1) % 256
}

/// The word stored at `a` and the byte after it, where the high byte is
/// taken from the same page when `a` ends a page.
pub open spec fn page_bound_word(m: Seq<u8>, a: u16) -> u16 {
    word(m[a as int], m[same_page_next(a)])
}

/// The displacement encoded by a relative operand byte.
pub open spec fn displacement(b: u8) -> int {
    if b < 128 { b as int } else { b as int - 256 }
}

/// The target of a branch whose displacement byte is `b`, taken from the
/// address `next` of the following instruction, and whether it lies on
/// another page.
pub open spec fn branch_target(next: u16, b: u8) -> (Operand, bool) {
    let target = (next as int + displacement(b)) % 0x10000;
    (Operand::Address(target as u16), page(target) != page(next as int))
}

/// The registers and flags of the processor.
#[derive(Clone, Copy, Debug, PartialEq, Eq, Structural)]
pub struct CPU {
    pub program_counter: u16,
    pub stack_pointer: u8,
    pub accumulator: u8,
    pub register_x: u8,
    pub register_y: u8,
    pub status: StatusRegister,
    /// Set by a halting opcode; steps are refused until the next reset.
    pub halted: bool,
}

impl CPU {
    /// The power-on state: every register zero, every flag clear.
    pub open spec fn initial() -> CPU {
        CPU {
            program_counter: 0,
            stack_pointer: 0,
            accumulator: 0,
            register_x: 0,
            register_y: 0,
            status: StatusRegister::spec_empty(),
            halted: false,
        }
    }

    /// The state after the Zero and Negative flags follow `v`.
    pub open spec fn with_nz(self, v: u8) -> CPU {
        CPU { status: self.status.with(Flag::Zero, v == 0).with(Flag::Negative, v >= 128), ..self }
    }

    /// The state after loading `v` into the accumulator.
    pub open spec fn spec_set_accumulator(self, v: u8) -> CPU {
        CPU { accumulator: v, ..self }.with_nz(v)
    }

    /// The state after adding `v` and the carry to the accumulator, with no
    /// decimal adjustment whatever the decimal-mode flag holds.
    pub open spec fn spec_add(self, v: u8) -> CPU {
        let c: int = if self.status.carry { 1 } else { 0 };
        let sum = self.accumulator as int + v as int + c;
        let res = (sum % 256) as u8;
        let overflow = (self.accumulator < 128) == (v < 128) && (res < 128) != (v < 128);
        CPU {
            status: self.status.with(Flag::Carry, sum > 255).with(Flag::Overflow, overflow),
            ..self
        }.spec_set_accumulator(res)
    }

    /// The state after comparing register value `r` with `v`.
    pub open spec fn spec_compare(self, r: u8, v: u8) -> CPU {
        CPU { status: self.status.with(Flag::Carry, r >= v), ..self }.with_nz(
            ((r as int - v as int + 256) % 256) as u8,
        )
    }

    /// The state and memory after pushing `v` on the stack.
    pub open spec fn spec_push(self, m: Seq<u8>, v: u8) -> (CPU, Seq<u8>) {
        (
            CPU { stack_pointer: ((self.stack_pointer as int + 255) % 256) as u8, ..self },
            m.update(0x100 + self.stack_pointer as int, v),
        )
    }

    /// The state after pulling a byte from the stack, and that byte.
    pub open spec fn spec_pull(self, m: Seq<u8>) -> (CPU, u8) {
        let sp = ((self.stack_pointer as int + 1) % 256) as u8;
        (CPU { stack_pointer: sp, ..self }, m[0x100 + sp as int])
    }

    /// The state and memory after result `r` is written where operand `o`
    /// points: the accumulator, or a bus address.
    pub open spec fn with_result(self, o: Operand, m: Seq<u8>, r: u8) -> (CPU, Seq<u8>) {
        match o {
            Operand::Accumulator => (CPU { accumulator: r, ..self }, m),
            _ => (self, m.update(target_of(o) as int, r)),
        }
    }

    /// Shift or rotate `op` on the value of operand `o`.
    #[verifier::opaque]
    pub open spec fn spec_shift(self, op: Operation, o: Operand, m: Seq<u8>) -> (CPU, Seq<u8>) {
        let (r, c) = shifted(op, self.spec_operand_value(o, m), self.status.carry);
        let (t, m2) = CPU { status: self.status.with(Flag::Carry, c), ..self }.with_result(o, m, r);
        (t.with_nz(r), m2)
    }

    /// A call: the address of the call's last byte is pushed, high byte
    /// first, and the program counter moves to `target`.
    #[verifier::opaque]
    pub open spec fn spec_jsr(self, m: Seq<u8>, target: u16) -> (CPU, Seq<u8>) {
        let ret = (self.program_counter as int + 0xFFFF) % 0x10000;
        let (s1, m1) = self.spec_push(m, (ret / 256) as u8);
        let (s2, m2) = s1.spec_push(m1, (ret % 256) as u8);
        (CPU { program_counter: target, ..s2 }, m2)
    }

    /// A return: the address is pulled, low byte first, and execution goes
    /// on after it.
    #[verifier::opaque]
    pub open spec fn spec_rts(self, m: Seq<u8>) -> CPU {
        let (s1, lo) = self.spec_pull(m);
        let (s2, hi) = s1.spec_pull(m);
        CPU { program_counter: ((word(lo, hi) as int + 1) % 0x10000) as u16, ..s2 }
    }

    /// A return from interrupt: the flags are pulled, then the address.
    #[verifier::opaque]
    pub open spec fn spec_rti(self, m: Seq<u8>) -> CPU {
        let (s1, p) = self.spec_pull(m);
        let (s2, lo) = s1.spec_pull(m);
        let (s3, hi) = s2.spec_pull(m);
        CPU { status: StatusRegister::unpacked(p), program_counter: word(lo, hi), ..s3 }
    }

    /// A break: the address after the break's padding byte and the flags
    /// with Break set are pushed, interrupts are disabled, and the program
    /// counter is loaded from the interrupt vector.
    #[verifier::opaque]
    pub open spec fn spec_brk(self, m: Seq<u8>) -> (CPU, Seq<u8>) {
        let ret = (self.program_counter as int + 1) % 0x10000;
        let (s1, m1) = self.spec_push(m, (ret / 256) as u8);
        let (s2, m2) = s1.spec_push(m1, (ret % 256) as u8);
        let (s3, m3) = s2.spec_push(m2, self.status.with(Flag::Break, true).packed());
        (
            CPU {
                status: s3.status.with(Flag::InterruptDisable, true),
                program_counter: word(m3[IRQ_VECTOR as int], m3[IRQ_VECTOR + 1]),
                ..s3
            },
            m3,
        )
    }

    /// The unofficial operations that combine two official ones: a
    /// read-modify-write of memory followed by an accumulator operation on
    /// the written byte, or an immediate operation on the accumulator.
    #[verifier::opaque]
    pub open spec fn spec_combined(self, op: Operation, o: Operand, m: Seq<u8>) -> (CPU, Seq<u8>) {
        let v = self.spec_operand_value(o, m);
        let a = target_of(o) as int;
        let acc = self.accumulator;
        let c = self.status.carry;
        match op {
            Operation::Slo | Operation::Rla | Operation::Sre | Operation::Rra => {
                let shift = match op {
                    Operation::Slo => Operation::Asl,
                    Operation::Rla => Operation::Rol,
                    Operation::Sre => Operation::Lsr,
                    _ => Operation::Ror,
                };
                let (r, carry) = shifted(shift, v, c);
                let t = CPU { status: self.status.with(Flag::Carry, carry), ..self };
                let u = match op {
                    Operation::Slo => t.spec_set_accumulator(acc | r),
                    Operation::Rla => t.spec_set_accumulator(acc & r),
                    Operation::Sre => t.spec_set_accumulator(acc ^ r),
                    _ => t.spec_add(r),
                };
                (u, m.update(a, r))
            },
            Operation::Dcp => {
                let r = ((v as int + 255) % 256) as u8;
                (self.spec_compare(acc, r), m.update(a, r))
            },
            Operation::Isc => {
                let r = ((v as int + 1) % 256) as u8;
                (self.spec_add((255 - r) as u8), m.update(a, r))
            },
            Operation::Anc => {
                let t = self.spec_set_accumulator(acc & v);
                (CPU { status: t.status.with(Flag::Carry, acc & v >= 128), ..t }, m)
            },
            Operation::Alr => {
                let (r, carry) = shifted(Operation::Lsr, acc & v, c);
                (CPU { status: self.status.with(Flag::Carry, carry), ..self }.spec_set_accumulator(r), m)
            },
            Operation::Arr => {
                let (r, _) = shifted(Operation::Ror, acc & v, c);
                let bit6 = (r / 64) % 2 == 1;
                let bit5 = (r / 32) % 2 == 1;
                (
                    CPU {
                        status: self.status.with(Flag::Carry, bit6).with(Flag::Overflow, bit6 != bit5),
                        ..self
                    }.spec_set_accumulator(r),
                    m,
                )
            },
            _ => {
                let t = acc & self.register_x;
                let r = ((t as int - v as int + 256) % 256) as u8;
                (CPU { register_x: r, status: self.status.with(Flag::Carry, t >= v), ..self }.with_nz(r), m)
            },
        }
    }

    /// The operand of an instruction in mode `mode` whose opcode is at the
    /// program counter, and whether indexing crossed a page.
    pub open spec fn spec_resolve(self, mode: AddressingMode, m: Seq<u8>) -> (Operand, bool) {
        let pc = self.program_counter as int;
        let b1 = peek(m, pc + 1);
        let b2 = peek(m, pc + 2);
        match mode {
            AddressingMode::Immediate => (Operand::Immediate(b1), false),
            AddressingMode::ZeroPage => (Operand::Address(b1 as u16), false),
            AddressingMode::ZeroPageX => (
                Operand::Address(((b1 as int + self.register_x as int) % 256) as u16),
                false,
            ),
            AddressingMode::ZeroPageY => (
                Operand::Address(((b1 as int + self.register_y as int) % 256) as u16),
                false,
            ),
            AddressingMode::Absolute => (Operand::Address(word(b1, b2)), false),
            AddressingMode::AbsoluteX => indexed(word(b1, b2), self.register_x),
            AddressingMode::AbsoluteY => indexed(word(b1, b2), self.register_y),
            AddressingMode::Indirect => (
                Operand::Address(page_bound_word(m, word(b1, b2))),
                false,
            ),
            AddressingMode::IndirectX => (
                Operand::Address(
                    page_bound_word(m, ((b1 as int + self.register_x as int) % 256) as u16),
                ),
                false,
            ),
            AddressingMode::IndirectY => indexed(page_bound_word(m, b1 as u16), self.register_y),
            AddressingMode::Accumulator => (Operand::Accumulator, false),
            AddressingMode::Relative => branch_target(((pc + 2) % 0x10000) as u16, b1),
            AddressingMode::Implied => (Operand::Nothing, false),
        }
    }

    /// The state and memory after operation `op` on operand `o`; the
    /// program counter has already moved past the instruction.
    #[verifier::opaque]
    pub open spec fn spec_execute(self, op: Operation, o: Operand, m: Seq<u8>) -> (CPU, Seq<u8>) {
        let v = self.spec_operand_value(o, m);
        let a = target_of(o) as int;
        let x = self.register_x;
        let y = self.register_y;
        match op {
            Operation::Adc => (self.spec_add(v), m),
            Operation::And => (self.spec_set_accumulator(self.accumulator & v), m),
            Operation::Cmp => (self.spec_compare(self.accumulator, v), m),
            Operation::Cpx => (self.spec_compare(x, v), m),
            Operation::Cpy => (self.spec_compare(y, v), m),
            Operation::Dec => {
                let r = ((v as int + 255) % 256) as u8;
                (self.with_nz(r), m.update(a, r))
            },
            Operation::Eor => (self.spec_set_accumulator(self.accumulator ^ v), m),
            Operation::Inc => {
                let r = ((v as int + 1) % 256) as u8;
                (self.with_nz(r), m.update(a, r))
            },
            Operation::Lda => (self.spec_set_accumulator(v), m),
            Operation::Ldx => (CPU { register_x: v, ..self }.with_nz(v), m),
            Operation::Ldy => (CPU { register_y: v, ..self }.with_nz(v), m),
            Operation::Ora => (self.spec_set_accumulator(self.accumulator | v), m),
            Operation::Sbc => (self.spec_add((255 - v) as u8), m),
            Operation::Sta => (self, m.update(a, self.accumulator)),
            Operation::Stx => (self, m.update(a, x)),
            Operation::Sty => (self, m.update(a, y)),
            Operation::Tax => (CPU { register_x: self.accumulator, ..self }.with_nz(self.accumulator), m),
            Operation::Tay => (CPU { register_y: self.accumulator, ..self }.with_nz(self.accumulator), m),
            Operation::Txa => (self.spec_set_accumulator(x), m),
            Operation::Tya => (self.spec_set_accumulator(y), m),
            Operation::Tsx => (CPU { register_x: self.stack_pointer, ..self }.with_nz(self.stack_pointer), m),
            Operation::Txs => (CPU { stack_pointer: x, ..self }, m),
            Operation::Inx => {
                let r = ((x as int + 1) % 256) as u8;
                (CPU { register_x: r, ..self }.with_nz(r), m)
            },
            Operation::Iny => {
                let r = ((y as int + 1) % 256) as u8;
                (CPU { register_y: r, ..self }.with_nz(r), m)
            },
            Operation::Dex => {
                let r = ((x as int + 255) % 256) as u8;
                (CPU { register_x: r, ..self }.with_nz(r), m)
            },
            Operation::Dey => {
                let r = ((y as int + 255) % 256) as u8;
                (CPU { register_y: r, ..self }.with_nz(r), m)
            },
            Operation::Clc => (CPU { status: self.status.with(Flag::Carry, false), ..self }, m),
            Operation::Sec => (CPU { status: self.status.with(Flag::Carry, true), ..self }, m),
            Operation::Cli => (CPU { status: self.status.with(Flag::InterruptDisable, false), ..self }, m),
            Operation::Sei => (CPU { status: self.status.with(Flag::InterruptDisable, true), ..self }, m),
            Operation::Cld => (CPU { status: self.status.with(Flag::DecimalMode, false), ..self }, m),
            Operation::Sed => (CPU { status: self.status.with(Flag::DecimalMode, true), ..self }, m),
            Operation::Clv => (CPU { status: self.status.with(Flag::Overflow, false), ..self }, m),
            Operation::Pha => self.spec_push(m, self.accumulator),
            Operation::Php => self.spec_push(m, self.status.packed()),
            Operation::Pla => {
                let (s, b) = self.spec_pull(m);
                (s.spec_set_accumulator(b), m)
            },
            Operation::Plp => {
                let (s, b) = self.spec_pull(m);
                (CPU { status: StatusRegister::unpacked(b), ..s }, m)
            },
            Operation::Jmp => (CPU { program_counter: target_of(o), ..self }, m),
            Operation::Nop => (self, m),
            Operation::Asl | Operation::Lsr | Operation::Rol | Operation::Ror => self.spec_shift(op, o, m),
            Operation::Bit => (
                CPU {
                    status: self.status.with(Flag::Zero, self.accumulator & v == 0).with(
                        Flag::Overflow,
                        v & 0x40 != 0,
                    ).with(Flag::Negative, v >= 128),
                    ..self
                },
                m,
            ),
            Operation::Bcc | Operation::Bcs | Operation::Beq | Operation::Bmi | Operation::Bne
            | Operation::Bpl | Operation::Bvc | Operation::Bvs => if branch_taken(op, self.status) {
                (CPU { program_counter: target_of(o), ..self }, m)
            } else {
                (self, m)
            },
            Operation::Jsr => self.spec_jsr(m, target_of(o)),
            Operation::Rts => (self.spec_rts(m), m),
            Operation::Rti => (self.spec_rti(m), m),
            Operation::Brk => self.spec_brk(m),
            Operation::Lax => (CPU { accumulator: v, register_x: v, ..self }.with_nz(v), m),
            Operation::Sax => (self, m.update(a, self.accumulator & x)),
            Operation::Slo | Operation::Rla | Operation::Sre | Operation::Rra | Operation::Dcp
            | Operation::Isc | Operation::Anc | Operation::Alr | Operation::Arr | Operation::Axs => self.spec_combined(op, o, m),
        }
    }

    /// One fetch, decode, resolve, execute and retire on memory `m`: the
    /// new state, the new memory, and the cycles spent or the reason
    /// nothing was executed.
    #[verifier::opaque]
    pub open spec fn spec_step(self, m: Seq<u8>) -> (CPU, Seq<u8>, Result<u32, CpuError>) {
        if self.halted {
            (self, m, Err(CpuError::Halted))
        } else {
            let opcode = m[self.program_counter as int];
            let ins = Instruction::spec_from_code(opcode);
            if ins.halts {
                (CPU { halted: true, ..self }, m, Err(CpuError::IllegalOpcodeHalt { opcode }))
            } else {
                match operation_of(opcode) {
                    None => (self, m, Err(CpuError::Unimplemented { opcode })),
                    Some(op) => {
                        let (o, crossed) = self.spec_resolve(ins.addressing_mode, m);
                        let pc = (self.program_counter as int + ins.len as int) % 0x10000;
                        let (s, m2) = CPU { program_counter: pc as u16, ..self }.spec_execute(op, o, m);
                        let extra = extra_cycles(op, self.status, crossed);
                        (s, m2, Ok((ins.cycle as int + extra) as u32))
                    },
                }
            }
        }
    }

    /// The value an operand stands for.
    pub open spec fn spec_operand_value(self, o: Operand, m: Seq<u8>) -> u8 {
        match o {
            Operand::Immediate(v) => v,
            Operand::Address(a) => m[a as int],
            Operand::Accumulator => self.accumulator,
            Operand::Nothing => 0,
        }
    }
}

impl CPU {
    /// A processor in its power-on state.
    pub fn new() -> (r: CPU)
        ensures
            r == CPU::initial(),
    {
        CPU {
            program_counter: 0,
            stack_pointer: 0,
            accumulator: 0,
            register_x: 0,
            register_y: 0,
            status: StatusRegister::empty(),
            halted: false,
        }
    }

    /// Puts every register back in its power-on state and loads the program
    /// counter from the reset vector.
    pub fn reset(&mut self, bus: &Memory)
        requires
            bus.wf(),
        ensures
            *final(self) == (CPU {
                program_counter: word(bus@[RESET_VECTOR as int], bus@[RESET_VECTOR + 1]),
                ..CPU::initial()
            }),
    {
        *self = CPU::new();
        self.program_counter = bus.read_u16(RESET_VECTOR);
    }

    /// Whether a halting opcode has stopped the processor.
    pub fn is_halted(&self) -> (r: bool)
        ensures
            r == self.halted,
    {
        self.halted
    }

    /// Moves the program counter forward, wrapping past the top of memory.
    pub fn increment_program_counter(&mut self, value: u16)
        ensures
            *final(self) == (CPU {
                program_counter: ((old(self).program_counter as int + value as int) % 0x10000) as u16,
                ..*old(self)
            }),
    {
        self.program_counter = ((self.program_counter as u32 + value as u32) % 0x10000) as u16;
    }

    pub fn set_carry_flag(&mut self, value: bool)
        ensures
            *final(self) == (CPU { status: old(self).status.with(Flag::Carry, value), ..*old(self) }),
    {
        self.status.set(Flag::Carry, value);
    }

    /// Sets the Zero flag exactly when `value` is zero.
    pub fn update_zero_flag(&mut self, value: u8)
        ensures
            *final(self) == (CPU { status: old(self).status.with(Flag::Zero, value == 0), ..*old(self) }),
    {
        self.status.set(Flag::Zero, value == 0);
    }

    pub fn set_interrupt_disable_flag(&mut self, value: bool)
        ensures
            *final(self) == (CPU {
                status: old(self).status.with(Flag::InterruptDisable, value),
                ..*old(self)
            }),
    {
        self.status.set(Flag::InterruptDisable, value);
    }

    pub fn set_decimal_mode_flag(&mut self, value: bool)
        ensures
            *final(self) == (CPU {
                status: old(self).status.with(Flag::DecimalMode, value),
                ..*old(self)
            }),
    {
        self.status.set(Flag::DecimalMode, value);
    }

    pub fn set_break_command_flag(&mut self, value: bool)
        ensures
            *final(self) == (CPU { status: old(self).status.with(Flag::Break, value), ..*old(self) }),
    {
        self.status.set(Flag::Break, value);
    }

    pub fn set_overflow_flag(&mut self, value: bool)
        ensures
            *final(self) == (CPU { status: old(self).status.with(Flag::Overflow, value), ..*old(self) }),
    {
        self.status.set(Flag::Overflow, value);
    }

    /// Sets the Negative flag exactly when bit 7 of `value` is one.
    pub fn update_negative_flag(&mut self, value: u8)
        ensures
            *final(self) == (CPU {
                status: old(self).status.with(Flag::Negative, value >= 128),
                ..*old(self)
            }),
    {
        self.status.set(Flag::Negative, value >= 0x80);
    }

    /// Sets the Zero and Negative flags from a result byte.
    fn update_zero_and_negative_flags(&mut self, value: u8)
        ensures
            *final(self) == old(self).with_nz(value),
    {
        self.update_zero_flag(value);
        self.update_negative_flag(value);
    }

    /// Loads the accumulator and sets Zero and Negative from it.
    pub fn set_accumulator(&mut self, value: u8)
        ensures
            *final(self) == old(self).spec_set_accumulator(value),
    {
        self.accumulator = value;
        self.update_zero_and_negative_flags(value);
    }

    /// Adds `value` and the carry to the accumulator, setting Carry on an
    /// unsigned overflow and Overflow on a signed one.
    pub fn add_to_accumulator(&mut self, value: u8)
        ensures
            *final(self) == old(self).spec_add(value),
    {
        let carry: u16 = if self.status.contains(Flag::Carry) { 1 } else { 0 };
        let sum: u16 = self.accumulator as u16 + value as u16 + carry;
        let result = (sum % 256) as u8;
        self.set_carry_flag(sum > 255);
        self.set_overflow_flag(
            (self.accumulator < 128) == (value < 128) && (result < 128) != (value < 128),
        );
        self.set_accumulator(result);
    }

    /// Add with carry.
    pub fn adc(&mut self, value: u8)
        ensures
            *final(self) == old(self).spec_add(value),
    {
        self.add_to_accumulator(value);
    }

    /// Load accumulator.
    pub fn lda(&mut self, value: u8)
        ensures
            *final(self) == old(self).spec_set_accumulator(value),
    {
        self.set_accumulator(value);
    }

    /// Transfer accumulator to X.
    pub fn tax(&mut self)
        ensures
            *final(self) == (CPU { register_x: old(self).accumulator, ..*old(self) }).with_nz(
                old(self).accumulator,
            ),
    {
        self.register_x = self.accumulator;
        self.update_zero_and_negative_flags(self.register_x);
    }

    /// Compares register value `register` with `value`.
    fn compare(&mut self, register: u8, value: u8)
        ensures
            *final(self) == old(self).spec_compare(register, value),
    {
        self.set_carry_flag(register >= value);
        self.update_zero_and_negative_flags(((register as u16 + 256 - value as u16) % 256) as u8);
    }

    /// Pushes a byte on the stack.
    fn push(&mut self, bus: &mut Memory, value: u8)
        requires
            old(bus).wf(),
        ensures
            final(bus).wf(),
            (*final(self), final(bus)@) == old(self).spec_push(old(bus)@, value),
    {
        bus.write(0x100 + self.stack_pointer as u16, value);
        self.stack_pointer = ((self.stack_pointer as u16 + 255) % 256) as u8;
    }

    /// Pulls a byte from the stack.
    fn pull(&mut self, bus: &Memory) -> (r: u8)
        requires
            bus.wf(),
        ensures
            (*final(self), r) == old(self).spec_pull(bus@),
    {
        self.stack_pointer = ((self.stack_pointer as u16 + 1) % 256) as u8;
        bus.read(0x100 + self.stack_pointer as u16)
    }

    /// The value an operand stands for.
    fn operand_value(&self, operand: Operand, bus: &Memory) -> (r: u8)
        requires
            bus.wf(),
        ensures
            r == self.spec_operand_value(operand, bus@),
    {
        match operand {
            Operand::Immediate(v) => v,
            Operand::Address(a) => bus.read(a),
            Operand::Accumulator => self.accumulator,
            Operand::Nothing => 0,
        }
    }

    /// Performs `op` on `operand`; the program counter has already moved
    /// past the instruction.
    fn execute(&mut self, op: Operation, operand: Operand, bus: &mut Memory)
        requires
            old(bus).wf(),
        ensures
            final(bus).wf(),
            (*final(self), final(bus)@) == old(self).spec_execute(op, operand, old(bus)@),
    {
        proof {
            reveal(CPU::spec_execute);
        }
        let v = self.operand_value(operand, bus);
        let a = match operand {
            Operand::Address(a) => a,
            _ => 0,
        };
        match op {
            Operation::Adc => self.adc(v),
            Operation::And => self.set_accumulator(self.accumulator & v),
            Operation::Cmp => self.compare(self.accumulator, v),
            Operation::Cpx => self.compare(self.register_x, v),
            Operation::Cpy => self.compare(self.register_y, v),
            Operation::Dec => {
                let r = ((v as u16 + 255) % 256) as u8;
                bus.write(a, r);
                self.update_zero_and_negative_flags(r);
            },
            Operation::Eor => self.set_accumulator(self.accumulator ^ v),
            Operation::Inc => {
                let r = ((v as u16 + 1) % 256) as u8;
                bus.write(a, r);
                self.update_zero_and_negative_flags(r);
            },
            Operation::Lda => self.lda(v),
            Operation::Ldx => {
                self.register_x = v;
                self.update_zero_and_negative_flags(v);
            },
            Operation::Ldy => {
                self.register_y = v;
                self.update_zero_and_negative_flags(v);
            },
            Operation::Ora => self.set_accumulator(self.accumulator | v),
            Operation::Sbc => self.add_to_accumulator(255 - v),
            Operation::Sta => bus.write(a, self.accumulator),
            Operation::Stx => bus.write(a, self.register_x),
            Operation::Sty => bus.write(a, self.register_y),
            Operation::Tax => self.tax(),
            Operation::Tay => {
                self.register_y = self.accumulator;
                self.update_zero_and_negative_flags(self.register_y);
            },
            Operation::Txa => self.set_accumulator(self.register_x),
            Operation::Tya => self.set_accumulator(self.register_y),
            Operation::Tsx => {
                self.register_x = self.stack_pointer;
                self.update_zero_and_negative_flags(self.register_x);
            },
            Operation::Txs => self.stack_pointer = self.register_x,
            Operation::Inx => {
                self.register_x = ((self.register_x as u16 + 1) % 256) as u8;
                self.update_zero_and_negative_flags(self.register_x);
            },
            Operation::Iny => {
                self.register_y = ((self.register_y as u16 + 1) % 256) as u8;
                self.update_zero_and_negative_flags(self.register_y);
            },
            Operation::Dex => {
                self.register_x = ((self.register_x as u16 + 255) % 256) as u8;
                self.update_zero_and_negative_flags(self.register_x);
            },
            Operation::Dey => {
                self.register_y = ((self.register_y as u16 + 255) % 256) as u8;
                self.update_zero_and_negative_flags(self.register_y);
            },
            Operation::Clc => self.set_carry_flag(false),
            Operation::Sec => self.set_carry_flag(true),
            Operation::Cli => self.set_interrupt_disable_flag(false),
            Operation::Sei => self.set_interrupt_disable_flag(true),
            Operation::Cld => self.set_decimal_mode_flag(false),
            Operation::Sed => self.set_decimal_mode_flag(true),
            Operation::Clv => self.set_overflow_flag(false),
            Operation::Pha => self.push(bus, self.accumulator),
            Operation::Php => {
                let b = self.status.as_byte();
                self.push(bus, b);
            },
            Operation::Pla => {
                let b = self.pull(bus);
                self.set_accumulator(b);
            },
            Operation::Plp => {
                let b = self.pull(bus);
                self.status = StatusRegister::from_byte(b);
            },
            Operation::Jmp => self.program_counter = a,
            Operation::Nop => {},
            Operation::Asl | Operation::Lsr | Operation::Rol | Operation::Ror => {
                self.shift(op, operand, bus);
            },
            Operation::Bit => {
                let acc = self.accumulator;
                self.update_zero_flag(acc & v);
                self.set_overflow_flag(v & 0x40 != 0);
                self.update_negative_flag(v);
            },
            Operation::Bcc | Operation::Bcs | Operation::Beq | Operation::Bmi | Operation::Bne
            | Operation::Bpl | Operation::Bvc | Operation::Bvs => {
                if self.branch_condition(op) {
                    self.program_counter = a;
                }
            },
            Operation::Jsr => self.jump_to_subroutine(bus, a),
            Operation::Rts => self.return_from_subroutine(bus),
            Operation::Rti => self.return_from_interrupt(bus),
            Operation::Brk => self.force_break(bus),
            Operation::Lax => {
                self.accumulator = v;
                self.register_x = v;
                self.update_zero_and_negative_flags(v);
            },
            Operation::Sax => bus.write(a, self.accumulator & self.register_x),
            Operation::Slo | Operation::Rla | Operation::Sre | Operation::Rra | Operation::Dcp
            | Operation::Isc | Operation::Anc | Operation::Alr | Operation::Arr | Operation::Axs => {
                self.combined(op, operand, bus);
            },
        }
    }

    /// An unofficial operation that combines two official ones.
    fn combined(&mut self, op: Operation, operand: Operand, bus: &mut Memory)
        requires
            old(bus).wf(),
        ensures
            final(bus).wf(),
            (*final(self), final(bus)@) == old(self).spec_combined(op, operand, old(bus)@),
    {
        proof {
            reveal(CPU::spec_combined);
        }
        let v = self.operand_value(operand, bus);
        let a = match operand {
            Operand::Address(a) => a,
            _ => 0,
        };
        let acc = self.accumulator;
        let c = self.status.contains(Flag::Carry);
        match op {
            Operation::Slo | Operation::Rla | Operation::Sre | Operation::Rra => {
                let shift = match op {
                    Operation::Slo => Operation::Asl,
                    Operation::Rla => Operation::Rol,
                    Operation::Sre => Operation::Lsr,
                    _ => Operation::Ror,
                };
                let (r, carry) = shift_value(shift, v, c);
                bus.write(a, r);
                self.set_carry_flag(carry);
                match op {
                    Operation::Slo => self.set_accumulator(acc | r),
                    Operation::Rla => self.set_accumulator(acc & r),
                    Operation::Sre => self.set_accumulator(acc ^ r),
                    _ => self.add_to_accumulator(r),
                }
            },
            Operation::Dcp => {
                let r = ((v as u16 + 255) % 256) as u8;
                bus.write(a, r);
                self.compare(acc, r);
            },
            Operation::Isc => {
                let r = ((v as u16 + 1) % 256) as u8;
                bus.write(a, r);
                self.add_to_accumulator(255 - r);
            },
            Operation::Anc => {
                self.set_accumulator(acc & v);
                self.set_carry_flag(acc & v >= 128);
            },
            Operation::Alr => {
                let (r, carry) = shift_value(Operation::Lsr, acc & v, c);
                self.set_carry_flag(carry);
                self.set_accumulator(r);
            },
            Operation::Arr => {
                let (r, _) = shift_value(Operation::Ror, acc & v, c);
                let bit6 = (r / 64) % 2 == 1;
                let bit5 = (r / 32) % 2 == 1;
                self.set_carry_flag(bit6);
                self.set_overflow_flag(bit6 != bit5);
                self.set_accumulator(r);
            },
            _ => {
                let t = acc & self.register_x;
                let r = ((t as u16 + 256 - v as u16) % 256) as u8;
                self.register_x = r;
                self.set_carry_flag(t >= v);
                self.update_zero_and_negative_flags(r);
            },
        }
    }

    /// Whether branch `op` is taken with the current flags.
    fn branch_condition(&self, op: Operation) -> (r: bool)
        ensures
            r == branch_taken(op, self.status),
    {
        match op {
            Operation::Bcc => !self.status.contains(Flag::Carry),
            Operation::Bcs => self.status.contains(Flag::Carry),
            Operation::Beq => self.status.contains(Flag::Zero),
            Operation::Bmi => self.status.contains(Flag::Negative),
            Operation::Bne => !self.status.contains(Flag::Zero),
            Operation::Bpl => !self.status.contains(Flag::Negative),
            Operation::Bvc => !self.status.contains(Flag::Overflow),
            Operation::Bvs => self.status.contains(Flag::Overflow),
            _ => false,
        }
    }

    /// Cycles that `op` adds to its base cost with the current flags.
    fn extra_cycles(&self, op: Operation, crossed: bool) -> (r: u32)
        ensures
            r == extra_cycles(op, self.status, crossed),
    {
        match op {
            Operation::Bcc | Operation::Bcs | Operation::Beq | Operation::Bmi | Operation::Bne
            | Operation::Bpl | Operation::Bvc | Operation::Bvs => {
                if !self.branch_condition(op) {
                    0
                } else if crossed {
                    2
                } else {
                    1
                }
            },
            _ => if crossed && pays_penalty(op) {
                1
            } else {
                0
            },
        }
    }

    /// Writes a result where the operand points.
    fn write_result(&mut self, operand: Operand, bus: &mut Memory, r: u8)
        requires
            old(bus).wf(),
        ensures
            final(bus).wf(),
            (*final(self), final(bus)@) == old(self).with_result(operand, old(bus)@, r),
    {
        match operand {
            Operand::Accumulator => self.accumulator = r,
            Operand::Address(a) => bus.write(a, r),
            _ => bus.write(0, r),
        }
    }

    /// Shift or rotate of the operand.
    fn shift(&mut self, op: Operation, operand: Operand, bus: &mut Memory)
        requires
            old(bus).wf(),
        ensures
            final(bus).wf(),
            (*final(self), final(bus)@) == old(self).spec_shift(op, operand, old(bus)@),
    {
        proof {
            reveal(CPU::spec_shift);
        }
        let v = self.operand_value(operand, bus);
        let (r, c) = shift_value(op, v, self.status.contains(Flag::Carry));
        self.set_carry_flag(c);
        self.write_result(operand, bus, r);
        self.update_zero_and_negative_flags(r);
    }

    /// Calls the subroutine at `target`.
    fn jump_to_subroutine(&mut self, bus: &mut Memory, target: u16)
        requires
            old(bus).wf(),
        ensures
            final(bus).wf(),
            (*final(self), final(bus)@) == old(self).spec_jsr(old(bus)@, target),
    {
        proof {
            reveal(CPU::spec_jsr);
        }
        let ret = ((self.program_counter as u32 + 0xFFFF) % 0x10000) as u16;
        self.push(bus, (ret / 256) as u8);
        self.push(bus, (ret % 256) as u8);
        self.program_counter = target;
    }

    /// Returns from a subroutine.
    fn return_from_subroutine(&mut self, bus: &Memory)
        requires
            bus.wf(),
        ensures
            *final(self) == old(self).spec_rts(bus@),
    {
        proof {
            reveal(CPU::spec_rts);
        }
        let lo = self.pull(bus);
        let hi = self.pull(bus);
        self.program_counter = ((lo as u32 + hi as u32 * 256 + 1) % 0x10000) as u16;
    }

    /// Returns from an interrupt.
    fn return_from_interrupt(&mut self, bus: &Memory)
        requires
            bus.wf(),
        ensures
            *final(self) == old(self).spec_rti(bus@),
    {
        proof {
            reveal(CPU::spec_rti);
        }
        let p = self.pull(bus);
        let lo = self.pull(bus);
        let hi = self.pull(bus);
        self.status = StatusRegister::from_byte(p);
        self.program_counter = lo as u16 + hi as u16 * 256;
    }

    /// Software interrupt.
    fn force_break(&mut self, bus: &mut Memory)
        requires
            old(bus).wf(),
        ensures
            final(bus).wf(),
            (*final(self), final(bus)@) == old(self).spec_brk(old(bus)@),
    {
        proof {
            reveal(CPU::spec_brk);
        }
        let ret = ((self.program_counter as u32 + 1) % 0x10000) as u16;
        self.push(bus, (ret / 256) as u8);
        self.push(bus, (ret % 256) as u8);
        let mut pushed = self.status;
        pushed.set(Flag::Break, true);
        self.push(bus, pushed.as_byte());
        self.set_interrupt_disable_flag(true);
        self.program_counter = bus.read_u16(IRQ_VECTOR);
    }

    /// Executes the instruction at the program counter and returns the
    /// cycles it took: its base cost, plus one where an indexed read
    /// crossed a page.
    pub fn step(&mut self, bus: &mut Memory) -> (r: Result<u32, CpuError>)
        requires
            old(bus).wf(),
        ensures
            final(bus).wf(),
            (*final(self), final(bus)@, r) == old(self).spec_step(old(bus)@),
    {
        proof {
            reveal(CPU::spec_step);
        }
        if self.halted {
            return Err(CpuError::Halted);
        }
        let opcode = bus.read(self.program_counter);
        let instruction = Instruction::from_code(opcode);
        if instruction.halts {
            self.halted = true;
            return Err(CpuError::IllegalOpcodeHalt { opcode });
        }
        let op = match decode(opcode) {
            Some(op) => op,
            None => {
                return Err(CpuError::Unimplemented { opcode });
            },
        };
        let (operand, crossed) = self.resolve(instruction.addressing_mode, bus);
        let extra = self.extra_cycles(op, crossed);
        self.increment_program_counter(instruction.len as u16);
        self.execute(op, operand, bus);
        Ok(instruction.cycle as u32 + extra)
    }

    /// Runs a raw instruction stream placed at address 0 of an otherwise
    /// empty memory, starting at the program counter, until the program
    /// counter leaves the stream.
    pub fn execute_commands(&mut self, commands: Vec<u8>) -> (r: Result<(), CpuError>)
        requires
            commands.len() <= MEMORY_SIZE,
        ensures
            (*final(self), r) == run_stream(*old(self), loaded(commands@), commands.len() as int),
    {
        let ghost start = *self;
        let len = commands.len();
        let mut bus = Memory::from_program(&commands);
        loop
            invariant
                bus.wf(),
                len == commands.len(),
                start == *old(self),
                run_stream(*self, bus@, len as int) == run_stream(start, loaded(commands@), len as int),
            decreases 0x10000 - self.program_counter,
        {
            if self.program_counter as usize >= len {
                return Ok(());
            }
            let before = self.program_counter;
            match self.step(&mut bus) {
                Err(e) => {
                    return Err(e);
                },
                Ok(_) => {},
            }
            if self.program_counter <= before {
                return Err(CpuError::NoForwardProgress { address: before });
            }
        }
    }

    /// Finds the operand of an instruction in mode `mode` whose opcode is at
    /// the program counter, and whether indexing crossed a page.
    pub fn resolve(&self, mode: AddressingMode, bus: &Memory) -> (r: (Operand, bool))
        requires
            bus.wf(),
        ensures
            r == self.spec_resolve(mode, bus@),
    {
        let pc = self.program_counter;
        let first = ((pc as u32 + 1) % 0x10000) as u16;
        let second = ((pc as u32 + 2) % 0x10000) as u16;
        match mode {
            AddressingMode::Immediate => (Operand::Immediate(bus.read(first)), false),
            AddressingMode::ZeroPage => (Operand::Address(bus.read(first) as u16), false),
            AddressingMode::ZeroPageX => (
                Operand::Address((bus.read(first) as u16 + self.register_x as u16) % 256),
                false,
            ),
            AddressingMode::ZeroPageY => (
                Operand::Address((bus.read(first) as u16 + self.register_y as u16) % 256),
                false,
            ),
            AddressingMode::Absolute => (Operand::Address(bus.read_u16(first)), false),
            AddressingMode::AbsoluteX => indexed_address(bus.read_u16(first), self.register_x),
            AddressingMode::AbsoluteY => indexed_address(bus.read_u16(first), self.register_y),
            AddressingMode::Indirect => (
                Operand::Address(read_page_bound_word(bus, bus.read_u16(first))),
                false,
            ),
            AddressingMode::IndirectX => {
                let pointer = (bus.read(first) as u16 + self.register_x as u16) % 256;
                (Operand::Address(read_page_bound_word(bus, pointer)), false)
            },
            AddressingMode::IndirectY => {
                let base = read_page_bound_word(bus, bus.read(first) as u16);
                indexed_address(base, self.register_y)
            },
            AddressingMode::Accumulator => (Operand::Accumulator, false),
            AddressingMode::Relative => relative_address(second, bus.read(first)),
            AddressingMode::Implied => (Operand::Nothing, false),
        }
    }
}

/// Decodes an opcode into the operation it performs, if it is modelled.
pub fn decode(code: u8) -> (r: Option<Operation>)
    ensures
        r == operation_of(code),
{
    match code {
        0x69 | 0x65 | 0x75 | 0x6D | 0x7D | 0x79 | 0x61 | 0x71 => Some(Operation::Adc),
        0x29 | 0x25 | 0x35 | 0x2D | 0x3D | 0x39 | 0x21 | 0x31 => Some(Operation::And),
        0xC9 | 0xC5 | 0xD5 | 0xCD | 0xDD | 0xD9 | 0xC1 | 0xD1 => Some(Operation::Cmp),
        0xE0 | 0xE4 | 0xEC => Some(Operation::Cpx),
        0xC0 | 0xC4 | 0xCC => Some(Operation::Cpy),
        0xC6 | 0xD6 | 0xCE | 0xDE => Some(Operation::Dec),
        0x49 | 0x45 | 0x55 | 0x4D | 0x5D | 0x59 | 0x41 | 0x51 => Some(Operation::Eor),
        0xE6 | 0xF6 | 0xEE | 0xFE => Some(Operation::Inc),
        0xA9 | 0xA5 | 0xB5 | 0xAD | 0xBD | 0xB9 | 0xA1 | 0xB1 => Some(Operation::Lda),
        0xA2 | 0xA6 | 0xB6 | 0xAE | 0xBE => Some(Operation::Ldx),
        0xA0 | 0xA4 | 0xB4 | 0xAC | 0xBC => Some(Operation::Ldy),
        0x09 | 0x05 | 0x15 | 0x0D | 0x1D | 0x19 | 0x01 | 0x11 => Some(Operation::Ora),
        0xE9 | 0xE5 | 0xF5 | 0xED | 0xFD | 0xF9 | 0xE1 | 0xF1 | 0xEB => Some(Operation::Sbc),
        0x85 | 0x95 | 0x8D | 0x9D | 0x99 | 0x81 | 0x91 => Some(Operation::Sta),
        0x86 | 0x96 | 0x8E => Some(Operation::Stx),
        0x84 | 0x94 | 0x8C => Some(Operation::Sty),
        0xAA => Some(Operation::Tax),
        0xA8 => Some(Operation::Tay),
        0x8A => Some(Operation::Txa),
        0x98 => Some(Operation::Tya),
        0xBA => Some(Operation::Tsx),
        0x9A => Some(Operation::Txs),
        0xE8 => Some(Operation::Inx),
        0xC8 => Some(Operation::Iny),
        0xCA => Some(Operation::Dex),
        0x88 => Some(Operation::Dey),
        0x18 => Some(Operation::Clc),
        0x38 => Some(Operation::Sec),
        0x58 => Some(Operation::Cli),
        0x78 => Some(Operation::Sei),
        0xD8 => Some(Operation::Cld),
        0xF8 => Some(Operation::Sed),
        0xB8 => Some(Operation::Clv),
        0x48 => Some(Operation::Pha),
        0x08 => Some(Operation::Php),
        0x68 => Some(Operation::Pla),
        0x28 => Some(Operation::Plp),
        0x4C | 0x6C => Some(Operation::Jmp),
        0xEA | 0x1A | 0x3A | 0x5A | 0x7A | 0xDA | 0xFA | 0x80 | 0x82 | 0x89 | 0xC2 | 0xE2 | 0x04
        | 0x44 | 0x64 | 0x14 | 0x34 | 0x54 | 0x74 | 0xD4 | 0xF4 | 0x0C | 0x1C | 0x3C | 0x5C
        | 0x7C | 0xDC | 0xFC => Some(Operation::Nop),
        0x0A | 0x06 | 0x16 | 0x0E | 0x1E => Some(Operation::Asl),
        0x4A | 0x46 | 0x56 | 0x4E | 0x5E => Some(Operation::Lsr),
        0x2A | 0x26 | 0x36 | 0x2E | 0x3E => Some(Operation::Rol),
        0x6A | 0x66 | 0x76 | 0x6E | 0x7E => Some(Operation::Ror),
        0x24 | 0x2C => Some(Operation::Bit),
        0x90 => Some(Operation::Bcc),
        0xB0 => Some(Operation::Bcs),
        0xF0 => Some(Operation::Beq),
        0x30 => Some(Operation::Bmi),
        0xD0 => Some(Operation::Bne),
        0x10 => Some(Operation::Bpl),
        0x50 => Some(Operation::Bvc),
        0x70 => Some(Operation::Bvs),
        0x20 => Some(Operation::Jsr),
        0x60 => Some(Operation::Rts),
        0x40 => Some(Operation::Rti),
        0x00 => Some(Operation::Brk),
        0xA7 | 0xB7 | 0xAF | 0xBF | 0xA3 | 0xB3 => Some(Operation::Lax),
        0x87 | 0x97 | 0x8F | 0x83 => Some(Operation::Sax),
        0x07 | 0x17 | 0x0F | 0x1F | 0x1B | 0x03 | 0x13 => Some(Operation::Slo),
        0x27 | 0x37 | 0x2F | 0x3F | 0x3B | 0x23 | 0x33 => Some(Operation::Rla),
        0x47 | 0x57 | 0x4F | 0x5F | 0x5B | 0x43 | 0x53 => Some(Operation::Sre),
        0x67 | 0x77 | 0x6F | 0x7F | 0x7B | 0x63 | 0x73 => Some(Operation::Rra),
        0xC7 | 0xD7 | 0xCF | 0xDF | 0xDB | 0xC3 | 0xD3 => Some(Operation::Dcp),
        0xE7 | 0xF7 | 0xEF | 0xFF | 0xFB | 0xE3 | 0xF3 => Some(Operation::Isc),
        0x0B | 0x2B => Some(Operation::Anc),
        0x4B => Some(Operation::Alr),
        0x6B => Some(Operation::Arr),
        0xCB => Some(Operation::Axs),
        _ => None,
    }
}

/// The result and the new carry of a shift or rotate.
fn shift_value(op: Operation, v: u8, carry: bool) -> (r: (u8, bool))
    ensures
        r == shifted(op, v, carry),
{
    match op {
        Operation::Asl => (((v as u16 * 2) % 256) as u8, v >= 128),
        Operation::Lsr => (v / 2, v % 2 == 1),
        Operation::Rol => (((v as u16 * 2 + if carry { 1 } else { 0 }) % 256) as u8, v >= 128),
        _ => (v / 2 + if carry { 128 } else { 0 }, v % 2 == 1),
    }
}

fn pays_penalty(op: Operation) -> (r: bool)
    ensures
        r == pays_page_penalty(op),
{
    match op {
        Operation::Adc | Operation::And | Operation::Cmp | Operation::Eor | Operation::Lda
        | Operation::Ldx | Operation::Ldy | Operation::Ora | Operation::Sbc | Operation::Lax
        | Operation::Nop => true,
        _ => false,
    }
}

/// What running the raw instruction stream of length `len` from state `s`
/// leaves: instructions are stepped while the program counter lies inside
/// the stream, and the run stops at the first error or at an instruction
/// that does not move the program counter forward.
pub open spec fn run_stream(s: CPU, m: Seq<u8>, len: int) -> (CPU, Result<(), CpuError>)
    decreases 0x10000 - s.program_counter,
{
    if s.program_counter >= len {
        (s, Ok(()))
    } else {
        let step = s.spec_step(m);
        let next = step.0;
        match step.2 {
            Err(e) => (next, Err(e)),
            Ok(_) => if s.program_counter < next.program_counter {
                run_stream(next, step.1, len)
            } else {
                (next, Err(CpuError::NoForwardProgress { address: s.program_counter }))
            },
        }
    }
}

/// The bus address an operand names; zero for one that names none.
pub open spec fn target_of(o: Operand) -> u16 {
    match o {
        Operand::Address(a) => a,
        _ => 0,
    }
}

/// `base + offset` in the 16-bit address space, and whether it crossed a page.
fn indexed_address(base: u16, offset: u8) -> (r: (Operand, bool))
    ensures
        r == indexed(base, offset),
{
    let a = ((base as u32 + offset as u32) % 0x10000) as u16;
    (Operand::Address(a), a / 256 != base / 256)
}

/// The target of a branch and whether it crossed a page.
fn relative_address(next: u16, b: u8) -> (r: (Operand, bool))
    ensures
        r == branch_target(next, b),
{
    let n = next as u32;
    let d = b as u32;
    let target = if d < 128 {
        (n + d) % 0x10000
    } else {
        (n + 0x10000 + d - 256) % 0x10000
    };
    (Operand::Address(target as u16), target / 256 != n / 256)
}

/// Reads the word at `address`, taking its high byte from the same page.
fn read_page_bound_word(bus: &Memory, address: u16) -> (r: u16)
    requires
        bus.wf(),
    ensures
        r == page_bound_word(bus@, address),
{
    let lo = bus.read(address);
    let hi = bus.read(address / 256 * 256 + (address % 256 + 1) % 256);
    lo as u16 + hi as u16 * 256
}

} // verus!
