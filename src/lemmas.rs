//! Facts about the opcode table, addressing and the stack that hold for
//! every input.
use vstd::prelude::*;
use crate::cpu::{target_of, CpuError, Operand, Operation, CPU};
use crate::instruction::{AddressingMode, Instruction};
use crate::memory::{peek, word};
use crate::status::{flag_mask, lemma_packed_bits, Flag, StatusRegister, CONSTANT_BIT};

verus! {

/// Every opcode has a descriptor of its own code, one to three bytes long,
/// whose length is the one its addressing mode implies, and which costs two
/// to eight base cycles.
pub proof fn lemma_opcode_table_total(code: u8)
    ensures
        Instruction::spec_from_code(code).opcode == code,
        Instruction::spec_from_code(code).len == Instruction::spec_from_code(code).addressing_mode.spec_len(),
        1 <= Instruction::spec_from_code(code).len <= 3,
        2 <= Instruction::spec_from_code(code).cycle <= 8,
{
}

/// Zero-page indexing wraps within page zero: the address is the operand
/// byte plus the index register, modulo 256.
pub proof fn lemma_zero_page_indexing_wraps(s: CPU, m: Seq<u8>)
    ensures
        s.spec_resolve(AddressingMode::ZeroPageX, m).0 == Operand::Address(
            ((peek(m, s.program_counter + 1) as int + s.register_x as int) % 256) as u16,
        ),
        s.spec_resolve(AddressingMode::ZeroPageY, m).0 == Operand::Address(
            ((peek(m, s.program_counter + 1) as int + s.register_y as int) % 256) as u16,
        ),
        target_of(s.spec_resolve(AddressingMode::ZeroPageX, m).0) < 0x100,
        target_of(s.spec_resolve(AddressingMode::ZeroPageY, m).0) < 0x100,
{
}

/// An indirect jump through a pointer whose low byte is 0xFF reads the
/// target's high byte from the start of the pointer's own page, not from
/// the next page.
pub proof fn lemma_indirect_jump_stays_on_page(s: CPU, m: Seq<u8>)
    requires
        m.len() == 0x10000,
        peek(m, s.program_counter + 1) == 0xFF,
    ensures
        ({
            let pointer = word(0xFF, peek(m, s.program_counter + 2));
            s.spec_resolve(AddressingMode::Indirect, m).0 == Operand::Address(
                word(m[pointer as int], m[pointer - 0xFF]),
            )
        }),
{
}

/// Packing the flags into a byte and unpacking it gives the flags back.
pub proof fn lemma_status_byte_round_trip(s: StatusRegister)
    ensures
        StatusRegister::unpacked(s.packed()) == s,
{
    lemma_packed_bits(s);
    let p = s.packed();
    assert(s.carry == (p & flag_mask(Flag::Carry) != 0));
    assert(s.zero == (p & flag_mask(Flag::Zero) != 0));
    assert(s.interrupt_disable == (p & flag_mask(Flag::InterruptDisable) != 0));
    assert(s.decimal_mode == (p & flag_mask(Flag::DecimalMode) != 0));
    assert(s.brk == (p & flag_mask(Flag::Break) != 0));
    assert(s.overflow == (p & flag_mask(Flag::Overflow) != 0));
    assert(s.negative == (p & flag_mask(Flag::Negative) != 0));
}

/// Unpacking a byte and packing it again gives the byte back with the
/// constant bit forced to one, whatever the byte held there.
pub proof fn lemma_status_byte_forces_constant_bit(b: u8)
    ensures
        StatusRegister::unpacked(b).packed() == b | CONSTANT_BIT,
{
    let s = StatusRegister::unpacked(b);
    let p = s.packed();
    assert(p == (if b & 0x01u8 != 0 { 0x01u8 } else { 0u8 }) | (if b & 0x02u8 != 0 { 0x02u8 } else { 0u8 }) | (if b & 0x04u8 != 0 { 0x04u8 } else { 0u8 }) | (if b & 0x08u8 != 0 { 0x08u8 } else { 0u8 }) | (if b & 0x10u8 != 0 { 0x10u8 } else { 0u8 }) | 0x20u8 | (if b & 0x40u8 != 0 { 0x40u8 } else { 0u8 }) | (if b & 0x80u8 != 0 { 0x80u8 } else { 0u8 }));
    assert(p == b | 0x20u8) by (bit_vector)
        requires
            p == (if b & 0x01u8 != 0 { 0x01u8 } else { 0u8 }) | (if b & 0x02u8 != 0 { 0x02u8 } else { 0u8 }) | (if b & 0x04u8 != 0 { 0x04u8 } else { 0u8 }) | (if b & 0x08u8 != 0 { 0x08u8 } else { 0u8 }) | (if b & 0x10u8 != 0 { 0x10u8 } else { 0u8 }) | 0x20u8 | (if b & 0x40u8 != 0 { 0x40u8 } else { 0u8 }) | (if b & 0x80u8 != 0 { 0x80u8 } else { 0u8 });
}

proof fn lemma_php_pushes_status(s: CPU, m: Seq<u8>)
    ensures
        s.spec_execute(Operation::Php, Operand::Nothing, m) == s.spec_push(m, s.status.packed()),
{
    reveal(CPU::spec_execute);
}

proof fn lemma_plp_pulls_status(s: CPU, m: Seq<u8>)
    ensures
        s.spec_execute(Operation::Plp, Operand::Nothing, m) == (
            CPU { status: StatusRegister::unpacked(s.spec_pull(m).1), ..s.spec_pull(m).0 },
            m,
        ),
{
    reveal(CPU::spec_execute);
}

/// Pushing the status register and pulling it back restores every flag and
/// the stack pointer; the byte on the stack has the constant bit set.
pub proof fn lemma_status_stack_round_trip(s: CPU, m: Seq<u8>)
    requires
        m.len() == 0x10000,
    ensures
        ({
            let (pushed, m1) = s.spec_execute(Operation::Php, Operand::Nothing, m);
            let (pulled, m2) = pushed.spec_execute(Operation::Plp, Operand::Nothing, m1);
            &&& pulled.status == s.status
            &&& pulled.stack_pointer == s.stack_pointer
            &&& m1[0x100 + s.stack_pointer as int] & CONSTANT_BIT != 0
        }),
{
    lemma_packed_bits(s.status);
    lemma_status_byte_round_trip(s.status);
    lemma_php_pushes_status(s, m);
    let (pushed, m1) = s.spec_push(m, s.status.packed());
    lemma_plp_pulls_status(pushed, m1);
}

/// A halted processor refuses every step and changes nothing; a halting
/// opcode halts it.
pub proof fn lemma_halt_is_terminal(s: CPU, m: Seq<u8>)
    ensures
        s.halted ==> s.spec_step(m) == (s, m, Err::<u32, CpuError>(CpuError::Halted)),
        !s.halted && Instruction::spec_from_code(m[s.program_counter as int]).halts ==> s.spec_step(m).0.halted,
{
    reveal(CPU::spec_step);
}

/// A call followed by a return resumes at the instruction after the call
/// and leaves the stack pointer where it was.
pub proof fn lemma_call_return(s: CPU, m: Seq<u8>, target: u16)
    requires
        m.len() == 0x10000,
    ensures
        ({
            let (called, m1) = s.spec_jsr(m, target);
            let returned = called.spec_rts(m1);
            &&& returned.program_counter == s.program_counter
            &&& returned.stack_pointer == s.stack_pointer
        }),
{
    reveal(CPU::spec_jsr);
    reveal(CPU::spec_rts);
    let ret = (s.program_counter as int + 0xFFFF) % 0x10000;
    let (called, m1) = s.spec_jsr(m, target);
    let hi_at = 0x100 + s.stack_pointer as int;
    let lo_at = 0x100 + ((s.stack_pointer as int + 255) % 256);
    assert(m1[lo_at] == (ret % 256) as u8);
    assert(m1[hi_at] == (ret / 256) as u8);
    assert(word((ret % 256) as u8, (ret / 256) as u8) as int == ret);
}

} // verus!
