//! A flat memory bus covering the full 16-bit address space.
use vstd::prelude::*;

verus! {

/// Number of addressable bytes.
pub const MEMORY_SIZE: usize = 0x10000;

/// The byte at address `a` of memory `m`, the address taken modulo the
/// size of the address space.
pub open spec fn peek(m: Seq<u8>, a: int) -> u8 {
    m[a % 0x10000]
}

/// The little-endian word formed by two bytes.
pub open spec fn word(lo: u8, hi: u8) -> u16 {
    (lo as int + hi as int * 256) as u16
}

/// The memory contents that hold the bytes of `p` from address 0 and zeros
/// after them.
pub open spec fn loaded(p: Seq<u8>) -> Seq<u8> {
    Seq::new(0x10000, |i: int| if i < p.len() { p[i] } else { 0u8 })
}

/// RAM that answers every 16-bit address.
pub struct Memory {
    bytes: Vec<u8>,
}

impl View for Memory {
    type V = Seq<u8>;

    closed spec fn view(&self) -> Seq<u8> {
        self.bytes@
    }
}

impl Memory {
    /// Every address is backed by a byte.
    pub open spec fn wf(&self) -> bool {
        self@.len() == 0x10000
    }

    /// Memory filled with zeros.
    pub fn new() -> (r: Memory)
        ensures
            r.wf(),
            r@ == loaded(Seq::empty()),
    {
        Memory::from_program(&Vec::new())
    }

    /// Memory holding `program` from address 0, zeros after it.
    pub fn from_program(program: &Vec<u8>) -> (r: Memory)
        requires
            program.len() <= MEMORY_SIZE,
        ensures
            r.wf(),
            r@ == loaded(program@),
    {
        let mut bytes: Vec<u8> = Vec::new();
        let mut i: usize = 0;
        while i < MEMORY_SIZE
            invariant
                i <= MEMORY_SIZE,
                program.len() <= MEMORY_SIZE,
                bytes@.len() == i,
                forall|j: int| 0 <= j < i ==> #[trigger] bytes@[j] == loaded(program@)[j],
            decreases MEMORY_SIZE - i,
        {
            if i < program.len() {
                bytes.push(program[i]);
            } else {
                bytes.push(0);
            }
            i = i + 1;
        }
        let r = Memory { bytes };
        assert(r@ =~= loaded(program@));
        r
    }

    /// Reads the byte at `address`.
    pub fn read(&self, address: u16) -> (r: u8)
        requires
            self.wf(),
        ensures
            r == self@[address as int],
    {
        self.bytes[address as usize]
    }

    /// Writes `value` at `address`.
    pub fn write(&mut self, address: u16, value: u8)
        requires
            old(self).wf(),
        ensures
            final(self).wf(),
            final(self)@ == old(self)@.update(address as int, value),
    {
        self.bytes.set(address as usize, value);
    }

    /// Reads the little-endian word at `address`; the second byte comes from
    /// the next address, wrapping past the top of memory.
    pub fn read_u16(&self, address: u16) -> (r: u16)
        requires
            self.wf(),
        ensures
            r == word(self@[address as int], peek(self@, address + 1)),
    {
        let lo = self.read(address);
        let hi = self.read(((address as u32 + 1) % 0x10000) as u16);
        lo as u16 + hi as u16 * 256
    }
}

} // verus!
