use vstd::prelude::*;

use crate::opcode::Nib;

verus! {

pub const NUM_REGISTERS: usize = 16;

/// Index of the flag register VF.
pub const FLAG_REGISTER: usize = 0xF;

/// The sixteen 8-bit general-purpose registers V0 to VF.
pub struct Registers {
    regs: [u8; NUM_REGISTERS],
}

impl View for Registers {
    type V = Seq<u8>;

    closed spec fn view(&self) -> Seq<u8> {
        self.regs@
    }
}

/// There are always sixteen registers.
pub broadcast proof fn lemma_registers_len(r: Registers)
    ensures
        #[trigger] r@.len() == NUM_REGISTERS,
{
}

impl Registers {
    /// All registers zero.
    pub fn new() -> (r: Registers)
        ensures
            r@ == Seq::new(NUM_REGISTERS as nat, |i: int| 0u8),
    {
        let r = Registers { regs: [0u8; NUM_REGISTERS] };
        assert(r@ =~= Seq::new(NUM_REGISTERS as nat, |i: int| 0u8));
        r
    }

    pub fn v0(&self) -> (r: u8)
        ensures
            r == self@[0],
    {
        self.regs[0]
    }

    /// Writes the flag register VF.
    pub fn set_flag(&mut self, val: u8)
        ensures
            final(self)@ == old(self)@.update(FLAG_REGISTER as int, val),
    {
        self.regs[FLAG_REGISTER] = val;
    }

    /// Reads register `index`.
    pub fn index(&self, index: Nib) -> (r: u8)
        ensures
            r == self@[index@ as int],
    {
        self.regs[index.idx()]
    }

    /// Writes register `index`.
    pub fn set(&mut self, index: Nib, val: u8)
        ensures
            final(self)@ == old(self)@.update(index@ as int, val),
    {
        let i = index.idx();
        self.regs[i] = val;
    }
}

} // verus!
