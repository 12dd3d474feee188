//! GTE, the geometry coprocessor, reduced to its register files.

use vstd::prelude::*;

verus! {

/// Geometry Transformation Engine register files.
pub struct Gte {
    pub data: [u32; 32],
    pub control: [u32; 32],
}

impl Gte {
    /// All registers cleared.
    pub fn new() -> (r: Self)
        ensures
            r.data@ == Seq::new(32, |i: int| 0u32),
            r.control@ == Seq::new(32, |i: int| 0u32),
    {
        let g = Gte { data: [0; 32], control: [0; 32] };
        assert(g.data@ =~= Seq::new(32, |i: int| 0u32));
        assert(g.control@ =~= Seq::new(32, |i: int| 0u32));
        g
    }

    /// Read data register `index` (taken modulo 32).
    pub fn data_reg(&self, index: u8) -> (r: u32)
        ensures
            r == self.data@[(index % 32) as int],
    {
        proof { crate::bits::lemma_low5(index as usize); }
        self.data[index as usize & 0x1f]
    }

    /// Read control register `index` (taken modulo 32).
    pub fn control_reg(&self, index: u8) -> (r: u32)
        ensures
            r == self.control@[(index % 32) as int],
    {
        proof { crate::bits::lemma_low5(index as usize); }
        self.control[index as usize & 0x1f]
    }

    /// Write data register `index` (taken modulo 32).
    pub fn set_data_reg(&mut self, index: u8, val: u32)
        ensures
            final(self).data@ == old(self).data@.update((index % 32) as int, val),
            final(self).control == old(self).control,
    {
        proof { crate::bits::lemma_low5(index as usize); }
        self.data.set(index as usize & 0x1f, val);
    }

    /// Write control register `index` (taken modulo 32).
    pub fn set_control_reg(&mut self, index: u8, val: u32)
        ensures
            final(self).control@ == old(self).control@.update((index % 32) as int, val),
            final(self).data == old(self).data,
    {
        proof { crate::bits::lemma_low5(index as usize); }
        self.control.set(index as usize & 0x1f, val);
    }

    /// Run a command: this reduced GTE only clears the FLAG register.
    pub fn execute(&mut self, _command: u32)
        ensures
            final(self).control@ == old(self).control@.update(31, 0),
            final(self).data == old(self).data,
    {
        self.control.set(31, 0);
    }
}

/// A data register reads back what was last written to it.
pub proof fn lemma_gte_data_roundtrip(regs: Seq<u32>, index: u8, val: u32)
    requires
        regs.len() == 32,
    ensures
        regs.update((index % 32) as int, val)[(index % 32) as int] == val,
{
}

} // verus!
