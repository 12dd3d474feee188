//! COP0, the system control coprocessor: status, cause and exception PC registers.

use vstd::prelude::*;
use super::irq::InterruptState;

verus! {

/// CPU exceptions, by their code in the Cause register.
#[derive(Debug, Clone, Copy, PartialEq, Eq, Structural)]
pub enum Exception {
    Interrupt,
    LoadAddressError,
    StoreAddressError,
    Syscall,
    Break,
    ReservedInstruction,
    CoprocessorUnusable,
    Overflow,
}

/// The code of each exception in the Cause register.
pub open spec fn exception_code(e: Exception) -> u32 {
    match e {
        Exception::Interrupt => 0x0,
        Exception::LoadAddressError => 0x4,
        Exception::StoreAddressError => 0x5,
        Exception::Syscall => 0x8,
        Exception::Break => 0x9,
        Exception::ReservedInstruction => 0xa,
        Exception::CoprocessorUnusable => 0xb,
        Exception::Overflow => 0xc,
    }
}

impl Exception {
    /// The code of this exception in the Cause register.
    pub fn code(self) -> (r: u32)
        ensures
            r == exception_code(self),
    {
        match self {
            Exception::Interrupt => 0x0,
            Exception::LoadAddressError => 0x4,
            Exception::StoreAddressError => 0x5,
            Exception::Syscall => 0x8,
            Exception::Break => 0x9,
            Exception::ReservedInstruction => 0xa,
            Exception::CoprocessorUnusable => 0xb,
            Exception::Overflow => 0xc,
        }
    }
}

/// The system control coprocessor.
pub struct Cop0 {
    pub regs: [u32; 32],
}

/// The value a write of `val` leaves in register `index`, given its previous contents.
pub open spec fn cop0_written(index: u8, old_val: u32, val: u32) -> u32 {
    if index == 12 {
        val & 0xf04fff3f
    } else if index == 13 {
        (old_val & !0x300u32) | (val & 0x300)
    } else {
        val
    }
}

/// The Status register after entering an exception: the mode stack is pushed by two bits.
pub open spec fn status_after_exception(sr: u32) -> u32 {
    (sr & !0x3fu32) | (((sr & 0x3f) << 2u32) & 0x3c)
}

/// The Status register after RFE: the mode stack is popped by two bits.
pub open spec fn status_after_rfe(sr: u32) -> u32 {
    (sr & !0xfu32) | ((sr & 0x3f) >> 2u32)
}

/// The Cause register after raising `e`, with the branch-delay bit set as given.
pub open spec fn cause_after_exception(cause: u32, e: Exception, in_delay_slot: bool) -> u32 {
    let c = (cause & !0x7cu32) | ((exception_code(e) << 2u32) & 0x7c);
    if in_delay_slot {
        c | 0x80000000
    } else {
        c & !0x80000000u32
    }
}

/// The handler address, chosen by the BEV bit of the Status register.
pub open spec fn exception_vector(sr: u32) -> u32 {
    if sr & 0x400000 != 0 {
        0xbfc00180
    } else {
        0x80000080
    }
}

/// Whether an interrupt is pending and enabled, by Status and Cause alone.
pub open spec fn spec_interrupt_pending(sr: u32, cause: u32) -> bool {
    sr & 1 != 0 && ((sr >> 8u32) & 0xff) & ((cause >> 8u32) & 0xff) != 0
}

impl Cop0 {
    /// COP0 after reset: PRId identifies the R3000A and Status has BEV set.
    pub fn new() -> (r: Self)
        ensures
            r.regs@ == Seq::new(32, |i: int| if i == 15 { 2u32 } else if i == 12 { 0x10900000u32 } else { 0u32 }),
    {
        let mut cop0 = Cop0 { regs: [0; 32] };
        cop0.regs.set(15, 0x00000002);
        cop0.regs.set(12, 0x10900000);
        assert(cop0.regs@ =~= Seq::new(32, |i: int| if i == 15 { 2u32 } else if i == 12 { 0x10900000u32 } else { 0u32 }));
        cop0
    }

    /// Read register `index`.
    pub fn reg(&self, index: u8) -> (r: u32)
        requires
            index < 32,
        ensures
            r == self.regs@[index as int],
    {
        self.regs[index as usize]
    }

    /// Write register `index`; Status and Cause only take their writable bits.
    pub fn set_reg(&mut self, index: u8, val: u32)
        requires
            index < 32,
        ensures
            final(self).regs@ == old(self).regs@.update(
                index as int,
                cop0_written(index, old(self).regs@[index as int], val),
            ),
    {
        if index == 12 {
            self.regs.set(12, val & 0xf04fff3f);
        } else if index == 13 {
            let v = (self.regs[13] & !0x300) | (val & 0x300);
            self.regs.set(13, v);
        } else {
            self.regs.set(index as usize, val);
        }
    }

    /// Enter an exception: record its code and the EPC, push the mode stack and return the
    /// handler address.
    pub fn exception(&mut self, exception: Exception, pc: u32, in_delay_slot: bool) -> (r: u32)
        ensures
            r == exception_vector(status_after_exception(old(self).regs@[12])),
            final(self).regs@ == old(self).regs@
                .update(13, cause_after_exception(old(self).regs@[13], exception, in_delay_slot))
                .update(14, if in_delay_slot { pc.wrapping_sub(4) } else { pc })
                .update(12, status_after_exception(old(self).regs@[12])),
    {
        let code = exception.code();
        let c = (self.regs[13] & !0x7c) | ((code << 2) & 0x7c);
        self.regs.set(13, c);
        let epc = if in_delay_slot {
            let c2 = self.regs[13] | 0x80000000;
            self.regs.set(13, c2);
            pc.wrapping_sub(4)
        } else {
            let c2 = self.regs[13] & !0x80000000;
            self.regs.set(13, c2);
            pc
        };
        self.regs.set(14, epc);
        let mode = self.regs[12] & 0x3f;
        let sr = (self.regs[12] & !0x3f) | ((mode << 2) & 0x3c);
        self.regs.set(12, sr);
        if self.regs[12] & 0x400000 != 0 {
            0xbfc00180
        } else {
            0x80000080
        }
    }

    /// Return from exception: pop the mode stack.
    pub fn rfe(&mut self)
        ensures
            final(self).regs@ == old(self).regs@.update(12, status_after_rfe(old(self).regs@[12])),
    {
        let mode = self.regs[12] & 0x3f;
        let sr = (self.regs[12] & !0xf) | (mode >> 2);
        self.regs.set(12, sr);
    }

    /// Read register `index`.
    pub fn read_reg(&self, index: u8) -> (r: u32)
        requires
            index < 32,
        ensures
            r == self.regs@[index as int],
    {
        self.regs[index as usize]
    }

    /// Write register `index`, as `set_reg`.
    pub fn write_reg(&mut self, index: u8, val: u32)
        requires
            index < 32,
        ensures
            final(self).regs@ == old(self).regs@.update(
                index as int,
                cop0_written(index, old(self).regs@[index as int], val),
            ),
    {
        self.set_reg(index, val);
    }

    /// Whether an interrupt is enabled (IEc) and one of the masked interrupt lines is pending.
    pub fn interrupt_pending(&self, _irq: &InterruptState) -> (r: bool)
        ensures
            r == spec_interrupt_pending(self.regs@[12], self.regs@[13]),
    {
        let status = self.regs[12];
        let cause = self.regs[13];
        if status & 0x1 == 0 {
            return false;
        }
        let im = (status >> 8) & 0xff;
        let ip = (cause >> 8) & 0xff;
        (im & ip) != 0
    }
}

/// Entering an exception and then returning from it restores the interrupt-enable and mode
/// bits of the Status register (bits 0..3), whatever they were.
pub proof fn lemma_exception_rfe_restores_mode(sr: u32)
    ensures
        status_after_rfe(status_after_exception(sr)) & 0xf == sr & 0xf,
{
    assert(((((sr & !0x3fu32) | (((sr & 0x3f) << 2u32) & 0x3c)) & !0xfu32)
        | ((((sr & !0x3fu32) | (((sr & 0x3f) << 2u32) & 0x3c)) & 0x3f) >> 2u32)) & 0xf == sr & 0xf)
        by (bit_vector);
}

} // verus!
