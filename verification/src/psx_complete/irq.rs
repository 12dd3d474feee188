//! Interrupt controller: the I_STAT and I_MASK registers.

use vstd::prelude::*;

verus! {

/// Interrupt lines, by their bit in I_STAT.
#[derive(Debug, Clone, Copy, PartialEq, Eq, Structural)]
pub enum Interrupt {
    VBlank,
    Gpu,
    Cdrom,
    Dma,
    Timer0,
    Timer1,
    Timer2,
    Controller,
    Sio,
    Spu,
    Lightpen,
}

/// The bit of each interrupt line in I_STAT.
pub open spec fn interrupt_bit(irq: Interrupt) -> u16 {
    match irq {
        Interrupt::VBlank => 0x0001,
        Interrupt::Gpu => 0x0002,
        Interrupt::Cdrom => 0x0004,
        Interrupt::Dma => 0x0008,
        Interrupt::Timer0 => 0x0010,
        Interrupt::Timer1 => 0x0020,
        Interrupt::Timer2 => 0x0040,
        Interrupt::Controller => 0x0080,
        Interrupt::Sio => 0x0100,
        Interrupt::Spu => 0x0200,
        Interrupt::Lightpen => 0x0400,
    }
}

impl Interrupt {
    /// The bit of this interrupt line in I_STAT.
    pub fn bit(self) -> (r: u16)
        ensures
            r == interrupt_bit(self),
    {
        match self {
            Interrupt::VBlank => 0x0001,
            Interrupt::Gpu => 0x0002,
            Interrupt::Cdrom => 0x0004,
            Interrupt::Dma => 0x0008,
            Interrupt::Timer0 => 0x0010,
            Interrupt::Timer1 => 0x0020,
            Interrupt::Timer2 => 0x0040,
            Interrupt::Controller => 0x0080,
            Interrupt::Sio => 0x0100,
            Interrupt::Spu => 0x0200,
            Interrupt::Lightpen => 0x0400,
        }
    }
}

/// Interrupt status and mask.
pub struct InterruptState {
    pub status: u16,
    pub mask: u16,
}

impl InterruptState {
    /// No interrupt requested, all masked.
    pub fn new() -> (r: Self)
        ensures
            r.status == 0,
            r.mask == 0,
    {
        InterruptState { status: 0, mask: 0 }
    }

    /// I_STAT.
    pub fn status(&self) -> (r: u16)
        ensures
            r == self.status,
    {
        self.status
    }

    /// Acknowledge interrupts: bits written as 0 are cleared, bits written as 1 are kept.
    pub fn set_status(&mut self, val: u16)
        ensures
            final(self).status == old(self).status & val,
            final(self).mask == old(self).mask,
    {
        self.status = self.status & val;
    }

    /// I_MASK.
    pub fn mask(&self) -> (r: u16)
        ensures
            r == self.mask,
    {
        self.mask
    }

    /// Set I_MASK.
    pub fn set_mask(&mut self, val: u16)
        ensures
            final(self).mask == val,
            final(self).status == old(self).status,
    {
        self.mask = val;
    }

    /// Raise an interrupt line.
    pub fn request(&mut self, irq: Interrupt)
        ensures
            final(self).status == old(self).status | interrupt_bit(irq),
            final(self).mask == old(self).mask,
    {
        self.status = self.status | irq.bit();
    }

    /// Whether some requested interrupt is unmasked.
    pub fn pending(&self) -> (r: bool)
        ensures
            r == (self.status & self.mask != 0),
    {
        (self.status & self.mask) != 0
    }
}

/// A requested interrupt stays requested until it is acknowledged by writing 0 to its bit,
/// and is pending exactly when its mask bit is set.
pub proof fn lemma_request_then_pending(status: u16, mask: u16, bit: u16, ack: u16)
    requires
        bit == 0x0001 || bit == 0x0002 || bit == 0x0004 || bit == 0x0008 || bit == 0x0010
            || bit == 0x0020 || bit == 0x0040 || bit == 0x0080 || bit == 0x0100 || bit == 0x0200
            || bit == 0x0400,
    ensures
        (status | bit) & bit == bit,
        mask & bit != 0 ==> (status | bit) & mask != 0,
        ack & bit != 0 ==> ((status | bit) & ack) & bit == bit,
        ack & bit == 0 ==> ((status | bit) & ack) & bit == 0,
{
    assert((status | bit) & bit == bit) by (bit_vector);
    assert(mask & bit != 0 ==> (status | bit) & mask != 0) by (bit_vector);
    assert(ack & bit != 0 ==> ((status | bit) & ack) & bit == bit) by (bit_vector)
        requires bit == 0x0001 || bit == 0x0002 || bit == 0x0004 || bit == 0x0008 || bit == 0x0010
            || bit == 0x0020 || bit == 0x0040 || bit == 0x0080 || bit == 0x0100 || bit == 0x0200
            || bit == 0x0400;
    assert(ack & bit == 0 ==> ((status | bit) & ack) & bit == 0) by (bit_vector);
}

} // verus!
