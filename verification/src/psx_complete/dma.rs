//! DMA controller registers.

use vstd::prelude::*;

verus! {

/// One DMA channel's registers.
#[derive(Clone, Copy)]
pub struct DmaChannel {
    pub base: u32,
    pub block_control: u32,
    pub control: u32,
}

/// The DMA controller: seven channels, DPCR and DICR.
pub struct Dma {
    pub channels: [DmaChannel; 7],
    pub control: u32,
    pub interrupt: u32,
}

impl Dma {
    /// Channels cleared, DPCR at its reset priority order.
    pub fn new() -> (r: Self)
        ensures
            forall|i: int| 0 <= i < 7 ==> #[trigger] r.channels@[i] == (DmaChannel { base: 0, block_control: 0, control: 0 }),
            r.control == 0x07654321,
            r.interrupt == 0,
    {
        let c = DmaChannel::new();
        Dma { channels: [c, c, c, c, c, c, c], control: 0x07654321, interrupt: 0 }
    }

    /// Channel `index`.
    pub fn channel(&self, index: usize) -> (r: &DmaChannel)
        requires
            index < 7,
        ensures
            *r == self.channels@[index as int],
    {
        &self.channels[index]
    }

    /// Channel `index`, for update.
    pub fn channel_mut(&mut self, index: usize) -> (r: &mut DmaChannel)
        requires
            index < 7,
        ensures
            *r == old(self).channels@[index as int],
            final(self).channels@ == old(self).channels@.update(index as int, *final(r)),
            final(self).control == old(self).control,
            final(self).interrupt == old(self).interrupt,
    {
        &mut self.channels[index]
    }

    /// DPCR.
    pub fn control(&self) -> (r: u32)
        ensures
            r == self.control,
    {
        self.control
    }

    /// Set DPCR.
    pub fn set_control(&mut self, val: u32)
        ensures
            final(self).control == val,
            final(self).channels == old(self).channels,
            final(self).interrupt == old(self).interrupt,
    {
        self.control = val;
    }

    /// DICR.
    pub fn interrupt(&self) -> (r: u32)
        ensures
            r == self.interrupt,
    {
        self.interrupt
    }

    /// Set DICR.
    pub fn set_interrupt(&mut self, val: u32)
        ensures
            final(self).interrupt == val,
            final(self).channels == old(self).channels,
            final(self).control == old(self).control,
    {
        self.interrupt = val;
    }
}

impl DmaChannel {
    /// A channel with all registers cleared.
    pub fn new() -> (r: Self)
        ensures
            r == (DmaChannel { base: 0, block_control: 0, control: 0 }),
    {
        DmaChannel { base: 0, block_control: 0, control: 0 }
    }

    /// Base address (MADR).
    pub fn base(&self) -> (r: u32)
        ensures
            r == self.base,
    {
        self.base
    }

    /// Set the base address; only its low 24 bits are kept.
    pub fn set_base(&mut self, val: u32)
        ensures
            *final(self) == (DmaChannel { base: val & 0xffffff, ..*old(self) }),
    {
        self.base = val & 0xffffff;
    }

    /// Block control (BCR).
    pub fn block_control(&self) -> (r: u32)
        ensures
            r == self.block_control,
    {
        self.block_control
    }

    /// Set block control.
    pub fn set_block_control(&mut self, val: u32)
        ensures
            *final(self) == (DmaChannel { block_control: val, ..*old(self) }),
    {
        self.block_control = val;
    }

    /// Channel control (CHCR).
    pub fn control(&self) -> (r: u32)
        ensures
            r == self.control,
    {
        self.control
    }

    /// Set channel control.
    pub fn set_control(&mut self, val: u32)
        ensures
            *final(self) == (DmaChannel { control: val, ..*old(self) }),
    {
        self.control = val;
    }

    /// Whether the start/busy bit (24) of CHCR is set.
    pub fn is_active(&self) -> (r: bool)
        ensures
            r == (self.control & 0x01000000 != 0),
    {
        self.control & 0x01000000 != 0
    }
}

} // verus!
