//! Per-component frame timing and memory-usage tracking. Times are in nanoseconds,
//! measured by the host.

use vstd::prelude::*;

verus! {

/// The emulated components whose time is measured.
#[derive(Debug, Clone, Copy, PartialEq, Eq, Structural)]
pub enum Component {
    Cpu,
    Gpu,
    Spu,
    Dma,
    Controller,
}

/// The time spent in each component during a frame, and their sum, in nanoseconds.
#[derive(Debug, Clone, Copy, PartialEq, Eq, Structural)]
pub struct ComponentTiming {
    pub cpu_time: u64,
    pub gpu_time: u64,
    pub spu_time: u64,
    pub dma_time: u64,
    pub controller_time: u64,
    pub total_time: u64,
}

impl Default for ComponentTiming {
    fn default() -> (r: Self)
        ensures
            r == (ComponentTiming { cpu_time: 0, gpu_time: 0, spu_time: 0, dma_time: 0, controller_time: 0, total_time: 0 }),
    {
        ComponentTiming { cpu_time: 0, gpu_time: 0, spu_time: 0, dma_time: 0, controller_time: 0, total_time: 0 }
    }
}

impl ComponentTiming {
    /// The time recorded for one component.
    pub open spec fn time_of(self, component: Component) -> u64 {
        match component {
            Component::Cpu => self.cpu_time,
            Component::Gpu => self.gpu_time,
            Component::Spu => self.spu_time,
            Component::Dma => self.dma_time,
            Component::Controller => self.controller_time,
        }
    }

    /// Charge `ns` nanoseconds to a component and to the total.
    pub fn add_time(&mut self, component: Component, ns: u64)
        requires
            old(self).time_of(component) + ns <= u64::MAX,
            old(self).total_time + ns <= u64::MAX,
        ensures
            final(self).time_of(component) == old(self).time_of(component) + ns,
            final(self).total_time == old(self).total_time + ns,
            forall|c: Component| c != component ==> #[trigger] final(self).time_of(c) == old(self).time_of(c),
    {
        match component {
            Component::Cpu => self.cpu_time = self.cpu_time + ns,
            Component::Gpu => self.gpu_time = self.gpu_time + ns,
            Component::Spu => self.spu_time = self.spu_time + ns,
            Component::Dma => self.dma_time = self.dma_time + ns,
            Component::Controller => self.controller_time = self.controller_time + ns,
        }
        self.total_time = self.total_time + ns;
    }
}

/// Memory in use, in bytes, and the most ever in use at once.
#[derive(Debug, Clone, Copy, PartialEq, Eq, Structural)]
pub struct MemoryTracker {
    pub main_ram_usage: usize,
    pub vram_usage: usize,
    pub spu_ram_usage: usize,
    pub total_allocated: usize,
    pub peak_usage: usize,
}

impl MemoryTracker {
    /// Nothing in use.
    pub fn new() -> (r: Self)
        ensures
            r == (MemoryTracker { main_ram_usage: 0, vram_usage: 0, spu_ram_usage: 0, total_allocated: 0, peak_usage: 0 }),
    {
        MemoryTracker { main_ram_usage: 0, vram_usage: 0, spu_ram_usage: 0, total_allocated: 0, peak_usage: 0 }
    }

    /// Record the current usage of the three memories; the peak keeps the largest total.
    pub fn update_memory_usage(&mut self, ram: usize, vram: usize, spu_ram: usize)
        requires
            ram + vram + spu_ram <= usize::MAX,
        ensures
            final(self).main_ram_usage == ram,
            final(self).vram_usage == vram,
            final(self).spu_ram_usage == spu_ram,
            final(self).total_allocated == ram + vram + spu_ram,
            final(self).peak_usage == (if ram + vram + spu_ram > old(self).peak_usage {
                (ram + vram + spu_ram) as usize
            } else {
                old(self).peak_usage
            }),
            final(self).peak_usage >= old(self).peak_usage,
            final(self).peak_usage >= final(self).total_allocated,
    {
        self.main_ram_usage = ram;
        self.vram_usage = vram;
        self.spu_ram_usage = spu_ram;
        let total = ram + vram + spu_ram;
        self.total_allocated = total;
        if total > self.peak_usage {
            self.peak_usage = total;
        }
    }
}

} // verus!
