//! The three root counters.

use vstd::prelude::*;

verus! {

/// One root counter.
#[derive(Clone, Copy)]
pub struct Timer {
    pub counter: u16,
    pub target: u16,
    pub mode: u16,
}

/// The three root counters.
pub struct Timers {
    pub timers: [Timer; 3],
}

impl Timers {
    /// Three counters at zero.
    pub fn new() -> (r: Self)
        ensures
            forall|i: int| 0 <= i < 3 ==> #[trigger] r.timers@[i] == (Timer { counter: 0, target: 0, mode: 0 }),
    {
        let t = Timer::new();
        Timers { timers: [t, t, t] }
    }

    /// Counter `index`.
    pub fn timer(&self, index: usize) -> (r: &Timer)
        requires
            index < 3,
        ensures
            *r == self.timers@[index as int],
    {
        &self.timers[index]
    }

    /// Counter `index`, for update.
    pub fn timer_mut(&mut self, index: usize) -> (r: &mut Timer)
        requires
            index < 3,
        ensures
            *r == old(self).timers@[index as int],
            final(self).timers@ == old(self).timers@.update(index as int, *final(r)),
    {
        &mut self.timers[index]
    }
}

impl Timer {
    /// A counter at zero.
    pub fn new() -> (r: Self)
        ensures
            r == (Timer { counter: 0, target: 0, mode: 0 }),
    {
        Timer { counter: 0, target: 0, mode: 0 }
    }

    /// The current count.
    pub fn counter(&self) -> (r: u16)
        ensures
            r == self.counter,
    {
        self.counter
    }

    /// Set the current count.
    pub fn set_counter(&mut self, val: u16)
        ensures
            *final(self) == (Timer { counter: val, ..*old(self) }),
    {
        self.counter = val;
    }

    /// The target value.
    pub fn target(&self) -> (r: u16)
        ensures
            r == self.target,
    {
        self.target
    }

    /// Set the target value.
    pub fn set_target(&mut self, val: u16)
        ensures
            *final(self) == (Timer { target: val, ..*old(self) }),
    {
        self.target = val;
    }

    /// The mode register.
    pub fn mode(&self) -> (r: u16)
        ensures
            r == self.mode,
    {
        self.mode
    }

    /// Write the mode register, which resets the count.
    pub fn set_mode(&mut self, val: u16)
        ensures
            *final(self) == (Timer { mode: val, counter: 0, ..*old(self) }),
    {
        self.mode = val;
        self.counter = 0;
    }
}

} // verus!
