//! The pace of the emulation: the clock rate it runs at.
use vstd::prelude::*;

verus! {

pub struct Clock {
    pub herz: usize,
}

impl Clock {
    pub fn new(herz: usize) -> (r: Clock)
        ensures
            r.herz == herz,
    {
        Clock { herz }
    }

    /// Waits for the time that `cycles_passed` clock cycles take; the
    /// emulation paces itself by frames, so this does not wait.
    pub fn wait_tick(&self, cycles_passed: u64) {
    }
}

} // verus!
