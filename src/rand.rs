use vstd::prelude::*;

verus! {

/// The generator state that follows `state`: one step of a linear congruential
/// generator modulo 2^32.
pub open spec fn next_state(state: u32) -> u32 {
    ((state as int * 1664525 + 1013904223) % 0x1_0000_0000) as u32
}

/// The value that `rand_range(low, high)` returns from the generator state `state`:
/// the high half of the next state, reduced into `[low, high]`.
pub open spec fn range_value(state: u32, low: u32, high: u32) -> u32 {
    (low + (next_state(state) as int / 0x1_0000) % (high - low + 1)) as u32
}

/// A seeded pseudo-random generator; the same seed gives the same sequence.
pub struct Rand {
    state: u32,
}

impl View for Rand {
    type V = u32;

    closed spec fn view(&self) -> u32 {
        self.state
    }
}

impl Rand {
    /// A generator whose state is `seed`.
    pub fn new(seed: u32) -> (r: Self)
        ensures
            r@ == seed,
    {
        Rand { state: seed }
    }

    /// Advances the generator and returns a value in `[low, high]`.
    pub fn rand_range(&mut self, low: u32, high: u32) -> (r: u32)
        requires
            low <= high,
        ensures
            final(self)@ == next_state(old(self)@),
            r == range_value(old(self)@, low, high),
            low <= r <= high,
    {
        let next: u64 = (self.state as u64 * 1664525 + 1013904223) % 0x1_0000_0000;
        self.state = next as u32;
        let span: u64 = high as u64 - low as u64 + 1;
        let offset: u64 = (self.state / 0x1_0000) as u64 % span;
        (low as u64 + offset) as u32
    }
}

} // verus!
