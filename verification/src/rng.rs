use vstd::prelude::*;

verus! {

/// One step of the xorshift recurrence on a 64-bit state:
/// `x ^= x << 13; x ^= x >> 7; x ^= x << 17`.
pub open spec fn xorshift_step(x: u64) -> u64 {
    let a = x ^ (x << 13u64);
    let b = a ^ (a >> 7u64);
    b ^ (b << 17u64)
}

/// A deterministic xorshift pseudo-random generator. The whole stream
/// is fixed by the seed; there is no other state and no I/O.
#[derive(Clone, Copy, Debug, PartialEq, Eq, Structural)]
pub struct XorShift {
    pub x: u64,
}

impl XorShift {
    pub fn new(seed: u64) -> (g: XorShift)
        ensures
            g.x == seed,
    {
        XorShift { x: seed }
    }

    /// Advance the state by one xorshift step and return the new state.
    pub fn next(&mut self) -> (r: u64)
        ensures
            r == xorshift_step(old(self).x),
            final(self).x == r,
    {
        let mut x = self.x;
        x = x ^ (x << 13u64);
        x = x ^ (x >> 7u64);
        x = x ^ (x << 17u64);
        self.x = x;
        x
    }
}

} // verus!
