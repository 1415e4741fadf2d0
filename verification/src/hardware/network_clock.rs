//! The clock that the network stack and the MQTT sessions run on.
//!
//! The clock counts milliseconds. It owns no timer: it is made from a source
//! that returns the node's monotonic time, and narrows each reading to the
//! 32 bits that the stack keeps.
use vstd::prelude::*;

verus! {

/// Ticks of the clock in one second.
pub const TICKS_PER_SECOND: u32 = 1_000;

/// The tick count that a 64-bit reading narrows to: its low 32 bits.
pub open spec fn narrowed(reading: u64) -> u32 {
    (reading % 0x1_0000_0000) as u32
}

/// A millisecond clock over a monotonic time source.
pub struct NetworkClock<F: Fn() -> u64>(F);

impl<F: Fn() -> u64 + Copy> Clone for NetworkClock<F> {
    fn clone(&self) -> (clock: Self)
        ensures
            clock == *self,
    {
        NetworkClock(self.0)
    }
}

impl<F: Fn() -> u64 + Copy> Copy for NetworkClock<F> {

}

impl<F: Fn() -> u64> NetworkClock<F> {
    /// The source that the clock reads.
    pub closed spec fn source(&self) -> F {
        self.0
    }

    /// A clock over `now`, which returns the time in milliseconds.
    pub fn new(now: F) -> (clock: Self)
        ensures
            clock.source() == now,
    {
        NetworkClock(now)
    }

    /// Reads the source once and returns the reading narrowed to 32 bits.
    pub fn try_now(&self) -> (ticks: u32)
        requires
            call_requires(self.source(), ()),
        ensures
            exists|reading: u64|
                call_ensures(self.source(), (), reading) && ticks == narrowed(reading),
    {
        let reading: u64 = (self.0)();
        let ticks = (reading % 0x1_0000_0000) as u32;
        assert(call_ensures(self.source(), (), reading) && ticks == narrowed(reading));
        ticks
    }
}

} // verus!
