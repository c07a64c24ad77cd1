//! Counters of the packets that went through a codec.

use vstd::prelude::*;

verus! {

/// The number after `n` in a counter that starts over after its largest
/// value.
pub open spec fn counted_up(n: u64) -> u64 {
    if n == u64::MAX {
        0
    } else {
        (n + 1) as u64
    }
}

/// Two counters: packets that came in and packets that went out.
#[derive(Debug, Clone, Copy, PartialEq, Eq, Default)]
pub struct Counters {
    incoming: u64,
    outgoing: u64,
}

impl Counters {
    /// The number of incoming packets, in specifications.
    pub closed spec fn spec_incoming(&self) -> u64 {
        self.incoming
    }

    /// The number of outgoing packets, in specifications.
    pub closed spec fn spec_outgoing(&self) -> u64 {
        self.outgoing
    }

    /// Counters at zero.
    pub fn new() -> (c: Counters)
        ensures
            c.spec_incoming() == 0,
            c.spec_outgoing() == 0,
    {
        Counters { incoming: 0, outgoing: 0 }
    }

    /// Add 1 to the incoming counter.
    pub fn increase_incoming(&mut self)
        ensures
            final(self).spec_incoming() == counted_up(old(self).spec_incoming()),
            final(self).spec_outgoing() == old(self).spec_outgoing(),
    {
        self.incoming = if self.incoming == u64::MAX {
            0
        } else {
            self.incoming + 1
        };
    }

    /// Add 1 to the outgoing counter.
    pub fn increase_outgoing(&mut self)
        ensures
            final(self).spec_outgoing() == counted_up(old(self).spec_outgoing()),
            final(self).spec_incoming() == old(self).spec_incoming(),
    {
        self.outgoing = if self.outgoing == u64::MAX {
            0
        } else {
            self.outgoing + 1
        };
    }

    /// The number of incoming packets counted so far.
    pub fn incoming(&self) -> (n: u64)
        ensures
            n == self.spec_incoming(),
    {
        self.incoming
    }

    /// The number of outgoing packets counted so far.
    pub fn outgoing(&self) -> (n: u64)
        ensures
            n == self.spec_outgoing(),
    {
        self.outgoing
    }
}

/// The statistics that a codec keeps.
#[derive(Debug, Clone, Copy, PartialEq, Eq, Default)]
pub struct Stats {
    /// Packet counters.
    pub counters: Counters,
}

impl Stats {
    /// Statistics with all counters at zero.
    pub fn new() -> (s: Stats)
        ensures
            s.counters.spec_incoming() == 0,
            s.counters.spec_outgoing() == 0,
    {
        Stats { counters: Counters::new() }
    }
}

} // verus!
