use vstd::prelude::*;

verus! {

/// The number of edges that one interrupt reports for a channel: one for a
/// rising edge and one for a falling edge.
pub open spec fn edges(rising: bool, falling: bool) -> nat {
    (if rising { 1nat } else { 0nat }) + (if falling { 1nat } else { 0nat })
}

/// Counts the edges of one encoder channel between two readings.
pub struct EdgeCounter {
    count: u32,
}

impl View for EdgeCounter {
    type V = nat;

    closed spec fn view(&self) -> nat {
        self.count as nat
    }
}

impl EdgeCounter {
    /// A counter that has seen no edge.
    pub fn new() -> (counter: Self)
        ensures
            counter@ == 0,
    {
        EdgeCounter { count: 0 }
    }

    /// The edges counted since the last reading.
    pub fn count(&self) -> (count: u32)
        ensures
            count == self@,
    {
        self.count
    }

    /// Counts the edges that an interrupt reports for this channel.
    pub fn record(&mut self, rising: bool, falling: bool)
        requires
            old(self)@ + edges(rising, falling) <= u32::MAX,
        ensures
            final(self)@ == old(self)@ + edges(rising, falling),
            final(self)@ == old(self)@ + (if rising { 1int } else { 0int }) + (if falling {
                1int
            } else {
                0int
            }),
    {
        if rising {
            self.count = self.count + 1;
        }
        if falling {
            self.count = self.count + 1;
        }
    }

    /// Returns the edges counted since the last reading and starts again from zero.
    pub fn take(&mut self) -> (count: u32)
        ensures
            count == old(self)@,
            final(self)@ == 0,
    {
        let count = self.count;
        self.count = 0;
        count
    }
}

/// Each edge that an interrupt reports counts exactly one, whether it rises
/// or falls: none for no edge, one for a single edge of either kind, two for both.
pub proof fn lemma_one_count_per_edge(rising: bool, falling: bool)
    ensures
        edges(false, false) == 0,
        edges(true, false) == 1,
        edges(false, true) == 1,
        edges(true, true) == 2,
        edges(rising, falling) == (if rising { 1nat } else { 0nat }) + (if falling { 1nat } else { 0nat }),
{
}

} // verus!
