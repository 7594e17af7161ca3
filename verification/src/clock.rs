use vstd::prelude::*;

verus! {

/// One tick of the control loop's clock at timer reading `now`, with `last` the
/// reading of the tick before (zero before the first one): the microseconds
/// since that tick, and the reading that the next tick measures from. A clock
/// that has not ticked yet measures its first tick from that tick itself.
pub open spec fn tick_spec(last: u64, now: u64) -> (int, u64) {
    if last == 0 {
        (0, now)
    } else {
        (now - last, now)
    }
}

/// Measures the time between iterations of the control loop.
pub struct LoopClock {
    last: u64,
}

impl View for LoopClock {
    type V = u64;

    closed spec fn view(&self) -> u64 {
        self.last
    }
}

impl LoopClock {
    /// A clock that has not ticked yet.
    pub fn new() -> (clock: Self)
        ensures
            clock@ == 0,
    {
        LoopClock { last: 0 }
    }

    /// The timer reading of the last tick, or zero before the first one.
    pub fn last(&self) -> (reading: u64)
        ensures
            reading == self@,
    {
        self.last
    }

    /// Ticks at timer reading `now` (in microseconds); returns the
    /// microseconds since the last tick, or zero on the first one.
    pub fn tick(&mut self, now: u64) -> (elapsed: u64)
        requires
            old(self)@ <= now,
        ensures
            (elapsed as int, final(self)@) == tick_spec(old(self)@, now),
            old(self)@ == 0 ==> elapsed == 0,
            old(self)@ != 0 ==> elapsed == now - old(self)@,
            final(self)@ == now,
    {
        if self.last == 0 {
            self.last = now;
        }
        let elapsed = now - self.last;
        self.last = now;
        elapsed
    }
}

/// The times that ticks measure add up: after a tick at a nonzero reading,
/// two more ticks measure together the time from that first reading to the
/// last one.
pub proof fn lemma_ticks_add_up(last: u64, first: u64, second: u64, third: u64)
    requires
        last <= first <= second <= third,
        first != 0,
    ensures
        tick_spec(tick_spec(last, first).1, second).1 == second,
        tick_spec(tick_spec(last, first).1, second).0 + tick_spec(second, third).0 == third - first,
{
}

/// The first tick measures nothing, whatever the reading, and the clock then
/// measures from that reading; every later tick measures the time since the
/// reading of the tick before.
pub proof fn lemma_tick_measures_since_last(last: u64, now: u64)
    requires
        last <= now,
    ensures
        tick_spec(0, now).0 == 0,
        tick_spec(0, now).1 == now,
        last != 0 ==> tick_spec(last, now).0 == now - last,
        tick_spec(last, now).1 == now,
{
}

} // verus!
