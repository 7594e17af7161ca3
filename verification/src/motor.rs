use vstd::prelude::*;

verus! {

/// The direction in which a motor turns.
#[derive(Clone, Copy, Debug, PartialEq, Eq, Structural)]
pub enum MotorDirection {
    Forward,
    Reverse,
}

/// The opposite direction.
pub open spec fn opposite(direction: MotorDirection) -> MotorDirection {
    match direction {
        MotorDirection::Forward => MotorDirection::Reverse,
        MotorDirection::Reverse => MotorDirection::Forward,
    }
}

impl core::ops::Not for MotorDirection {
    type Output = Self;

    fn not(self) -> (reversed: Self)
        ensures
            reversed == opposite(self),
    {
        match self {
            MotorDirection::Forward => MotorDirection::Reverse,
            MotorDirection::Reverse => MotorDirection::Forward,
        }
    }
}

impl vstd::std_specs::ops::NotSpecImpl for MotorDirection {
    open spec fn obeys_not_spec() -> bool {
        true
    }

    open spec fn not_req(self) -> bool {
        true
    }

    open spec fn not_spec(self) -> Self {
        opposite(self)
    }
}

/// One write to a direction pin of a motor driver: which of the two pins, and
/// whether it is driven high.
#[derive(Clone, Copy, Debug, PartialEq, Eq, Structural)]
pub struct PinWrite {
    pub pin: usize,
    pub high: bool,
}

/// The writes that select a direction, in the order in which they are made:
/// the pin that goes high is driven first, then the other one is driven low.
pub open spec fn direction_writes(direction: MotorDirection) -> Seq<PinWrite> {
    match direction {
        MotorDirection::Forward => seq![PinWrite { pin: 0, high: true }, PinWrite { pin: 1, high: false }],
        MotorDirection::Reverse => seq![PinWrite { pin: 1, high: true }, PinWrite { pin: 0, high: false }],
    }
}

/// The levels of the two direction pins after a run of writes, from the given levels.
pub open spec fn levels_after(writes: Seq<PinWrite>, levels: (bool, bool)) -> (bool, bool)
    decreases writes.len(),
{
    if writes.len() == 0 {
        levels
    } else {
        let before = levels_after(writes.drop_last(), levels);
        let last = writes.last();
        if last.pin == 0 {
            (last.high, before.1)
        } else if last.pin == 1 {
            (before.0, last.high)
        } else {
            before
        }
    }
}

impl MotorDirection {
    /// The pin writes that make the motor driver turn the motor this way.
    pub fn pin_writes(self) -> (writes: [PinWrite; 2])
        ensures
            writes@ == direction_writes(self),
    {
        match self {
            MotorDirection::Forward => [PinWrite { pin: 0, high: true }, PinWrite { pin: 1, high: false }],
            MotorDirection::Reverse => [PinWrite { pin: 1, high: true }, PinWrite { pin: 0, high: false }],
        }
    }
}

/// Reversing twice gives the direction back, and reversing always changes it.
pub proof fn lemma_reverse_involution(direction: MotorDirection)
    ensures
        opposite(opposite(direction)) == direction,
        opposite(direction) != direction,
{
}

/// Whatever levels the direction pins had, selecting a direction leaves
/// exactly one of them high: the first one going forward, the second one in
/// reverse. The opposite direction drives the same two pins the other way.
pub proof fn lemma_direction_levels(direction: MotorDirection, levels: (bool, bool))
    ensures
        levels_after(direction_writes(direction), levels) == (
            direction == MotorDirection::Forward,
            direction == MotorDirection::Reverse,
        ),
        levels_after(direction_writes(opposite(direction)), levels) == (
            levels_after(direction_writes(direction), levels).1,
            levels_after(direction_writes(direction), levels).0,
        ),
{
    reveal_with_fuel(levels_after, 3);
    let writes = direction_writes(direction);
    assert(writes.drop_last().drop_last() =~= Seq::<PinWrite>::empty());
    let other = direction_writes(opposite(direction));
    assert(other.drop_last().drop_last() =~= Seq::<PinWrite>::empty());
}

} // verus!
