//! The protocol between producers and a consumer, as a state machine.
//!
//! All handles of one counter share two things: the count, and a slot for the token of a
//! suspended consumer. Every operation of a handle is made of indivisible steps on that
//! shared state, and steps of different handles may fall in any order. This module says
//! what each step does and what a poll decides; [`crate::laws`] proves what then holds of
//! every run of steps.
//!
//! Arithmetic wraps: a count that passes `usize::MAX` goes on from zero, and one that
//! falls below zero goes on from `usize::MAX`, for additions and subtractions alike.

use std::task::Poll;
use std::task::Waker;
use vstd::prelude::*;

verus! {

/// What all handles of one counter share.
pub ghost struct Shared {
    /// The count.
    pub value: usize,
    /// The token of the consumer that suspended last, until a step takes it out.
    pub parked: Option<Waker>,
}

/// One indivisible step on the shared state.
pub ghost enum Step {
    /// A producer adds to the count.
    Add(usize),
    /// A producer subtracts from the count.
    Sub(usize),
    /// A producer empties the slot and wakes the token that was in it, if any.
    Take,
    /// A consumer leaves its token in the slot, in place of any that was there.
    Park(Waker),
}

/// The number in `0 ..= usize::MAX` that `i` wraps to.
pub open spec fn wrapped(i: int) -> usize {
    (i % (usize::MAX + 1)) as usize
}

impl Step {
    /// By how much the step moves the count, before wrapping.
    pub open spec fn delta(self) -> int {
        match self {
            Step::Add(by) => by as int,
            Step::Sub(by) => -(by as int),
            Step::Take => 0,
            Step::Park(_) => 0,
        }
    }

    /// The count that the step leaves, from the count that it finds.
    pub open spec fn count_after(self, value: usize) -> usize {
        match self {
            Step::Add(_) => wrapped(value + self.delta()),
            Step::Sub(_) => wrapped(value + self.delta()),
            Step::Take => value,
            Step::Park(_) => value,
        }
    }

    /// What the step leaves in the slot, from what it finds there.
    pub open spec fn slot_after(self, parked: Option<Waker>) -> Option<Waker> {
        match self {
            Step::Add(_) => parked,
            Step::Sub(_) => parked,
            Step::Take => None,
            Step::Park(token) => Some(token),
        }
    }

    /// The token that the step wakes. Only `Take` wakes one, and only the one that it finds
    /// in the slot: a token that `Park` displaces is dropped without being woken.
    pub open spec fn wakes(self, parked: Option<Waker>) -> Option<Waker> {
        match self {
            Step::Take => parked,
            _ => None,
        }
    }
}

impl Shared {
    /// The state of a counter that has just been made: the count at `from`, the slot empty.
    pub open spec fn start(from: usize) -> Shared {
        Shared { value: from, parked: None }
    }

    /// The state that `step` leaves.
    pub open spec fn after(self, step: Step) -> Shared {
        Shared { value: step.count_after(self.value), parked: step.slot_after(self.parked) }
    }

    /// The state after `steps`, taken from first to last.
    pub open spec fn run(self, steps: Seq<Step>) -> Shared
        decreases steps.len(),
    {
        if steps.len() == 0 {
            self
        } else {
            self.run(steps.drop_last()).after(steps.last())
        }
    }

    /// The tokens woken in the course of `steps`, in the order in which they were woken.
    pub open spec fn woken(self, steps: Seq<Step>) -> Seq<Waker>
        decreases steps.len(),
    {
        if steps.len() == 0 {
            Seq::empty()
        } else {
            let earlier = self.woken(steps.drop_last());
            match steps.last().wakes(self.run(steps.drop_last()).parked) {
                Some(token) => earlier.push(token),
                None => earlier,
            }
        }
    }
}

/// The sum of what `steps` add, less what they subtract.
pub open spec fn net(steps: Seq<Step>) -> int
    decreases steps.len(),
{
    if steps.len() == 0 {
        0
    } else {
        net(steps.drop_last()) + steps.last().delta()
    }
}

/// How many of `steps` park a token.
pub open spec fn parks(steps: Seq<Step>) -> nat
    decreases steps.len(),
{
    if steps.len() == 0 {
        0
    } else if steps.last() is Park {
        parks(steps.drop_last()) + 1
    } else {
        parks(steps.drop_last())
    }
}

/// Whether `steps` are additions and subtractions only.
pub open spec fn only_arithmetic(steps: Seq<Step>) -> bool {
    forall|i: int| 0 <= i < steps.len() ==> (#[trigger] steps[i]) is Add || steps[i] is Sub
}

/// The steps of one increment: add, then look into the slot.
pub open spec fn increment(by: usize) -> Seq<Step> {
    seq![Step::Add(by), Step::Take]
}

/// The steps of one decrement: subtract, then look into the slot.
pub open spec fn decrement(by: usize) -> Seq<Step> {
    seq![Step::Sub(by), Step::Take]
}

/// What a poll makes of the count that it has read: it resolves with that very count once
/// the target is reached, and stays pending below it.
pub open spec fn outcome(value: usize, target: usize) -> Poll<usize> {
    if value >= target {
        Poll::Ready(value)
    } else {
        Poll::Pending
    }
}

/// The steps of a poll that has read `value`: none if that resolves it, else it parks `token`.
pub open spec fn poll_steps(value: usize, target: usize, token: Waker) -> Seq<Step> {
    if outcome(value, target) is Ready {
        Seq::empty()
    } else {
        seq![Step::Park(token)]
    }
}

/// Decides a poll from the count that it has read.
pub fn resolve(value: usize, target: usize) -> (r: Poll<usize>)
    ensures
        r == outcome(value, target),
{
    if value >= target {
        Poll::Ready(value)
    } else {
        Poll::Pending
    }
}

/// The step `Take`, on the content of a slot that the caller holds: empties the slot and
/// hands out the token to wake.
pub fn take_parked(slot: &mut Option<Waker>) -> (woken: Option<Waker>)
    ensures
        *final(slot) == Step::Take.slot_after(*old(slot)),
        woken == Step::Take.wakes(*old(slot)),
{
    slot.take()
}

/// The step `Park`, on the content of a slot that the caller holds: leaves `token` in the
/// slot and hands out the token that it displaces, which is not to be woken.
pub fn park_token(slot: &mut Option<Waker>, token: Waker) -> (displaced: Option<Waker>)
    ensures
        *final(slot) == Step::Park(token).slot_after(*old(slot)),
        displaced == *old(slot),
{
    let mut exchanged = Some(token);
    std::mem::swap(slot, &mut exchanged);
    exchanged
}

} // verus!
