//! What holds of every run of the protocol.
//!
//! A run is any sequence of steps: those of one handle in the order of its program, those
//! of different handles in whatever order they happen to fall. The laws below hold of all
//! sequences, and so of every such interleaving.

use crate::protocol::decrement;
use crate::protocol::increment;
use crate::protocol::net;
use crate::protocol::only_arithmetic;
use crate::protocol::outcome;
use crate::protocol::parks;
use crate::protocol::poll_steps;
use crate::protocol::wrapped;
use crate::protocol::Shared;
use crate::protocol::Step;
use std::task::Poll;
use std::task::Waker;
use vstd::arithmetic::div_mod::lemma_add_mod_noop_right;
use vstd::arithmetic::div_mod::lemma_mod_add_multiples_vanish;
use vstd::arithmetic::div_mod::lemma_mod_sub_multiples_vanish;
use vstd::arithmetic::div_mod::lemma_small_mod;
use vstd::prelude::*;
use vstd::seq_lib::commutative_foldl;
use vstd::seq_lib::lemma_fold_left_permutation;

verus! {

/// A count wraps to itself.
proof fn lemma_wrapped_in_range(i: int)
    requires
        0 <= i <= usize::MAX,
    ensures
        wrapped(i) == i,
{
    lemma_small_mod(i as nat, (usize::MAX + 1) as nat);
}

/// Wrapping once at the end gives what wrapping at every step gives.
proof fn lemma_wrapped_step(sum: int, by: int)
    ensures
        wrapped(wrapped(sum) + by) == wrapped(sum + by),
{
    lemma_add_mod_noop_right(by, sum, usize::MAX + 1);
}

/// What one step adds to a running sum.
spec fn tally() -> spec_fn(int, Step) -> int {
    |sum: int, step: Step| sum + step.delta()
}

/// [`net`] is the fold of [`tally`] over the steps, from zero.
proof fn lemma_net_is_fold(steps: Seq<Step>)
    ensures
        net(steps) == steps.fold_left(0int, tally()),
    decreases steps.len(),
{
    if steps.len() > 0 {
        lemma_net_is_fold(steps.drop_last());
    }
}

/// An addition or a subtraction, and the look into the slot that follows it at once.
proof fn lemma_change_then_take(state: Shared, change: Step)
    requires
        change is Add || change is Sub,
    ensures
        state.run(seq![change, Step::Take]) == (Shared {
            value: wrapped(state.value + change.delta()),
            parked: None,
        }),
        state.woken(seq![change, Step::Take]) == match state.parked {
            Some(token) => seq![token],
            None => Seq::<Waker>::empty(),
        },
{
    let none = Seq::<Step>::empty();
    assert(seq![change, Step::Take] =~= none.push(change).push(Step::Take));
    lemma_one_more_step(state, none, change);
    lemma_one_more_step(state, none.push(change), Step::Take);
}

/// The steps wrap as `usize::wrapping_add` and `usize::wrapping_sub` do.
pub proof fn lemma_wraps_as_std(value: usize, by: usize)
    ensures
        Step::Add(by).count_after(value) == value.wrapping_add(by),
        Step::Sub(by).count_after(value) == value.wrapping_sub(by),
{
    let range: int = usize::MAX + 1;
    if value + by > usize::MAX {
        lemma_mod_add_multiples_vanish(value + by - range, range);
        lemma_wrapped_in_range(value + by - range);
    } else {
        lemma_wrapped_in_range(value + by);
    }
    if value - by < 0 {
        lemma_mod_sub_multiples_vanish(value - by + range, range);
        lemma_wrapped_in_range(value - by + range);
    } else {
        lemma_wrapped_in_range(value - by);
    }
}

/// A run with one more step at its end is the run, and then the step.
pub proof fn lemma_one_more_step(from: Shared, steps: Seq<Step>, step: Step)
    ensures
        from.run(steps.push(step)) == from.run(steps).after(step),
        net(steps.push(step)) == net(steps) + step.delta(),
        from.woken(steps.push(step)) == match step.wakes(from.run(steps).parked) {
            Some(token) => from.woken(steps).push(token),
            None => from.woken(steps),
        },
{
    assert(steps.push(step).drop_last() =~= steps);
}

/// Whatever the steps are and however those of different producers fall among each other,
/// the count after them is the count before them plus their net, wrapped. Steps on the
/// slot do not touch it.
pub proof fn lemma_count_after_run(from: Shared, steps: Seq<Step>)
    ensures
        from.run(steps).value == wrapped(from.value + net(steps)),
    decreases steps.len(),
{
    if steps.len() == 0 {
        lemma_wrapped_in_range(from.value as int);
    } else {
        lemma_count_after_run(from, steps.drop_last());
        lemma_wrapped_step(from.value + net(steps.drop_last()), steps.last().delta());
    }
}

/// A poll made after all the steps sees the start plus the additions less the
/// subtractions, exactly, as long as that sum is a count. The count may wrap on the way.
pub proof fn lemma_count_is_start_plus_net(from: usize, steps: Seq<Step>)
    requires
        0 <= from + net(steps) <= usize::MAX,
    ensures
        Shared::start(from).run(steps).value == from + net(steps),
{
    lemma_count_after_run(Shared::start(from), steps);
    lemma_wrapped_in_range(from + net(steps));
}

/// The order of the steps does not matter to the count: two runs that hold the same steps
/// end at the same count.
pub proof fn lemma_count_ignores_order(from: Shared, steps: Seq<Step>, shuffled: Seq<Step>)
    requires
        steps.to_multiset() == shuffled.to_multiset(),
    ensures
        net(steps) == net(shuffled),
        from.run(steps).value == from.run(shuffled).value,
{
    assert(commutative_foldl(tally()));
    lemma_fold_left_permutation(steps, shuffled, tally(), 0int);
    lemma_net_is_fold(steps);
    lemma_net_is_fold(shuffled);
    lemma_count_after_run(from, steps);
    lemma_count_after_run(from, shuffled);
}

/// Whatever a poll reads, it resolves if and only if that is at least the target, and then
/// with what it read.
pub proof fn lemma_resolved_value_reaches_target(value: usize, target: usize)
    ensures
        outcome(value, target) matches Poll::Ready(seen) ==> seen == value && seen >= target,
        outcome(value, target) is Ready <==> value >= target,
        outcome(value, target) is Pending <==> value < target,
{
}

/// On a counter that starts at zero, a poll made after `steps` resolves if and only if
/// their net has reached the target, and then with that net, which is at least the target.
/// This holds as long as the net is a count.
pub proof fn lemma_resolves_at_target(target: usize, steps: Seq<Step>)
    requires
        0 <= net(steps) <= usize::MAX,
    ensures
        outcome(Shared::start(0).run(steps).value, target) is Ready <==> net(steps) >= target,
        outcome(Shared::start(0).run(steps).value, target) matches Poll::Ready(value) ==> value
            == net(steps) && value >= target,
{
    lemma_count_is_start_plus_net(0, steps);
}

/// A mutation that no other step falls into: the count moves by its amount, wrapped, the
/// slot is left empty, and the token that was in it is woken, and no other.
pub proof fn lemma_mutation_alone(state: Shared, by: usize)
    ensures
        state.run(increment(by)) == (Shared { value: wrapped(state.value + by), parked: None }),
        state.run(decrement(by)) == (Shared { value: wrapped(state.value - by), parked: None }),
        state.woken(increment(by)) == match state.parked {
            Some(token) => seq![token],
            None => Seq::<Waker>::empty(),
        },
        state.woken(decrement(by)) == state.woken(increment(by)),
{
    lemma_change_then_take(state, Step::Add(by));
    lemma_change_then_take(state, Step::Sub(by));
}

/// A poll that no other step falls into, on a state that it has just read: it resolves with
/// the count if the target is reached and then leaves the state as it is; otherwise it
/// leaves its token in the slot, whatever was there, and wakes nobody.
pub proof fn lemma_poll_alone(state: Shared, target: usize, token: Waker)
    ensures
        state.value >= target ==> state.run(poll_steps(state.value, target, token)) == state,
        state.value < target ==> state.run(poll_steps(state.value, target, token)) == (Shared {
            value: state.value,
            parked: Some(token),
        }),
        state.woken(poll_steps(state.value, target, token)) == Seq::<Waker>::empty(),
{
    if state.value < target {
        let none = Seq::<Step>::empty();
        assert(poll_steps(state.value, target, token) =~= none.push(Step::Park(token)));
        lemma_one_more_step(state, none, Step::Park(token));
    }
}

/// One increment that takes the count from below the target to above it wakes the
/// consumer that is suspended, and the poll that follows resolves with the count as it
/// is, above the target, not with the target.
pub proof fn lemma_overshoot(state: Shared, target: usize, by: usize, token: Waker)
    requires
        state.value < target,
        target < state.value + by <= usize::MAX,
        state.parked == Some(token),
    ensures
        state.woken(increment(by)) == seq![token],
        state.run(increment(by)).parked.is_none(),
        outcome(state.run(increment(by)).value, target) == Poll::Ready(
            (state.value + by) as usize,
        ),
        outcome(state.run(increment(by)).value, target) != Poll::Ready(target),
{
    lemma_mutation_alone(state, by);
    lemma_wrapped_in_range(state.value + by);
}

/// Additions and subtractions leave the slot alone, however many there are: they wake
/// nobody, and the token that was parked before them is the one that the next look into
/// the slot wakes.
pub proof fn lemma_parked_until_taken(state: Shared, changes: Seq<Step>)
    requires
        only_arithmetic(changes),
    ensures
        state.run(changes).parked == state.parked,
        state.woken(changes) == Seq::<Waker>::empty(),
        Step::Take.wakes(state.run(changes).parked) == state.parked,
    decreases changes.len(),
{
    if changes.len() > 0 {
        assert(changes.last() == changes[changes.len() - 1]);
        lemma_parked_until_taken(state, changes.drop_last());
    }
}

/// On a counter that starts with its slot empty, no more tokens are woken than were
/// parked: the tokens woken, and the one still parked, are at most as many as the steps
/// that parked one. The slot is no queue, so they may be fewer.
pub proof fn lemma_wakes_within_parks(from: usize, steps: Seq<Step>)
    ensures
        Shared::start(from).run(steps).parked.is_some() ==> Shared::start(from).woken(
            steps,
        ).len() < parks(steps),
        Shared::start(from).woken(steps).len() <= parks(steps),
    decreases steps.len(),
{
    if steps.len() > 0 {
        lemma_wakes_within_parks(from, steps.drop_last());
    }
}

/// The window in which a wake-up is lost. A poll reads a count below the target; before it
/// has parked its token, an increment reaches the target, finds the slot empty and wakes
/// nobody; then the poll parks. The count is now at the target and the consumer is
/// suspended all the same: it is woken by the next mutation, whichever that is, and not
/// before.
pub proof fn lemma_lost_wakeup(from: usize, target: usize, by: usize, token: Waker, next: usize)
    requires
        from < target <= from + by <= usize::MAX,
    ensures
        outcome(from, target) is Pending,
        Shared::start(from).woken(increment(by).push(Step::Park(token))) == Seq::<
            Waker,
        >::empty(),
        Shared::start(from).run(increment(by).push(Step::Park(token))) == (Shared {
            value: (from + by) as usize,
            parked: Some(token),
        }),
        outcome((from + by) as usize, target) is Ready,
        Shared::start(from).run(increment(by).push(Step::Park(token))).woken(increment(next))
            == seq![token],
        Shared::start(from).run(increment(by).push(Step::Park(token))).woken(decrement(next))
            == seq![token],
{
    let start = Shared::start(from);
    lemma_mutation_alone(start, by);
    lemma_wrapped_in_range(from + by);
    lemma_one_more_step(start, increment(by), Step::Park(token));
    lemma_mutation_alone(start.run(increment(by).push(Step::Park(token))), next);
}

} // verus!
