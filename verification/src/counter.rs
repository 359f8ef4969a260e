//! The handle: what producers and consumers hold of a counter.

use crate::protocol::outcome;
use crate::protocol::park_token;
use crate::protocol::resolve;
use crate::protocol::Shared;
use crate::protocol::take_parked;
use crate::std_specs::fresh_cell;
use crate::std_specs::fresh_slot;
use crate::std_specs::guarded;
use crate::std_specs::lock_slot;
use crate::std_specs::made_with;
use crate::std_specs::pinned;
use crate::std_specs::pinned_handle;
use crate::std_specs::share;
use crate::std_specs::started_at;
use std::future::Future;
use std::ops::Add;
use std::ops::AddAssign;
use std::ops::Sub;
use std::ops::SubAssign;
use std::pin::Pin;
use std::sync::atomic::AtomicUsize;
use std::sync::atomic::Ordering;
use std::sync::Arc;
use std::sync::Mutex;
use std::task::Context;
use std::task::Poll;
use std::task::Waker;
use vstd::prelude::*;
use vstd::std_specs::ops::AddSpecImpl;
use vstd::std_specs::ops::SubSpecImpl;

verus! {

/// A handle on a counter with a target.
///
/// Any number of handles may be on one counter; [`Clone`] makes another. Producers move
/// the count through theirs, from any thread. A consumer awaits its handle, which resolves
/// with the count once that has reached the target.
///
/// The count and the slot are behind the handle, not in it: what they hold changes under
/// a handle that itself stays the same. So the contracts below speak of the handle, of how
/// its counter was made, and of what a call returns. What the calls do to the count and
/// the slot is laid down step by step in [`crate::protocol`]. Each step is indivisible:
/// those on the count are sequentially consistent atomic operations, those on the slot
/// are made under its lock.
#[derive(Debug)]
pub struct Counter {
    value: Arc<AtomicUsize>,
    target: usize,
    waker: Arc<Mutex<Option<Waker>>>,
}

impl Counter {
    /// The target: fixed when the counter is made, and the same on every clone.
    pub closed spec fn target(&self) -> usize {
        self.target
    }

    /// The state in which the counter behind this handle was made.
    pub closed spec fn origin(&self) -> Shared {
        Shared { value: started_at(*self.value), parked: made_with(*self.waker) }
    }

    /// Makes a counter that starts at `from`, with nobody suspended on it, and hands out
    /// the first handle on it.
    pub fn new(from: usize, target: usize) -> (counter: Self)
        ensures
            counter.origin() == Shared::start(from),
            counter.target() == target,
    {
        Counter {
            value: Arc::new(fresh_cell(from)),
            target,
            waker: Arc::new(fresh_slot(None)),
        }
    }

    /// Makes a counter that starts at zero.
    pub fn to(target: usize) -> (counter: Self)
        ensures
            counter.origin() == Shared::start(0),
            counter.target() == target,
    {
        Self::new(0, target)
    }

    /// Adds `rhs` to the count, then wakes the consumer that is suspended, if one is. The
    /// count wraps past `usize::MAX`. These are the steps of [`crate::protocol::increment`].
    pub fn inc(&self, rhs: usize) {
        self.value.fetch_add(rhs, Ordering::SeqCst);
        self.notify();
    }

    /// Subtracts `rhs` from the count, then wakes the consumer that is suspended, if one
    /// is. The count wraps below zero. These are the steps of
    /// [`crate::protocol::decrement`].
    pub fn dec(&self, rhs: usize) {
        self.value.fetch_sub(rhs, Ordering::SeqCst);
        self.notify();
    }

    /// Empties the slot, and wakes the token that was in it. The token is woken after the
    /// slot has been released.
    fn notify(&self) {
        let woken = {
            let mut guard = lock_slot(&self.waker);
            take_parked(guarded(&mut guard))
        };
        match woken {
            Some(token) => token.wake(),
            None => {},
        }
    }

    /// Reads the count as it is at this moment. Other handles may move it at once.
    pub fn value(&self) -> usize {
        self.value.load(Ordering::SeqCst)
    }

    /// Leaves `token` in the slot. A token that was there is dropped without being woken:
    /// the slot keeps the consumer that suspended last, and no other.
    pub fn park(&self, token: Waker) {
        // The displaced token outlives the guard: it is dropped once the slot is released.
        let _displaced = {
            let mut guard = lock_slot(&self.waker);
            park_token(guarded(&mut guard), token)
        };
    }

    /// One poll on behalf of the task that `token` wakes: reads the count, and resolves with
    /// it if it has reached the target; otherwise parks a clone of `token` and stays
    /// pending. Between the reading and the parking other handles may move the count.
    ///
    /// What comes back is the [`outcome`] of the count that was read, whatever that was. So
    /// a poll never resolves below the target, and with a target of zero it always resolves.
    pub fn poll_with(&self, token: &Waker) -> (r: Poll<usize>)
        ensures
            exists|seen: usize| r == outcome(seen, self.target()),
            r matches Poll::Ready(value) ==> value >= self.target(),
            r is Pending ==> self.target() > 0,
    {
        let seen = self.value();
        let r = resolve(seen, self.target);
        match r {
            Poll::Ready(_) => {},
            Poll::Pending => self.park(token.clone()),
        }
        assert(r == outcome(seen, self.target()));
        r
    }
}

impl Clone for Counter {
    /// Another handle on the same counter: the same count, the same slot, the same target.
    /// Nothing of the counter is copied but the target, which never changes.
    fn clone(&self) -> (counter: Self)
        ensures
            counter == *self,
    {
        Counter { value: share(&self.value), target: self.target, waker: share(&self.waker) }
    }
}

impl Future for Counter {
    type Output = usize;

    /// One poll, as [`Counter::poll_with`] makes it on the handle behind the pin, with the
    /// token of the task that polls: the [`outcome`] of the count that was read. It resolves
    /// with that count, never below the target of the handle, and always if the target is
    /// zero.
    fn poll(self: Pin<&mut Self>, cx: &mut Context<'_>) -> (r: Poll<usize>)
        ensures
            exists|seen: usize| r == outcome(seen, pinned_handle(self).target()),
            r matches Poll::Ready(value) ==> value >= pinned_handle(self).target(),
            r is Pending ==> pinned_handle(self).target() > 0,
    {
        pinned(&self).poll_with(cx.waker())
    }
}

impl AddAssign<usize> for Counter {
    /// [`Counter::inc`]. The handle is left as it was.
    fn add_assign(&mut self, rhs: usize)
        ensures
            *final(self) == *old(self),
    {
        self.inc(rhs);
    }
}

impl SubAssign<usize> for Counter {
    /// [`Counter::dec`]. The handle is left as it was.
    fn sub_assign(&mut self, rhs: usize)
        ensures
            *final(self) == *old(self),
    {
        self.dec(rhs);
    }
}

impl AddSpecImpl<usize> for Counter {
    open spec fn obeys_add_spec() -> bool {
        true
    }

    open spec fn add_req(self, rhs: usize) -> bool {
        true
    }

    open spec fn add_spec(self, rhs: usize) -> Counter {
        self
    }
}

impl Add<usize> for Counter {
    type Output = Counter;

    /// [`Counter::inc`], handing the handle back.
    fn add(self, rhs: usize) -> Counter {
        self.inc(rhs);
        self
    }
}

impl SubSpecImpl<usize> for Counter {
    open spec fn obeys_sub_spec() -> bool {
        true
    }

    open spec fn sub_req(self, rhs: usize) -> bool {
        true
    }

    open spec fn sub_spec(self, rhs: usize) -> Counter {
        self
    }
}

impl Sub<usize> for Counter {
    type Output = Counter;

    /// [`Counter::dec`], handing the handle back.
    fn sub(self, rhs: usize) -> Counter {
        self.dec(rhs);
        self
    }
}

} // verus!
