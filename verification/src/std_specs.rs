//! The items of `std` that the counter is built from and that Verus has to take on trust.
//!
//! Nothing in this file is proved. Each contract is a reading of the documentation of the
//! item that it names.

use crate::counter::Counter;
use std::ops::Deref;
use std::ops::DerefMut;
use std::pin::Pin;
use std::sync::atomic::AtomicUsize;
use std::sync::Arc;
use std::sync::Mutex;
use std::sync::MutexGuard;
use std::task::Context;
use std::task::Poll;
use std::task::Waker;
use vstd::prelude::*;

verus! {

/// `std::sync::Mutex`. Opaque: Verus sees nothing of what it guards.
#[verifier::external_type_specification]
#[verifier::external_body]
#[verifier::reject_recursive_types(T)]
pub struct ExMutex<T: ?Sized>(Mutex<T>);

/// `std::sync::MutexGuard`: the proof that a lock is held. Opaque.
#[verifier::external_type_specification]
#[verifier::external_body]
#[verifier::reject_recursive_types(T)]
pub struct ExMutexGuard<'a, T: ?Sized + 'a>(MutexGuard<'a, T>);

/// `std::task::Waker`: the token that resumes a suspended consumer. Opaque.
#[verifier::external_type_specification]
#[verifier::external_body]
pub struct ExWaker(Waker);

/// `std::task::Context`, which carries the waker of the task that polls. Opaque.
#[verifier::external_type_specification]
#[verifier::external_body]
pub struct ExContext<'a>(Context<'a>);

/// `std::pin::Pin`. Opaque.
#[verifier::external_type_specification]
#[verifier::external_body]
#[verifier::reject_recursive_types(Ptr)]
pub struct ExPin<Ptr>(Pin<Ptr>);

/// `std::task::Poll`, with its two variants `Ready` and `Pending` as `std` defines them.
#[verifier::external_type_specification]
pub struct ExPoll<T>(Poll<T>);

/// The value that an atomic cell was made with. A cell is made once, so this never changes,
/// whatever the cell holds later.
pub uninterp spec fn started_at(cell: AtomicUsize) -> usize;

/// What a slot held when it was made. As with [`started_at`], this is a fact about the
/// making of the slot, not about what it holds now.
pub uninterp spec fn made_with(slot: Mutex<Option<Waker>>) -> Option<Waker>;

/// `AtomicUsize::new`: the new cell starts at `from`.
#[verifier::external_body]
pub(crate) fn fresh_cell(from: usize) -> (cell: AtomicUsize)
    ensures
        started_at(cell) == from,
{
    AtomicUsize::new(from)
}

/// `Mutex::new`: the new slot starts with `token` in it.
#[verifier::external_body]
pub(crate) fn fresh_slot(token: Option<Waker>) -> (slot: Mutex<Option<Waker>>)
    ensures
        made_with(slot) == token,
{
    Mutex::new(token)
}

/// `Arc::clone`: a second pointer to the same allocation, so to the same value.
#[verifier::external_body]
pub(crate) fn share<T>(shared: &Arc<T>) -> (again: Arc<T>)
    ensures
        again == *shared,
{
    Arc::clone(shared)
}

/// `Mutex::lock`, with the `expect` on what it returns: waits for the slot and hands out
/// the guard through which its content is reached. The lock is released when the guard is
/// dropped.
///
/// `expect` fires only on a poisoned lock, that is, after a thread has panicked with a
/// guard alive, and `lock` itself may panic or never return only where the calling thread
/// holds the lock already. Neither happens: the counter keeps a guard for one `Option::take`
/// or one `mem::swap` and for nothing else.
#[verifier::external_body]
pub(crate) fn lock_slot<'a>(
    slot: &'a Mutex<Option<Waker>>,
) -> (guard: MutexGuard<'a, Option<Waker>>) {
    slot.lock().expect("Counter inner mutex must lock")
}

/// `DerefMut::deref_mut` of a guard: the content of the slot, to read and to write for as
/// long as the borrow lasts. What is found there depends on what other threads did before
/// the lock was taken, so nothing is promised of it.
#[verifier::external_body]
pub(crate) fn guarded<'a, 'b>(
    guard: &'a mut MutexGuard<'b, Option<Waker>>,
) -> (content: &'a mut Option<Waker>) {
    guard.deref_mut()
}

/// The handle behind a pin: what `Deref::deref` finds there. It belongs to the pin, and is
/// the same for as long as the pin is.
pub uninterp spec fn pinned_handle(pin: Pin<&mut Counter>) -> Counter;

/// `Deref::deref` of a `Pin`: a shared borrow of the handle behind the pin.
#[verifier::external_body]
pub(crate) fn pinned<'a>(pin: &'a Pin<&mut Counter>) -> (handle: &'a Counter)
    ensures
        *handle == pinned_handle(*pin),
{
    pin.deref()
}

/// `Waker::wake`: signals the scheduler that the task behind the token is to be polled
/// again. It returns nothing; what the scheduler does on the signal is its own matter.
pub assume_specification[ Waker::wake ](token: Waker);

/// `Waker::clone`: another token for the same task. Tokens are opaque, so no clause says
/// so.
pub assume_specification[ <Waker as Clone>::clone ](token: &Waker) -> (again: Waker);

/// `Context::waker`: the token of the task that is polling. No clause, for the same reason.
pub assume_specification<'a>[ Context::<'a>::waker ](cx: &Context<'a>) -> (token: &'a Waker);

} // verus!
