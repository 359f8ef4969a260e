//! A counter that is shared between any number of producers, and on which a consumer can
//! wait until it has reached a target.
//!
//! [`Counter`] is the handle. Producers move the count with [`Counter::inc`] and
//! [`Counter::dec`], or with `+`, `-`, `+=` and `-=`; a consumer awaits the handle, which
//! is a `Future` that resolves with the count once the count is at or above the target.
//!
//! [`protocol`] holds the rules that the handle follows: the steps that an operation is
//! made of, and what a poll decides. [`laws`] proves what follows for every run of steps.
//!
//! [`std_specs`] lists what is taken from `std` without proof. The count is an
//! `AtomicUsize` and the slot a `Mutex`: that `fetch_add` and `fetch_sub` are the steps
//! `Add` and `Sub` of the protocol is read from their documentation. The steps on the
//! slot and the decision of a poll are verified code.

pub mod counter;
pub mod laws;
pub mod protocol;
pub mod std_specs;

pub use counter::Counter;
