use async_counter::protocol::park_token;
use async_counter::protocol::take_parked;
use std::sync::atomic::AtomicUsize;
use std::sync::atomic::Ordering;
use std::sync::Arc;
use std::task::Wake;
use std::task::Waker;

/// Counts how often it has been woken.
struct Sleeper {
    woken: AtomicUsize,
}

impl Sleeper {
    fn woken(&self) -> usize {
        self.woken.load(Ordering::SeqCst)
    }
}

impl Wake for Sleeper {
    fn wake(self: Arc<Self>) {
        self.woken.fetch_add(1, Ordering::SeqCst);
    }
}

fn sleeper() -> (Arc<Sleeper>, Waker) {
    let sleeper = Arc::new(Sleeper { woken: AtomicUsize::new(0) });
    let waker = Waker::from(sleeper.clone());
    (sleeper, waker)
}

#[test]
fn take_parked_empties_the_slot_and_hands_out_its_token() {
    let (sleeper, waker) = sleeper();
    let mut slot = Some(waker);
    let woken = take_parked(&mut slot);
    assert!(slot.is_none());
    // Taking wakes nobody by itself: the token is handed out to be woken.
    assert_eq!(sleeper.woken(), 0);
    woken.expect("the token that was parked").wake();
    assert_eq!(sleeper.woken(), 1);
}

#[test]
fn take_parked_finds_nothing_in_an_empty_slot() {
    let mut slot: Option<Waker> = None;
    assert!(take_parked(&mut slot).is_none());
    assert!(slot.is_none());
}

#[test]
fn park_token_fills_an_empty_slot() {
    let (sleeper, waker) = sleeper();
    let mut slot: Option<Waker> = None;
    let displaced = park_token(&mut slot, waker.clone());
    assert!(displaced.is_none());
    assert!(slot.as_ref().expect("the token just parked").will_wake(&waker));
    assert_eq!(sleeper.woken(), 0);
}

#[test]
fn park_token_displaces_the_token_that_was_parked() {
    let (first, first_waker) = sleeper();
    let (second, second_waker) = sleeper();
    let mut slot = Some(first_waker.clone());
    let displaced = park_token(&mut slot, second_waker.clone());
    assert!(displaced.expect("the token displaced").will_wake(&first_waker));
    assert!(slot.as_ref().expect("the token just parked").will_wake(&second_waker));
    assert!(!slot.as_ref().expect("the token just parked").will_wake(&first_waker));
    // Nobody was woken by the exchange.
    assert_eq!(first.woken(), 0);
    assert_eq!(second.woken(), 0);
}

#[test]
fn what_is_parked_last_is_taken() {
    let (first, first_waker) = sleeper();
    let (second, second_waker) = sleeper();
    let mut slot: Option<Waker> = None;
    park_token(&mut slot, first_waker);
    park_token(&mut slot, second_waker);
    take_parked(&mut slot).expect("the token parked last").wake();
    assert_eq!(first.woken(), 0);
    assert_eq!(second.woken(), 1);
    assert!(take_parked(&mut slot).is_none());
}
