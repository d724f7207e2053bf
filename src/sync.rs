//! The parts of std that the stream is built on and that Verus has no
//! specification for: the mutex that guards a store and the wakers of
//! suspended readers.
use std::sync::{Arc, Mutex, MutexGuard, PoisonError};
use std::task::Waker;
use vstd::prelude::*;

verus! {

#[verifier::external_type_specification]
#[verifier::external_body]
#[verifier::reject_recursive_types(T)]
pub struct ExMutex<T: ?Sized>(Mutex<T>);

#[verifier::external_type_specification]
#[verifier::external_body]
#[verifier::reject_recursive_types(T)]
pub struct ExMutexGuard<'a, T: ?Sized + 'a>(MutexGuard<'a, T>);

#[verifier::external_type_specification]
#[verifier::external_body]
#[verifier::reject_recursive_types(T)]
pub struct ExPoisonError<T>(PoisonError<T>);

#[verifier::external_type_specification]
#[verifier::external_body]
pub struct ExWaker(Waker);

/// Relies on `Waker::clone`: a handle to the same task; nothing is known of it.
pub assume_specification[ <Waker as Clone>::clone ](w: &Waker) -> Waker;

/// Relies on `Waker::wake`: schedules the task; it returns nothing.
pub assume_specification[ Waker::wake ](w: Waker);

/// Relies on `Mutex::new`: a fresh, unlocked mutex around `value`.
#[verifier::external_body]
pub(crate) fn new_mutex<T>(value: T) -> Mutex<T> {
    Mutex::new(value)
}

/// Relies on `Mutex::lock`: blocks until the lock is held; fails when an
/// earlier holder panicked while holding it. Std leaves open what happens
/// when the calling thread holds the lock already (it may deadlock or
/// panic). Verus cannot state which thread holds a lock, so this condition
/// stays with the library's callers, as each locking operation documents.
#[verifier::external_body]
pub(crate) fn lock_mutex<T>(m: &Mutex<T>) -> Result<MutexGuard<'_, T>, PoisonError<MutexGuard<'_, T>>> {
    m.lock()
}

/// Relies on `MutexGuard`'s `DerefMut`: the guarded value, borrowed for as
/// long as the guard. Other holders may have changed it, so nothing is known
/// of it.
#[verifier::external_body]
pub(crate) fn guarded<'a, 'b, T>(g: &'a mut MutexGuard<'b, T>) -> &'a mut T {
    &mut *g
}

/// Relies on `Arc::as_ptr`: the address of the shared allocation, which
/// is the same for every handle to it and differs between live ones.
#[verifier::external_body]
pub(crate) fn store_address<T>(a: &Arc<T>) -> usize {
    Arc::as_ptr(a) as usize
}

/// Wakes every waker of `wakers`, in order.
pub fn wake_all(wakers: Vec<Waker>) {
    let mut rest = wakers;
    while rest.len() > 0
        decreases rest.len(),
    {
        let w = rest.remove(0);
        w.wake();
    }
}

} // verus!
