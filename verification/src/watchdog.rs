//! The cancellation signal of the parent watchdog: a flag behind a mutex,
//! with a condition variable on which the watchdog waits for the whole
//! timeout in one blocking wait, woken early only by a cancellation.
//!
//! The flag lives behind shared references and changes under them, so its
//! value is not a function of the values that Verus sees; what the operations
//! do to it is stated in words below and checked by the tests.

use std::sync::{Condvar, Mutex, PoisonError};
use std::time::Duration;
use vstd::prelude::*;

verus! {

/// `std::sync::Mutex`, carried opaquely.
#[verifier::external_type_specification]
#[verifier::external_body]
#[verifier::reject_recursive_types(T)]
pub struct ExMutex<T: ?Sized>(Mutex<T>);

/// `std::sync::Condvar`, carried opaquely.
#[verifier::external_type_specification]
#[verifier::external_body]
pub struct ExCondvar(Condvar);

/// A new mutex holding `false` (`Mutex::new`).
#[verifier::external_body]
fn new_flag() -> Mutex<bool> {
    Mutex::new(false)
}

/// A new condition variable (`Condvar::new`).
#[verifier::external_body]
fn new_condvar() -> Condvar {
    Condvar::new()
}

/// Reads the flag under its lock (`Mutex::lock`, then the guard's `Deref`);
/// a mutex poisoned by a panic of another holder is read all the same. The
/// lock is released before returning, so no lock is ever held by the caller.
#[verifier::external_body]
fn read_flag(signal: &(Mutex<bool>, Condvar)) -> bool {
    *signal.0.lock().unwrap_or_else(PoisonError::into_inner)
}

/// Sets the flag under its lock (`Mutex::lock`, then the guard's
/// `DerefMut`), releases the lock, and wakes every waiter of the pair's
/// condition variable (`Condvar::notify_all`).
#[verifier::external_body]
fn raise_flag(signal: &(Mutex<bool>, Condvar)) {
    *signal.0.lock().unwrap_or_else(PoisonError::into_inner) = true;
    signal.1.notify_all();
}

/// Takes the lock and waits on the pair's condition variable while
/// [`still_waiting`] holds of the flag, at most for `timeout`
/// (`Condvar::wait_timeout_while`), then reads the flag under the lock. The
/// condition variable is only ever used with the mutex of its own pair.
#[verifier::external_body]
fn wait_on_flag(signal: &(Mutex<bool>, Condvar), timeout: Duration) -> bool {
    let guard = signal.0.lock().unwrap_or_else(PoisonError::into_inner);
    *signal.1.wait_timeout_while(guard, timeout, |c| still_waiting(*c)).unwrap_or_else(PoisonError::into_inner).0
}

/// The watchdog keeps waiting while no cancellation was requested.
pub fn still_waiting(cancelled: bool) -> (r: bool)
    ensures
        r == !cancelled,
{
    !cancelled
}

/// Cancellation signal for the parent watchdog.
#[derive(Debug)]
pub struct WatchdogCancel {
    signal: (Mutex<bool>, Condvar),
}

impl WatchdogCancel {
    /// A signal that has not been cancelled.
    pub fn new() -> (r: WatchdogCancel) {
        WatchdogCancel { signal: (new_flag(), new_condvar()) }
    }

    /// Requests cancellation and wakes the watchdog at once. The flag is set
    /// under the lock, and the waiters are woken after the lock is released;
    /// since a waiter checks the flag under the lock, no wakeup is lost.
    pub fn cancel(&self) {
        raise_flag(&self.signal);
    }

    /// Whether cancellation has been requested.
    pub fn is_cancelled(&self) -> (r: bool) {
        read_flag(&self.signal)
    }

    /// Blocks until cancellation is requested or `timeout` elapses, in one
    /// wait; `true` if cancelled, `false` if the time ran out first. The
    /// answer is read under the lock after the wait, so it is the flag's
    /// value at that moment, not a stale copy.
    pub fn wait_until_cancelled_or(&self, timeout: Duration) -> (r: bool) {
        wait_on_flag(&self.signal, timeout)
    }
}

} // verus!
