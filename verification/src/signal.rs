use std::sync::{Arc, Condvar, LockResult, Mutex, MutexGuard, PoisonError};
use vstd::prelude::*;

verus! {

#[verifier::external_type_specification]
#[verifier::external_body]
#[verifier::reject_recursive_types(T)]
pub struct ExMutex<T: ?Sized>(Mutex<T>);

#[verifier::external_type_specification]
#[verifier::external_body]
#[verifier::reject_recursive_types(T)]
pub struct ExMutexGuard<'a, T: ?Sized + 'a>(MutexGuard<'a, T>);

#[verifier::external_type_specification]
#[verifier::external_body]
pub struct ExCondvar(Condvar);

#[verifier::external_type_specification]
#[verifier::external_body]
#[verifier::reject_recursive_types(T)]
pub struct ExPoisonError<T>(PoisonError<T>);

/// The lock of a signal's flag, held, with the flag and condition variable it
/// belongs to. Only `lock_flag` and `wait_until_set` make one, each from the
/// lock of the pair it holds, so its guard always belongs to its pair.
struct FlagGuard<'a> {
    pair: &'a (Mutex<bool>, Condvar),
    guard: MutexGuard<'a, bool>,
}

/// Calls `std::sync::Mutex::new` on `initial`.
#[verifier::external_body]
fn new_flag(initial: bool) -> Mutex<bool> {
    Mutex::new(initial)
}

/// Calls `std::sync::Condvar::new`.
#[verifier::external_body]
fn new_condvar() -> Condvar {
    Condvar::new()
}

/// Calls `std::sync::Mutex::lock` on `flag`, which blocks until the lock is
/// free, and returns the guard, or an error holding the guard when a thread
/// panicked while holding the lock. Locking again from a thread that already
/// holds this lock blocks forever or panics, as std leaves open; the library
/// only locks where it holds no guard of this flag.
#[verifier::external_body]
fn lock<'a>(flag: &'a Mutex<bool>) -> LockResult<MutexGuard<'a, bool>> {
    flag.lock()
}

/// Calls `std::sync::Condvar::wait_while` on `cv` with the held guard: it
/// releases the lock and sleeps until the flag is set, then returns with the
/// lock held again, or an error holding the guard when the lock was poisoned.
#[verifier::external_body]
fn wait_while_unset<'a>(cv: &Condvar, guard: MutexGuard<'a, bool>) -> LockResult<
    MutexGuard<'a, bool>,
> {
    cv.wait_while(guard, still_waiting)
}

/// Calls `std::sync::PoisonError::into_inner`: the guard that a poisoned
/// lock was taken with.
#[verifier::external_body]
fn into_guard<'a>(poisoned: PoisonError<MutexGuard<'a, bool>>) -> MutexGuard<'a, bool> {
    poisoned.into_inner()
}

/// The guard of a lock result; a lock poisoned by a thread that panicked
/// while holding it is taken all the same.
fn held_guard<'a>(result: LockResult<MutexGuard<'a, bool>>) -> MutexGuard<'a, bool> {
    match result {
        Ok(guard) => guard,
        Err(poisoned) => into_guard(poisoned),
    }
}

/// Locks the flag of `pair`.
fn lock_flag<'a>(pair: &'a (Mutex<bool>, Condvar)) -> FlagGuard<'a> {
    let guard = held_guard(lock(&pair.0));
    FlagGuard { pair, guard }
}

/// Waits, with the lock of the held pair, until its flag is set.
fn wait_until_set<'a>(held: FlagGuard<'a>) -> FlagGuard<'a> {
    let FlagGuard { pair, guard } = held;
    let guard = held_guard(wait_while_unset(&pair.1, guard));
    FlagGuard { pair, guard }
}

/// Writes `value` to the flag through the held guard (`DerefMut` of
/// `std::sync::MutexGuard`).
#[verifier::external_body]
fn set_flag(held: &mut FlagGuard<'_>, value: bool) {
    *held.guard = value;
}

/// Calls `std::sync::Condvar::notify_all` on the condition variable of `pair`.
#[verifier::external_body]
fn wake_all(pair: &(Mutex<bool>, Condvar)) {
    pair.1.notify_all()
}

/// Whether a waiter must go on sleeping, given the flag.
fn still_waiting(done: &mut bool) -> (wait: bool)
    ensures
        wait == !*old(done),
        *final(done) == *old(done),
{
    !*done
}

/// A one-shot flag that one thread raises and others wait for.
#[derive(Clone)]
pub struct Signal {
    inner: Arc<(Mutex<bool>, Condvar)>,
}

impl Signal {
    /// A signal that has not been finished yet.
    pub fn new() -> Self {
        Self { inner: Arc::new((new_flag(false), new_condvar())) }
    }

    /// Blocks until the signal has been finished.
    pub fn wait(&self) {
        let held = lock_flag(&self.inner);
        let _held = wait_until_set(held);
    }

    /// Raises the signal and wakes every waiter.
    pub fn finish(self) {
        let mut held = lock_flag(&self.inner);
        set_flag(&mut held, true);
        wake_all(&self.inner);
    }
}

impl Default for Signal {
    fn default() -> Self {
        Self::new()
    }
}
} // verus!
