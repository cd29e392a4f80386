//! The standard library's lock and waker, as the token handles use them.
use std::sync::{Mutex, MutexGuard};
use std::task::Waker;
use vstd::prelude::*;

verus! {

#[verifier::external_type_specification]
#[verifier::external_body]
#[verifier::reject_recursive_types(T)]
pub struct ExMutex<T: ?Sized>(Mutex<T>);

#[verifier::external_type_specification]
#[verifier::external_body]
#[verifier::reject_recursive_types(T)]
pub struct ExMutexGuard<'a, T: ?Sized + 'a>(MutexGuard<'a, T>);

#[verifier::external_type_specification]
#[verifier::external_body]
pub struct ExWaker(Waker);

/// Relies on Mutex::new: a lock around `t`, not held by anyone.
pub assume_specification<T>[ Mutex::<T>::new ](t: T) -> Mutex<T>;

/// Relies on Waker::wake: asks the scheduler to resume the task that the waker belongs to.
pub assume_specification[ Waker::wake ](waker: Waker);

/// Relies on Waker's Clone: another handle that resumes the same task.
pub assume_specification[ <Waker as Clone>::clone ](waker: &Waker) -> Waker;

/// Relies on Mutex::lock: blocks until the lock is held. A lock poisoned by a panic elsewhere is
/// still handed out through PoisonError::into_inner, since every update of the guarded latch is
/// made in one step.
#[verifier::external_body]
pub(crate) fn lock<S>(m: &Mutex<S>) -> MutexGuard<'_, S> {
    match m.lock() {
        Ok(guard) => guard,
        Err(poisoned) => poisoned.into_inner(),
    }
}

/// Relies on MutexGuard's DerefMut: the value that the held lock guards.
#[verifier::external_body]
pub(crate) fn guarded<'a, 'b, S>(guard: &'a mut MutexGuard<'b, S>) -> &'a mut S {
    &mut **guard
}

} // verus!
