//! A one-shot handoff: a task announces, once, that it has reached a milestone.
//!
//! Every handle of a pair refers to one [`Latch`] behind a shared lock. What each call does to
//! that latch is the step that [`Latch`] states and proves (a fire, a poll, a read); since other
//! handles change the latch between calls, the handles' own contracts say nothing of its state.
use crate::latch::{DoubleCompletionError, Latch};
use crate::shared::{guarded, lock};
use std::sync::{Arc, Mutex};
use std::task::Waker;
use vstd::prelude::*;

verus! {

/// Waits for the matching [`Completable`] to complete, and then delivers its result. Every clone
/// delivers the same result.
#[derive(Debug)]
#[verifier::reject_recursive_types(T)]
pub struct CompletionToken<T> {
    shared_state: Arc<Mutex<Latch<T, Waker>>>,
}

/// The single writer of a completion: completes the matching [`CompletionToken`] once.
#[derive(Debug)]
#[verifier::reject_recursive_types(T)]
pub struct Completable<T> {
    shared_state: Arc<Mutex<Latch<T, Waker>>>,
}

impl<T> CompletionToken<T> {
    /// The shared cell that holds the latch this token refers to.
    pub closed spec fn cell(&self) -> Arc<Mutex<Latch<T, Waker>>> {
        self.shared_state
    }

    /// A new token and the [`Completable`] that completes it, sharing one pending latch.
    pub fn new() -> (r: (CompletionToken<T>, Completable<T>))
        ensures
            r.0.cell() == r.1.cell(),
    {
        let shared_state = Arc::new(Mutex::new(Latch::new()));
        let completion_token = CompletionToken { shared_state: shared_state.clone() };
        let completable = Completable { shared_state };
        (completion_token, completable)
    }

    /// Whether the matching [`Completable`] has completed.
    pub fn is_completed(&self) -> bool {
        let mut guard = lock(&self.shared_state);
        let fired = guarded(&mut guard).is_fired();
        fired
    }
}

impl<T: Clone> CompletionToken<T> {
    /// One poll of the token: a copy of the result once completed. While not, `waker` is
    /// registered to be woken by the completion, in place of any waker registered before.
    pub fn poll_result(&self, waker: &Waker) -> Option<T> {
        let continuation = waker.clone();
        let mut guard = lock(&self.shared_state);
        let ready = guarded(&mut guard).poll(continuation);
        ready
    }
}

impl<T> Completable<T> {
    /// The shared cell that holds the latch this completable refers to.
    pub closed spec fn cell(&self) -> Arc<Mutex<Latch<T, Waker>>> {
        self.shared_state
    }

    /// Completes with `result` and wakes the waiting token, once the lock is released. A second
    /// completion is a contract violation: it changes nothing and hands `result` back in the
    /// error.
    pub fn complete(&self, result: T) -> (r: Result<(), DoubleCompletionError<T>>)
        ensures
            r matches Err(e) ==> e.rejected == result,
    {
        let fired = {
            let mut guard = lock(&self.shared_state);
            guarded(&mut guard).fire(result)
        };
        match fired {
            Ok(resumed) => {
                if let Some(waker) = resumed {
                    waker.wake();
                }
                Ok(())
            },
            Err(e) => Err(e),
        }
    }
}

impl<T> Clone for CompletionToken<T> {
    fn clone(&self) -> (r: Self)
        ensures
            r.cell() == self.cell(),
    {
        CompletionToken { shared_state: self.shared_state.clone() }
    }
}

} // verus!
