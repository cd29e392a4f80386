//! Cancelation of a task's wait on a pending operation.
//!
//! Every handle of a pair refers to one [`Latch`] behind a shared lock. What each call does to
//! that latch is the step that [`Latch`] states and proves (a fire, a poll, a read); since other
//! handles change the latch between calls, the handles' own contracts say nothing of its state.
use crate::latch::Latch;
use crate::shared::{guarded, lock};
use std::sync::{Arc, Mutex};
use std::task::Waker;
use vstd::prelude::*;

verus! {

/// Cancels the operations that the matching [`Cancelable`] handles wait on.
#[derive(Debug)]
pub struct CancelationToken {
    shared_state: Arc<Mutex<Latch<(), Waker>>>,
}

/// Held by the task whose waits can be canceled.
#[derive(Debug)]
pub struct Cancelable {
    shared_state: Arc<Mutex<Latch<(), Waker>>>,
}

/// Resolves once the matching [`CancelationToken`] has canceled.
#[derive(Debug)]
pub struct CancelationTokenFuture {
    shared_state: Arc<Mutex<Latch<(), Waker>>>,
}

impl CancelationToken {
    /// The shared cell that holds the latch this token refers to.
    pub closed spec fn cell(&self) -> Arc<Mutex<Latch<(), Waker>>> {
        self.shared_state
    }

    /// A new token and the [`Cancelable`] it cancels, sharing one pending latch.
    pub fn new() -> (r: (CancelationToken, Cancelable))
        ensures
            r.0.cell() == r.1.cell(),
    {
        let shared_state = Arc::new(Mutex::new(Latch::new()));
        let cancelation_token = CancelationToken { shared_state: shared_state.clone() };
        let cancelable = Cancelable { shared_state };
        (cancelation_token, cancelable)
    }

    /// Cancels. Any number of calls is safe: only the first fires the latch and resumes the
    /// party that waits on it, once the lock is released.
    pub fn cancel(&self) {
        let resumed = {
            let mut guard = lock(&self.shared_state);
            guarded(&mut guard).fire(())
        };
        if let Ok(Some(waker)) = resumed {
            waker.wake();
        }
    }
}

impl Cancelable {
    /// The shared cell that holds the latch this handle refers to.
    pub closed spec fn cell(&self) -> Arc<Mutex<Latch<(), Waker>>> {
        self.shared_state
    }

    /// Whether the matching token has canceled. A race over an operation checks this before it
    /// first polls the operation, and settles at once on the cancel result when it holds.
    pub fn is_canceled(&self) -> bool {
        let mut guard = lock(&self.shared_state);
        let fired = guarded(&mut guard).is_fired();
        fired
    }

    /// A future that resolves once the matching token has canceled, to be raced against an
    /// operation.
    pub fn future(&self) -> (r: CancelationTokenFuture)
        ensures
            r.cell() == self.cell(),
    {
        CancelationTokenFuture { shared_state: self.shared_state.clone() }
    }
}

impl CancelationTokenFuture {
    /// The shared cell that holds the latch this future refers to.
    pub closed spec fn cell(&self) -> Arc<Mutex<Latch<(), Waker>>> {
        self.shared_state
    }

    /// One poll of the future: `true` once canceled. While not, `waker` is registered to be
    /// woken by the cancel, in place of any waker registered before.
    pub fn poll_canceled(&self, waker: &Waker) -> bool {
        let continuation = waker.clone();
        let mut guard = lock(&self.shared_state);
        let ready = guarded(&mut guard).poll(continuation);
        ready.is_some()
    }
}

impl Clone for CancelationToken {
    fn clone(&self) -> (r: Self)
        ensures
            r.cell() == self.cell(),
    {
        CancelationToken { shared_state: self.shared_state.clone() }
    }
}

impl Clone for Cancelable {
    fn clone(&self) -> (r: Self)
        ensures
            r.cell() == self.cell(),
    {
        Cancelable { shared_state: self.shared_state.clone() }
    }
}

/// Which side of a race between an operation and the cancelation signal finished first.
#[derive(Debug)]
pub enum RaceWinner<T> {
    /// The operation finished, with this value.
    Operation(T),
    /// The cancelation signal fired first.
    Cancelation,
}

impl<T> RaceWinner<T> {
    /// The value that the race returns: the operation's own value when it won, and
    /// `canceled_result` when the cancelation did. The operation's value is passed on as it
    /// is, errors included.
    pub fn into_result(self, canceled_result: T) -> (r: T)
        ensures
            r == match self {
                RaceWinner::Operation(v) => v,
                RaceWinner::Cancelation => canceled_result,
            },
    {
        match self {
            RaceWinner::Operation(v) => v,
            RaceWinner::Cancelation => canceled_result,
        }
    }
}

} // verus!
