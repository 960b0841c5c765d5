//! The handle that producers and consumers share: every clone reaches the same
//! `SignalState` behind one lock.
use std::sync::Arc;
use std::task::Waker;
use vstd::prelude::*;
use vstd::rwlock::{RwLock, RwLockPredicate};

use crate::state::{debug_text, SignalState};

verus! {

#[verifier::external_type_specification]
#[verifier::external_body]
pub struct ExWaker(Waker);

/// Relies on `std::task::Waker::wake`: it schedules the task that the waker
/// belongs to and returns; nothing about the signal depends on what it does.
pub assume_specification[ Waker::wake ](w: Waker);

/// What the lock of a signal may hold: a well-formed state.
pub struct WellFormed;

impl<T> RwLockPredicate<SignalState<Waker, T>> for WellFormed {
    open spec fn inv(self, v: SignalState<Waker, T>) -> bool {
        v.wf()
    }
}

/// A cancellation signal whose deferred action has type `T`. Clones share one
/// state; a trigger through any of them is seen through all of them.
pub struct CancelationToken<T> {
    shared_state: Arc<RwLock<SignalState<Waker, T>, WellFormed>>,
}

impl<T> CancelationToken<T> {
    #[verifier::type_invariant]
    spec fn lock_holds_wf(self) -> bool {
        self.shared_state.pred() == WellFormed
    }

    /// The lock that guards this signal's state; clones share it.
    pub closed spec fn signal(self) -> RwLock<SignalState<Waker, T>, WellFormed> {
        *self.shared_state
    }

    /// The lock of this signal admits exactly the well-formed states: none
    /// with a waiter left registered after cancellation.
    pub open spec fn admits_exactly_wf(self) -> bool {
        forall|v: SignalState<Waker, T>| #[trigger] self.signal().inv(v) <==> v.wf()
    }

    /// A new signal. Its lock starts out holding `SignalState::new()`: not
    /// canceled, no waiter, no deferred action.
    pub fn new() -> (r: Self)
        ensures
            r.admits_exactly_wf(),
    {
        let state = SignalState::new();
        CancelationToken { shared_state: Arc::new(RwLock::new(state, Ghost(WellFormed))) }
    }

    /// Whether cancellation has been requested.
    pub fn is_canceled(&self) -> (r: bool) {
        let handle = self.shared_state.acquire_read();
        let r = handle.borrow().is_canceled();
        handle.release_read();
        r
    }

    /// Registers `task` as the action that the next trigger hands out,
    /// dropping any earlier one without running it.
    pub fn set_task(&self, task: T) {
        proof {
            use_type_invariant(self);
        }
        let (mut state, handle) = self.shared_state.acquire_write();
        let _replaced = state.set_task(task);
        handle.release_write(state);
        // `_replaced` is dropped on return, after the lock is released.
    }

    /// The check that a waiting consumer makes: `true` when the signal is
    /// raised; otherwise `waker` becomes the waiter that the next trigger
    /// resumes, in place of any earlier one, and the result is `false`.
    pub fn poll(&self, waker: Waker) -> (ready: bool) {
        proof {
            use_type_invariant(self);
        }
        let (mut state, handle) = self.shared_state.acquire_write();
        let polled = state.poll(waker);
        handle.release_write(state);
        // The waker in `polled.released` is dropped on return, after the lock
        // is released.
        polled.ready
    }

    /// Raises the signal, resumes the registered waiter if there is one, and
    /// hands out the deferred action if there is one, emptying its slot so
    /// that no later trigger sees it. The lock is released before the waiter
    /// is resumed, and the caller runs the action with no lock held.
    pub fn complete(&self) -> (task: Option<T>) {
        proof {
            use_type_invariant(self);
        }
        let (mut state, handle) = self.shared_state.acquire_write();
        let taken = state.cancel();
        handle.release_write(state);
        match taken.waker {
            Some(w) => w.wake(),
            None => {},
        }
        taken.task
    }

    /// A diagnostic description that shows the flag alone, read under the
    /// lock by `SignalState::debug_string`.
    pub fn debug_string(&self) -> (r: String)
        ensures
            r@ == debug_text(true) || r@ == debug_text(false),
    {
        let handle = self.shared_state.acquire_read();
        let r = handle.borrow().debug_string();
        handle.release_read();
        r
    }
}

impl<T> Clone for CancelationToken<T> {
    /// Another handle to the same signal.
    fn clone(&self) -> (r: Self)
        ensures
            r.signal() == self.signal(),
    {
        CancelationToken { shared_state: Arc::clone(&self.shared_state) }
    }
}

} // verus!
