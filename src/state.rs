//! The state behind every handle of one cancellation signal, as a state
//! machine: a flag that only ever goes up, one slot for the waiter to resume,
//! and one slot for a deferred action.
use vstd::prelude::*;

verus! {

/// The shared state of a signal. `W` is what resumes a suspended waiter,
/// `T` the deferred action.
pub struct SignalState<W, T> {
    /// Whether cancellation has been requested; never goes back to `false`.
    pub canceled: bool,
    /// The most recently registered waiter; a new registration replaces it.
    pub waker: Option<W>,
    /// The action that the next trigger takes out and hands to its caller.
    pub task: Option<T>,
}

/// One thing that can happen to the shared state.
pub enum Step<W, T> {
    /// A consumer checks the signal and, if it is not raised, registers `W`.
    Poll(W),
    /// A deferred action is registered, replacing any earlier one.
    SetTask(T),
    /// A producer triggers the signal.
    Cancel,
}

/// What a poll hands back: whether the signal was raised, and the waiter
/// that the state no longer holds (the given one when the signal was raised,
/// else the one it replaced).
pub struct Polled<W> {
    pub ready: bool,
    pub released: Option<W>,
}

/// What a trigger hands back: the waiter to resume and the action to run.
pub struct Triggered<W, T> {
    pub waker: Option<W>,
    pub task: Option<T>,
}

/// The diagnostic text of a signal whose flag is `canceled`.
pub open spec fn debug_text(canceled: bool) -> Seq<char> {
    if canceled {
        "CancelationToken { canceled: true }"@
    } else {
        "CancelationToken { canceled: false }"@
    }
}

impl<W, T> SignalState<W, T> {
    /// Once the signal is raised no waiter stays registered.
    pub open spec fn wf(self) -> bool {
        self.canceled ==> self.waker is None
    }

    pub open spec fn initial() -> Self {
        SignalState { canceled: false, waker: None, task: None }
    }

    /// A poll registers its waiter unless the signal is already raised.
    pub open spec fn after_poll(self, w: W) -> Self {
        if self.canceled {
            self
        } else {
            SignalState { canceled: false, waker: Some(w), task: self.task }
        }
    }

    pub open spec fn after_set_task(self, t: T) -> Self {
        SignalState { canceled: self.canceled, waker: self.waker, task: Some(t) }
    }

    /// A trigger raises the flag and empties both slots.
    pub open spec fn after_cancel(self) -> Self {
        SignalState { canceled: true, waker: None, task: None }
    }

    /// What a trigger takes out of the slots.
    pub open spec fn cancel_outcome(self) -> Triggered<W, T> {
        Triggered { waker: self.waker, task: self.task }
    }

    pub open spec fn step(self, e: Step<W, T>) -> Self {
        match e {
            Step::Poll(w) => self.after_poll(w),
            Step::SetTask(t) => self.after_set_task(t),
            Step::Cancel => self.after_cancel(),
        }
    }

    /// The state after the steps, taken in order.
    pub open spec fn run(self, steps: Seq<Step<W, T>>) -> Self
        decreases steps.len(),
    {
        if steps.len() == 0 {
            self
        } else {
            self.run(steps.drop_last()).step(steps.last())
        }
    }

    /// A fresh state: not canceled, no waiter, no action.
    pub fn new() -> (r: Self)
        ensures
            r == Self::initial(),
            r.wf(),
    {
        SignalState { canceled: false, waker: None, task: None }
    }

    pub fn is_canceled(&self) -> (r: bool)
        ensures
            r == self.canceled,
    {
        self.canceled
    }

    /// Checks the signal on behalf of a waiter. When it is raised, leaves
    /// the state as it is and hands `waker` back unused; otherwise stores
    /// `waker` and hands back the waiter it replaces. Nothing is dropped here,
    /// so the caller chooses when the value handed back goes.
    pub fn poll(&mut self, waker: W) -> (r: Polled<W>)
        ensures
            r.ready == old(self).canceled,
            r.released == (if old(self).canceled { Some(waker) } else { old(self).waker }),
            *final(self) == old(self).after_poll(waker),
    {
        if self.canceled {
            Polled { ready: true, released: Some(waker) }
        } else {
            let released = self.waker.take();
            self.waker = Some(waker);
            Polled { ready: false, released }
        }
    }

    /// Stores the deferred action and hands back the one it replaces, which
    /// is never run.
    pub fn set_task(&mut self, task: T) -> (replaced: Option<T>)
        ensures
            replaced == old(self).task,
            *final(self) == old(self).after_set_task(task),
    {
        let replaced = self.task.take();
        self.task = Some(task);
        replaced
    }

    /// A diagnostic description that shows the flag and nothing else.
    pub fn debug_string(&self) -> (r: String)
        ensures
            r@ == debug_text(self.canceled),
    {
        proof {
            reveal_strlit("CancelationToken { canceled: true }");
            reveal_strlit("CancelationToken { canceled: false }");
        }
        if self.canceled {
            "CancelationToken { canceled: true }".to_owned()
        } else {
            "CancelationToken { canceled: false }".to_owned()
        }
    }

    /// Raises the signal and takes both slots out: the waiter to resume and
    /// the action to run, each only if present.
    pub fn cancel(&mut self) -> (r: Triggered<W, T>)
        ensures
            r == old(self).cancel_outcome(),
            *final(self) == old(self).after_cancel(),
    {
        self.canceled = true;
        let waker = self.waker.take();
        let task = self.task.take();
        Triggered { waker, task }
    }
}


/// Triggering twice: each trigger leaves the signal raised, and the second
/// one changes nothing and hands back neither a waiter nor an action, so only
/// the first is the edge that resumes anyone.
pub proof fn lemma_cancel_idempotent<W, T>(s: SignalState<W, T>)
    ensures
        s.after_cancel().canceled,
        s.after_cancel().after_cancel() == s.after_cancel(),
        s.after_cancel().cancel_outcome().waker is None,
        s.after_cancel().cancel_outcome().task is None,
{
}

/// Once raised, the signal stays raised whatever happens next.
pub proof fn lemma_canceled_stays<W, T>(s: SignalState<W, T>, steps: Seq<Step<W, T>>)
    requires
        s.canceled,
    ensures
        s.run(steps).canceled,
    decreases steps.len(),
{
    if steps.len() > 0 {
        lemma_canceled_stays(s, steps.drop_last());
    }
}

/// No sequence of steps leaves a waiter registered on a raised signal.
pub proof fn lemma_run_preserves_wf<W, T>(s: SignalState<W, T>, steps: Seq<Step<W, T>>)
    requires
        s.wf(),
    ensures
        s.run(steps).wf(),
    decreases steps.len(),
{
    if steps.len() > 0 {
        lemma_run_preserves_wf(s, steps.drop_last());
    }
}

/// A waiter that registers before the trigger is the one the trigger hands
/// back to be resumed, and when it polls again it finds the signal raised.
pub proof fn lemma_waiter_resumed<W, T>(s: SignalState<W, T>, w: W, again: W)
    requires
        !s.canceled,
    ensures
        s.after_poll(w).cancel_outcome().waker == Some(w),
        s.after_poll(w).after_cancel().canceled,
        s.after_poll(w).after_cancel().after_poll(again) == s.after_poll(w).after_cancel(),
{
}

/// A waiter that polls after the trigger finds the signal raised and
/// registers nothing.
pub proof fn lemma_late_join<W, T>(s: SignalState<W, T>, w: W)
    requires
        s.canceled,
    ensures
        s.after_poll(w) == s,
{
}

/// A registered action is handed out by the next trigger, and a trigger after
/// that hands out none: the action runs at most once.
pub proof fn lemma_task_taken_once<W, T>(s: SignalState<W, T>, t: T)
    ensures
        s.after_set_task(t).cancel_outcome().task == Some(t),
        s.after_set_task(t).after_cancel().cancel_outcome().task is None,
{
}

} // verus!
