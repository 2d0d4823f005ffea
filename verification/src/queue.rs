//! The deferred-callback queue: one-shot work items waiting for the UI thread.

use std::collections::VecDeque;
use vstd::prelude::*;

verus! {

/// What one enqueue does to a queue holding `pending`: the queue afterwards,
/// and whether the caller has to wake the UI thread.
pub open spec fn enqueue_step<T>(pending: Seq<T>, callback: T) -> (Seq<T>, bool) {
    (pending.push(callback), pending.len() == 0)
}

/// What one drain does to a queue holding `pending`: the batch handed out,
/// oldest first, and the queue afterwards.
pub open spec fn drain_step<T>(pending: Seq<T>) -> (Seq<T>, Seq<T>) {
    (pending, Seq::empty())
}

/// The queue after enqueuing `callbacks` one after another, first to last.
pub open spec fn enqueue_all<T>(pending: Seq<T>, callbacks: Seq<T>) -> Seq<T>
    decreases callbacks.len(),
{
    if callbacks.len() == 0 {
        pending
    } else {
        enqueue_step(enqueue_all(pending, callbacks.drop_last()), callbacks.last()).0
    }
}

/// The wake signal that the `i`-th of the enqueues of `callbacks` returns,
/// counted from zero, on a queue that held `pending` before the first.
pub open spec fn wake_signal<T>(pending: Seq<T>, callbacks: Seq<T>, i: int) -> bool
    recommends
        0 <= i < callbacks.len(),
{
    enqueue_step(enqueue_all(pending, callbacks.take(i)), callbacks[i]).1
}

/// A FIFO queue of callbacks of type `T` with a wake signal on enqueue.
pub struct CallbackQueue<T> {
    pending: VecDeque<T>,
}

impl<T> View for CallbackQueue<T> {
    type V = Seq<T>;

    /// The callbacks that wait, oldest first.
    closed spec fn view(&self) -> Seq<T> {
        self.pending@
    }
}

impl<T> CallbackQueue<T> {
    /// An empty, idle queue.
    pub fn new() -> (queue: Self)
        ensures
            queue@ == Seq::<T>::empty(),
    {
        CallbackQueue { pending: VecDeque::new() }
    }

    /// Appends `callback` behind everything that waits. The result is `true`
    /// exactly when the queue was empty, so that a wake has to be requested;
    /// while callbacks wait, a wake is already on its way.
    pub fn enqueue(&mut self, callback: T) -> (needs_wake: bool)
        ensures
            final(self)@ == enqueue_step(old(self)@, callback).0,
            needs_wake == enqueue_step(old(self)@, callback).1,
    {
        let needs_wake = self.pending.len() == 0;
        self.pending.push_back(callback);
        needs_wake
    }

    /// Removes every waiting callback and returns them oldest first.
    pub fn drain(&mut self) -> (batch: VecDeque<T>)
        ensures
            batch@ == drain_step(old(self)@).0,
            final(self)@ == drain_step(old(self)@).1,
    {
        let mut batch: VecDeque<T> = VecDeque::new();
        core::mem::swap(&mut self.pending, &mut batch);
        batch
    }

    /// Whether nothing waits, which is also whether no wake is pending.
    pub fn is_empty(&self) -> (empty: bool)
        ensures
            empty == (self@.len() == 0),
    {
        self.pending.len() == 0
    }

    /// The number of waiting callbacks.
    pub fn len(&self) -> (n: usize)
        ensures
            n == self@.len(),
    {
        self.pending.len()
    }
}

/// Enqueuing onto an empty queue keeps the order of submission: the queue
/// then holds the callbacks as they were given, so a single drain hands them
/// out first to last.
pub proof fn lemma_drain_keeps_enqueue_order<T>(callbacks: Seq<T>)
    ensures
        enqueue_all(Seq::<T>::empty(), callbacks) == callbacks,
        drain_step(enqueue_all(Seq::<T>::empty(), callbacks)).0 == callbacks,
    decreases callbacks.len(),
{
    lemma_enqueue_all_appends(Seq::<T>::empty(), callbacks);
    assert(Seq::<T>::empty() + callbacks =~= callbacks);
}

/// Enqueuing after callbacks that already wait puts the new ones behind them,
/// in the order of submission.
pub proof fn lemma_enqueue_all_appends<T>(pending: Seq<T>, callbacks: Seq<T>)
    ensures
        enqueue_all(pending, callbacks) == pending + callbacks,
    decreases callbacks.len(),
{
    if callbacks.len() == 0 {
        assert(pending + callbacks =~= pending);
    } else {
        lemma_enqueue_all_appends(pending, callbacks.drop_last());
        assert((pending + callbacks.drop_last()).push(callbacks.last()) =~= pending + callbacks);
    }
}

/// Of a run of enqueues with no drain in between, at most the first asks for
/// a wake, and it does so exactly when the queue was empty before the run.
pub proof fn lemma_single_wake_signal<T>(pending: Seq<T>, callbacks: Seq<T>, i: int)
    requires
        0 <= i < callbacks.len(),
    ensures
        wake_signal(pending, callbacks, i) == (i == 0 && pending.len() == 0),
{
    lemma_enqueue_all_appends(pending, callbacks.take(i));
}

/// A drain leaves nothing behind: the next drain hands out exactly what was
/// enqueued since, and no callback of the first batch again.
pub proof fn lemma_no_callback_drained_twice<T>(pending: Seq<T>, later: Seq<T>)
    ensures
        drain_step(drain_step(pending).1).0 == Seq::<T>::empty(),
        drain_step(enqueue_all(drain_step(pending).1, later)).0 == later,
{
    lemma_drain_keeps_enqueue_order(later);
}

} // verus!
