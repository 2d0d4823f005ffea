//! The state block that platform callbacks reach: the event handler, if one
//! is installed, and the queue of deferred callbacks.

use crate::queue::{drain_step, enqueue_step, CallbackQueue};
use std::collections::VecDeque;
use vstd::prelude::*;

verus! {

/// The application's event handler, installed once when the loop is entered.
pub trait AppHandler: Sized {
    /// What handling the command `id` may do to a handler: `after` is a state
    /// that `before` can be in once `command(id)` has returned. A handler
    /// that says nothing of itself allows every state.
    open spec fn handled(before: Self, id: u32, after: Self) -> bool {
        true
    }

    /// Handles a menu or UI command.
    fn command(&mut self, id: u32)
        ensures
            Self::handled(*old(self), id, *final(self)),
    ;
}

/// A one-shot piece of work for the UI thread. It is handed the event
/// handler, or nothing where none is installed.
pub trait MainThreadCallback<H>: Sized {
    /// What running this callback may do to the handler: `after` is a state
    /// that a handler in state `before` can be in once `invoke` has returned.
    /// A callback that says nothing of itself allows every state.
    open spec fn effect(self, before: H, after: H) -> bool {
        true
    }

    /// Runs the callback, once.
    fn invoke(self, handler: Option<&mut H>)
        ensures
            match handler {
                Some(h) => self.effect(*h, *final(h)),
                None => true,
            },
    ;
}

/// The callback that passes one command to the handler: the way for any
/// thread to have a command handled on the UI thread.
pub struct DeferredCommand {
    /// The command to pass on.
    pub id: u32,
}

impl<H: AppHandler> MainThreadCallback<H> for DeferredCommand {
    /// The handler has handled this command, and nothing else.
    open spec fn effect(self, before: H, after: H) -> bool {
        H::handled(before, self.id, after)
    }

    /// Passes the command to the handler. Without a handler it is dropped.
    fn invoke(self, handler: Option<&mut H>) {
        match handler {
            Some(inner) => {
                inner.command(self.id);
            },
            None => {},
        }
    }
}

/// Running `callbacks` one after another, first to last, each on the handler
/// as the one before left it, can take a handler from `before` to `after`.
pub open spec fn batch_effect<H, C: MainThreadCallback<H>>(
    callbacks: Seq<C>,
    before: H,
    after: H,
) -> bool
    decreases callbacks.len(),
{
    if callbacks.len() == 0 {
        before == after
    } else {
        exists|mid: H|
            #![trigger callbacks.last().effect(mid, after)]
            batch_effect(callbacks.drop_last(), before, mid) && callbacks.last().effect(mid, after)
    }
}

/// A batch that ran up to its last callback, and then that callback, has run
/// as a whole.
pub proof fn lemma_batch_extends<H, C: MainThreadCallback<H>>(
    callbacks: Seq<C>,
    before: H,
    mid: H,
    after: H,
)
    requires
        callbacks.len() > 0,
        batch_effect(callbacks.drop_last(), before, mid),
        callbacks.last().effect(mid, after),
    ensures
        batch_effect(callbacks, before, after),
{
}

/// Two batches run one after the other do what one batch of all their
/// callbacks does: the order of enqueuing holds across wakes.
pub proof fn lemma_batches_run_in_sequence<H, C: MainThreadCallback<H>>(
    first: Seq<C>,
    second: Seq<C>,
    before: H,
    mid: H,
    after: H,
)
    requires
        batch_effect(first, before, mid),
        batch_effect(second, mid, after),
    ensures
        batch_effect(first + second, before, after),
    decreases second.len(),
{
    if second.len() == 0 {
        assert(first + second =~= first);
    } else {
        let m = choose|m: H|
            #![trigger second.last().effect(m, after)]
            batch_effect(second.drop_last(), mid, m) && second.last().effect(m, after);
        lemma_batches_run_in_sequence(first, second.drop_last(), before, mid, m);
        assert((first + second).drop_last() =~= first + second.drop_last());
        assert((first + second).last() == second.last());
        lemma_batch_extends(first + second, before, m, after);
    }
}

/// Runs one batch of callbacks, each once, first to last. With a handler in
/// `handler` every callback is handed that handler; with none, every callback
/// is told so and still runs.
pub fn run_batch<H, C: MainThreadCallback<H>>(batch: VecDeque<C>, handler: &mut Option<H>)
    ensures
        *old(handler) is None ==> *final(handler) is None,
        *old(handler) is Some ==> *final(handler) is Some && batch_effect(
            batch@,
            (*old(handler))->0,
            (*final(handler))->0,
        ),
{
    let ghost all = batch@;
    let ghost start = *handler;
    let ghost mut done: int = 0;
    let mut batch = batch;
    while batch.len() > 0
        invariant
            0 <= done <= all.len(),
            batch@ == all.skip(done),
            start is None ==> *handler is None,
            start is Some ==> *handler is Some && batch_effect(
                all.take(done),
                start->0,
                (*handler)->0,
            ),
        decreases batch.len(),
    {
        let ghost before = *handler;
        let callback = batch.pop_front().unwrap();
        callback.invoke(handler.as_mut());
        proof {
            done = done + 1;
            assert(batch@ =~= all.skip(done));
            assert(all.take(done).drop_last() =~= all.take(done - 1));
            assert(all.take(done).last() == callback);
            if start is Some {
                lemma_batch_extends(all.take(done), start->0, before->0, (*handler)->0);
            }
        }
    }
    assert(all.take(done) =~= all);
}

/// The handler and the queue of one application.
pub struct DelegateState<H, T> {
    /// The event handler, absent until the loop is entered.
    pub handler: Option<H>,
    /// The callbacks that wait for the UI thread.
    pub queue: CallbackQueue<T>,
}

impl<H: AppHandler, T> DelegateState<H, T> {
    /// A state block without handler and with an empty queue.
    pub fn new() -> (state: Self)
        ensures
            state.handler is None,
            state.queue@ == Seq::<T>::empty(),
    {
        DelegateState { handler: None, queue: CallbackQueue::new() }
    }

    /// Passes a command to the handler. Without a handler nothing happens;
    /// the queue is left alone either way.
    pub fn command(&mut self, command: u32)
        ensures
            final(self).queue == old(self).queue,
            old(self).handler is None ==> final(self).handler is None,
            old(self).handler is Some ==> final(self).handler is Some && H::handled(
                old(self).handler->0,
                command,
                final(self).handler->0,
            ),
    {
        match &mut self.handler {
            Some(inner) => {
                inner.command(command);
            },
            None => {},
        }
    }

    /// Installs the handler, or none, in place of the current one.
    pub fn set_handler(&mut self, handler: Option<H>)
        ensures
            final(self).handler == handler,
            final(self).queue == old(self).queue,
    {
        self.handler = handler;
    }

    /// Schedules `callback` for the UI thread. The result says whether the
    /// caller has to request a wake: `true` exactly when nothing was waiting.
    pub fn run_on_main(&mut self, callback: T) -> (needs_wake: bool)
        ensures
            final(self).queue@ == enqueue_step(old(self).queue@, callback).0,
            needs_wake == enqueue_step(old(self).queue@, callback).1,
            final(self).handler == old(self).handler,
    {
        self.queue.enqueue(callback)
    }

    /// Releases what the state block owns once the loop has returned: the
    /// handler and whatever still waited.
    pub fn tear_down(&mut self)
        ensures
            final(self).handler is None,
            final(self).queue@ == Seq::<T>::empty(),
    {
        self.handler = None;
        let _ = self.queue.drain();
    }
}

impl<H: AppHandler, T: MainThreadCallback<H>> DelegateState<H, T> {
    /// Answers a wake: takes every waiting callback out of the queue and runs
    /// them, oldest first, each once, on the installed handler or on none.
    /// That no handler is installed is no failure.
    pub fn run_on_main_queue(&mut self)
        ensures
            final(self).queue@ == drain_step(old(self).queue@).1,
            old(self).handler is None ==> final(self).handler is None,
            old(self).handler is Some ==> final(self).handler is Some && batch_effect(
                drain_step(old(self).queue@).0,
                old(self).handler->0,
                final(self).handler->0,
            ),
    {
        let batch = self.queue.drain();
        run_batch(batch, &mut self.handler);
    }
}

} // verus!
