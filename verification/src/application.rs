//! The application coordinator: lifecycle and delegate state together.

use crate::delegate::{AppHandler, DelegateState};
use crate::lifecycle::{Lifecycle, LifecycleEvent, LifecycleView, QuitOutcome};
use crate::locale::{is_locale_of, strip_modifier};
use vstd::prelude::*;

verus! {

/// The logical application: one per process, made before the native loop is
/// entered.
pub struct Application<H, T> {
    state: Lifecycle,
    entered: bool,
    delegate: DelegateState<H, T>,
}

impl<H: AppHandler, T> Application<H, T> {
    /// The lifecycle as a plain value.
    pub closed spec fn lifecycle(&self) -> LifecycleView {
        self.state@
    }

    /// Whether the loop was entered, after which the handler is fixed.
    pub closed spec fn entered(&self) -> bool {
        self.entered
    }

    /// The block that platform callbacks work on.
    pub closed spec fn delegate(&self) -> DelegateState<H, T> {
        self.delegate
    }

    /// A running application without handler and with nothing queued.
    pub fn new() -> (app: Self)
        ensures
            app.lifecycle() == LifecycleView::initial(),
            !app.entered(),
            app.delegate().handler is None,
            app.delegate().queue@ == Seq::<T>::empty(),
    {
        Application { state: Lifecycle::new(), entered: false, delegate: DelegateState::new() }
    }

    /// Enters the loop with `handler`, or with none. The first call installs
    /// what it is given and returns `true`, and the caller then runs the
    /// native loop. A later call installs nothing and returns `false`:
    /// the handler cannot be replaced. Callbacks queued before stay queued.
    pub fn run(&mut self, handler: Option<H>) -> (installed: bool)
        ensures
            installed == !old(self).entered(),
            final(self).entered(),
            final(self).lifecycle() == old(self).lifecycle(),
            final(self).delegate().queue == old(self).delegate().queue,
            final(self).delegate().handler == if installed {
                handler
            } else {
                old(self).delegate().handler
            },
    {
        if self.entered {
            false
        } else {
            self.entered = true;
            self.delegate.set_handler(handler);
            true
        }
    }

    /// The delegate state, for the platform callbacks: commands, enqueues
    /// and wakes go through it and leave the lifecycle alone.
    pub fn delegate_mut(&mut self) -> (delegate: &mut DelegateState<H, T>)
        ensures
            *delegate == old(self).delegate(),
            final(self).delegate() == *final(delegate),
            final(self).lifecycle() == old(self).lifecycle(),
            final(self).entered() == old(self).entered(),
    {
        &mut self.delegate
    }

    /// Handles a quit request from any thread; see [`Lifecycle::quit`]. Only
    /// the caller that is told to proceed sends the window-close requests and
    /// the stop request.
    pub fn quit(&mut self) -> (outcome: QuitOutcome)
        ensures
            outcome == old(self).lifecycle().quit_outcome(),
            final(self).lifecycle() == old(self).lifecycle().step(LifecycleEvent::QuitRequested),
            final(self).entered() == old(self).entered(),
            final(self).delegate() == old(self).delegate(),
    {
        self.state.quit()
    }

    /// Ends the teardown that a proceeding quit request began.
    pub fn teardown_done(&mut self)
        ensures
            final(self).lifecycle() == old(self).lifecycle().step(LifecycleEvent::TeardownDone),
            final(self).entered() == old(self).entered(),
            final(self).delegate() == old(self).delegate(),
    {
        self.state.teardown_done()
    }

    /// Records that the native loop has returned: the application is
    /// terminated, and the delegate state gives up its handler and its queue.
    pub fn loop_exited(&mut self)
        ensures
            final(self).lifecycle() == old(self).lifecycle().step(LifecycleEvent::LoopExited),
            final(self).entered() == old(self).entered(),
            final(self).delegate().handler is None,
            final(self).delegate().queue@ == Seq::<T>::empty(),
    {
        self.state.loop_exited();
        self.delegate.tear_down();
    }

    /// The Unicode locale for the platform's current locale identifier
    /// `ident`: the identifier without its modifier.
    pub fn get_locale(ident: &str) -> (locale: String)
        ensures
            is_locale_of(ident@, locale@),
    {
        strip_modifier(ident)
    }
}

} // verus!
