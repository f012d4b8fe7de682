use vstd::prelude::*;
use crate::view::View;

verus! {

/// Process-wide application state: whether the run loop should continue.
pub struct App {
    pub is_running: bool,
}

/// The shared cells that a view's event handler may reach while the active
/// view itself is mid-call: the application cell and the pending-swap slot.
///
/// The active-view slot is deliberately absent: a handler runs under write
/// access to the active view, so letting it also replace that slot would be
/// a reentrant self-deadlock (or an aliasing hazard). A handler therefore
/// only *queues* a view change here; the swap is applied at the start of the
/// next loop iteration, when nothing holds the active view.
pub struct SharedState<V> {
    app: Option<App>,
    pending: Option<V>,
}

/// The whole shared runtime state: the handler-reachable cells plus the
/// slot holding the currently active view.
pub struct Runtime<V> {
    shared: SharedState<V>,
    active: Option<V>,
}

/// The mathematical model of the runtime state: the three shared cells as
/// plain values. All contracts of this module speak over this model.
pub struct StateModel<V> {
    pub app: Option<App>,
    pub active: Option<V>,
    pub pending: Option<V>,
}

impl<V> StateModel<V> {
    /// True once `init` has established the application cell.
    pub open spec fn initialized(self) -> bool {
        self.app is Some
    }

    /// True while the run loop should continue.
    pub open spec fn running(self) -> bool {
        self.app matches Some(a) && a.is_running
    }

    /// The state after `init`: the application cell (running = true) and the
    /// active view are each established only if not already present; a cell
    /// that already exists is left exactly as it was.
    pub open spec fn after_init(self, v: V) -> StateModel<V> {
        StateModel {
            app: if self.app is Some {
                self.app
            } else {
                Some(App { is_running: true })
            },
            active: if self.active is Some {
                self.active
            } else {
                Some(v)
            },
            pending: self.pending,
        }
    }

    /// The state after a stop request: the running flag is cleared; the view
    /// cells are untouched.
    pub open spec fn after_stop(self) -> StateModel<V> {
        StateModel { app: Some(App { is_running: false }), active: self.active, pending: self.pending }
    }

    /// The state after a view-change request: the view is queued in the
    /// pending slot, unless a swap is already pending, in which case the
    /// request is dropped whole (first-requested-wins).
    pub open spec fn after_view_change_request(self, v: V) -> StateModel<V> {
        if self.pending is Some {
            self
        } else {
            StateModel { app: self.app, active: self.active, pending: Some(v) }
        }
    }

    /// The state after the loop-top reconciliation: a pending view, if any,
    /// becomes the active view and the pending slot empties; otherwise
    /// nothing changes.
    pub open spec fn after_swap(self) -> StateModel<V> {
        if self.pending is Some {
            StateModel { app: self.app, active: self.pending, pending: None }
        } else {
            self
        }
    }
}

impl<V> SharedState<V> {
    /// The application cell as the model sees it.
    pub closed spec fn app_cell(self) -> Option<App> {
        self.app
    }

    /// The pending-swap slot as the model sees it.
    pub closed spec fn pending_cell(self) -> Option<V> {
        self.pending
    }

    /// Sets running = false. Callable from within a view's event handler;
    /// must not be called before `init` has established the application cell.
    pub fn request_stop(&mut self)
        requires
            old(self).app_cell() is Some,
        ensures
            final(self).app_cell() == Some(App { is_running: false }),
            final(self).pending_cell() == old(self).pending_cell(),
    {
        self.app = Some(App { is_running: false });
    }

    /// Queues `view` to become active at the start of the next loop
    /// iteration. If a swap is already pending, the request is silently
    /// dropped: the first requested view wins. Never touches the active
    /// view. Must not be called before `init`.
    pub fn change_view(&mut self, view: V)
        requires
            old(self).app_cell() is Some,
        ensures
            final(self).app_cell() == old(self).app_cell(),
            final(self).pending_cell() == (if old(self).pending_cell() is Some {
                old(self).pending_cell()
            } else {
                Some(view)
            }),
    {
        if self.pending.is_none() {
            self.pending = Some(view);
        }
    }
}

impl<V> Runtime<V> {
    /// The model of the whole runtime state.
    pub closed spec fn model(self) -> StateModel<V> {
        StateModel { app: self.shared.app, active: self.active, pending: self.shared.pending }
    }

    /// A fresh runtime: no application cell, no active view, no pending swap.
    pub fn new() -> (r: Runtime<V>)
        ensures
            r.model() == (StateModel::<V> { app: None, active: None, pending: None }),
    {
        Runtime { shared: SharedState { app: None, pending: None }, active: None }
    }

    /// Establishes the active view and the application cell (running =
    /// true), each only if not already established: a second call finds both
    /// cells occupied and leaves the runtime exactly as it was.
    pub fn init(&mut self, view: V)
        ensures
            final(self).model() == old(self).model().after_init(view),
    {
        if self.active.is_none() {
            self.active = Some(view);
        }
        if self.shared.app.is_none() {
            self.shared.app = Some(App { is_running: true });
        }
    }

    /// True once `init` has established the application cell.
    pub fn is_initialized(&self) -> (r: bool)
        ensures
            r == self.model().initialized(),
    {
        self.shared.app.is_some()
    }

    /// True while the runtime holds an active view.
    pub fn has_active_view(&self) -> (r: bool)
        ensures
            r == (self.model().active is Some),
    {
        self.active.is_some()
    }

    /// Reads the running flag. Calling this before `init` is a programmer
    /// error, not a runtime condition: the contract forbids it.
    pub fn read_is_running(&self) -> (r: bool)
        requires
            self.model().initialized(),
        ensures
            r == self.model().running(),
    {
        self.shared.app.as_ref().unwrap().is_running
    }

    /// Sets running = false, so the loop exits at its next check.
    pub fn request_stop(&mut self)
        requires
            old(self).model().initialized(),
        ensures
            final(self).model() == old(self).model().after_stop(),
    {
        self.shared.request_stop();
    }

    /// Queues `view` to become active at the start of the next loop
    /// iteration; dropped if a swap is already pending (first wins). Must
    /// not be called before `init`.
    pub fn change_view(&mut self, view: V)
        requires
            old(self).model().initialized(),
        ensures
            final(self).model() == old(self).model().after_view_change_request(view),
    {
        self.shared.change_view(view);
    }

    /// Consumes a pending swap, if one is queued: the queued view becomes
    /// the active view and the pending slot empties. To be called at the
    /// start of each loop iteration, before that iteration's render, when
    /// nothing holds the active view.
    pub fn apply_pending_swap(&mut self)
        ensures
            final(self).model() == old(self).model().after_swap(),
    {
        if self.shared.pending.is_some() {
            self.active = self.shared.pending.take();
        }
    }

    /// Read access to the active view, for exactly the duration of one
    /// render call.
    pub fn current_view_snapshot_for_render(&self) -> (r: &V)
        requires
            self.model().active is Some,
        ensures
            self.model().active == Some(*r),
    {
        self.active.as_ref().unwrap()
    }
}

impl<V: View> Runtime<V> {
    /// Write access to the active view for exactly the duration of one
    /// event-handling call. The handler receives the shared cells but never
    /// the active-view slot itself, so however the handler behaves, the slot
    /// still holds a view when the dispatch returns: a requested view change
    /// only lands in the pending slot, never mid-dispatch in the active one.
    /// A handler failure is returned unchanged; the caller treats it as
    /// fatal.
    pub fn dispatch_event_to_current_view(&mut self, event: &crossterm::event::Event) -> (r: Result<
        (),
        std::io::Error,
    >)
        requires
            old(self).model().active is Some,
        ensures
            final(self).model().active is Some,
    {
        match &mut self.active {
            Some(v) => v.handle_events(event, &mut self.shared),
            None => unreached(),
        }
    }
}

/// Singleton initialization: a second `init`, whatever view it carries,
/// changes nothing — the first view stays active and the first running flag
/// stays as it was.
pub proof fn lemma_init_is_singleton<V>(m: StateModel<V>, v1: V, v2: V)
    ensures
        m.after_init(v1).after_init(v2) == m.after_init(v1),
{
}

/// Initialization establishes the state: from a fresh runtime, `init` makes
/// the given view active, sets the running flag, and queues nothing.
pub proof fn lemma_init_establishes<V>(m: StateModel<V>, v: V)
    requires
        !m.initialized(),
        m.active is None,
    ensures
        m.after_init(v).running(),
        m.after_init(v).active == Some(v),
        m.after_init(v).pending == m.pending,
{
}

/// A stop request halts the loop: after it the running flag reads false, so
/// the loop's next check exits without a further render or event read.
pub proof fn lemma_stop_halts<V>(m: StateModel<V>)
    ensures
        !m.after_stop().running(),
{
}

/// Swap requests are deferred: a view-change request touches only the
/// pending slot. The active view — whatever was rendered this iteration —
/// and the running flag are unchanged until the swap is applied at the top
/// of the next iteration.
pub proof fn lemma_view_change_is_deferred<V>(m: StateModel<V>, v: V)
    ensures
        m.after_view_change_request(v).active == m.active,
        m.after_view_change_request(v).app == m.app,
{
}

/// Swap coalescing: of two requests issued before an iteration boundary
/// consumes them, the first wins — the second request leaves the state
/// untouched, and applying the swap makes the first requested view active.
pub proof fn lemma_swap_requests_coalesce<V>(m: StateModel<V>, v1: V, v2: V)
    requires
        m.pending is None,
    ensures
        m.after_view_change_request(v1).after_view_change_request(v2)
            == m.after_view_change_request(v1),
        m.after_view_change_request(v1).after_view_change_request(v2).after_swap().active
            == Some(v1),
{
}

} // verus!
