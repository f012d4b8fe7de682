//! An application-lifecycle core for terminal programs built from swappable
//! views.
//!
//! The crate owns three things: the shared runtime state (the running flag,
//! the active view, the pending-swap slot), the decision logic of the
//! render/handle-event loop, and a deferred, reentrancy-safe protocol for
//! swapping the active view between loop iterations.
//!
//! The terminal surface (drawing, restoring) and the input-event source are
//! external collaborators: an embedding program acquires the terminal,
//! drives the loop by rendering the snapshot from
//! [`app::Runtime::current_view_snapshot_for_render`], reading one event,
//! and handing it to [`app::Runtime::dispatch_event_to_current_view`], and
//! releases the terminal on every exit path.

pub mod app;
pub mod view;
