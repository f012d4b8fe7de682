use vstd::prelude::*;
use crate::app::SharedState;

verus! {

/// One terminal input event, as the event source produces it.
///
/// Relies on `crossterm::event::Event` as the event type. The type is opaque
/// to this crate: the run loop never looks inside an event, it only hands it
/// to the active view's handler.
#[verifier::external_type_specification]
#[verifier::external_body]
pub struct ExEvent(crossterm::event::Event);

/// A rectangular drawing region of the terminal surface.
///
/// Relies on `ratatui::layout::Rect`. Opaque to this crate: only a view's own
/// renderer reads it.
#[verifier::external_type_specification]
#[verifier::external_body]
pub struct ExRect(ratatui::layout::Rect);

/// The frame buffer a view paints its content into.
///
/// Relies on `ratatui::buffer::Buffer`. Opaque to this crate: only a view's
/// own renderer writes to it.
#[verifier::external_type_specification]
#[verifier::external_body]
pub struct ExBuffer(ratatui::buffer::Buffer);

/// The error type of the event source and of event handlers.
///
/// Relies on `std::io::Error`. Opaque to this crate: a handler failure is
/// passed through to the caller of the run loop unchanged.
#[verifier::external_type_specification]
#[verifier::external_body]
pub struct ExIoError(std::io::Error);

/// A view of the application: one self-contained screen that can paint
/// itself and, optionally, react to input events.
///
/// The run loop holds exactly one value of an implementing type at a time
/// and drives it through this interface alone.
pub trait View: Sized {
    /// Paints the view's content into the region `area` of the frame buffer
    /// `buf`. Called once per loop iteration, under read access to the
    /// active view; it must not reach back into the shared runtime state.
    fn render_view(&self, area: ratatui::layout::Rect, buf: &mut ratatui::buffer::Buffer);

    /// Reacts to one input event. `shared` exposes the shared cells a
    /// handler may touch while the view itself is mid-call: the running
    /// flag (to request a stop) and the pending-swap slot (to request a
    /// view change). The active-view slot itself is deliberately out of a
    /// handler's reach. A returned error terminates the run loop.
    fn handle_events(
        &mut self,
        _event: &crossterm::event::Event,
        _shared: &mut SharedState<Self>,
    ) -> Result<(), std::io::Error> {
        Ok(())
    }
}

} // verus!
