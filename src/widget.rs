//! The widget contract: event handling, measurement and rendering.

use vstd::prelude::*;
use crate::backend::Backend;
use crate::event::Event;
use crate::geometry::Size;

verus! {

/// A widget that reacts to events.
///
/// The immediate state is built afresh for each interaction cycle, starts empty, and collects
/// what the events of that cycle did (for instance, "the button is pressed").
pub trait Widget {
    /// Immediate state of the widget.
    type Immediate: Default;

    /// Fold an event into the immediate state. Returns whether a redraw is needed; the answer
    /// is advisory.
    fn handle_event(&mut self, immediate: &mut Self::Immediate, event: Event) -> bool;
}

/// A widget that can be measured and drawn through the backend `B`.
///
/// A widget may implement this for any number of backends. Its persistent state is a cache that
/// the host keeps across calls; measurement and rendering fill it through one code path, so
/// what is measured is what is drawn.
pub trait RenderedWidget<B: Backend>: Widget {
    /// Persistent state of the widget.
    type Cache;

    /// The widget's extent.
    fn rectangle(&self, cache: &mut Self::Cache, backend: &mut B) -> Result<Size, B::Error>;

    /// Draw the widget at its own origin.
    fn render(
        &self,
        immediate: &Self::Immediate,
        cache: &mut Self::Cache,
        backend: &mut B,
    ) -> Result<B::Output, B::Error>;
}

} // verus!
