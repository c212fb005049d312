//! Widget rendering and event handling.
//!
//! A widget is an immutable descriptor. What it needs across frames (a shaped text layout, for
//! instance) lives in a cache that the host owns and hands in by mutable reference; what it
//! needs within one interaction cycle lives in an immediate state that the host builds afresh.
//! Drawing goes through a pluggable backend, so one widget body serves retained-mode and
//! immediate-mode hosts alike.

pub mod backend;
pub mod event;
pub mod geometry;
pub mod label;
pub mod widget;

pub use backend::{Backend, LoggedBackend, TextBackend, TextEngine};
pub use event::{Coord, Event};
pub use geometry::{Rectangle, Size};
pub use label::{CachedLayout, Label, LabelCache};
pub use widget::{RenderedWidget, Widget};
