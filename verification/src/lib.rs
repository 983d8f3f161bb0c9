//! Verified core of the rectangle-selection widget of a screenshot tool:
//! the grab zones around a selection, the rules by which a drag reshapes it,
//! the reaction of the widget to pointer and drag-and-drop events, and the
//! geometry of the shaded overlay and of the magnifier grid.
//!
//! Everything here works on integer coordinates; rendering and the toolkit
//! glue live outside this crate.

pub mod drag_laws;
pub mod drag_state;
pub mod event_laws;
pub mod events;
pub mod geometry;
pub mod magnifier;
pub mod mime;
pub mod overlay;
pub mod selection;

pub use drag_state::DragState;
pub use geometry::{Rect, Rectangle};
pub use mime::MyData;
pub use selection::{Interaction, RectangleSelection};
