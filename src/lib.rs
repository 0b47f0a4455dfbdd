//! Layout core of a terminal widget toolkit: geometry, line wrapping,
//! size negotiation, a scroll viewport, and the widgets built on them.

pub mod vec;
pub mod size_cache;
pub mod scroll;
pub mod align;
pub mod event;
pub mod wrap;
pub mod text_view;
pub mod button;
