//! Core logic of an immediate-mode user-interface toolkit: widget sizing,
//! interaction response, paint composition, and virtualized scrolling.
//!
//! Geometry is measured in whole logical pixels, so every quantity here is an
//! integer and every computation is verified.

pub mod button;
pub mod color;
pub mod geom;
pub mod image;
pub mod input;
pub mod response;
pub mod scroll;
pub mod sense;
pub mod spinner;
pub mod style;
pub mod text_edit;

pub use color::Rgba;
pub use geom::Rect;
pub use geom::Vec2;
pub use sense::Sense;
