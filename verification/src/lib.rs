//! The verified core of an image widget: sizing, scaling, corner rounding,
//! compositing, and the cache and redraw state that go with them.
//!
//! Decoding a source and writing to a display are left to the caller: the
//! widget says which path it needs decoded, takes the decoded raster, and
//! hands out the raster to show.

pub mod compose;
pub mod error;
pub mod geom;
pub mod raster;
pub mod render;
pub mod round;
pub mod scale;
pub mod widget;

pub use error::ImageError;
pub use geom::{Alignment, Point, Rect};
pub use raster::Raster;
pub use scale::ImageMode;
pub use widget::Image;
