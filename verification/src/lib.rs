pub mod geometry;
pub mod resize;

pub use crate::geometry::AspectRatio;
pub use crate::geometry::Vector;
pub use crate::resize::ResizeStrategy;
