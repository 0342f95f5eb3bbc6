//! Interactive region marking over a raster image.
//!
//! The crate models the geometric core of an image cropper: axis-aligned
//! rectangular regions drawn with a pointer, hit-testing along their
//! outlines, and extraction of each completed region as a recolored,
//! background-removed crop of the full-resolution source image.

pub mod color;
pub mod geometry;
pub mod image;
pub mod naming;
pub mod regions;

pub use crate::color::Color;
pub use crate::color::is_color;
pub use crate::geometry::BoundLine;
pub use crate::geometry::Line;
pub use crate::image::Image;
pub use crate::image::Ratio;
pub use crate::regions::Rect;
pub use crate::regions::Region;
pub use crate::regions::RegionState;
pub use crate::regions::Regions;
