//! Decoded raster images held as flat, row-major buffers of packed colors:
//! construction, clamped regions for partial drawing, resampling through an
//! external engine, and format selection by file extension.

pub mod color;
pub mod error;
pub mod format;
pub mod image;
pub mod pixels;
pub mod resample;
pub mod roi;

pub use crate::error::ImageError;
pub use crate::format::{format_of_extension, format_of_lowercase, ImageFormat};
pub use crate::image::Image;
pub use crate::resample::ResizeType;
pub use crate::roi::{Blit, ImageRoi};
