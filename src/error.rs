use vstd::prelude::*;

verus! {

/// Why an image could not be made, loaded or resized.
#[derive(Debug, Clone, PartialEq, Eq)]
pub enum ImageError {
    /// The pixel data does not hold `width * height` colors.
    DimensionMismatch,
    /// The file could not be opened or read; the text says why.
    Io(String),
    /// The file has no extension, or one that names no known format; holds the
    /// lower-cased extension, empty where there was none.
    UnsupportedFormat(String),
    /// The file's extension is not valid text.
    InvalidPath,
    /// The decoder for the file's format refused its bytes; the text says why.
    Decode(String),
    /// The resampling engine produced no output for the requested dimensions.
    ResizeFailure,
}

} // verus!
