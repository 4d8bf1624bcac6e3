//! A fixed-size pixel-buffer engine: two equally sized raster buffers and the
//! drawing and colour-transform operations over them.
//!
//! [`Universe`] owns an input and an output buffer of `width * height`
//! pixels, four bytes each, row by row from the top-left corner. Fills draw
//! into the output buffer; the grayscale transform reads the input buffer and
//! writes the output buffer. What each operation does is stated over
//! [`Canvas`], the canvas as plain mathematics.

pub mod canvas;
pub mod color;
pub mod error;
pub mod grayscale;
pub mod random;
pub mod raster;
pub mod universe;

pub use crate::canvas::Canvas;
pub use crate::color::Pixel;
pub use crate::error::CanvasError;
pub use crate::random::RandomDraws;
pub use crate::universe::Universe;
