//! The ways in which a request to the engine can fail.

use vstd::prelude::*;

verus! {

/// Why a request was turned down. A request that fails changes nothing.
#[derive(Clone, Copy, Debug, PartialEq, Eq, Structural)]
pub enum CanvasError {
    /// A canvas was asked for with no columns or no rows, or with more bytes
    /// than the platform can address.
    InvalidDimensions,
    /// A grayscale scheme was asked for that the table does not hold.
    InvalidScheme,
    /// A rectangle reaches beyond the right or the bottom edge of the canvas.
    OutOfBounds,
    /// A frame was handed in whose length is not that of the input buffer.
    InputSizeMismatch,
}

} // verus!
