//! The error kinds shared by every decoder and encoder of the crate.

use vstd::prelude::*;

verus! {

/// What can go wrong while decoding or encoding a header.
#[derive(Clone, Copy, Debug, PartialEq, Eq, Structural)]
pub enum ButylError {
    /// The supplied buffer is smaller than the fixed size the requested
    /// header format needs; nothing was decoded.
    InsufficientDataError,
    /// A value being encoded does not fit in its fixed-width field.
    ExcessiveDataError,
    /// The requested format has no decoder.
    UnsupportedFormatError,
}

} // verus!
