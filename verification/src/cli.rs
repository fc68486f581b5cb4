//! The plain record of command-line options a host layer hands the
//! library's dispatch routines.

use vstd::prelude::*;

verus! {

/// The options a host layer collects before calling into the library: the
/// path of the file to read, an optional explicit format name (otherwise
/// the format is inferred), whether to run interactively, and an optional
/// field name to display.
#[derive(Clone, Debug)]
pub struct Cli {
    /// Path of the file to decode.
    pub path: String,
    /// Explicit format name, if the caller already knows the format.
    pub format: Option<String>,
    /// Whether to run interactively.
    pub interactive: bool,
    /// Name of a single field to display, if any.
    pub field: Option<String>,
}

} // verus!
