//! The closed set of supported container formats and the facade wrapping a
//! successfully decoded file.

use vstd::prelude::*;

use crate::coff::CoffFile;
use crate::dos::DosFile;

verus! {

/// A supported container format: purely a discriminator used to select a
/// header decoder. `PE` is declared but not yet backed by a decoder, and
/// `Unknown` stands for an unresolved or unrecognized format.
#[derive(Clone, Copy, Debug, PartialEq, Eq, Structural)]
pub enum Format {
    DOS,
    COFF,
    PE,
    Unknown,
}

/// The format a name selects: an exact, case-sensitive match against
/// `"DOS"`, `"COFF"` and `"PE"`; any other name selects `Unknown`.
pub open spec fn spec_format_from_string(s: Seq<char>) -> Format {
    if s == "DOS"@ {
        Format::DOS
    } else if s == "COFF"@ {
        Format::COFF
    } else if s == "PE"@ {
        Format::PE
    } else {
        Format::Unknown
    }
}

impl Format {
    /// Resolves a format name by exact, case-sensitive match; anything
    /// but `"DOS"`, `"COFF"` and `"PE"` yields `Unknown`. This is the
    /// explicit override path for a caller that already knows the format.
    pub fn from_string(string: String) -> (r: Format)
        ensures
            r == spec_format_from_string(string@),
    {
        if string == String::from_str("DOS") {
            Format::DOS
        } else if string == String::from_str("COFF") {
            Format::COFF
        } else if string == String::from_str("PE") {
            Format::PE
        } else {
            Format::Unknown
        }
    }
}

/// A successfully dispatched file: the decoded header of the resolved
/// format paired with the buffer it came from, or `Unknown` when no
/// decoder was asked to run.
#[derive(Debug)]
pub enum File<'a> {
    DOS(DosFile<'a>),
    COFF(CoffFile<'a>),
    Unknown(()),
}

} // verus!
