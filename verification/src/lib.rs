//! Decoders and encoders for the fixed-size headers of executable image
//! containers: the legacy MS-DOS MZ header and the COFF header, together
//! with format identification over raw byte buffers.

pub mod cli;
pub mod codec;
pub mod coff;
pub mod dos;
pub mod errors;
pub mod formats;
pub mod utils;
