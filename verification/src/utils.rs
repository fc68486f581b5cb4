//! Format inference over leading magic bytes, and dispatch from a resolved
//! format to the matching header decoder.

use vstd::prelude::*;

use crate::codec::{read_u16, spec_u16_at, Endianness};
use crate::coff::{spec_machine_from_value, CoffFile, CoffHeaderMachineType, COFF_HEADER_SIZE};
use crate::dos::{DosFile, DOS_HEADER_SIZE};
use crate::errors::ButylError;
use crate::formats::{File, Format};

verus! {

/// The format the leading bytes of `b` identify, reading the COFF
/// machine-type signature under byte order `e`. The signature table, in
/// order of preference:
///
/// - `0x4D 0x5A` (`"MZ"`) at offset 0 identifies `DOS`;
/// - a 16-bit word at offset 0 equal to the raw code of a named,
///   non-`Unknown` machine type identifies `COFF`.
///
/// The DOS signature wins when both match, being the more specific: the
/// MZ magic is a fixed two-byte constant, while the COFF signature is a
/// whole family of codes. A buffer too short for any signature, or one
/// matching none (an all-zero buffer in particular, since `0x0000` is the
/// code of the `Unknown` machine type), identifies `Unknown`.
pub open spec fn spec_infer_format(b: Seq<u8>, e: Endianness) -> Format {
    if b.len() >= 2 && b[0] == 0x4D && b[1] == 0x5A {
        Format::DOS
    } else if b.len() >= 2 && !(spec_machine_from_value(spec_u16_at(b, 0, e)) is Unknown) {
        Format::COFF
    } else {
        Format::Unknown
    }
}

/// Infers the format of `data` from its leading bytes, reading the COFF
/// machine-type signature under the caller's byte order `e`; see
/// `spec_infer_format` for the signature table.
pub fn infer_format_endian(data: &[u8], e: Endianness) -> (r: Format)
    ensures
        r == spec_infer_format(data@, e),
{
    if data.len() < 2 {
        return Format::Unknown;
    }
    if data[0] == 0x4D && data[1] == 0x5A {
        return Format::DOS;
    }
    let machine = read_u16(data, 0, e);
    match CoffHeaderMachineType::from_value(machine) {
        CoffHeaderMachineType::Unknown => Format::Unknown,
        _ => Format::COFF,
    }
}

/// Infers the format of `data` from its leading bytes; the COFF
/// machine-type signature is read big-endian, the default byte order of
/// inference (`infer_format_endian` takes any other).
pub fn infer_format(data: &[u8]) -> (r: Format)
    ensures
        r == spec_infer_format(data@, Endianness::Big),
{
    infer_format_endian(data, Endianness::Big)
}

/// Decodes `data` as the given format, reading fields little-endian.
/// `DOS` and `COFF` route to the matching header decoder and fail with
/// `InsufficientDataError` exactly when the buffer is shorter than that
/// header; `Unknown` yields the empty `File` variant without error; `PE`
/// has no decoder yet and fails with `UnsupportedFormatError`.
pub fn get_file_as<'a>(data: &'a [u8], format: Format) -> (r: Result<File<'a>, ButylError>)
    ensures
        format is DOS ==> match r {
            Ok(f) => data@.len() >= DOS_HEADER_SIZE && (f matches File::DOS(df)
                && crate::dos::dos_decodes_to(data@, Endianness::Little, df.header) && df.data@
                == data@),
            Err(err) => data@.len() < DOS_HEADER_SIZE && err == ButylError::InsufficientDataError,
        },
        format is COFF ==> match r {
            Ok(f) => data@.len() >= COFF_HEADER_SIZE && (f matches File::COFF(cf)
                && crate::coff::coff_decodes_to(data@, Endianness::Little, cf.header) && cf.data@
                == data@),
            Err(err) => data@.len() < COFF_HEADER_SIZE && err == ButylError::InsufficientDataError,
        },
        format is PE ==> (r matches Err(err) && err == ButylError::UnsupportedFormatError),
        format is Unknown ==> (r matches Ok(f) && f is Unknown),
{
    match format {
        Format::DOS => match DosFile::from_le_bytes(data) {
            Ok(f) => Ok(File::DOS(f)),
            Err(err) => Err(err),
        },
        Format::COFF => match CoffFile::from_le_bytes(data) {
            Ok(f) => Ok(File::COFF(f)),
            Err(err) => Err(err),
        },
        Format::PE => Err(ButylError::UnsupportedFormatError),
        Format::Unknown => Ok(File::Unknown(())),
    }
}

} // verus!
