//! The 20-byte COFF header that follows the legacy DOS stub in a PE/COFF
//! executable.
//!
//! Besides plain field access the header offers a typed view of two fields:
//! the machine type as a closed enumeration (unrecognized codes decode to
//! `Unknown` rather than failing) and the characteristics word as a set of
//! sixteen named single-bit flags. Decoding is all-or-nothing: a buffer
//! shorter than the header size yields `InsufficientDataError` and no
//! partial value.

use vstd::prelude::*;

use crate::codec::{
    read_u16, read_u32, spec_u16_at, spec_u32_at, write_u16, write_u32, Endianness,
};
use crate::errors::ButylError;

verus! {

/// The fixed on-disk size of the COFF header, in bytes.
pub const COFF_HEADER_SIZE: usize = 20;

/// Offset of the machine type.
pub const COFF_OFF_MACHINE: usize = 0;

/// Offset of the number of sections.
pub const COFF_OFF_NSCNS: usize = 2;

/// Offset of the POSIX timestamp.
pub const COFF_OFF_TIMDAT: usize = 4;

/// Offset of the file pointer to the symbol table.
pub const COFF_OFF_SYMPTR: usize = 8;

/// Offset of the number of symbols.
pub const COFF_OFF_NSYMS: usize = 12;

/// Offset of the optional-header size.
pub const COFF_OFF_OPTHDR: usize = 16;

/// Offset of the characteristics bitmask.
pub const COFF_OFF_FLAGS: usize = 18;

/// A fully decoded COFF header: one field per documented offset of the
/// on-disk layout, always completely initialized.
#[derive(Clone, Copy, Debug, PartialEq, Eq, Structural)]
pub struct CoffHeader {
    /// Machine type.
    pub f_machine: u16,
    /// Number of sections.
    pub f_nscns: u16,
    /// POSIX timestamp.
    pub f_timdat: u32,
    /// File pointer to the symbol table.
    pub f_symptr: u32,
    /// Number of symbols.
    pub f_nsyms: u32,
    /// Size of the optional header.
    pub f_opthdr: u16,
    /// Characteristics bitmask.
    pub f_flags: u16,
}

/// The closed set of machine architectures a COFF header can name. A raw
/// code outside the named set decodes to `Unknown`.
#[derive(Clone, Copy, Debug, PartialEq, Eq, Structural)]
pub enum CoffHeaderMachineType {
    Unknown,
    AM33,
    AMD64,
    ARM,
    ARM64,
    ARMNT,
    EBC,
    I386,
    IA64,
    M32R,
    MIPS16,
    MIPSFPU,
    MIPSFPU16,
    PowerPC,
    PowerPCFP,
    R4000,
    RISCV32,
    RISCV64,
    RISCV128,
    SH3,
    SH3DSP,
    SH4,
    SH5,
    Thumb,
    WCEMIPSV2,
}

/// The raw 16-bit code of a machine type; `Unknown` maps to `0x0000`.
pub open spec fn spec_machine_value(machine: CoffHeaderMachineType) -> u16 {
    match machine {
        CoffHeaderMachineType::Unknown => 0x0000,
        CoffHeaderMachineType::AM33 => 0x01D3,
        CoffHeaderMachineType::AMD64 => 0x8664,
        CoffHeaderMachineType::ARM => 0x01C0,
        CoffHeaderMachineType::ARM64 => 0xAA64,
        CoffHeaderMachineType::ARMNT => 0x01C4,
        CoffHeaderMachineType::EBC => 0x0EBC,
        CoffHeaderMachineType::I386 => 0x014C,
        CoffHeaderMachineType::IA64 => 0x0200,
        CoffHeaderMachineType::M32R => 0x9041,
        CoffHeaderMachineType::MIPS16 => 0x0266,
        CoffHeaderMachineType::MIPSFPU => 0x0366,
        CoffHeaderMachineType::MIPSFPU16 => 0x0466,
        CoffHeaderMachineType::PowerPC => 0x01F0,
        CoffHeaderMachineType::PowerPCFP => 0x01F1,
        CoffHeaderMachineType::R4000 => 0x0166,
        CoffHeaderMachineType::RISCV32 => 0x5032,
        CoffHeaderMachineType::RISCV64 => 0x5064,
        CoffHeaderMachineType::RISCV128 => 0x5128,
        CoffHeaderMachineType::SH3 => 0x01A2,
        CoffHeaderMachineType::SH3DSP => 0x01A3,
        CoffHeaderMachineType::SH4 => 0x01A6,
        CoffHeaderMachineType::SH5 => 0x01A8,
        CoffHeaderMachineType::Thumb => 0x01C2,
        CoffHeaderMachineType::WCEMIPSV2 => 0x0169,
    }
}

/// Whether `value` is the raw code of some variant of the machine-type
/// enumeration (`0x0000`, the code of `Unknown`, included).
pub open spec fn is_known_machine_value(value: u16) -> bool {
    ||| value == 0x0000
    ||| value == 0x01D3
    ||| value == 0x8664
    ||| value == 0x01C0
    ||| value == 0xAA64
    ||| value == 0x01C4
    ||| value == 0x0EBC
    ||| value == 0x014C
    ||| value == 0x0200
    ||| value == 0x9041
    ||| value == 0x0266
    ||| value == 0x0366
    ||| value == 0x0466
    ||| value == 0x01F0
    ||| value == 0x01F1
    ||| value == 0x0166
    ||| value == 0x5032
    ||| value == 0x5064
    ||| value == 0x5128
    ||| value == 0x01A2
    ||| value == 0x01A3
    ||| value == 0x01A6
    ||| value == 0x01A8
    ||| value == 0x01C2
    ||| value == 0x0169
}

/// The machine type a raw 16-bit code decodes to; every code outside the
/// named set decodes to `Unknown`.
pub open spec fn spec_machine_from_value(value: u16) -> CoffHeaderMachineType {
    if value == 0x01D3 {
        CoffHeaderMachineType::AM33
    } else if value == 0x8664 {
        CoffHeaderMachineType::AMD64
    } else if value == 0x01C0 {
        CoffHeaderMachineType::ARM
    } else if value == 0xAA64 {
        CoffHeaderMachineType::ARM64
    } else if value == 0x01C4 {
        CoffHeaderMachineType::ARMNT
    } else if value == 0x0EBC {
        CoffHeaderMachineType::EBC
    } else if value == 0x014C {
        CoffHeaderMachineType::I386
    } else if value == 0x0200 {
        CoffHeaderMachineType::IA64
    } else if value == 0x9041 {
        CoffHeaderMachineType::M32R
    } else if value == 0x0266 {
        CoffHeaderMachineType::MIPS16
    } else if value == 0x0366 {
        CoffHeaderMachineType::MIPSFPU
    } else if value == 0x0466 {
        CoffHeaderMachineType::MIPSFPU16
    } else if value == 0x01F0 {
        CoffHeaderMachineType::PowerPC
    } else if value == 0x01F1 {
        CoffHeaderMachineType::PowerPCFP
    } else if value == 0x0166 {
        CoffHeaderMachineType::R4000
    } else if value == 0x5032 {
        CoffHeaderMachineType::RISCV32
    } else if value == 0x5064 {
        CoffHeaderMachineType::RISCV64
    } else if value == 0x5128 {
        CoffHeaderMachineType::RISCV128
    } else if value == 0x01A2 {
        CoffHeaderMachineType::SH3
    } else if value == 0x01A3 {
        CoffHeaderMachineType::SH3DSP
    } else if value == 0x01A6 {
        CoffHeaderMachineType::SH4
    } else if value == 0x01A8 {
        CoffHeaderMachineType::SH5
    } else if value == 0x01C2 {
        CoffHeaderMachineType::Thumb
    } else if value == 0x0169 {
        CoffHeaderMachineType::WCEMIPSV2
    } else {
        CoffHeaderMachineType::Unknown
    }
}

impl CoffHeaderMachineType {
    /// Returns the raw 16-bit code of `machine`; `Unknown` encodes to
    /// `0x0000`, so an originally unrecognized nonzero code does not
    /// survive a trip through the enumeration.
    pub fn to_value(machine: CoffHeaderMachineType) -> (r: u16)
        ensures
            r == spec_machine_value(machine),
    {
        match machine {
            CoffHeaderMachineType::Unknown => 0x0000,
            CoffHeaderMachineType::AM33 => 0x01D3,
            CoffHeaderMachineType::AMD64 => 0x8664,
            CoffHeaderMachineType::ARM => 0x01C0,
            CoffHeaderMachineType::ARM64 => 0xAA64,
            CoffHeaderMachineType::ARMNT => 0x01C4,
            CoffHeaderMachineType::EBC => 0x0EBC,
            CoffHeaderMachineType::I386 => 0x014C,
            CoffHeaderMachineType::IA64 => 0x0200,
            CoffHeaderMachineType::M32R => 0x9041,
            CoffHeaderMachineType::MIPS16 => 0x0266,
            CoffHeaderMachineType::MIPSFPU => 0x0366,
            CoffHeaderMachineType::MIPSFPU16 => 0x0466,
            CoffHeaderMachineType::PowerPC => 0x01F0,
            CoffHeaderMachineType::PowerPCFP => 0x01F1,
            CoffHeaderMachineType::R4000 => 0x0166,
            CoffHeaderMachineType::RISCV32 => 0x5032,
            CoffHeaderMachineType::RISCV64 => 0x5064,
            CoffHeaderMachineType::RISCV128 => 0x5128,
            CoffHeaderMachineType::SH3 => 0x01A2,
            CoffHeaderMachineType::SH3DSP => 0x01A3,
            CoffHeaderMachineType::SH4 => 0x01A6,
            CoffHeaderMachineType::SH5 => 0x01A8,
            CoffHeaderMachineType::Thumb => 0x01C2,
            CoffHeaderMachineType::WCEMIPSV2 => 0x0169,
        }
    }

    /// Returns the machine type named by a raw 16-bit code; a code outside
    /// the named set yields `Unknown`.
    pub fn from_value(value: u16) -> (r: CoffHeaderMachineType)
        ensures
            r == spec_machine_from_value(value),
    {
        if value == 0x01D3 {
            CoffHeaderMachineType::AM33
        } else if value == 0x8664 {
            CoffHeaderMachineType::AMD64
        } else if value == 0x01C0 {
            CoffHeaderMachineType::ARM
        } else if value == 0xAA64 {
            CoffHeaderMachineType::ARM64
        } else if value == 0x01C4 {
            CoffHeaderMachineType::ARMNT
        } else if value == 0x0EBC {
            CoffHeaderMachineType::EBC
        } else if value == 0x014C {
            CoffHeaderMachineType::I386
        } else if value == 0x0200 {
            CoffHeaderMachineType::IA64
        } else if value == 0x9041 {
            CoffHeaderMachineType::M32R
        } else if value == 0x0266 {
            CoffHeaderMachineType::MIPS16
        } else if value == 0x0366 {
            CoffHeaderMachineType::MIPSFPU
        } else if value == 0x0466 {
            CoffHeaderMachineType::MIPSFPU16
        } else if value == 0x01F0 {
            CoffHeaderMachineType::PowerPC
        } else if value == 0x01F1 {
            CoffHeaderMachineType::PowerPCFP
        } else if value == 0x0166 {
            CoffHeaderMachineType::R4000
        } else if value == 0x5032 {
            CoffHeaderMachineType::RISCV32
        } else if value == 0x5064 {
            CoffHeaderMachineType::RISCV64
        } else if value == 0x5128 {
            CoffHeaderMachineType::RISCV128
        } else if value == 0x01A2 {
            CoffHeaderMachineType::SH3
        } else if value == 0x01A3 {
            CoffHeaderMachineType::SH3DSP
        } else if value == 0x01A6 {
            CoffHeaderMachineType::SH4
        } else if value == 0x01A8 {
            CoffHeaderMachineType::SH5
        } else if value == 0x01C2 {
            CoffHeaderMachineType::Thumb
        } else if value == 0x0169 {
            CoffHeaderMachineType::WCEMIPSV2
        } else {
            CoffHeaderMachineType::Unknown
        }
    }
}

/// Encoding a machine type to its raw code and decoding that code again
/// yields the machine type unchanged, for every variant of the
/// enumeration.
pub proof fn lemma_machine_value_round_trip(machine: CoffHeaderMachineType)
    ensures
        spec_machine_from_value(spec_machine_value(machine)) == machine,
{
}

/// A raw code outside the named set decodes to `Unknown`.
pub proof fn lemma_machine_from_value_unnamed(value: u16)
    requires
        !is_known_machine_value(value),
    ensures
        spec_machine_from_value(value) is Unknown,
{
}

/// The named set is exactly the image of the enumeration under its raw
/// code.
pub proof fn lemma_known_machine_values(value: u16)
    ensures
        is_known_machine_value(value) <==> exists|machine: CoffHeaderMachineType|
            spec_machine_value(machine) == value,
{
    if is_known_machine_value(value) {
        let machine = spec_machine_from_value(value);
        if value == 0x0000 {
            assert(spec_machine_value(CoffHeaderMachineType::Unknown) == value);
        } else {
            lemma_machine_value_round_trip(machine);
            assert(spec_machine_value(machine) == value);
        }
    }
}

/// The sixteen named characteristic flags of a COFF header, each standing
/// for one fixed bit of the characteristics bitmask.
#[derive(Clone, Copy, Debug, PartialEq, Eq, Structural)]
pub enum CoffHeaderCharacteristic {
    RelocsStripped,
    ExecutableImage,
    LineNumsStripped,
    LocalSymsStripped,
    AggressiveWsTrim,
    LargeAddressAware,
    Reserved,
    BytesReversedLo,
    Machine32Bit,
    DebugStripped,
    RemovableRunFromSwap,
    NetRunFromSwap,
    FileSystem,
    Dll,
    UpSystemOnly,
    BytesReversedHi,
}

/// The single bit a characteristic flag occupies in the bitmask, `0x0001`
/// through `0x8000` in enumeration order.
pub open spec fn spec_characteristic_value(characteristic: CoffHeaderCharacteristic) -> u16 {
    match characteristic {
        CoffHeaderCharacteristic::RelocsStripped => 0x0001,
        CoffHeaderCharacteristic::ExecutableImage => 0x0002,
        CoffHeaderCharacteristic::LineNumsStripped => 0x0004,
        CoffHeaderCharacteristic::LocalSymsStripped => 0x0008,
        CoffHeaderCharacteristic::AggressiveWsTrim => 0x0010,
        CoffHeaderCharacteristic::LargeAddressAware => 0x0020,
        CoffHeaderCharacteristic::Reserved => 0x0040,
        CoffHeaderCharacteristic::BytesReversedLo => 0x0080,
        CoffHeaderCharacteristic::Machine32Bit => 0x0100,
        CoffHeaderCharacteristic::DebugStripped => 0x0200,
        CoffHeaderCharacteristic::RemovableRunFromSwap => 0x0400,
        CoffHeaderCharacteristic::NetRunFromSwap => 0x0800,
        CoffHeaderCharacteristic::FileSystem => 0x1000,
        CoffHeaderCharacteristic::Dll => 0x2000,
        CoffHeaderCharacteristic::UpSystemOnly => 0x4000,
        CoffHeaderCharacteristic::BytesReversedHi => 0x8000,
    }
}

/// The position of a characteristic's bit in the bitmask, 0 through 15
/// in enumeration order.
pub open spec fn spec_characteristic_index(characteristic: CoffHeaderCharacteristic) -> u16 {
    match characteristic {
        CoffHeaderCharacteristic::RelocsStripped => 0,
        CoffHeaderCharacteristic::ExecutableImage => 1,
        CoffHeaderCharacteristic::LineNumsStripped => 2,
        CoffHeaderCharacteristic::LocalSymsStripped => 3,
        CoffHeaderCharacteristic::AggressiveWsTrim => 4,
        CoffHeaderCharacteristic::LargeAddressAware => 5,
        CoffHeaderCharacteristic::Reserved => 6,
        CoffHeaderCharacteristic::BytesReversedLo => 7,
        CoffHeaderCharacteristic::Machine32Bit => 8,
        CoffHeaderCharacteristic::DebugStripped => 9,
        CoffHeaderCharacteristic::RemovableRunFromSwap => 10,
        CoffHeaderCharacteristic::NetRunFromSwap => 11,
        CoffHeaderCharacteristic::FileSystem => 12,
        CoffHeaderCharacteristic::Dll => 13,
        CoffHeaderCharacteristic::UpSystemOnly => 14,
        CoffHeaderCharacteristic::BytesReversedHi => 15,
    }
}

/// Each characteristic occupies exactly the single bit at its own
/// position: the sixteen masks are `1` shifted by 0 through 15.
pub proof fn lemma_characteristic_value_is_single_bit(characteristic: CoffHeaderCharacteristic)
    ensures
        spec_characteristic_index(characteristic) < 16,
        spec_characteristic_value(characteristic) == (1u16 << spec_characteristic_index(
            characteristic,
        )),
{
    assert((1u16 << 0u16) == 0x0001u16 && (1u16 << 1u16) == 0x0002u16 && (1u16 << 2u16)
        == 0x0004u16 && (1u16 << 3u16) == 0x0008u16 && (1u16 << 4u16) == 0x0010u16 && (1u16
        << 5u16) == 0x0020u16 && (1u16 << 6u16) == 0x0040u16 && (1u16 << 7u16) == 0x0080u16 && (
    1u16 << 8u16) == 0x0100u16 && (1u16 << 9u16) == 0x0200u16 && (1u16 << 10u16) == 0x0400u16 && (
    1u16 << 11u16) == 0x0800u16 && (1u16 << 12u16) == 0x1000u16 && (1u16 << 13u16) == 0x2000u16
        && (1u16 << 14u16) == 0x4000u16 && (1u16 << 15u16) == 0x8000u16) by (bit_vector);
}

/// Testing a characteristic against a bitmask reads exactly the single
/// bit at the characteristic's position, independently of every other
/// bit.
pub proof fn lemma_flag_test_reads_single_bit(flags: u16, characteristic: CoffHeaderCharacteristic)
    ensures
        ((flags & spec_characteristic_value(characteristic)) != 0) <==> ((flags
            >> spec_characteristic_index(characteristic)) & 1) == 1,
{
    let k = spec_characteristic_index(characteristic);
    lemma_characteristic_value_is_single_bit(characteristic);
    assert(((flags & (1u16 << k)) != 0) <==> ((flags >> k) & 1) == 1) by (bit_vector)
        requires
            k < 16u16,
    ;
}

impl CoffHeaderCharacteristic {
    /// Returns the single bit the characteristic occupies in the
    /// bitmask.
    pub fn to_value(characteristic: CoffHeaderCharacteristic) -> (r: u16)
        ensures
            r == spec_characteristic_value(characteristic),
    {
        match characteristic {
            CoffHeaderCharacteristic::RelocsStripped => 0x0001,
            CoffHeaderCharacteristic::ExecutableImage => 0x0002,
            CoffHeaderCharacteristic::LineNumsStripped => 0x0004,
            CoffHeaderCharacteristic::LocalSymsStripped => 0x0008,
            CoffHeaderCharacteristic::AggressiveWsTrim => 0x0010,
            CoffHeaderCharacteristic::LargeAddressAware => 0x0020,
            CoffHeaderCharacteristic::Reserved => 0x0040,
            CoffHeaderCharacteristic::BytesReversedLo => 0x0080,
            CoffHeaderCharacteristic::Machine32Bit => 0x0100,
            CoffHeaderCharacteristic::DebugStripped => 0x0200,
            CoffHeaderCharacteristic::RemovableRunFromSwap => 0x0400,
            CoffHeaderCharacteristic::NetRunFromSwap => 0x0800,
            CoffHeaderCharacteristic::FileSystem => 0x1000,
            CoffHeaderCharacteristic::Dll => 0x2000,
            CoffHeaderCharacteristic::UpSystemOnly => 0x4000,
            CoffHeaderCharacteristic::BytesReversedHi => 0x8000,
        }
    }
}

/// Holds when `h` carries exactly the field values that the first
/// `COFF_HEADER_SIZE` bytes of `b` store under byte order `e`. For a given
/// buffer and byte order at most one header satisfies this predicate, and
/// for a given header exactly one 20-byte buffer does.
pub open spec fn coff_decodes_to(b: Seq<u8>, e: Endianness, h: CoffHeader) -> bool {
    &&& h.f_machine == spec_u16_at(b, COFF_OFF_MACHINE as int, e)
    &&& h.f_nscns == spec_u16_at(b, COFF_OFF_NSCNS as int, e)
    &&& h.f_timdat == spec_u32_at(b, COFF_OFF_TIMDAT as int, e)
    &&& h.f_symptr == spec_u32_at(b, COFF_OFF_SYMPTR as int, e)
    &&& h.f_nsyms == spec_u32_at(b, COFF_OFF_NSYMS as int, e)
    &&& h.f_opthdr == spec_u16_at(b, COFF_OFF_OPTHDR as int, e)
    &&& h.f_flags == spec_u16_at(b, COFF_OFF_FLAGS as int, e)
}

impl CoffHeader {
    /// Returns the raw machine type.
    pub fn get_machine(&self) -> (r: u16)
        ensures
            r == self.f_machine,
    {
        self.f_machine
    }

    /// Returns the machine type as a variant of the closed enumeration;
    /// an unrecognized raw code yields `Unknown`.
    pub fn get_machine_as_enum(&self) -> (r: CoffHeaderMachineType)
        ensures
            r == spec_machine_from_value(self.f_machine),
    {
        CoffHeaderMachineType::from_value(self.f_machine)
    }

    /// Replaces the raw machine type.
    pub fn set_machine(&mut self, machine: u16)
        ensures
            *final(self) == (CoffHeader { f_machine: machine, ..*old(self) }),
    {
        self.f_machine = machine;
    }

    /// Replaces the machine type with the raw code of `machine`;
    /// `Unknown` stores `0x0000`.
    pub fn set_machine_as_enum(&mut self, machine: CoffHeaderMachineType)
        ensures
            *final(self) == (CoffHeader { f_machine: spec_machine_value(machine), ..*old(self) }),
    {
        self.f_machine = CoffHeaderMachineType::to_value(machine);
    }

    /// Returns the number of sections.
    pub fn get_nscns(&self) -> (r: u16)
        ensures
            r == self.f_nscns,
    {
        self.f_nscns
    }

    /// Replaces the number of sections.
    pub fn set_nscns(&mut self, nscns: u16)
        ensures
            *final(self) == (CoffHeader { f_nscns: nscns, ..*old(self) }),
    {
        self.f_nscns = nscns;
    }

    /// Returns the raw POSIX timestamp.
    pub fn get_timdat(&self) -> (r: u32)
        ensures
            r == self.f_timdat,
    {
        self.f_timdat
    }

    /// The raw timestamp read as the instant it denotes: the count of
    /// non-leap seconds since the Unix epoch, never negative. A raw value
    /// of zero denotes the epoch itself.
    pub fn get_timdat_as_epoch(&self) -> (r: i64)
        ensures
            r == self.f_timdat as i64,
    {
        self.f_timdat as i64
    }

    /// Replaces the raw timestamp with an epoch-second count, failing with
    /// `ExcessiveDataError` — and leaving the header unchanged — exactly
    /// when the count does not fit the unsigned 32-bit field, that is,
    /// when it is negative (before 1970) or above `u32::MAX` (past 2106).
    pub fn set_timdat_from_epoch(&mut self, secs: i64) -> (r: Result<(), ButylError>)
        ensures
            match r {
                Ok(()) => 0 <= secs <= u32::MAX && *final(self) == (CoffHeader {
                    f_timdat: secs as u32,
                    ..*old(self)
                }),
                Err(err) => !(0 <= secs <= u32::MAX) && err == ButylError::ExcessiveDataError
                    && *final(self) == *old(self),
            },
    {
        if 0 <= secs && secs <= u32::MAX as i64 {
            self.f_timdat = secs as u32;
            Ok(())
        } else {
            Err(ButylError::ExcessiveDataError)
        }
    }

    /// Replaces the raw POSIX timestamp.
    pub fn set_timdat(&mut self, timdat: u32)
        ensures
            *final(self) == (CoffHeader { f_timdat: timdat, ..*old(self) }),
    {
        self.f_timdat = timdat;
    }

    /// Returns the file pointer to the symbol table.
    pub fn get_symptr(&self) -> (r: u32)
        ensures
            r == self.f_symptr,
    {
        self.f_symptr
    }

    /// Replaces the file pointer to the symbol table.
    pub fn set_symptr(&mut self, symptr: u32)
        ensures
            *final(self) == (CoffHeader { f_symptr: symptr, ..*old(self) }),
    {
        self.f_symptr = symptr;
    }

    /// Returns the number of symbols.
    pub fn get_nsyms(&self) -> (r: u32)
        ensures
            r == self.f_nsyms,
    {
        self.f_nsyms
    }

    /// Replaces the number of symbols.
    pub fn set_nsyms(&mut self, nsyms: u32)
        ensures
            *final(self) == (CoffHeader { f_nsyms: nsyms, ..*old(self) }),
    {
        self.f_nsyms = nsyms;
    }

    /// Returns the optional-header size.
    pub fn get_opthdr(&self) -> (r: u16)
        ensures
            r == self.f_opthdr,
    {
        self.f_opthdr
    }

    /// Replaces the optional-header size.
    pub fn set_opthdr(&mut self, opthdr: u16)
        ensures
            *final(self) == (CoffHeader { f_opthdr: opthdr, ..*old(self) }),
    {
        self.f_opthdr = opthdr;
    }

    /// Returns the characteristics bitmask.
    pub fn get_flags(&self) -> (r: u16)
        ensures
            r == self.f_flags,
    {
        self.f_flags
    }

    /// Replaces the characteristics bitmask.
    pub fn set_flags(&mut self, flags: u16)
        ensures
            *final(self) == (CoffHeader { f_flags: flags, ..*old(self) }),
    {
        self.f_flags = flags;
    }

    /// Tests one named characteristic: true exactly when the flag's bit is
    /// set in the characteristics bitmask.
    pub fn is_flag_set(&self, flag: CoffHeaderCharacteristic) -> (r: bool)
        ensures
            r == ((self.f_flags & spec_characteristic_value(flag)) != 0),
    {
        self.f_flags & CoffHeaderCharacteristic::to_value(flag) != 0
    }

    /// Decodes the header from the leading `COFF_HEADER_SIZE` bytes of
    /// `bytes` under byte order `e`; fails, decoding nothing, exactly when
    /// the buffer is shorter than that.
    pub fn decode(bytes: &[u8], e: Endianness) -> (r: Result<CoffHeader, ButylError>)
        ensures
            match r {
                Ok(h) => bytes@.len() >= COFF_HEADER_SIZE && coff_decodes_to(bytes@, e, h),
                Err(err) => bytes@.len() < COFF_HEADER_SIZE && err
                    == ButylError::InsufficientDataError,
            },
    {
        if bytes.len() < COFF_HEADER_SIZE {
            return Err(ButylError::InsufficientDataError);
        }
        Ok(
            CoffHeader {
                f_machine: read_u16(bytes, COFF_OFF_MACHINE, e),
                f_nscns: read_u16(bytes, COFF_OFF_NSCNS, e),
                f_timdat: read_u32(bytes, COFF_OFF_TIMDAT, e),
                f_symptr: read_u32(bytes, COFF_OFF_SYMPTR, e),
                f_nsyms: read_u32(bytes, COFF_OFF_NSYMS, e),
                f_opthdr: read_u16(bytes, COFF_OFF_OPTHDR, e),
                f_flags: read_u16(bytes, COFF_OFF_FLAGS, e),
            },
        )
    }

    /// Re-encodes the header to its fixed-size on-disk form under byte
    /// order `e`; the output is the unique buffer that decodes back to
    /// `self`.
    pub fn encode(&self, e: Endianness) -> (out: Vec<u8>)
        ensures
            out@.len() == COFF_HEADER_SIZE,
            coff_decodes_to(out@, e, *self),
    {
        let mut out: Vec<u8> = Vec::new();
        write_u16(&mut out, self.f_machine, e);
        write_u16(&mut out, self.f_nscns, e);
        write_u32(&mut out, self.f_timdat, e);
        write_u32(&mut out, self.f_symptr, e);
        write_u32(&mut out, self.f_nsyms, e);
        write_u16(&mut out, self.f_opthdr, e);
        write_u16(&mut out, self.f_flags, e);
        out
    }

    /// Decodes the header from big-endian bytes.
    pub fn from_be_bytes(bytes: &[u8]) -> (r: Result<CoffHeader, ButylError>)
        ensures
            match r {
                Ok(h) => bytes@.len() >= COFF_HEADER_SIZE && coff_decodes_to(
                    bytes@,
                    Endianness::Big,
                    h,
                ),
                Err(err) => bytes@.len() < COFF_HEADER_SIZE && err
                    == ButylError::InsufficientDataError,
            },
    {
        CoffHeader::decode(bytes, Endianness::Big)
    }

    /// Decodes the header from little-endian bytes.
    pub fn from_le_bytes(bytes: &[u8]) -> (r: Result<CoffHeader, ButylError>)
        ensures
            match r {
                Ok(h) => bytes@.len() >= COFF_HEADER_SIZE && coff_decodes_to(
                    bytes@,
                    Endianness::Little,
                    h,
                ),
                Err(err) => bytes@.len() < COFF_HEADER_SIZE && err
                    == ButylError::InsufficientDataError,
            },
    {
        CoffHeader::decode(bytes, Endianness::Little)
    }
}

/// A decoded COFF header together with the buffer it was decoded from;
/// the buffer is only borrowed, never copied.
#[derive(Debug)]
pub struct CoffFile<'a> {
    /// The decoded header.
    pub header: CoffHeader,
    /// The buffer the header was decoded from.
    pub data: &'a [u8],
}

impl<'a> CoffFile<'a> {
    /// Decodes the leading COFF header from big-endian bytes and pairs it
    /// with the whole buffer; fails exactly when the buffer is shorter
    /// than the header.
    pub fn from_be_bytes(data: &'a [u8]) -> (r: Result<CoffFile<'a>, ButylError>)
        ensures
            match r {
                Ok(f) => data@.len() >= COFF_HEADER_SIZE && coff_decodes_to(
                    data@,
                    Endianness::Big,
                    f.header,
                ) && f.data@ == data@,
                Err(err) => data@.len() < COFF_HEADER_SIZE && err
                    == ButylError::InsufficientDataError,
            },
    {
        match CoffHeader::from_be_bytes(data) {
            Ok(header) => Ok(CoffFile { header, data }),
            Err(err) => Err(err),
        }
    }

    /// Decodes the leading COFF header from little-endian bytes and pairs
    /// it with the whole buffer; fails exactly when the buffer is shorter
    /// than the header.
    pub fn from_le_bytes(data: &'a [u8]) -> (r: Result<CoffFile<'a>, ButylError>)
        ensures
            match r {
                Ok(f) => data@.len() >= COFF_HEADER_SIZE && coff_decodes_to(
                    data@,
                    Endianness::Little,
                    f.header,
                ) && f.data@ == data@,
                Err(err) => data@.len() < COFF_HEADER_SIZE && err
                    == ButylError::InsufficientDataError,
            },
    {
        match CoffHeader::from_le_bytes(data) {
            Ok(header) => Ok(CoffFile { header, data }),
            Err(err) => Err(err),
        }
    }

    /// Returns the decoded header.
    pub fn header(&self) -> (r: &CoffHeader)
        ensures
            r == self.header,
    {
        &self.header
    }

    /// Returns the borrowed buffer, the header's bytes included.
    pub fn data(&self) -> (r: &'a [u8])
        ensures
            r@ == self.data@,
    {
        self.data
    }
}

/// Only one header value can decode from a given buffer and byte order:
/// every field of the header is a function of the buffer. Together with the
/// contract of `encode` this gives the round trip: decoding what `encode`
/// produced, under the same byte order, yields the original header.
pub proof fn lemma_coff_decode_deterministic(
    b: Seq<u8>,
    e: Endianness,
    h1: CoffHeader,
    h2: CoffHeader,
)
    requires
        coff_decodes_to(b, e, h1),
        coff_decodes_to(b, e, h2),
    ensures
        h1 == h2,
{
}

/// A header value determines its 20-byte encoding: two buffers of the
/// header's exact size that decode to the same header under the same byte
/// order are equal byte for byte. Together with the contract of `decode`
/// this gives the inverse round trip: re-encoding what `decode` read from
/// a 20-byte buffer, under the same byte order, yields that buffer again.
pub proof fn lemma_coff_encode_unique(b1: Seq<u8>, b2: Seq<u8>, e: Endianness, h: CoffHeader)
    requires
        b1.len() == COFF_HEADER_SIZE,
        b2.len() == COFF_HEADER_SIZE,
        coff_decodes_to(b1, e, h),
        coff_decodes_to(b2, e, h),
    ensures
        b1 == b2,
{
    crate::codec::lemma_u16_at_determines_bytes(
        b1,
        COFF_OFF_MACHINE as int,
        b2,
        COFF_OFF_MACHINE as int,
        e,
    );
    crate::codec::lemma_u16_at_determines_bytes(
        b1,
        COFF_OFF_NSCNS as int,
        b2,
        COFF_OFF_NSCNS as int,
        e,
    );
    crate::codec::lemma_u32_at_determines_bytes(
        b1,
        COFF_OFF_TIMDAT as int,
        b2,
        COFF_OFF_TIMDAT as int,
        e,
    );
    crate::codec::lemma_u32_at_determines_bytes(
        b1,
        COFF_OFF_SYMPTR as int,
        b2,
        COFF_OFF_SYMPTR as int,
        e,
    );
    crate::codec::lemma_u32_at_determines_bytes(
        b1,
        COFF_OFF_NSYMS as int,
        b2,
        COFF_OFF_NSYMS as int,
        e,
    );
    crate::codec::lemma_u16_at_determines_bytes(
        b1,
        COFF_OFF_OPTHDR as int,
        b2,
        COFF_OFF_OPTHDR as int,
        e,
    );
    crate::codec::lemma_u16_at_determines_bytes(
        b1,
        COFF_OFF_FLAGS as int,
        b2,
        COFF_OFF_FLAGS as int,
        e,
    );
    assert(b1 =~= b2);
}

/// Maps each byte index of the 20-byte header to the index holding the
/// same byte after every field of the layout is reversed in place.
pub open spec fn coff_partner(i: int) -> int {
    if i < COFF_OFF_TIMDAT {
        if i % 2 == 0 {
            i + 1
        } else {
            i - 1
        }
    } else if i < COFF_OFF_SYMPTR {
        2 * (COFF_OFF_TIMDAT as int) + 4 - 1 - i
    } else if i < COFF_OFF_NSYMS {
        2 * (COFF_OFF_SYMPTR as int) + 4 - 1 - i
    } else if i < COFF_OFF_OPTHDR {
        2 * (COFF_OFF_NSYMS as int) + 4 - 1 - i
    } else {
        if i % 2 == 0 {
            i + 1
        } else {
            i - 1
        }
    }
}

/// The 20-byte buffer `b` with the bytes of every field reversed in place.
pub open spec fn coff_byte_swapped(b: Seq<u8>) -> Seq<u8>
    recommends
        b.len() >= COFF_HEADER_SIZE,
{
    Seq::new(COFF_HEADER_SIZE as nat, |i: int| b[coff_partner(i)])
}

/// Decoding is independent of the chosen byte order up to reversing each
/// field's bytes: the header read from `b` big-endian is the header read
/// little-endian from `b` with every field reversed in place.
pub proof fn lemma_coff_endianness_independence(b: Seq<u8>, h: CoffHeader)
    requires
        b.len() >= COFF_HEADER_SIZE,
        coff_decodes_to(b, Endianness::Big, h),
    ensures
        coff_decodes_to(coff_byte_swapped(b), Endianness::Little, h),
{
}

} // verus!
