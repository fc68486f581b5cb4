//! The 64-byte legacy MS-DOS MZ executable header.
//!
//! Every field sits at a fixed offset given by the named constants below,
//! which decode, encode and the bounds check all share. Decoding is
//! all-or-nothing: a buffer shorter than the header size yields
//! `InsufficientDataError` and no partial value.

use vstd::prelude::*;

use crate::codec::{
    read_bytes, read_u16, read_u32, spec_bytes_at, spec_u16_at, spec_u32_at, write_bytes,
    write_u16, write_u32, Endianness,
};
use crate::errors::ButylError;

verus! {

/// The fixed on-disk size of the MZ header, in bytes.
pub const DOS_HEADER_SIZE: usize = 64;

/// Offset of the magic number, conventionally `0x4D5A` (`"MZ"`).
pub const DOS_OFF_MAGIC: usize = 0;

/// Offset of the number of bytes on the last page.
pub const DOS_OFF_CBLP: usize = 2;

/// Offset of the number of pages in the file.
pub const DOS_OFF_CP: usize = 4;

/// Offset of the number of relocations.
pub const DOS_OFF_CRLC: usize = 6;

/// Offset of the header size in paragraphs.
pub const DOS_OFF_CPARHDR: usize = 8;

/// Offset of the minimum number of extra paragraphs.
pub const DOS_OFF_MINALLOC: usize = 10;

/// Offset of the maximum number of extra paragraphs.
pub const DOS_OFF_MAXALLOC: usize = 12;

/// Offset of the initial (relative) stack segment.
pub const DOS_OFF_SS: usize = 14;

/// Offset of the initial stack pointer.
pub const DOS_OFF_SP: usize = 16;

/// Offset of the checksum.
pub const DOS_OFF_CSUM: usize = 18;

/// Offset of the initial instruction pointer.
pub const DOS_OFF_IP: usize = 20;

/// Offset of the initial (relative) code segment.
pub const DOS_OFF_CS: usize = 22;

/// Offset of the file address of the relocation table.
pub const DOS_OFF_LFARLC: usize = 24;

/// Offset of the overlay number.
pub const DOS_OFF_OVNO: usize = 26;

/// Offset of the first reserved block.
pub const DOS_OFF_RES: usize = 28;

/// Width of the first reserved block, in bytes.
pub const DOS_LEN_RES: usize = 8;

/// Offset of the OEM identifier.
pub const DOS_OFF_OEMID: usize = 36;

/// Offset of the OEM information.
pub const DOS_OFF_OEMINFO: usize = 38;

/// Offset of the second reserved block.
pub const DOS_OFF_RES2: usize = 40;

/// Width of the second reserved block, in bytes.
pub const DOS_LEN_RES2: usize = 20;

/// Offset of the file address of the wrapping PE header (`e_lfanew`).
pub const DOS_OFF_LFANEW: usize = 60;

/// A fully decoded MZ header: one field per documented offset of the
/// on-disk layout, always completely initialized.
#[derive(Debug)]
pub struct DosHeader {
    /// Magic number.
    pub e_magic: u16,
    /// Number of bytes on the last page.
    pub e_cblp: u16,
    /// Number of pages in the file.
    pub e_cp: u16,
    /// Number of relocations.
    pub e_crlc: u16,
    /// Size of the header in paragraphs.
    pub e_cparhdr: u16,
    /// Minimum number of extra paragraphs.
    pub e_minalloc: u16,
    /// Maximum number of extra paragraphs.
    pub e_maxalloc: u16,
    /// Initial (relative) stack segment.
    pub e_ss: u16,
    /// Initial stack pointer.
    pub e_sp: u16,
    /// Checksum.
    pub e_csum: u16,
    /// Initial instruction pointer.
    pub e_ip: u16,
    /// Initial (relative) code segment.
    pub e_cs: u16,
    /// File address of the relocation table.
    pub e_lfarlc: u16,
    /// Overlay number.
    pub e_ovno: u16,
    /// First reserved block.
    pub e_res: [u8; 8],
    /// OEM identifier.
    pub e_oemid: u16,
    /// OEM information.
    pub e_oeminfo: u16,
    /// Second reserved block.
    pub e_res2: [u8; 20],
    /// File address of the wrapping PE header.
    pub e_lfanew: u32,
}

/// Holds when `h` carries exactly the field values that the first
/// `DOS_HEADER_SIZE` bytes of `b` store under byte order `e`. Each field of
/// the on-disk layout determines its bytes and the bytes determine the
/// field, so for a given buffer and byte order at most one header satisfies
/// this predicate, and for a given header exactly one 64-byte buffer does.
pub open spec fn dos_decodes_to(b: Seq<u8>, e: Endianness, h: DosHeader) -> bool {
    &&& h.e_magic == spec_u16_at(b, DOS_OFF_MAGIC as int, e)
    &&& h.e_cblp == spec_u16_at(b, DOS_OFF_CBLP as int, e)
    &&& h.e_cp == spec_u16_at(b, DOS_OFF_CP as int, e)
    &&& h.e_crlc == spec_u16_at(b, DOS_OFF_CRLC as int, e)
    &&& h.e_cparhdr == spec_u16_at(b, DOS_OFF_CPARHDR as int, e)
    &&& h.e_minalloc == spec_u16_at(b, DOS_OFF_MINALLOC as int, e)
    &&& h.e_maxalloc == spec_u16_at(b, DOS_OFF_MAXALLOC as int, e)
    &&& h.e_ss == spec_u16_at(b, DOS_OFF_SS as int, e)
    &&& h.e_sp == spec_u16_at(b, DOS_OFF_SP as int, e)
    &&& h.e_csum == spec_u16_at(b, DOS_OFF_CSUM as int, e)
    &&& h.e_ip == spec_u16_at(b, DOS_OFF_IP as int, e)
    &&& h.e_cs == spec_u16_at(b, DOS_OFF_CS as int, e)
    &&& h.e_lfarlc == spec_u16_at(b, DOS_OFF_LFARLC as int, e)
    &&& h.e_ovno == spec_u16_at(b, DOS_OFF_OVNO as int, e)
    &&& h.e_res@ == spec_bytes_at(b, DOS_OFF_RES as int, DOS_LEN_RES as int, e)
    &&& h.e_oemid == spec_u16_at(b, DOS_OFF_OEMID as int, e)
    &&& h.e_oeminfo == spec_u16_at(b, DOS_OFF_OEMINFO as int, e)
    &&& h.e_res2@ == spec_bytes_at(b, DOS_OFF_RES2 as int, DOS_LEN_RES2 as int, e)
    &&& h.e_lfanew == spec_u32_at(b, DOS_OFF_LFANEW as int, e)
}

impl DosHeader {
    /// Decodes the header from the leading `DOS_HEADER_SIZE` bytes of
    /// `bytes` under byte order `e`; fails, decoding nothing, exactly when
    /// the buffer is shorter than that.
    pub fn decode(bytes: &[u8], e: Endianness) -> (r: Result<DosHeader, ButylError>)
        ensures
            match r {
                Ok(h) => bytes@.len() >= DOS_HEADER_SIZE && dos_decodes_to(bytes@, e, h),
                Err(err) => bytes@.len() < DOS_HEADER_SIZE && err
                    == ButylError::InsufficientDataError,
            },
    {
        if bytes.len() < DOS_HEADER_SIZE {
            return Err(ButylError::InsufficientDataError);
        }
        Ok(
            DosHeader {
                e_magic: read_u16(bytes, DOS_OFF_MAGIC, e),
                e_cblp: read_u16(bytes, DOS_OFF_CBLP, e),
                e_cp: read_u16(bytes, DOS_OFF_CP, e),
                e_crlc: read_u16(bytes, DOS_OFF_CRLC, e),
                e_cparhdr: read_u16(bytes, DOS_OFF_CPARHDR, e),
                e_minalloc: read_u16(bytes, DOS_OFF_MINALLOC, e),
                e_maxalloc: read_u16(bytes, DOS_OFF_MAXALLOC, e),
                e_ss: read_u16(bytes, DOS_OFF_SS, e),
                e_sp: read_u16(bytes, DOS_OFF_SP, e),
                e_csum: read_u16(bytes, DOS_OFF_CSUM, e),
                e_ip: read_u16(bytes, DOS_OFF_IP, e),
                e_cs: read_u16(bytes, DOS_OFF_CS, e),
                e_lfarlc: read_u16(bytes, DOS_OFF_LFARLC, e),
                e_ovno: read_u16(bytes, DOS_OFF_OVNO, e),
                e_res: read_bytes::<8>(bytes, DOS_OFF_RES, e),
                e_oemid: read_u16(bytes, DOS_OFF_OEMID, e),
                e_oeminfo: read_u16(bytes, DOS_OFF_OEMINFO, e),
                e_res2: read_bytes::<20>(bytes, DOS_OFF_RES2, e),
                e_lfanew: read_u32(bytes, DOS_OFF_LFANEW, e),
            },
        )
    }

    /// Re-encodes the header to its fixed-size on-disk form under byte
    /// order `e`; the output is the unique buffer that decodes back to
    /// `self`.
    pub fn encode(&self, e: Endianness) -> (out: Vec<u8>)
        ensures
            out@.len() == DOS_HEADER_SIZE,
            dos_decodes_to(out@, e, *self),
    {
        let mut out: Vec<u8> = Vec::new();
        write_u16(&mut out, self.e_magic, e);
        write_u16(&mut out, self.e_cblp, e);
        write_u16(&mut out, self.e_cp, e);
        write_u16(&mut out, self.e_crlc, e);
        write_u16(&mut out, self.e_cparhdr, e);
        write_u16(&mut out, self.e_minalloc, e);
        write_u16(&mut out, self.e_maxalloc, e);
        write_u16(&mut out, self.e_ss, e);
        write_u16(&mut out, self.e_sp, e);
        write_u16(&mut out, self.e_csum, e);
        write_u16(&mut out, self.e_ip, e);
        write_u16(&mut out, self.e_cs, e);
        write_u16(&mut out, self.e_lfarlc, e);
        write_u16(&mut out, self.e_ovno, e);
        write_bytes::<8>(&mut out, &self.e_res, e);
        write_u16(&mut out, self.e_oemid, e);
        write_u16(&mut out, self.e_oeminfo, e);
        write_bytes::<20>(&mut out, &self.e_res2, e);
        write_u32(&mut out, self.e_lfanew, e);
        proof {
            assert(spec_bytes_at(out@, DOS_OFF_RES as int, DOS_LEN_RES as int, e) =~= self.e_res@);
            assert(spec_bytes_at(out@, DOS_OFF_RES2 as int, DOS_LEN_RES2 as int, e)
                =~= self.e_res2@);
        }
        out
    }

    /// Returns the magic number.
    pub fn get_magic(&self) -> (r: u16)
        ensures
            r == self.e_magic,
    {
        self.e_magic
    }

    /// Replaces the magic number.
    pub fn set_magic(&mut self, magic: u16)
        ensures
            *final(self) == (DosHeader { e_magic: magic, ..*old(self) }),
    {
        self.e_magic = magic;
    }

    /// Returns the number of bytes on the last page.
    pub fn get_cblp(&self) -> (r: u16)
        ensures
            r == self.e_cblp,
    {
        self.e_cblp
    }

    /// Replaces the number of bytes on the last page.
    pub fn set_cblp(&mut self, cblp: u16)
        ensures
            *final(self) == (DosHeader { e_cblp: cblp, ..*old(self) }),
    {
        self.e_cblp = cblp;
    }

    /// Returns the number of pages in the file.
    pub fn get_cp(&self) -> (r: u16)
        ensures
            r == self.e_cp,
    {
        self.e_cp
    }

    /// Replaces the number of pages in the file.
    pub fn set_cp(&mut self, cp: u16)
        ensures
            *final(self) == (DosHeader { e_cp: cp, ..*old(self) }),
    {
        self.e_cp = cp;
    }

    /// Returns the number of relocations.
    pub fn get_crlc(&self) -> (r: u16)
        ensures
            r == self.e_crlc,
    {
        self.e_crlc
    }

    /// Replaces the number of relocations.
    pub fn set_crlc(&mut self, crlc: u16)
        ensures
            *final(self) == (DosHeader { e_crlc: crlc, ..*old(self) }),
    {
        self.e_crlc = crlc;
    }

    /// Returns the header size in paragraphs.
    pub fn get_cparhdr(&self) -> (r: u16)
        ensures
            r == self.e_cparhdr,
    {
        self.e_cparhdr
    }

    /// Replaces the header size in paragraphs.
    pub fn set_cparhdr(&mut self, cparhdr: u16)
        ensures
            *final(self) == (DosHeader { e_cparhdr: cparhdr, ..*old(self) }),
    {
        self.e_cparhdr = cparhdr;
    }

    /// Returns the minimum number of extra paragraphs.
    pub fn get_minalloc(&self) -> (r: u16)
        ensures
            r == self.e_minalloc,
    {
        self.e_minalloc
    }

    /// Replaces the minimum number of extra paragraphs.
    pub fn set_minalloc(&mut self, minalloc: u16)
        ensures
            *final(self) == (DosHeader { e_minalloc: minalloc, ..*old(self) }),
    {
        self.e_minalloc = minalloc;
    }

    /// Returns the maximum number of extra paragraphs.
    pub fn get_maxalloc(&self) -> (r: u16)
        ensures
            r == self.e_maxalloc,
    {
        self.e_maxalloc
    }

    /// Replaces the maximum number of extra paragraphs.
    pub fn set_maxalloc(&mut self, maxalloc: u16)
        ensures
            *final(self) == (DosHeader { e_maxalloc: maxalloc, ..*old(self) }),
    {
        self.e_maxalloc = maxalloc;
    }

    /// Returns the initial (relative) stack segment.
    pub fn get_ss(&self) -> (r: u16)
        ensures
            r == self.e_ss,
    {
        self.e_ss
    }

    /// Replaces the initial (relative) stack segment.
    pub fn set_ss(&mut self, ss: u16)
        ensures
            *final(self) == (DosHeader { e_ss: ss, ..*old(self) }),
    {
        self.e_ss = ss;
    }

    /// Returns the initial stack pointer.
    pub fn get_sp(&self) -> (r: u16)
        ensures
            r == self.e_sp,
    {
        self.e_sp
    }

    /// Replaces the initial stack pointer.
    pub fn set_sp(&mut self, sp: u16)
        ensures
            *final(self) == (DosHeader { e_sp: sp, ..*old(self) }),
    {
        self.e_sp = sp;
    }

    /// Returns the checksum.
    pub fn get_csum(&self) -> (r: u16)
        ensures
            r == self.e_csum,
    {
        self.e_csum
    }

    /// Replaces the checksum.
    pub fn set_csum(&mut self, csum: u16)
        ensures
            *final(self) == (DosHeader { e_csum: csum, ..*old(self) }),
    {
        self.e_csum = csum;
    }

    /// Returns the initial instruction pointer.
    pub fn get_ip(&self) -> (r: u16)
        ensures
            r == self.e_ip,
    {
        self.e_ip
    }

    /// Replaces the initial instruction pointer.
    pub fn set_ip(&mut self, ip: u16)
        ensures
            *final(self) == (DosHeader { e_ip: ip, ..*old(self) }),
    {
        self.e_ip = ip;
    }

    /// Returns the initial (relative) code segment.
    pub fn get_cs(&self) -> (r: u16)
        ensures
            r == self.e_cs,
    {
        self.e_cs
    }

    /// Replaces the initial (relative) code segment.
    pub fn set_cs(&mut self, cs: u16)
        ensures
            *final(self) == (DosHeader { e_cs: cs, ..*old(self) }),
    {
        self.e_cs = cs;
    }

    /// Returns the file address of the relocation table.
    pub fn get_lfarlc(&self) -> (r: u16)
        ensures
            r == self.e_lfarlc,
    {
        self.e_lfarlc
    }

    /// Replaces the file address of the relocation table.
    pub fn set_lfarlc(&mut self, lfarlc: u16)
        ensures
            *final(self) == (DosHeader { e_lfarlc: lfarlc, ..*old(self) }),
    {
        self.e_lfarlc = lfarlc;
    }

    /// Returns the overlay number.
    pub fn get_ovno(&self) -> (r: u16)
        ensures
            r == self.e_ovno,
    {
        self.e_ovno
    }

    /// Replaces the overlay number.
    pub fn set_ovno(&mut self, ovno: u16)
        ensures
            *final(self) == (DosHeader { e_ovno: ovno, ..*old(self) }),
    {
        self.e_ovno = ovno;
    }

    /// Returns the first reserved block.
    pub fn get_res(&self) -> (r: [u8; 8])
        ensures
            r == self.e_res,
    {
        self.e_res
    }

    /// Replaces the first reserved block.
    pub fn set_res(&mut self, res: [u8; 8])
        ensures
            *final(self) == (DosHeader { e_res: res, ..*old(self) }),
    {
        self.e_res = res;
    }

    /// Returns the OEM identifier.
    pub fn get_oemid(&self) -> (r: u16)
        ensures
            r == self.e_oemid,
    {
        self.e_oemid
    }

    /// Replaces the OEM identifier.
    pub fn set_oemid(&mut self, oemid: u16)
        ensures
            *final(self) == (DosHeader { e_oemid: oemid, ..*old(self) }),
    {
        self.e_oemid = oemid;
    }

    /// Returns the OEM information.
    pub fn get_oeminfo(&self) -> (r: u16)
        ensures
            r == self.e_oeminfo,
    {
        self.e_oeminfo
    }

    /// Replaces the OEM information.
    pub fn set_oeminfo(&mut self, oeminfo: u16)
        ensures
            *final(self) == (DosHeader { e_oeminfo: oeminfo, ..*old(self) }),
    {
        self.e_oeminfo = oeminfo;
    }

    /// Returns the second reserved block.
    pub fn get_res2(&self) -> (r: [u8; 20])
        ensures
            r == self.e_res2,
    {
        self.e_res2
    }

    /// Replaces the second reserved block.
    pub fn set_res2(&mut self, res2: [u8; 20])
        ensures
            *final(self) == (DosHeader { e_res2: res2, ..*old(self) }),
    {
        self.e_res2 = res2;
    }

    /// Returns the file address of the wrapping PE header.
    pub fn get_lfanew(&self) -> (r: u32)
        ensures
            r == self.e_lfanew,
    {
        self.e_lfanew
    }

    /// Replaces the file address of the wrapping PE header.
    pub fn set_lfanew(&mut self, lfanew: u32)
        ensures
            *final(self) == (DosHeader { e_lfanew: lfanew, ..*old(self) }),
    {
        self.e_lfanew = lfanew;
    }

    /// Decodes the header from big-endian bytes.
    pub fn from_be_bytes(bytes: &[u8]) -> (r: Result<DosHeader, ButylError>)
        ensures
            match r {
                Ok(h) => bytes@.len() >= DOS_HEADER_SIZE && dos_decodes_to(
                    bytes@,
                    Endianness::Big,
                    h,
                ),
                Err(err) => bytes@.len() < DOS_HEADER_SIZE && err
                    == ButylError::InsufficientDataError,
            },
    {
        DosHeader::decode(bytes, Endianness::Big)
    }

    /// Decodes the header from little-endian bytes.
    pub fn from_le_bytes(bytes: &[u8]) -> (r: Result<DosHeader, ButylError>)
        ensures
            match r {
                Ok(h) => bytes@.len() >= DOS_HEADER_SIZE && dos_decodes_to(
                    bytes@,
                    Endianness::Little,
                    h,
                ),
                Err(err) => bytes@.len() < DOS_HEADER_SIZE && err
                    == ButylError::InsufficientDataError,
            },
    {
        DosHeader::decode(bytes, Endianness::Little)
    }
}

/// A decoded MZ header together with the buffer it was decoded from; the
/// buffer is only borrowed, never copied.
#[derive(Debug)]
pub struct DosFile<'a> {
    /// The decoded header.
    pub header: DosHeader,
    /// The buffer the header was decoded from.
    pub data: &'a [u8],
}

impl<'a> DosFile<'a> {
    /// Decodes the leading MZ header from big-endian bytes and pairs it
    /// with the whole buffer; fails exactly when the buffer is shorter
    /// than the header.
    pub fn from_be_bytes(data: &'a [u8]) -> (r: Result<DosFile<'a>, ButylError>)
        ensures
            match r {
                Ok(f) => data@.len() >= DOS_HEADER_SIZE && dos_decodes_to(
                    data@,
                    Endianness::Big,
                    f.header,
                ) && f.data@ == data@,
                Err(err) => data@.len() < DOS_HEADER_SIZE && err
                    == ButylError::InsufficientDataError,
            },
    {
        match DosHeader::from_be_bytes(data) {
            Ok(header) => Ok(DosFile { header, data }),
            Err(err) => Err(err),
        }
    }

    /// Decodes the leading MZ header from little-endian bytes and pairs it
    /// with the whole buffer; fails exactly when the buffer is shorter
    /// than the header.
    pub fn from_le_bytes(data: &'a [u8]) -> (r: Result<DosFile<'a>, ButylError>)
        ensures
            match r {
                Ok(f) => data@.len() >= DOS_HEADER_SIZE && dos_decodes_to(
                    data@,
                    Endianness::Little,
                    f.header,
                ) && f.data@ == data@,
                Err(err) => data@.len() < DOS_HEADER_SIZE && err
                    == ButylError::InsufficientDataError,
            },
    {
        match DosHeader::from_le_bytes(data) {
            Ok(header) => Ok(DosFile { header, data }),
            Err(err) => Err(err),
        }
    }

    /// Returns the decoded header.
    pub fn header(&self) -> (r: &DosHeader)
        ensures
            r == self.header,
    {
        &self.header
    }

    /// Returns the borrowed buffer, the header's bytes included.
    pub fn data(&self) -> (r: &'a [u8])
        ensures
            r@ == self.data@,
    {
        self.data
    }
}

/// Only one header value can decode from a given buffer and byte order:
/// every field of the header is a function of the buffer. Together with the
/// contract of `encode` this gives the round trip: decoding what `encode`
/// produced, under the same byte order, yields the original header.
pub proof fn lemma_dos_decode_deterministic(b: Seq<u8>, e: Endianness, h1: DosHeader, h2: DosHeader)
    requires
        dos_decodes_to(b, e, h1),
        dos_decodes_to(b, e, h2),
    ensures
        h1 == h2,
{
    assert(h1.e_res =~= h2.e_res);
    assert(h1.e_res2 =~= h2.e_res2);
}

/// A header value determines its 64-byte encoding: two buffers of the
/// header's exact size that decode to the same header under the same byte
/// order are equal byte for byte. Together with the contract of `decode`
/// this gives the inverse round trip: re-encoding what `decode` read from
/// a 64-byte buffer, under the same byte order, yields that buffer again.
pub proof fn lemma_dos_encode_unique(b1: Seq<u8>, b2: Seq<u8>, e: Endianness, h: DosHeader)
    requires
        b1.len() == DOS_HEADER_SIZE,
        b2.len() == DOS_HEADER_SIZE,
        dos_decodes_to(b1, e, h),
        dos_decodes_to(b2, e, h),
    ensures
        b1 == b2,
{
    crate::codec::lemma_u16_at_determines_bytes(b1, DOS_OFF_MAGIC as int, b2, DOS_OFF_MAGIC as int, e);
    crate::codec::lemma_u16_at_determines_bytes(b1, DOS_OFF_CBLP as int, b2, DOS_OFF_CBLP as int, e);
    crate::codec::lemma_u16_at_determines_bytes(b1, DOS_OFF_CP as int, b2, DOS_OFF_CP as int, e);
    crate::codec::lemma_u16_at_determines_bytes(b1, DOS_OFF_CRLC as int, b2, DOS_OFF_CRLC as int, e);
    crate::codec::lemma_u16_at_determines_bytes(b1, DOS_OFF_CPARHDR as int, b2, DOS_OFF_CPARHDR as int, e);
    crate::codec::lemma_u16_at_determines_bytes(b1, DOS_OFF_MINALLOC as int, b2, DOS_OFF_MINALLOC as int, e);
    crate::codec::lemma_u16_at_determines_bytes(b1, DOS_OFF_MAXALLOC as int, b2, DOS_OFF_MAXALLOC as int, e);
    crate::codec::lemma_u16_at_determines_bytes(b1, DOS_OFF_SS as int, b2, DOS_OFF_SS as int, e);
    crate::codec::lemma_u16_at_determines_bytes(b1, DOS_OFF_SP as int, b2, DOS_OFF_SP as int, e);
    crate::codec::lemma_u16_at_determines_bytes(b1, DOS_OFF_CSUM as int, b2, DOS_OFF_CSUM as int, e);
    crate::codec::lemma_u16_at_determines_bytes(b1, DOS_OFF_IP as int, b2, DOS_OFF_IP as int, e);
    crate::codec::lemma_u16_at_determines_bytes(b1, DOS_OFF_CS as int, b2, DOS_OFF_CS as int, e);
    crate::codec::lemma_u16_at_determines_bytes(b1, DOS_OFF_LFARLC as int, b2, DOS_OFF_LFARLC as int, e);
    crate::codec::lemma_u16_at_determines_bytes(b1, DOS_OFF_OVNO as int, b2, DOS_OFF_OVNO as int, e);
    crate::codec::lemma_u16_at_determines_bytes(b1, DOS_OFF_OEMID as int, b2, DOS_OFF_OEMID as int, e);
    crate::codec::lemma_u16_at_determines_bytes(b1, DOS_OFF_OEMINFO as int, b2, DOS_OFF_OEMINFO as int, e);
    crate::codec::lemma_u32_at_determines_bytes(b1, DOS_OFF_LFANEW as int, b2, DOS_OFF_LFANEW as int, e);
    assert forall|i: int| DOS_OFF_RES <= i < DOS_OFF_RES + DOS_LEN_RES implies b1[i] == b2[i] by {
        let j = if e is Big {
            i - DOS_OFF_RES
        } else {
            DOS_OFF_RES + DOS_LEN_RES - 1 - i
        };
        assert(spec_bytes_at(b1, DOS_OFF_RES as int, DOS_LEN_RES as int, e)[j] == spec_bytes_at(
            b2,
            DOS_OFF_RES as int,
            DOS_LEN_RES as int,
            e,
        )[j]);
    }
    assert forall|i: int| DOS_OFF_RES2 <= i < DOS_OFF_RES2 + DOS_LEN_RES2 implies b1[i] == b2[i] by {
        let j = if e is Big {
            i - DOS_OFF_RES2
        } else {
            DOS_OFF_RES2 + DOS_LEN_RES2 - 1 - i
        };
        assert(spec_bytes_at(b1, DOS_OFF_RES2 as int, DOS_LEN_RES2 as int, e)[j] == spec_bytes_at(
            b2,
            DOS_OFF_RES2 as int,
            DOS_LEN_RES2 as int,
            e,
        )[j]);
    }
    assert(b1 =~= b2);
}

/// Maps each byte index of the 64-byte header to the index holding the
/// same byte after every field of the layout is reversed in place.
pub open spec fn dos_partner(i: int) -> int {
    if i < DOS_OFF_RES {
        if i % 2 == 0 {
            i + 1
        } else {
            i - 1
        }
    } else if i < DOS_OFF_OEMID {
        2 * (DOS_OFF_RES as int) + DOS_LEN_RES - 1 - i
    } else if i < DOS_OFF_RES2 {
        if i % 2 == 0 {
            i + 1
        } else {
            i - 1
        }
    } else if i < DOS_OFF_LFANEW {
        2 * (DOS_OFF_RES2 as int) + DOS_LEN_RES2 - 1 - i
    } else {
        2 * (DOS_OFF_LFANEW as int) + 4 - 1 - i
    }
}

/// The 64-byte buffer `b` with the bytes of every field reversed in place.
pub open spec fn dos_byte_swapped(b: Seq<u8>) -> Seq<u8>
    recommends
        b.len() >= DOS_HEADER_SIZE,
{
    Seq::new(DOS_HEADER_SIZE as nat, |i: int| b[dos_partner(i)])
}

/// Decoding is independent of the chosen byte order up to reversing each
/// field's bytes: the header read from `b` big-endian is the header read
/// little-endian from `b` with every field reversed in place.
pub proof fn lemma_dos_endianness_independence(b: Seq<u8>, h: DosHeader)
    requires
        b.len() >= DOS_HEADER_SIZE,
        dos_decodes_to(b, Endianness::Big, h),
    ensures
        dos_decodes_to(dos_byte_swapped(b), Endianness::Little, h),
{
    let s = dos_byte_swapped(b);
    assert(h.e_res@ =~= spec_bytes_at(s, DOS_OFF_RES as int, DOS_LEN_RES as int,
        Endianness::Little));
    assert(h.e_res2@ =~= spec_bytes_at(s, DOS_OFF_RES2 as int, DOS_LEN_RES2 as int,
        Endianness::Little));
}

} // verus!
