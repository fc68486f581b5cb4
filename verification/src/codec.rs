//! Byte-order-aware extraction and emission of primitive header fields.
//!
//! Every header decoder of the crate reads its multi-byte integer fields
//! through `read_u16` / `read_u32` and writes them back through
//! `write_u16` / `write_u32`, so the interpretation of a byte range under a
//! chosen byte order is defined in exactly one place.

use vstd::prelude::*;

verus! {

/// The byte order used to interpret multi-byte integer fields: most
/// significant byte first (`Big`) or least significant byte first
/// (`Little`).
#[derive(Clone, Copy, Debug, PartialEq, Eq, Structural)]
pub enum Endianness {
    Big,
    Little,
}

/// The 16-bit value stored in `b` at `off` and `off + 1` under byte order
/// `e`.
pub open spec fn spec_u16_at(b: Seq<u8>, off: int, e: Endianness) -> u16
    recommends
        0 <= off,
        off + 2 <= b.len(),
{
    match e {
        Endianness::Big => (b[off] * 0x100 + b[off + 1]) as u16,
        Endianness::Little => (b[off + 1] * 0x100 + b[off]) as u16,
    }
}

/// The 32-bit value stored in `b` at `off` .. `off + 4` under byte order
/// `e`.
pub open spec fn spec_u32_at(b: Seq<u8>, off: int, e: Endianness) -> u32
    recommends
        0 <= off,
        off + 4 <= b.len(),
{
    match e {
        Endianness::Big => (b[off] * 0x1000000 + b[off + 1] * 0x10000 + b[off + 2] * 0x100
            + b[off + 3]) as u32,
        Endianness::Little => (b[off + 3] * 0x1000000 + b[off + 2] * 0x10000 + b[off + 1] * 0x100
            + b[off]) as u32,
    }
}

/// The `width` bytes of the field stored in `b` at `off`, in the order the
/// decoded in-memory array holds them: as laid out on disk for `Big`,
/// reversed for `Little`.
pub open spec fn spec_bytes_at(b: Seq<u8>, off: int, width: int, e: Endianness) -> Seq<u8>
    recommends
        0 <= off,
        0 <= width,
        off + width <= b.len(),
{
    match e {
        Endianness::Big => Seq::new(width as nat, |i: int| b[off + i]),
        Endianness::Little => Seq::new(width as nat, |i: int| b[off + width - 1 - i]),
    }
}

/// Reads the 16-bit field stored at `offset` under byte order `e`.
pub fn read_u16(bytes: &[u8], offset: usize, e: Endianness) -> (r: u16)
    requires
        offset + 2 <= bytes@.len(),
    ensures
        r == spec_u16_at(bytes@, offset as int, e),
{
    let b0 = bytes[offset];
    let b1 = bytes[offset + 1];
    match e {
        Endianness::Big => (b0 as u16) * 0x100 + (b1 as u16),
        Endianness::Little => (b1 as u16) * 0x100 + (b0 as u16),
    }
}

/// Reads the 32-bit field stored at `offset` under byte order `e`.
pub fn read_u32(bytes: &[u8], offset: usize, e: Endianness) -> (r: u32)
    requires
        offset + 4 <= bytes@.len(),
    ensures
        r == spec_u32_at(bytes@, offset as int, e),
{
    let b0 = bytes[offset];
    let b1 = bytes[offset + 1];
    let b2 = bytes[offset + 2];
    let b3 = bytes[offset + 3];
    match e {
        Endianness::Big => (b0 as u32) * 0x1000000 + (b1 as u32) * 0x10000 + (b2 as u32) * 0x100
            + (b3 as u32),
        Endianness::Little => (b3 as u32) * 0x1000000 + (b2 as u32) * 0x10000 + (b1 as u32) * 0x100
            + (b0 as u32),
    }
}

/// Appends the two bytes of `v` to `out` in byte order `e`, so that reading
/// a 16-bit field back from where they landed yields `v` again.
pub fn write_u16(out: &mut Vec<u8>, v: u16, e: Endianness)
    ensures
        final(out)@.len() == old(out)@.len() + 2,
        forall|i: int| 0 <= i < old(out)@.len() ==> final(out)@[i] == old(out)@[i],
        spec_u16_at(final(out)@, old(out)@.len() as int, e) == v,
{
    let hi = (v / 0x100) as u8;
    let lo = (v % 0x100) as u8;
    match e {
        Endianness::Big => {
            out.push(hi);
            out.push(lo);
        },
        Endianness::Little => {
            out.push(lo);
            out.push(hi);
        },
    }
    proof {
        assert(v == (v / 0x100) * 0x100 + v % 0x100) by (nonlinear_arith);
    }
}

/// Appends the four bytes of `v` to `out` in byte order `e`, so that reading
/// a 32-bit field back from where they landed yields `v` again.
pub fn write_u32(out: &mut Vec<u8>, v: u32, e: Endianness)
    ensures
        final(out)@.len() == old(out)@.len() + 4,
        forall|i: int| 0 <= i < old(out)@.len() ==> final(out)@[i] == old(out)@[i],
        spec_u32_at(final(out)@, old(out)@.len() as int, e) == v,
{
    let b3 = (v / 0x1000000) as u8;
    let b2 = ((v / 0x10000) % 0x100) as u8;
    let b1 = ((v / 0x100) % 0x100) as u8;
    let b0 = (v % 0x100) as u8;
    match e {
        Endianness::Big => {
            out.push(b3);
            out.push(b2);
            out.push(b1);
            out.push(b0);
        },
        Endianness::Little => {
            out.push(b0);
            out.push(b1);
            out.push(b2);
            out.push(b3);
        },
    }
    proof {
        lemma_u32_byte_decomposition(v);
    }
}

/// A 16-bit field determines its bytes: two byte pairs storing the same
/// value under the same byte order are the same pair.
pub proof fn lemma_u16_at_determines_bytes(
    b1: Seq<u8>,
    o1: int,
    b2: Seq<u8>,
    o2: int,
    e: Endianness,
)
    requires
        0 <= o1,
        o1 + 2 <= b1.len(),
        0 <= o2,
        o2 + 2 <= b2.len(),
        spec_u16_at(b1, o1, e) == spec_u16_at(b2, o2, e),
    ensures
        b1[o1] == b2[o2],
        b1[o1 + 1] == b2[o2 + 1],
{
}

/// A 32-bit field determines its bytes: two byte quadruples storing the
/// same value under the same byte order are the same quadruple.
pub proof fn lemma_u32_at_determines_bytes(
    b1: Seq<u8>,
    o1: int,
    b2: Seq<u8>,
    o2: int,
    e: Endianness,
)
    requires
        0 <= o1,
        o1 + 4 <= b1.len(),
        0 <= o2,
        o2 + 4 <= b2.len(),
        spec_u32_at(b1, o1, e) == spec_u32_at(b2, o2, e),
    ensures
        b1[o1] == b2[o2],
        b1[o1 + 1] == b2[o2 + 1],
        b1[o1 + 2] == b2[o2 + 2],
        b1[o1 + 3] == b2[o2 + 3],
{
}

/// Reads the `N`-byte array field stored at `offset` under byte order `e`.
pub fn read_bytes<const N: usize>(bytes: &[u8], offset: usize, e: Endianness) -> (r: [u8; N])
    requires
        offset + N <= bytes@.len(),
    ensures
        r@ == spec_bytes_at(bytes@, offset as int, N as int, e),
{
    let mut r = [0u8; N];
    let n = bytes.len();
    match e {
        Endianness::Big => {
            let mut i: usize = 0;
            while i < N
                invariant
                    i <= N,
                    n == bytes@.len(),
                    offset + N <= n,
                    r@.len() == N,
                    forall|j: int| 0 <= j < i ==> r@[j] == bytes@[offset + j],
                decreases N - i,
            {
                r[i] = bytes[offset + i];
                i = i + 1;
            }
        },
        Endianness::Little => {
            let mut i: usize = 0;
            while i < N
                invariant
                    i <= N,
                    n == bytes@.len(),
                    offset + N <= n,
                    r@.len() == N,
                    forall|j: int| 0 <= j < i ==> r@[j] == bytes@[offset + N - 1 - j],
                decreases N - i,
            {
                r[i] = bytes[offset + N - 1 - i];
                i = i + 1;
            }
        },
    }
    proof {
        assert(r@ =~= spec_bytes_at(bytes@, offset as int, N as int, e));
    }
    r
}

/// Appends the `N` bytes of the array field `arr` to `out` in byte order
/// `e`, so that reading the field back from where the bytes landed yields
/// `arr` again.
pub fn write_bytes<const N: usize>(out: &mut Vec<u8>, arr: &[u8; N], e: Endianness)
    ensures
        final(out)@.len() == old(out)@.len() + N,
        forall|i: int| 0 <= i < old(out)@.len() ==> final(out)@[i] == old(out)@[i],
        spec_bytes_at(final(out)@, old(out)@.len() as int, N as int, e) == arr@,
{
    let ghost prefix = out@;
    match e {
        Endianness::Big => {
            let mut i: usize = 0;
            while i < N
                invariant
                    i <= N,
                    out@.len() == prefix.len() + i,
                    forall|j: int| 0 <= j < prefix.len() ==> out@[j] == prefix[j],
                    forall|j: int|
                        prefix.len() <= j < prefix.len() + i ==> out@[j] == arr@[j - prefix.len()],
                decreases N - i,
            {
                out.push(arr[i]);
                i = i + 1;
            }
            proof {
                assert(spec_bytes_at(out@, prefix.len() as int, N as int, Endianness::Big)
                    =~= arr@);
            }
        },
        Endianness::Little => {
            let mut i: usize = 0;
            while i < N
                invariant
                    i <= N,
                    out@.len() == prefix.len() + i,
                    forall|j: int|
                        prefix.len() <= j < prefix.len() + i ==> out@[j] == arr@[N - 1 - (j
                            - prefix.len())],
                    forall|j: int| 0 <= j < prefix.len() ==> out@[j] == prefix[j],
                decreases N - i,
            {
                out.push(arr[N - 1 - i]);
                i = i + 1;
            }
            proof {
                assert(spec_bytes_at(out@, prefix.len() as int, N as int, Endianness::Little)
                    =~= arr@);
            }
        },
    }
}

/// A 32-bit value is the weighted sum of its four base-256 digits.
proof fn lemma_u32_byte_decomposition(v: u32)
    ensures
        v == (v / 0x1000000) * 0x1000000 + ((v / 0x10000) % 0x100) * 0x10000 + ((v / 0x100)
            % 0x100) * 0x100 + v % 0x100,
{
    assert(v == (v / 0x1000000) * 0x1000000 + ((v / 0x10000) % 0x100) * 0x10000 + ((v / 0x100)
        % 0x100) * 0x100 + v % 0x100) by (bit_vector);
}

} // verus!
