use butyl::codec::Endianness;
use butyl::coff::{
    CoffHeader, CoffHeaderCharacteristic, CoffHeaderMachineType, COFF_HEADER_SIZE,
};
use butyl::errors::ButylError;

fn sample_header() -> CoffHeader {
    CoffHeader {
        f_machine: 0x014C,
        f_nscns: 3,
        f_timdat: 0x5F000000,
        f_symptr: 0x00001000,
        f_nsyms: 42,
        f_opthdr: 224,
        f_flags: 0x0102,
    }
}

fn machine_variants() -> Vec<CoffHeaderMachineType> {
    vec![
        CoffHeaderMachineType::Unknown,
        CoffHeaderMachineType::AM33,
        CoffHeaderMachineType::AMD64,
        CoffHeaderMachineType::ARM,
        CoffHeaderMachineType::ARM64,
        CoffHeaderMachineType::ARMNT,
        CoffHeaderMachineType::EBC,
        CoffHeaderMachineType::I386,
        CoffHeaderMachineType::IA64,
        CoffHeaderMachineType::M32R,
        CoffHeaderMachineType::MIPS16,
        CoffHeaderMachineType::MIPSFPU,
        CoffHeaderMachineType::MIPSFPU16,
        CoffHeaderMachineType::PowerPC,
        CoffHeaderMachineType::PowerPCFP,
        CoffHeaderMachineType::R4000,
        CoffHeaderMachineType::RISCV32,
        CoffHeaderMachineType::RISCV64,
        CoffHeaderMachineType::RISCV128,
        CoffHeaderMachineType::SH3,
        CoffHeaderMachineType::SH3DSP,
        CoffHeaderMachineType::SH4,
        CoffHeaderMachineType::SH5,
        CoffHeaderMachineType::Thumb,
        CoffHeaderMachineType::WCEMIPSV2,
    ]
}

#[test]
fn coff_round_trip_little_endian() {
    let h = sample_header();
    let bytes = h.encode(Endianness::Little);
    assert_eq!(bytes.len(), COFF_HEADER_SIZE);
    let h2 = CoffHeader::decode(&bytes, Endianness::Little).unwrap();
    assert_eq!(h, h2);
}

#[test]
fn coff_round_trip_big_endian() {
    let h = sample_header();
    let bytes = h.encode(Endianness::Big);
    assert_eq!(bytes.len(), COFF_HEADER_SIZE);
    let h2 = CoffHeader::decode(&bytes, Endianness::Big).unwrap();
    assert_eq!(h, h2);
}

#[test]
fn coff_encode_exact_bytes() {
    let h = sample_header();
    let be = h.encode(Endianness::Big);
    assert_eq!(
        be,
        vec![
            0x01, 0x4C, 0x00, 0x03, 0x5F, 0x00, 0x00, 0x00, 0x00, 0x00, 0x10, 0x00, 0x00, 0x00,
            0x00, 0x2A, 0x00, 0xE0, 0x01, 0x02,
        ]
    );
    let le = h.encode(Endianness::Little);
    assert_eq!(
        le,
        vec![
            0x4C, 0x01, 0x03, 0x00, 0x00, 0x00, 0x00, 0x5F, 0x00, 0x10, 0x00, 0x00, 0x2A, 0x00,
            0x00, 0x00, 0xE0, 0x00, 0x02, 0x01,
        ]
    );
}

#[test]
fn coff_decode_exact_fields() {
    // The flags field sits in the last two bytes, after the optional-header
    // size; each field is read at its own offset under either byte order.
    let bytes: Vec<u8> = vec![
        0x01, 0x4C, 0x00, 0x02, 0x00, 0x00, 0x00, 0x00, 0x00, 0x00, 0x00, 0x40, 0x00, 0x00,
        0x00, 0x07, 0x00, 0xE0, 0x21, 0x03,
    ];
    let h = CoffHeader::from_be_bytes(&bytes).unwrap();
    assert_eq!(h.get_machine(), 0x014C);
    assert_eq!(h.get_nscns(), 2);
    assert_eq!(h.get_timdat(), 0);
    assert_eq!(h.get_symptr(), 0x40);
    assert_eq!(h.get_nsyms(), 7);
    assert_eq!(h.get_opthdr(), 0x00E0);
    assert_eq!(h.get_flags(), 0x2103);
    let h = CoffHeader::from_le_bytes(&bytes).unwrap();
    assert_eq!(h.get_machine(), 0x4C01);
    assert_eq!(h.get_nscns(), 0x0200);
    assert_eq!(h.get_opthdr(), 0xE000);
    assert_eq!(h.get_flags(), 0x0321);
}

#[test]
fn coff_decode_insufficient_data() {
    let bytes = vec![0u8; COFF_HEADER_SIZE - 1];
    assert!(matches!(
        CoffHeader::decode(&bytes, Endianness::Big),
        Err(ButylError::InsufficientDataError)
    ));
    assert!(matches!(
        CoffHeader::from_le_bytes(&bytes),
        Err(ButylError::InsufficientDataError)
    ));
    assert!(matches!(
        CoffHeader::from_be_bytes(&[]),
        Err(ButylError::InsufficientDataError)
    ));
}

/// Reverses the bytes of every field of the 20-byte COFF layout in place.
fn reverse_coff_fields(bytes: &[u8]) -> Vec<u8> {
    let mut out = bytes.to_vec();
    let fields: [(usize, usize); 7] = [(0, 2), (2, 2), (4, 4), (8, 4), (12, 4), (16, 2), (18, 2)];
    for (off, width) in fields {
        out[off..off + width].reverse();
    }
    out
}

#[test]
fn coff_endianness_independence() {
    let bytes: Vec<u8> = (0..COFF_HEADER_SIZE as u8).map(|i| i.wrapping_mul(11).wrapping_add(3)).collect();
    let h_be = CoffHeader::from_be_bytes(&bytes).unwrap();
    let swapped = reverse_coff_fields(&bytes);
    let h_le = CoffHeader::from_le_bytes(&swapped).unwrap();
    assert_eq!(h_be, h_le);
}

#[test]
fn machine_enum_round_trip() {
    for m in machine_variants() {
        let code = CoffHeaderMachineType::to_value(m);
        assert_eq!(CoffHeaderMachineType::from_value(code), m);
    }
}

#[test]
fn machine_enum_unknown_codes() {
    assert_eq!(
        CoffHeaderMachineType::from_value(0x0000),
        CoffHeaderMachineType::Unknown
    );
    for code in [0x0001u16, 0x1234, 0x014B, 0x014D, 0xFFFF, 0x5129] {
        assert_eq!(
            CoffHeaderMachineType::from_value(code),
            CoffHeaderMachineType::Unknown
        );
    }
    // Encoding an unrecognized-but-nonzero code through the enumeration
    // loses the original value.
    let code = CoffHeaderMachineType::to_value(CoffHeaderMachineType::from_value(0x1234));
    assert_eq!(code, 0x0000);
}

#[test]
fn machine_accessors() {
    let mut h = sample_header();
    assert_eq!(h.get_machine_as_enum(), CoffHeaderMachineType::I386);
    h.set_machine_as_enum(CoffHeaderMachineType::AMD64);
    assert_eq!(h.get_machine(), 0x8664);
    h.set_machine(0xAA64);
    assert_eq!(h.get_machine_as_enum(), CoffHeaderMachineType::ARM64);
    h.set_machine_as_enum(CoffHeaderMachineType::Unknown);
    assert_eq!(h.get_machine(), 0x0000);
}

fn characteristic_bits() -> Vec<(CoffHeaderCharacteristic, u16)> {
    vec![
        (CoffHeaderCharacteristic::RelocsStripped, 0x0001),
        (CoffHeaderCharacteristic::ExecutableImage, 0x0002),
        (CoffHeaderCharacteristic::LineNumsStripped, 0x0004),
        (CoffHeaderCharacteristic::LocalSymsStripped, 0x0008),
        (CoffHeaderCharacteristic::AggressiveWsTrim, 0x0010),
        (CoffHeaderCharacteristic::LargeAddressAware, 0x0020),
        (CoffHeaderCharacteristic::Reserved, 0x0040),
        (CoffHeaderCharacteristic::BytesReversedLo, 0x0080),
        (CoffHeaderCharacteristic::Machine32Bit, 0x0100),
        (CoffHeaderCharacteristic::DebugStripped, 0x0200),
        (CoffHeaderCharacteristic::RemovableRunFromSwap, 0x0400),
        (CoffHeaderCharacteristic::NetRunFromSwap, 0x0800),
        (CoffHeaderCharacteristic::FileSystem, 0x1000),
        (CoffHeaderCharacteristic::Dll, 0x2000),
        (CoffHeaderCharacteristic::UpSystemOnly, 0x4000),
        (CoffHeaderCharacteristic::BytesReversedHi, 0x8000),
    ]
}

#[test]
fn characteristic_values() {
    for (flag, bit) in characteristic_bits() {
        assert_eq!(CoffHeaderCharacteristic::to_value(flag), bit);
    }
}

#[test]
fn is_flag_set_each_bit_independently() {
    for (_, bit) in characteristic_bits() {
        let mut h = sample_header();
        h.set_flags(bit);
        for (other, other_bit) in characteristic_bits() {
            assert_eq!(h.is_flag_set(other), other_bit == bit);
        }
    }
    let mut h = sample_header();
    h.set_flags(0xFFFF);
    for (flag, _) in characteristic_bits() {
        assert!(h.is_flag_set(flag));
    }
    h.set_flags(0x0000);
    for (flag, _) in characteristic_bits() {
        assert!(!h.is_flag_set(flag));
    }
}

#[test]
fn coff_setters_and_getters() {
    let mut h = sample_header();
    h.set_nscns(9);
    assert_eq!(h.get_nscns(), 9);
    h.set_timdat(123456);
    assert_eq!(h.get_timdat(), 123456);
    h.set_symptr(0xCAFE);
    assert_eq!(h.get_symptr(), 0xCAFE);
    h.set_nsyms(17);
    assert_eq!(h.get_nsyms(), 17);
    h.set_opthdr(28);
    assert_eq!(h.get_opthdr(), 28);
    h.set_flags(0x8001);
    assert_eq!(h.get_flags(), 0x8001);
}
