use butyl::codec::Endianness;
use butyl::coff::COFF_HEADER_SIZE;
use butyl::dos::DOS_HEADER_SIZE;
use butyl::errors::ButylError;
use butyl::formats::{File, Format};
use butyl::utils::{get_file_as, infer_format, infer_format_endian};

#[test]
fn format_from_string_exact_names() {
    assert_eq!(Format::from_string("DOS".to_string()), Format::DOS);
    assert_eq!(Format::from_string("COFF".to_string()), Format::COFF);
    assert_eq!(Format::from_string("PE".to_string()), Format::PE);
}

#[test]
fn format_from_string_rejects_everything_else() {
    assert_eq!(Format::from_string("dos".to_string()), Format::Unknown);
    assert_eq!(Format::from_string("Coff".to_string()), Format::Unknown);
    assert_eq!(Format::from_string("PE ".to_string()), Format::Unknown);
    assert_eq!(Format::from_string("".to_string()), Format::Unknown);
    assert_eq!(Format::from_string("ELF".to_string()), Format::Unknown);
}

#[test]
fn infer_mz_prefix_is_dos() {
    let mut buf = vec![0u8; 64];
    buf[0] = 0x4D;
    buf[1] = 0x5A;
    assert_eq!(infer_format(&buf), Format::DOS);
    // The DOS signature wins under either byte order.
    assert_eq!(infer_format_endian(&buf, Endianness::Little), Format::DOS);
    // Even a buffer holding nothing but the signature identifies DOS.
    assert_eq!(infer_format(&[0x4D, 0x5A]), Format::DOS);
}

#[test]
fn infer_known_machine_code_is_coff() {
    let mut buf = vec![0u8; 20];
    buf[0] = 0x01;
    buf[1] = 0x4C;
    assert_eq!(infer_format(&buf), Format::COFF);
    // The same code little-endian reads as 0x4C01, which no machine type
    // names.
    assert_eq!(infer_format_endian(&buf, Endianness::Little), Format::Unknown);
    // Read little-endian, the swapped bytes name I386 again.
    assert_eq!(
        infer_format_endian(&[0x4C, 0x01], Endianness::Little),
        Format::COFF
    );
    // AMD64's code at offset 0.
    assert_eq!(infer_format(&[0x86, 0x64]), Format::COFF);
}

#[test]
fn infer_zeros_and_empty_are_unknown() {
    for len in [0usize, 1, 2, 19, 20, 63, 64, 100] {
        let buf = vec![0u8; len];
        assert_eq!(infer_format(&buf), Format::Unknown);
        assert_eq!(infer_format_endian(&buf, Endianness::Little), Format::Unknown);
    }
}

#[test]
fn get_file_as_dos() {
    let mut buf = vec![0u8; DOS_HEADER_SIZE];
    buf[0] = 0x4D;
    buf[1] = 0x5A;
    match get_file_as(&buf, Format::DOS).unwrap() {
        File::DOS(f) => {
            // Fields are read little-endian.
            assert_eq!(f.header().get_magic(), 0x5A4D);
            assert_eq!(f.data(), &buf[..]);
        },
        _ => panic!("expected a DOS file"),
    }
}

#[test]
fn get_file_as_coff() {
    let mut buf = vec![0u8; COFF_HEADER_SIZE + 4];
    buf[0] = 0x4C;
    buf[1] = 0x01;
    match get_file_as(&buf, Format::COFF).unwrap() {
        File::COFF(f) => {
            assert_eq!(f.header().get_machine(), 0x014C);
            assert_eq!(f.data(), &buf[..]);
        },
        _ => panic!("expected a COFF file"),
    }
}

#[test]
fn get_file_as_insufficient_data() {
    let buf = vec![0u8; DOS_HEADER_SIZE - 1];
    assert!(matches!(
        get_file_as(&buf, Format::DOS),
        Err(ButylError::InsufficientDataError)
    ));
    let buf = vec![0u8; COFF_HEADER_SIZE - 1];
    assert!(matches!(
        get_file_as(&buf, Format::COFF),
        Err(ButylError::InsufficientDataError)
    ));
}

#[test]
fn get_file_as_pe_is_unsupported() {
    let buf = vec![0u8; 1024];
    assert!(matches!(
        get_file_as(&buf, Format::PE),
        Err(ButylError::UnsupportedFormatError)
    ));
}

#[test]
fn get_file_as_unknown_is_empty() {
    let buf = vec![0u8; 2];
    assert!(matches!(
        get_file_as(&buf, Format::Unknown),
        Ok(File::Unknown(()))
    ));
    // Unknown never fails, however short the buffer.
    assert!(matches!(get_file_as(&[], Format::Unknown), Ok(File::Unknown(()))));
}
