use butyl::coff::{CoffFile, COFF_HEADER_SIZE};
use butyl::dos::{DosFile, DOS_HEADER_SIZE};
use butyl::errors::ButylError;

#[test]
fn coff_file_from_bytes() {
    let mut buf = vec![0u8; COFF_HEADER_SIZE + 8];
    buf[0] = 0x01;
    buf[1] = 0x4C;
    let f = CoffFile::from_be_bytes(&buf).unwrap();
    assert_eq!(f.header().get_machine(), 0x014C);
    assert_eq!(f.data().len(), buf.len());
    let f = CoffFile::from_le_bytes(&buf).unwrap();
    assert_eq!(f.header().get_machine(), 0x4C01);
    assert!(matches!(
        CoffFile::from_be_bytes(&buf[..COFF_HEADER_SIZE - 1]),
        Err(ButylError::InsufficientDataError)
    ));
}

#[test]
fn dos_file_from_bytes() {
    let mut buf = vec![0u8; DOS_HEADER_SIZE + 8];
    buf[0] = 0x4D;
    buf[1] = 0x5A;
    let f = DosFile::from_be_bytes(&buf).unwrap();
    assert_eq!(f.header().get_magic(), 0x4D5A);
    assert_eq!(f.data().len(), buf.len());
    let f = DosFile::from_le_bytes(&buf).unwrap();
    assert_eq!(f.header().get_magic(), 0x5A4D);
    assert!(matches!(
        DosFile::from_le_bytes(&buf[..DOS_HEADER_SIZE - 1]),
        Err(ButylError::InsufficientDataError)
    ));
}
