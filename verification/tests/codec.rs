use butyl::codec::{read_bytes, read_u16, read_u32, write_bytes, write_u16, write_u32, Endianness};

#[test]
fn read_u16_both_orders() {
    let bytes = [0xAB, 0xCD, 0x12, 0x34];
    assert_eq!(read_u16(&bytes, 0, Endianness::Big), 0xABCD);
    assert_eq!(read_u16(&bytes, 0, Endianness::Little), 0xCDAB);
    assert_eq!(read_u16(&bytes, 2, Endianness::Big), 0x1234);
    assert_eq!(read_u16(&bytes, 2, Endianness::Little), 0x3412);
}

#[test]
fn read_u32_both_orders() {
    let bytes = [0x01, 0x02, 0x03, 0x04, 0x05];
    assert_eq!(read_u32(&bytes, 0, Endianness::Big), 0x01020304);
    assert_eq!(read_u32(&bytes, 0, Endianness::Little), 0x04030201);
    assert_eq!(read_u32(&bytes, 1, Endianness::Big), 0x02030405);
}

#[test]
fn write_u16_appends_both_orders() {
    let mut out = vec![0xFFu8];
    write_u16(&mut out, 0xABCD, Endianness::Big);
    assert_eq!(out, vec![0xFF, 0xAB, 0xCD]);
    write_u16(&mut out, 0xABCD, Endianness::Little);
    assert_eq!(out, vec![0xFF, 0xAB, 0xCD, 0xCD, 0xAB]);
}

#[test]
fn write_u32_appends_both_orders() {
    let mut out = Vec::new();
    write_u32(&mut out, 0xDEADBEEF, Endianness::Big);
    assert_eq!(out, vec![0xDE, 0xAD, 0xBE, 0xEF]);
    write_u32(&mut out, 0xDEADBEEF, Endianness::Little);
    assert_eq!(out, vec![0xDE, 0xAD, 0xBE, 0xEF, 0xEF, 0xBE, 0xAD, 0xDE]);
}

#[test]
fn read_write_bytes_round_trip() {
    let bytes = [1u8, 2, 3, 4, 5, 6];
    let big: [u8; 4] = read_bytes(&bytes, 1, Endianness::Big);
    assert_eq!(big, [2, 3, 4, 5]);
    let little: [u8; 4] = read_bytes(&bytes, 1, Endianness::Little);
    assert_eq!(little, [5, 4, 3, 2]);

    let mut out = Vec::new();
    write_bytes(&mut out, &big, Endianness::Big);
    assert_eq!(out, vec![2, 3, 4, 5]);
    let mut out = Vec::new();
    write_bytes(&mut out, &little, Endianness::Little);
    assert_eq!(out, vec![2, 3, 4, 5]);
}

#[test]
fn u16_u32_round_trips() {
    for v in [0u16, 1, 0x00FF, 0xFF00, 0x1234, u16::MAX] {
        for e in [Endianness::Big, Endianness::Little] {
            let mut out = Vec::new();
            write_u16(&mut out, v, e);
            assert_eq!(read_u16(&out, 0, e), v);
        }
    }
    for v in [0u32, 1, 0x000000FF, 0xFF000000, 0x12345678, u32::MAX] {
        for e in [Endianness::Big, Endianness::Little] {
            let mut out = Vec::new();
            write_u32(&mut out, v, e);
            assert_eq!(read_u32(&out, 0, e), v);
        }
    }
}
