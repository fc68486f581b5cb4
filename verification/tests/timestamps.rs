use butyl::coff::CoffHeader;
use butyl::errors::ButylError;
use chrono::{DateTime, Utc};

fn zeroed_header() -> CoffHeader {
    CoffHeader {
        f_machine: 0,
        f_nscns: 0,
        f_timdat: 0,
        f_symptr: 0,
        f_nsyms: 0,
        f_opthdr: 0,
        f_flags: 0,
    }
}

#[test]
fn raw_timestamp_zero_is_unix_epoch() {
    let h = zeroed_header();
    assert_eq!(h.get_timdat_as_epoch(), 0);
    let dt: DateTime<Utc> = DateTime::from_timestamp(h.get_timdat_as_epoch(), 0).unwrap();
    assert_eq!(dt, DateTime::UNIX_EPOCH);
}

#[test]
fn epoch_reflects_raw_timestamp() {
    let mut h = zeroed_header();
    h.set_timdat(1_000_000_000);
    assert_eq!(h.get_timdat_as_epoch(), 1_000_000_000);
    let dt = DateTime::from_timestamp(h.get_timdat_as_epoch(), 0).unwrap();
    assert_eq!(dt.timestamp(), 1_000_000_000);
}

#[test]
fn set_timdat_from_epoch_in_range() {
    let mut h = zeroed_header();
    assert!(h.set_timdat_from_epoch(0).is_ok());
    assert_eq!(h.get_timdat(), 0);
    assert!(h.set_timdat_from_epoch(u32::MAX as i64).is_ok());
    assert_eq!(h.get_timdat(), u32::MAX);
    // A calendar value round-trips through its epoch-second count.
    let dt = DateTime::from_timestamp(1_431_648_000, 0).unwrap();
    assert!(h.set_timdat_from_epoch(dt.timestamp()).is_ok());
    assert_eq!(h.get_timdat(), 1_431_648_000);
}

#[test]
fn set_timdat_from_epoch_excessive_leaves_header_unchanged() {
    let mut h = zeroed_header();
    h.set_timdat(7);
    h.set_nscns(2);
    // One past the largest count the 32-bit field can hold: year 2106.
    let beyond = DateTime::from_timestamp(u32::MAX as i64 + 1, 0).unwrap();
    let r = h.set_timdat_from_epoch(beyond.timestamp());
    assert!(matches!(r, Err(ButylError::ExcessiveDataError)));
    assert_eq!(h.get_timdat(), 7);
    assert_eq!(h.get_nscns(), 2);
    // An instant before 1970 has a negative count and is rejected too.
    let before = DateTime::from_timestamp(-1, 0).unwrap();
    let r = h.set_timdat_from_epoch(before.timestamp());
    assert!(matches!(r, Err(ButylError::ExcessiveDataError)));
    assert_eq!(h.get_timdat(), 7);
}
