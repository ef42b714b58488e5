use hwsim_medium::ring::{RingError, RingRegion};

#[test]
fn record_round_trip_no_wrap() {
    let mut r = RingRegion::new(64);
    let next = r.write_record(0, &[1, 2, 3, 4, 5]);
    assert_eq!(next, 9);
    let (payload, after) = r.read_record(0, 64).unwrap();
    assert_eq!(payload, vec![1, 2, 3, 4, 5]);
    assert_eq!(after, 9);
}

#[test]
fn record_round_trip_wraps_at_boundary() {
    // A 16-byte region; the record starts at 10 and wraps: 10 + 4 + 5 = 19,
    // and 19 mod 16 = 3.
    let mut r = RingRegion::new(16);
    let next = r.write_record(10, &[0xa, 0xb, 0xc, 0xd, 0xe]);
    assert_eq!(next, 3);
    let (payload, after) = r.read_record(10, 16).unwrap();
    assert_eq!(payload, vec![0xa, 0xb, 0xc, 0xd, 0xe]);
    assert_eq!(after, 3);
}

#[test]
fn bytes_round_trip_every_cursor_position() {
    // Writing then reading five bytes at each possible cursor gives the
    // bytes back, and the next offset is (start + n) mod size.
    let data = [10u8, 20, 30, 40, 50];
    for start in 0..12usize {
        let mut r = RingRegion::new(12);
        let next = r.write_bytes(start, &data);
        assert_eq!(next, (start + data.len()) % 12);
        let back = r.read_bytes(start, data.len());
        assert_eq!(back, data.to_vec());
    }
}

#[test]
fn later_write_leaves_other_bytes() {
    let mut r = RingRegion::new(8);
    r.write_bytes(0, &[1, 2, 3, 4, 5, 6, 7, 8]);
    r.write_bytes(6, &[9, 9, 9]);
    assert_eq!(r.read_bytes(0, 8), vec![9, 2, 3, 4, 5, 6, 9, 9]);
}

#[test]
fn oversized_record_is_corruption() {
    let mut r = RingRegion::new(32);
    r.write_record(0, &[1, 2, 3, 4, 5, 6, 7, 8]);
    // A caller with a smaller maximum refuses the record.
    assert_eq!(r.read_record(0, 7), Err(RingError::RingCorruption));
    // The same record is fine under a large enough maximum.
    assert!(r.read_record(0, 8).is_ok());
}

#[test]
fn record_overrunning_region_is_corruption() {
    // A length prefix claiming more than the region can hold.
    let mut r = RingRegion::new(16);
    r.write_bytes(0, &[200, 0, 0, 0]);
    assert_eq!(r.read_record(0, 1000), Err(RingError::RingCorruption));
}

#[test]
fn empty_record() {
    let mut r = RingRegion::new(8);
    let next = r.write_record(5, &[]);
    assert_eq!(next, (5 + 4) % 8);
    let (payload, after) = r.read_record(5, 8).unwrap();
    assert!(payload.is_empty());
    assert_eq!(after, 1);
}
