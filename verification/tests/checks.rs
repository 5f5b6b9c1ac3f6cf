use firmware_core::{Debounced, FrameIntegrity, FrameIntegrityFault, LeakyBucket, Stamped};

/// CRC-8/SAE-J1850, bit by bit
fn crc8(bytes: &[u8]) -> u8 {
    let mut crc = 0xFFu8;
    for byte in bytes {
        crc ^= *byte;
        for _ in 0..8 {
            crc = if crc & 0x80 != 0 { (crc << 1) ^ 0x1D } else { crc << 1 };
        }
    }
    !crc
}

fn frame(counter: u8) -> ([u8; 4], u8) {
    let covered = [0x12, 0x34, 0x56, counter];
    (covered, crc8(&covered))
}

#[test]
fn crc_algorithm_known_answer() {
    // CRC-8/SAE-J1850 check value from the catalog
    assert_eq!(FrameIntegrity::new().check(b"123456789", 0, 0x4B), Ok(()));
    for other in 0..=255u8 {
        if other != 0x4B {
            assert_eq!(
                FrameIntegrity::new().check(b"123456789", 0, other),
                Err(FrameIntegrityFault::ChecksumMismatch)
            );
        }
    }
}

#[test]
fn accepts_first_frame_with_any_counter() {
    let mut fi = FrameIntegrity::new();
    let (covered, crc) = frame(9);
    assert_eq!(fi.check(&covered, 9, crc), Ok(()));
}

#[test]
fn rejects_corrupted_payload() {
    let mut fi = FrameIntegrity::new();
    let (mut covered, crc) = frame(0);
    covered[1] ^= 0x01;
    assert_eq!(fi.check(&covered, 0, crc), Err(FrameIntegrityFault::ChecksumMismatch));
}

#[test]
fn rejects_repeated_counter_until_it_advances() {
    let mut fi = FrameIntegrity::new();
    let (covered, crc) = frame(3);
    assert_eq!(fi.check(&covered, 3, crc), Ok(()));
    assert_eq!(fi.check(&covered, 3, crc), Err(FrameIntegrityFault::RepeatedCounter));
    assert_eq!(fi.check(&covered, 3, crc), Err(FrameIntegrityFault::RepeatedCounter));
    let (covered, crc) = frame(4);
    assert_eq!(fi.check(&covered, 4, crc), Ok(()));
}

#[test]
fn checksum_failure_does_not_consume_counter() {
    let mut fi = FrameIntegrity::new();
    let (covered, crc) = frame(5);
    assert_eq!(fi.check(&covered, 5, crc), Ok(()));
    let (covered, crc) = frame(6);
    assert_eq!(fi.check(&covered, 6, crc.wrapping_add(1)), Err(FrameIntegrityFault::ChecksumMismatch));
    assert_eq!(fi.check(&covered, 6, crc), Ok(()));
}

#[test]
fn counter_stays_rejected_behind_corrupted_frames() {
    let mut fi = FrameIntegrity::new();
    let (covered, crc) = frame(5);
    assert_eq!(fi.check(&covered, 5, crc), Ok(()));
    for other in 0..20 {
        let (corrupted, wrong) = frame(other);
        assert_eq!(
            fi.check(&corrupted, other, wrong.wrapping_add(1)),
            Err(FrameIntegrityFault::ChecksumMismatch)
        );
        assert_eq!(fi.check(&covered, 5, crc), Err(FrameIntegrityFault::RepeatedCounter));
    }
}

#[test]
fn accepts_counter_wrap() {
    let mut fi = FrameIntegrity::new();
    let (covered, crc) = frame(15);
    assert_eq!(fi.check(&covered, 15, crc), Ok(()));
    let (covered, crc) = frame(0);
    assert_eq!(fi.check(&covered, 0, crc), Ok(()));
}

#[test]
fn accepts_counter_skips() {
    let mut fi = FrameIntegrity::new();
    let (covered, crc) = frame(1);
    assert_eq!(fi.check(&covered, 1, crc), Ok(()));
    let (covered, crc) = frame(7);
    assert_eq!(fi.check(&covered, 7, crc), Ok(()));
}

#[test]
fn computed_checksum_decides_like_a_covered_range() {
    let mut fi = FrameIntegrity::new();
    assert_eq!(fi.check_computed(7, 1, 8), Err(FrameIntegrityFault::ChecksumMismatch));
    assert_eq!(fi.check_computed(7, 1, 7), Ok(()));
    assert_eq!(fi.check_computed(9, 1, 9), Err(FrameIntegrityFault::RepeatedCounter));
}

#[test]
fn commits_only_after_full_period() {
    let mut d = Debounced::new(false);
    assert_eq!(d.update(true, 3), false);
    assert_eq!(d.update(true, 3), false);
    assert_eq!(d.update(true, 3), true);
}

#[test]
fn excursion_restarts_the_period() {
    let mut d = Debounced::new(false);
    d.update(true, 3);
    d.update(true, 3);
    assert_eq!(d.update(false, 3), false);
    assert_eq!(d.update(true, 3), false);
    assert_eq!(d.update(true, 3), false);
    assert_eq!(d.update(true, 3), true);
}

#[test]
fn debounces_the_falling_edge_too() {
    let mut d = Debounced::new(true);
    assert_eq!(d.update(false, 3), true);
    assert_eq!(d.update(false, 3), true);
    assert_eq!(d.update(false, 3), false);
}

#[test]
fn period_of_zero_commits_at_once() {
    let mut d = Debounced::new(false);
    assert_eq!(d.update(true, 0), true);
    assert_eq!(d.state(), true);
}

#[test]
fn fills_to_capacity_and_caps() {
    // Second fill overshoots capacity, caps at 4, so one drain recovers.
    let mut b = LeakyBucket::new(3, 1, 4);
    assert_eq!(b.fill(), false); // 3
    assert_eq!(b.fill(), true); // min(6, 4) = 4
    b.drain(); // 3, not 5 - proves the cap
    assert!(!b.tripped());
}

#[test]
fn drain_saturates_at_empty() {
    let mut b = LeakyBucket::new(1, 2, 3);
    b.drain(); // 0 - 2 must not underflow
    assert_eq!(b.fill(), false); // 1
}

#[test]
fn reset_empties_a_tripped_bucket() {
    let mut b = LeakyBucket::new(1, 1, 2);
    b.fill();
    assert!(b.fill());
    b.reset();
    assert!(!b.tripped());
}

#[test]
fn fills_in_a_row_trip_at_the_capacity() {
    let mut b = LeakyBucket::new(3, 1, 10);
    let trips: Vec<bool> = (0..5).map(|_| b.fill()).collect();
    assert_eq!(trips, vec![false, false, false, true, true]);
}

#[test]
fn empty_until_set() {
    let s: Stamped<f32, u64> = Stamped::new();
    assert_eq!(s.fresh(100, 50), None);
}

#[test]
fn fresh_within_window() {
    let mut s = Stamped::new();
    s.set(7, 100u64);
    assert_eq!(s.fresh(100, 50), Some(7));
    assert_eq!(s.fresh(149, 50), Some(7));
}

#[test]
fn stale_at_window_boundary() {
    let mut s = Stamped::new();
    s.set(7, 100u64);
    assert_eq!(s.fresh(150, 50), None);
    assert_eq!(s.fresh(151, 50), None);
}

#[test]
fn zero_max_age_is_always_stale() {
    let mut s = Stamped::new();
    s.set(7, 100u64);
    assert_eq!(s.fresh(100, 0), None);
}

#[test]
fn set_refreshes_timestamp() {
    let mut s = Stamped::new();
    s.set(7, 100u64);
    s.set(8, 200u64);
    assert_eq!(s.fresh(249, 50), Some(8));
}
