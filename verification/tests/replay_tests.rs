use sha2::Digest;

use tee_verifier::replay::{replay_range, replay_rtmr, RMTRValues, RTMR};

fn sha384(data: &[u8]) -> Vec<u8> {
    sha2::Sha384::digest(data).to_vec()
}

/// Folds `digests` into a register by iterated hashing, independently of the
/// library's own replay.
fn manual_replay(digests: &[Vec<u8>]) -> Vec<u8> {
    let mut mr = vec![0u8; 48];
    for d in digests {
        let mut buf = mr.clone();
        buf.extend_from_slice(d);
        mr = sha384(&buf);
    }
    mr
}

fn digest_of_byte(x: u8) -> Vec<u8> {
    vec![x; 48]
}

#[test]
fn replay_determinism() {
    let digests: Vec<Vec<u8>> = vec![digest_of_byte(1), digest_of_byte(2), digest_of_byte(3)];
    let first = replay_range(&digests, 0, 3);
    let second = replay_range(&digests, 0, 3);
    assert_eq!(first, second);
    assert_eq!(first.len(), 48);
}

#[test]
fn replay_order_matters() {
    let d1 = digest_of_byte(0xaa);
    let d2 = digest_of_byte(0xbb);
    let forward = replay_range(&[d1.clone(), d2.clone()], 0, 2);
    let swapped = replay_range(&[d2, d1], 0, 2);
    assert_ne!(forward, swapped);
}

#[test]
fn replay_empty_register_is_zero() {
    let digests: Vec<Vec<u8>> = Vec::new();
    let mr = replay_range(&digests, 0, 0);
    assert_eq!(mr, vec![0u8; 48]);
}

#[test]
fn replay_single_and_double_extension() {
    let d = digest_of_byte(7);
    let d2 = digest_of_byte(9);

    let mut buf = vec![0u8; 48];
    buf.extend_from_slice(&d);
    let after_one = sha384(&buf);
    assert_eq!(replay_range(&[d.clone()], 0, 1), after_one);

    let mut buf2 = after_one.clone();
    buf2.extend_from_slice(&d2);
    let after_two = sha384(&buf2);
    assert_eq!(replay_range(&[d, d2], 0, 2), after_two);
}

#[test]
fn replay_rtmr_uses_fixed_ranges() {
    let digests: Vec<Vec<u8>> = (0..33).map(|i| digest_of_byte(i as u8)).collect();
    assert_eq!(replay_rtmr(&digests, RTMR::RTMR0), manual_replay(&digests[0..17]));
    assert_eq!(replay_rtmr(&digests, RTMR::RTMR1), manual_replay(&digests[17..22]));
    assert_eq!(replay_rtmr(&digests, RTMR::RTMR2), manual_replay(&digests[22..24]));
    assert_eq!(replay_rtmr(&digests, RTMR::RTMR3), manual_replay(&digests[24..33]));
}

#[test]
fn rtmr_range_bounds() {
    assert_eq!(RTMR::RTMR0.range(), 0..17);
    assert_eq!(RTMR::RTMR1.range(), 17..22);
    assert_eq!(RTMR::RTMR2.range(), 22..24);
    assert_eq!(RTMR::RTMR3.range(), 24..33);
}

#[test]
fn from_event_digests_matches_manual_fold() {
    let digests: Vec<Vec<u8>> = (0..33).map(|i| digest_of_byte(0x40 + i as u8)).collect();
    let values = RMTRValues::from_event_digests(&digests);
    assert_eq!(values.rtmr0, manual_replay(&digests[0..17]));
    assert_eq!(values.rtmr1, manual_replay(&digests[17..22]));
    assert_eq!(values.rtmr2, manual_replay(&digests[22..24]));
    assert_eq!(values.rtmr3, manual_replay(&digests[24..33]));
}

#[test]
fn from_partition_splits_contiguously() {
    let digests: Vec<Vec<u8>> = (0..6).map(|i| digest_of_byte(i as u8)).collect();
    let values = RMTRValues::from_partition(&digests, 1, 2, 0, 3);
    assert_eq!(values.rtmr0, manual_replay(&digests[0..1]));
    assert_eq!(values.rtmr1, manual_replay(&digests[1..3]));
    assert_eq!(values.rtmr2, vec![0u8; 48]);
    assert_eq!(values.rtmr3, manual_replay(&digests[3..6]));
}
