//! Tests of the dedup filter and the content fingerprint.

use shotpipe::dedup::DedupState;
use shotpipe::fingerprint::fingerprint;

#[test]
fn same_fingerprint_twice_is_suppressed() {
    let mut dedup = DedupState::new();
    let fp = fingerprint(&vec![1, 2, 3]);
    assert!(dedup.accept(fp));
    assert!(!dedup.accept(fp));
}

#[test]
fn only_the_last_fingerprint_is_remembered() {
    let mut dedup = DedupState::new();
    let fp_i = fingerprint(&vec![1, 2, 3]);
    let fp_j = fingerprint(&vec![4, 5, 6]);
    assert_ne!(fp_i, fp_j);
    assert!(dedup.accept(fp_i));
    assert!(dedup.accept(fp_j));
    assert!(dedup.accept(fp_i));
}

#[test]
fn fresh_filter_accepts_anything() {
    let mut dedup = DedupState::new();
    assert!(dedup.accept(0));
}

#[test]
fn fingerprint_of_empty_input() {
    // md5 of the empty input, as a big-endian u128
    assert_eq!(fingerprint(&Vec::new()), 0xd41d8cd98f00b204e9800998ecf8427e_u128);
}

#[test]
fn fingerprint_of_known_input() {
    // md5 of "abc"
    assert_eq!(
        fingerprint(&vec![b'a', b'b', b'c']),
        0x900150983cd24fb0d6963f7d28e17f72_u128
    );
}

#[test]
fn equal_bytes_give_equal_fingerprints() {
    let a = fingerprint(&vec![9, 9, 9]);
    let b = fingerprint(&vec![9, 9, 9]);
    assert_eq!(a, b);
}
