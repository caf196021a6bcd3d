use chromaprint::marshal::{copied_len, flag_arg, length_arg, succeeded};
use chromaprint::{Chromaprint, CHROMAPRINT_ALGORITHM_TEST1, CHROMAPRINT_ALGORITHM_TEST3};

#[test]
fn status_codes() {
    assert!(succeeded(1));
    assert!(!succeeded(0));
    assert!(!succeeded(-1));
    assert!(!succeeded(2));
}

#[test]
fn length_fits_c_int() {
    assert_eq!(length_arg(0), Some(0));
    assert_eq!(length_arg(120), Some(120));
    assert_eq!(length_arg(i32::MAX as usize), Some(i32::MAX));
}

#[test]
fn length_too_long_for_c_int() {
    if usize::BITS > 32 {
        assert_eq!(length_arg(i32::MAX as usize + 1), None);
        assert_eq!(length_arg(usize::MAX), None);
    }
}

#[test]
fn flags() {
    assert_eq!(flag_arg(true), 1);
    assert_eq!(flag_arg(false), 0);
}

#[test]
fn copied_length() {
    assert_eq!(copied_len(1, 17), Some(17));
    assert_eq!(copied_len(1, 0), Some(0));
    assert_eq!(copied_len(1, -3), None);
    assert_eq!(copied_len(0, 17), None);
}

#[test]
fn encode_request_arguments() {
    assert_eq!(Chromaprint::encode_request(&[10, -20, 30], true), Some((3, 1)));
    assert_eq!(Chromaprint::encode_request(&[10, -20, 30], false), Some((3, 0)));
    assert_eq!(Chromaprint::encode_request(&[], false), Some((0, 0)));
}

#[test]
fn decode_request_arguments() {
    assert_eq!(Chromaprint::decode_request(b"AQAAAA", true), Some((6, 1)));
    assert_eq!(Chromaprint::decode_request(&[0, 1], false), Some((2, 0)));
}

#[test]
fn encode_result() {
    assert_eq!(Chromaprint::encode(1, Some(vec![65, 81])), Some(vec![65, 81]));
    assert_eq!(Chromaprint::encode(0, Some(vec![65, 81])), None);
    assert_eq!(Chromaprint::encode(1, None), None);
}

#[test]
fn decode_result() {
    assert_eq!(
        Chromaprint::decode(1, Some(vec![7, -8]), CHROMAPRINT_ALGORITHM_TEST3),
        Some((vec![7, -8], 2))
    );
    assert_eq!(Chromaprint::decode(1, Some(vec![]), CHROMAPRINT_ALGORITHM_TEST1), Some((vec![], 0)));
}

#[test]
fn decode_of_foreign_bytes_is_absent() {
    assert_eq!(Chromaprint::decode(0, Some(vec![1, 2, 3]), -1), None);
    assert_eq!(Chromaprint::decode(1, None, 1), None);
}
