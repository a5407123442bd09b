use lrcget_core::solver::{
    bytes_le, decimal_string, decode_target, nonce_solves, publish_token, solve_challenge,
    solve_challenge_within, SolverError,
};

fn target_with_leading_zeros(zeros: usize) -> Vec<u8> {
    let mut t = vec![0u8; zeros];
    t.resize(32, 0xff);
    t
}

#[test]
fn decimal_rendering() {
    assert_eq!(decimal_string(0), "0");
    assert_eq!(decimal_string(7), "7");
    assert_eq!(decimal_string(10), "10");
    assert_eq!(decimal_string(1234), "1234");
    assert_eq!(decimal_string(u64::MAX), "18446744073709551615");
}

#[test]
fn big_endian_comparison() {
    assert!(bytes_le(&[1, 2, 3], &[1, 2, 3]));
    assert!(bytes_le(&[1, 2, 3], &[1, 3, 0]));
    assert!(!bytes_le(&[1, 3, 0], &[1, 2, 255]));
    assert!(bytes_le(&[0, 255, 255], &[1, 0, 0]));
    assert!(!bytes_le(&[0, 0], &[0, 0, 0]));
    assert!(bytes_le(&[], &[]));
}

#[test]
fn target_decoding() {
    let hex = format!("00{}", "ff".repeat(31));
    assert_eq!(decode_target(&hex), Some(target_with_leading_zeros(1)));
    let upper = format!("0A{}", "Ff".repeat(31));
    let mut expected = vec![0x0a];
    expected.extend(std::iter::repeat(0xff).take(31));
    assert_eq!(decode_target(&upper), Some(expected));
    assert_eq!(decode_target("00ff"), None);
    assert_eq!(decode_target(&format!("0g{}", "ff".repeat(31))), None);
    assert_eq!(decode_target(&"f".repeat(65)), None);
    assert_eq!(decode_target(""), None);
}

#[test]
fn easy_challenge_scenario() {
    let target = decode_target(&format!("00{}", "ff".repeat(31))).unwrap();
    let nonce = solve_challenge("abc", &target).unwrap();
    assert_eq!(nonce, 252);
    assert!(nonce_solves("abc", &target, nonce));
    for m in 0..nonce {
        assert!(!nonce_solves("abc", &target, m));
    }
    assert_eq!(publish_token("abc", nonce), "abc:252");
    assert_eq!(publish_token("abc", 0), "abc:0");
}

#[test]
fn harder_challenge_finds_smallest() {
    let target = target_with_leading_zeros(2);
    assert_eq!(solve_challenge_within("abc", &target, 100_000), Ok(93_803));
    assert_eq!(solve_challenge_within("abc", &target, 93_802), Err(SolverError::Exhausted));
}

#[test]
fn unicode_prefix_is_hashed_as_utf8() {
    let mut target = vec![0x0f];
    target.resize(32, 0xff);
    assert_eq!(solve_challenge_within("h\u{e9}llo", &target, 10), Ok(2));
}

#[test]
fn widest_target_accepts_nonce_zero() {
    let target = vec![0xff; 32];
    assert_eq!(solve_challenge("anything", &target), Ok(0));
    assert_eq!(publish_token("anything", 0), "anything:0");
}

#[test]
fn impossible_target_exhausts() {
    let target = vec![0u8; 32];
    assert_eq!(solve_challenge_within("abc", &target, 50), Err(SolverError::Exhausted));
    let short = vec![0xff; 31];
    assert_eq!(solve_challenge_within("abc", &short, 50), Err(SolverError::Exhausted));
}
