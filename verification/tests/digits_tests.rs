use rkl_client::digits::{dec_string, parse_dec};

#[test]
fn decimal_form_is_exact() {
    assert_eq!(dec_string(0), b"0".to_vec());
    assert_eq!(dec_string(7), b"7".to_vec());
    assert_eq!(dec_string(10), b"10".to_vec());
    assert_eq!(dec_string(409), b"409".to_vec());
    assert_eq!(dec_string(u64::MAX), b"18446744073709551615".to_vec());
}

#[test]
fn parse_inverts_the_decimal_form() {
    for n in [0u64, 1, 9, 10, 99, 100, 4096, u64::MAX - 1, u64::MAX] {
        assert_eq!(parse_dec(&dec_string(n)), Some(n));
    }
}

#[test]
fn parse_rejects_non_numeric_input() {
    assert_eq!(parse_dec(b""), None);
    assert_eq!(parse_dec(b"12a3"), None);
    assert_eq!(parse_dec(b"-5"), None);
    assert_eq!(parse_dec(b"+5"), None);
    assert_eq!(parse_dec(b" 5"), None);
}

#[test]
fn parse_rejects_overflow() {
    // One more than u64::MAX.
    assert_eq!(parse_dec(b"18446744073709551616"), None);
    assert_eq!(parse_dec(b"99999999999999999999999"), None);
    // u64::MAX itself still parses.
    assert_eq!(parse_dec(b"18446744073709551615"), Some(u64::MAX));
}

#[test]
fn parse_accepts_leading_zeros() {
    assert_eq!(parse_dec(b"007"), Some(7));
    assert_eq!(parse_dec(b"000"), Some(0));
}
