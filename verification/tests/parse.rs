use dmon::ident::parse_id;

#[test]
fn plain_number() {
    assert_eq!(parse_id(b"42"), Some(42));
}

#[test]
fn surrounding_whitespace_is_ignored() {
    assert_eq!(parse_id(b"  42\t\n"), Some(42));
    assert_eq!(parse_id(b"\r\x0b\x0c7 "), Some(7));
}

#[test]
fn leading_plus_sign_accepted() {
    assert_eq!(parse_id(b"+123"), Some(123));
    assert_eq!(parse_id(b" +0 "), Some(0));
}

#[test]
fn leading_zeros_accepted() {
    assert_eq!(parse_id(b"007"), Some(7));
    assert_eq!(parse_id(b"0"), Some(0));
}

#[test]
fn empty_and_blank_rejected() {
    assert_eq!(parse_id(b""), None);
    assert_eq!(parse_id(b"   "), None);
    assert_eq!(parse_id(b"+"), None);
    assert_eq!(parse_id(b" + "), None);
}

#[test]
fn non_digits_rejected() {
    assert_eq!(parse_id(b"12a"), None);
    assert_eq!(parse_id(b"a12"), None);
    assert_eq!(parse_id(b"1 2"), None);
    assert_eq!(parse_id(b"-5"), None);
    assert_eq!(parse_id(b"++1"), None);
    assert_eq!(parse_id(b"daemon"), None);
}

#[test]
fn boundary_of_32_bits() {
    assert_eq!(parse_id(b"4294967295"), Some(u32::MAX));
    assert_eq!(parse_id(b"4294967296"), None);
    assert_eq!(parse_id(b"99999999999999999999"), None);
}

#[test]
fn agrees_with_standard_parsing() {
    let cases: [&str; 12] = [
        "0", "65534", " 101 ", "+33", "nobody", "", " ", "4294967295", "4294967296", "0x10",
        "12.5", "007",
    ];
    for s in cases {
        assert_eq!(parse_id(s.as_bytes()), s.trim().parse::<u32>().ok(), "case {:?}", s);
    }
}
