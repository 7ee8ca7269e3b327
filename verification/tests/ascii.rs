use httpfile::ascii::{to_lower, AsciiPrefix};

#[test]
fn test_starts_with_ignore_ascii_case() {
    assert_eq!(true, b"".as_ref().starts_with_ignore_ascii_case(b""));
    assert_eq!(true, b"foobar".as_ref().starts_with_ignore_ascii_case(b""));
    assert_eq!(true, b"foobar".as_ref().starts_with_ignore_ascii_case(b"foo"));
    assert_eq!(true, b"FOOBAR".as_ref().starts_with_ignore_ascii_case(b"foo"));

    assert_eq!(false, b"foo".as_ref().starts_with_ignore_ascii_case(b"foobar"));
    assert_eq!(false, b"".as_ref().starts_with_ignore_ascii_case(b"foobar"));
}

#[test]
fn vec_prefix_matches_slice_prefix() {
    let v: Vec<u8> = b"Host: Example".to_vec();
    assert!(v.starts_with_ignore_ascii_case(b"host:"));
    assert!(v.starts_with_ignore_ascii_case(b"HOST: e"));
    assert!(!v.starts_with_ignore_ascii_case(b"hose"));
    assert!(!v.starts_with_ignore_ascii_case(b"Host: Example.com"));
}

#[test]
fn prefix_differs_in_a_later_byte() {
    assert!(!b"foobar".as_ref().starts_with_ignore_ascii_case(b"fob"));
    assert!(!b"foobar".as_ref().starts_with_ignore_ascii_case(b"goo"));
    assert!(b"foobar".as_ref().starts_with_ignore_ascii_case(b"FOOBAR"));
}

#[test]
fn only_ascii_letters_have_a_case() {
    assert_eq!(to_lower(b'A'), b'a');
    assert_eq!(to_lower(b'Z'), b'z');
    assert_eq!(to_lower(b'a'), b'a');
    assert_eq!(to_lower(b'@'), b'@');
    assert_eq!(to_lower(b'['), b'[');
    assert_eq!(to_lower(b'0'), b'0');
    assert_eq!(to_lower(0xc4), 0xc4);
    assert_eq!(to_lower(0xe4), 0xe4);
    // '@' and '`' are 0x20 apart, as 'A' and 'a' are, and are no letters.
    assert!(!b"@".as_ref().starts_with_ignore_ascii_case(b"`"));
    assert!(!b"\xc4".as_ref().starts_with_ignore_ascii_case(b"\xe4"));
}

#[test]
fn lower_agrees_with_std() {
    for b in 0u8..=255 {
        assert_eq!(to_lower(b), b.to_ascii_lowercase());
    }
}
