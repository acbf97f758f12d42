use surf::text::bytes_eq;
use surf::text::eq_ignore_case;
use surf::text::split_bytes;
use surf::text::split_items;
use surf::text::text_of;
use surf::text::trim_bytes;

#[test]
fn split_keeps_empty_pieces() {
    assert_eq!(split_bytes(b"", b','), vec![Vec::<u8>::new()]);
    assert_eq!(split_bytes(b"a", b','), vec![b"a".to_vec()]);
    assert_eq!(split_bytes(b"a,b", b','), vec![b"a".to_vec(), b"b".to_vec()]);
    assert_eq!(split_bytes(b",a,,b,", b','), vec![vec![], b"a".to_vec(), vec![], b"b".to_vec(), vec![]]);
    assert_eq!(split_bytes(b"a=b", b','), vec![b"a=b".to_vec()]);
}

#[test]
fn trim_takes_spaces_and_tabs_only() {
    assert_eq!(trim_bytes(b""), Vec::<u8>::new());
    assert_eq!(trim_bytes(b"   \t "), Vec::<u8>::new());
    assert_eq!(trim_bytes(b"  a b\t"), b"a b".to_vec());
    assert_eq!(trim_bytes(b"ab"), b"ab".to_vec());
    assert_eq!(trim_bytes(b"\na\n"), b"\na\n".to_vec());
    assert_eq!(trim_bytes(b" \x0ba"), b"\x0ba".to_vec());
}

#[test]
fn items_are_trimmed_pieces() {
    assert_eq!(split_items(b" a , b,c ,, d e "), vec![b"a".to_vec(), b"b".to_vec(), b"c".to_vec(), vec![], b"d e".to_vec()]);
}

#[test]
fn comparisons() {
    assert!(eq_ignore_case(b"Max-Age", b"max-age"));
    assert!(eq_ignore_case(b"", b""));
    assert!(!eq_ignore_case(b"max-age", b"max_age"));
    assert!(!eq_ignore_case(b"a", b"ab"));
    assert!(!eq_ignore_case(b"@", b"`"));
    assert!(!eq_ignore_case(b"[", b"{"));
    assert!(eq_ignore_case(b"AZ", b"az"));
    assert!(bytes_eq(b"abc", b"abc"));
    assert!(!bytes_eq(b"abc", b"abC"));
    assert!(!bytes_eq(b"abc", b"ab"));
}

#[test]
fn text_is_well_formed_utf8() {
    assert_eq!(text_of(b"abc"), Some("abc".to_string()));
    assert_eq!(text_of("Rød".as_bytes()), Some("Rød".to_string()));
    assert_eq!(text_of(b""), Some(String::new()));
    assert_eq!(text_of(b"\xff"), None);
    assert_eq!(text_of(b"\xc3"), None);
    assert_eq!(text_of(b"\xed\xa0\x80"), None);
    assert_eq!(text_of(b"\xc0\x80"), None);
}
