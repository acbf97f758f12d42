use surf::headers::HeaderError;
use surf::headers::Headers;

#[test]
fn lookup_ignores_case() {
    let mut headers = Headers::new();
    assert_eq!(headers.insert("Content-Type", b"text/plain"), Ok(None));
    assert_eq!(headers.get("content-type"), Some(b"text/plain".to_vec()));
    assert_eq!(headers.get("CONTENT-TYPE"), Some(b"text/plain".to_vec()));
    assert!(headers.contains("Content-type"));
    assert!(!headers.contains("content-length"));
    assert_eq!(headers.get("content-length"), None);
}

#[test]
fn insert_replaces_and_returns_the_first_old_value() {
    let mut headers = Headers::new();
    headers.append("accept", b"text/html").unwrap();
    headers.append("accept", b"text/plain").unwrap();
    assert_eq!(headers.insert("Accept", b"*/*"), Ok(Some(b"text/html".to_vec())));
    assert_eq!(headers.get_all("accept"), vec![b"*/*".to_vec()]);
}

#[test]
fn append_keeps_the_order_of_values() {
    let mut headers = Headers::new();
    headers.append("warning", b"110 - \"a\"").unwrap();
    headers.append("Warning", b"214 - \"b\"").unwrap();
    headers.append("WARNING", b"199 - \"c\"").unwrap();
    assert_eq!(
        headers.get_all("warning"),
        vec![b"110 - \"a\"".to_vec(), b"214 - \"b\"".to_vec(), b"199 - \"c\"".to_vec()]
    );
    assert_eq!(headers.get("warning"), Some(b"110 - \"a\"".to_vec()));
    assert!(headers.get_all("age").is_empty());
}

#[test]
fn remove_takes_all_values() {
    let mut headers = Headers::new();
    headers.append("via", b"a").unwrap();
    headers.append("via", b"b").unwrap();
    headers.insert("host", b"example.org").unwrap();
    assert_eq!(headers.remove("Via"), Some(b"a".to_vec()));
    assert_eq!(headers.remove("via"), None);
    assert!(!headers.contains("via"));
    assert_eq!(headers.get("host"), Some(b"example.org".to_vec()));
}

#[test]
fn names_are_lower_case_and_unique() {
    let mut headers = Headers::new();
    headers.append("X-One", b"1").unwrap();
    headers.append("x-one", b"2").unwrap();
    headers.append("X-Two", b"3").unwrap();
    let mut names = headers.names();
    names.sort();
    assert_eq!(names, vec!["x-one".to_string(), "x-two".to_string()]);
}

#[test]
fn invalid_names_are_refused() {
    let mut headers = Headers::new();
    assert_eq!(headers.insert("", b"v"), Err(HeaderError::InvalidName));
    assert_eq!(headers.insert("two words", b"v"), Err(HeaderError::InvalidName));
    assert_eq!(headers.append("name:", b"v"), Err(HeaderError::InvalidName));
    assert_eq!(headers.insert("caf\u{e9}", b"v"), Err(HeaderError::InvalidName));
    let long = "a".repeat(65536);
    assert_eq!(headers.insert(&long, b"v"), Err(HeaderError::InvalidName));
    let longest = "a".repeat(65535);
    assert_eq!(headers.insert(&longest, b"v"), Ok(None));
    assert_eq!(headers.get("two words"), None);
    assert!(!headers.contains(""));
    assert_eq!(headers.remove("name:"), None);
    assert_eq!(headers.names().len(), 1);
}

#[test]
fn every_token_character_is_accepted_in_a_name() {
    let mut headers = Headers::new();
    let name = "!#$%&'*+-.^_`|~09azAZ";
    assert_eq!(headers.insert(name, b"v"), Ok(None));
    assert_eq!(headers.names(), vec!["!#$%&'*+-.^_`|~09azaz".to_string()]);
    for bad in ["a\"b", "a(b", "a)b", "a,b", "a/b", "a;b", "a<b", "a=b", "a>b", "a?b", "a@b", "a[b", "a\\b", "a]b", "a{b", "a}b", "a b", "a\tb", "a\u{7f}b"] {
        assert_eq!(headers.insert(bad, b"v"), Err(HeaderError::InvalidName), "{:?}", bad);
    }
}

#[test]
fn invalid_values_are_refused() {
    let mut headers = Headers::new();
    assert_eq!(headers.insert("x", b"line\nbreak"), Err(HeaderError::InvalidValue));
    assert_eq!(headers.append("x", b"\x7f"), Err(HeaderError::InvalidValue));
    assert_eq!(headers.insert("x", b"\x00"), Err(HeaderError::InvalidValue));
    assert_eq!(headers.insert("x", b"\x1f"), Err(HeaderError::InvalidValue));
    assert!(!headers.contains("x"));
    assert_eq!(headers.insert("x", b"tab\there \xff\x80"), Ok(None));
    assert_eq!(headers.insert("y", b""), Ok(None));
    assert_eq!(headers.get("y"), Some(Vec::new()));
}

#[test]
fn the_name_is_checked_before_the_value() {
    let mut headers = Headers::new();
    assert_eq!(headers.insert("bad name", b"bad\nvalue"), Err(HeaderError::InvalidName));
}

#[test]
fn a_full_collection_refuses_and_stays_as_it_was() {
    let mut headers = Headers::new();
    let mut stored = 0usize;
    let mut refused = false;
    for i in 0..40000 {
        let name = format!("x-{}", i);
        match headers.insert(&name, b"v") {
            Ok(previous) => {
                assert_eq!(previous, None);
                stored += 1;
            }
            Err(e) => {
                assert_eq!(e, HeaderError::TooManyHeaders);
                assert!(!headers.contains(&name));
                refused = true;
                break;
            }
        }
    }
    assert!(refused);
    assert!(stored <= 32768);
    assert_eq!(headers.names().len(), stored);
    assert_eq!(headers.append("one-more", b"v"), Err(HeaderError::TooManyHeaders));
}

#[test]
fn a_copy_is_independent() {
    let mut headers = Headers::new();
    headers.insert("a", b"1").unwrap();
    let mut copy = headers.clone();
    copy.insert("b", b"2").unwrap();
    assert!(!headers.contains("b"));
    assert_eq!(copy.get("a"), Some(b"1".to_vec()));
}

#[test]
fn iter_lists_every_value() {
    let mut headers = Headers::new();
    headers.append("a", b"1").unwrap();
    headers.append("b", b"2").unwrap();
    headers.append("A", b"3").unwrap();
    let mut pairs = headers.iter();
    pairs.sort();
    assert_eq!(
        pairs,
        vec![
            ("a".to_string(), b"1".to_vec()),
            ("a".to_string(), b"3".to_vec()),
            ("b".to_string(), b"2".to_vec())
        ]
    );
    let a: Vec<Vec<u8>> = headers.iter().into_iter().filter(|p| p.0 == "a").map(|p| p.1).collect();
    assert_eq!(a, vec![b"1".to_vec(), b"3".to_vec()]);
}

#[test]
fn update_replaces_and_extend_appends() {
    let mut base = Headers::new();
    base.append("a", b"1").unwrap();
    base.append("a", b"2").unwrap();
    base.append("b", b"3").unwrap();
    let mut other = Headers::new();
    other.append("a", b"4").unwrap();
    other.append("c", b"5").unwrap();
    other.append("c", b"6").unwrap();

    let mut updated = base.clone();
    assert_eq!(updated.update(&other), Ok(()));
    assert_eq!(updated.get_all("a"), vec![b"4".to_vec()]);
    assert_eq!(updated.get_all("b"), vec![b"3".to_vec()]);
    assert_eq!(updated.get_all("c"), vec![b"5".to_vec(), b"6".to_vec()]);

    let mut extended = base.clone();
    assert_eq!(extended.extend(&other), Ok(()));
    assert_eq!(extended.get_all("a"), vec![b"1".to_vec(), b"2".to_vec(), b"4".to_vec()]);
    assert_eq!(extended.get_all("b"), vec![b"3".to_vec()]);
    assert_eq!(extended.get_all("c"), vec![b"5".to_vec(), b"6".to_vec()]);
}

#[test]
fn long_names_are_found_without_regard_to_case() {
    let mut headers = Headers::new();
    let stored = format!("X-{}", "Ab".repeat(60));
    let lower = stored.to_ascii_lowercase();
    let upper = stored.to_ascii_uppercase();
    assert_eq!(headers.insert(&stored, b"v"), Ok(None));
    assert_eq!(headers.names(), vec![lower.clone()]);
    assert_eq!(headers.get(&upper), Some(b"v".to_vec()));
    assert_eq!(headers.get(&lower), Some(b"v".to_vec()));
    assert!(headers.contains(&stored));
    assert_eq!(headers.get_all(&upper), vec![b"v".to_vec()]);
    let invalid = format!("x-{} ", "ab".repeat(60));
    assert_eq!(headers.get(&invalid), None);
    assert!(!headers.contains(&invalid));
    assert!(headers.get_all(&invalid).is_empty());
    assert_eq!(headers.remove(&invalid), None);
    assert_eq!(headers.remove(&upper), Some(b"v".to_vec()));
    assert!(headers.names().is_empty());
}

#[test]
fn below_the_headroom_every_header_is_taken() {
    assert_eq!(surf::headers::HEADROOM, 6000);
    let mut headers = Headers::new();
    for i in 0..surf::headers::HEADROOM {
        assert_eq!(headers.names().len(), i);
        assert_eq!(headers.insert(&format!("x-{}", i), b"v"), Ok(None), "{}", i);
    }
    for i in 0..surf::headers::HEADROOM - 1 {
        assert_eq!(headers.remove(&format!("x-{}", i)), Some(b"v".to_vec()));
    }
    let mut again = Headers::new();
    for i in 0..surf::headers::HEADROOM {
        let name = format!("y-{}", i % 7);
        assert_eq!(again.append(&name, b"v"), Ok(()), "{}", i);
    }
    assert_eq!(again.names().len(), 7);
    assert_eq!(again.get_all("y-0").len(), 858);
}

#[test]
fn extend_and_update_succeed_where_there_is_room() {
    let mut base = Headers::new();
    let mut other = Headers::new();
    for i in 0..2000 {
        base.insert(&format!("a-{}", i), b"1").unwrap();
        other.append(&format!("b-{}", i), b"2").unwrap();
        other.append(&format!("b-{}", i), b"3").unwrap();
    }
    let mut extended = base.clone();
    assert_eq!(extended.extend(&other), Ok(()));
    assert_eq!(extended.names().len(), 4000);
    assert_eq!(extended.get_all("b-1999"), vec![b"2".to_vec(), b"3".to_vec()]);
    let mut updated = base.clone();
    assert_eq!(updated.update(&other), Ok(()));
    assert_eq!(updated.names().len(), 4000);
    assert_eq!(updated.update(&base), Ok(()));
    assert_eq!(updated.names().len(), 4000);
}

#[test]
fn what_is_stored_is_a_header_value() {
    let mut headers = Headers::new();
    headers.append("a", b"tab\there \xff").unwrap();
    headers.append("a", b"").unwrap();
    let mut copy = Headers::new();
    for (name, value) in headers.iter() {
        assert_eq!(copy.append(&name, &value), Ok(()));
    }
    assert_eq!(copy.get_all("a"), headers.get_all("a"));
    assert_eq!(copy.insert("b", &headers.get("a").unwrap()), Ok(None));
}
