use surf::message::Body;
use surf::message::StatusCode;
use surf::message::Version;
use surf::response::decode_body;
use surf::response::finish_decoding;
use surf::response::Mime;
use surf::response::Response;

#[test]
fn utf8() {
    let input = "Rød grød med fløde";
    assert_eq!(
        decode_body(input.as_bytes().to_vec(), Some("utf-8")).unwrap(),
        input,
        "Parses utf-8"
    );
}

#[test]
fn default_utf8() {
    let input = "Rød grød med fløde";
    assert_eq!(
        decode_body(input.as_bytes().to_vec(), None).unwrap(),
        input,
        "Defaults to utf-8"
    );
}

#[test]
fn euc_kr() {
    let input = vec![
        0xb3, 0xbb, 0x20, 0xc7, 0xb0, 0xc0, 0xb8, 0xb7, 0xce, 0x20, 0xb5, 0xb9, 0xbe, 0xc6,
        0xbf, 0xc0, 0xb6, 0xf3, 0x2c, 0x20, 0xb3, 0xbb, 0x20, 0xbe, 0xc8, 0xbf, 0xa1, 0xbc,
        0xad, 0x20, 0xc0, 0xe1, 0xb5, 0xe9, 0xb0, 0xc5, 0xb6, 0xf3,
    ];

    let result = decode_body(input, Some("euc-kr"));
    assert_eq!(result.unwrap(), "내 품으로 돌아오라, 내 안에서 잠들거라");
}

#[test]
fn an_unknown_label_is_an_error_that_names_it() {
    let err = decode_body(b"abc".to_vec(), Some("no-such-charset")).unwrap_err();
    assert_eq!(err.encoding, "no-such-charset");
    assert_eq!(err.data, b"abc".to_vec());
    assert_eq!(err.message(), "could not decode body as no-such-charset");
}

#[test]
fn malformed_bytes_are_an_error_that_names_the_encoding_used() {
    let err = decode_body(vec![0x61, 0xff, 0x62], Some("utf8")).unwrap_err();
    assert_eq!(err.encoding, "UTF-8");
    assert_eq!(err.data, vec![0x61, 0xff, 0x62]);
    assert_eq!(err.message(), "could not decode body as UTF-8");
}

#[test]
fn a_byte_order_mark_chooses_the_encoding() {
    let text = decode_body(vec![0xff, 0xfe, 0x68, 0x00, 0x69, 0x00], Some("utf-8")).unwrap();
    assert_eq!(text, "hi");
}

#[test]
fn finish_decoding_tells_the_three_cases_apart() {
    let err = finish_decoding("latin9", b"x".to_vec(), None).unwrap_err();
    assert_eq!(err.encoding, "latin9");
    assert_eq!(err.data, b"x".to_vec());
    let err = finish_decoding(
        "latin9",
        b"x".to_vec(),
        Some(("y".to_string(), "ISO-8859-15".to_string(), true, false)),
    )
    .unwrap_err();
    assert_eq!(err.encoding, "ISO-8859-15");
    assert_eq!(err.data, b"x".to_vec());
    let text = finish_decoding(
        "latin9",
        b"x".to_vec(),
        Some(("y".to_string(), "ISO-8859-15".to_string(), false, false)),
    )
    .unwrap();
    assert_eq!(text, "y");
    let text = finish_decoding(
        "latin9",
        b"x".to_vec(),
        Some(("y".to_string(), "ISO-8859-15".to_string(), false, true)),
    )
    .unwrap();
    assert_eq!(text, "x");
    let text = finish_decoding(
        "latin9",
        b"\xff".to_vec(),
        Some(("y".to_string(), "ISO-8859-15".to_string(), false, true)),
    )
    .unwrap();
    assert_eq!(text, "y");
    let err = finish_decoding(
        "latin9",
        b"x".to_vec(),
        Some(("y".to_string(), "ISO-8859-15".to_string(), true, true)),
    )
    .unwrap_err();
    assert_eq!(err.encoding, "ISO-8859-15");
}

#[test]
fn mime_is_read_from_the_content_type() {
    let mut res = Response::new(StatusCode::new(200));
    assert!(res.mime().is_none());
    res.insert_header("Content-Type", b"text/html; charset=EUC-KR").unwrap();
    let mime = res.mime().unwrap();
    assert_eq!(mime.source, "text/html; charset=euc-kr");
    assert_eq!(mime.charset, Some("euc-kr".to_string()));
    res.insert_header("Content-Type", b"application/json").unwrap();
    let mime = res.mime().unwrap();
    assert_eq!(mime.source, "application/json");
    assert_eq!(mime.charset, None);
    res.insert_header("Content-Type", b"not a media type").unwrap();
    assert!(res.mime().is_none());
    res.insert_header("Content-Type", b"text/plain; charset=\xff").unwrap();
    assert!(res.mime().is_none());
    assert!(Mime::parse("").is_none());
}

#[test]
fn body_string_uses_the_charset_of_the_content_type() {
    let mut res = Response::new(StatusCode::new(200));
    res.insert_header("content-type", b"text/plain; charset=euc-kr").unwrap();
    res.set_body(Body::from_bytes(vec![0xb3, 0xbb]));
    assert_eq!(res.body_string().unwrap(), "내");
    assert!(res.body().is_empty());

    let mut res = Response::new(StatusCode::new(200));
    res.set_body(Body::from_string("Rød".to_string()));
    assert_eq!(res.body_string().unwrap(), "Rød");
    assert_eq!(res.body_string().unwrap(), "");
}

#[test]
fn body_bytes_can_be_taken_once() {
    let mut res = Response::new(StatusCode::new(204));
    res.set_body(Body::from_bytes(vec![1, 2, 3]));
    assert_eq!(res.body_bytes(), vec![1, 2, 3]);
    assert_eq!(res.body_bytes(), Vec::<u8>::new());
    assert_eq!(res.status(), StatusCode::new(204));
    assert_eq!(res.version(), Version::Http1_1);
    res.set_version(Version::Http2_0);
    res.set_status(StatusCode::new(404));
    assert_eq!(res.version(), Version::Http2_0);
    assert_eq!(res.status().as_u16(), 404);
}

#[test]
fn status_classes() {
    assert!(StatusCode::new(200).is_success());
    assert!(StatusCode::new(299).is_success());
    assert!(!StatusCode::new(300).is_success());
    assert!(!StatusCode::new(199).is_success());
    for code in [301u16, 302, 303, 307, 308] {
        assert!(StatusCode::new(code).is_redirect());
    }
    for code in [300u16, 304, 305, 306, 309, 200, 404] {
        assert!(!StatusCode::new(code).is_redirect());
    }
    assert!(StatusCode::new(404).is_client_error());
    assert!(!StatusCode::new(500).is_client_error());
    assert!(StatusCode::new(500).is_server_error());
    assert!(StatusCode::new(599).is_server_error());
    assert!(!StatusCode::new(600).is_server_error());
}

#[test]
fn headers_of_a_response() {
    let mut res = Response::new(StatusCode::new(200));
    res.append_header("Set-Cookie", b"a=1").unwrap();
    res.append_header("set-cookie", b"b=2").unwrap();
    assert_eq!(res.header("SET-COOKIE"), Some(b"a=1".to_vec()));
    assert_eq!(res.headers().get_all("set-cookie").len(), 2);
    assert_eq!(res.remove_header("set-cookie"), Some(b"a=1".to_vec()));
    assert_eq!(res.header("set-cookie"), None);
}

#[test]
fn a_byte_order_mark_stays_where_the_bytes_are_the_text() {
    let text = decode_body(b"\xef\xbb\xbfhi".to_vec(), Some("utf-8")).unwrap();
    assert_eq!(text, "\u{feff}hi");
    let text = decode_body(b"\xef\xbb\xbfhi".to_vec(), Some("windows-1252")).unwrap();
    assert_eq!(text, "\u{feff}hi");
    let text = decode_body(b"plain".to_vec(), Some("windows-1252")).unwrap();
    assert_eq!(text, "plain");
    let text = decode_body(vec![0x63, 0x61, 0x66, 0xe9], Some("windows-1252")).unwrap();
    assert_eq!(text, "caf\u{e9}");
    let text = decode_body(vec![0xfe, 0xff, 0x00, 0x68], None).unwrap();
    assert_eq!(text, "h");
}
