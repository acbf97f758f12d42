use surf::extensions::Extensions;
use surf::message::Method;
use surf::message::StatusCode;
use surf::request::Request;
use surf::response::Response;
use surf::url::Url;

#[test]
fn one_value_for_each_key() {
    let mut ext = Extensions::new();
    assert_eq!(ext.get("hit"), None);
    assert!(!ext.contains("hit"));
    assert_eq!(ext.insert("hit", vec![1]), None);
    assert_eq!(ext.insert("miss", vec![2]), None);
    assert_eq!(ext.insert("hit", vec![3]), Some(vec![1]));
    assert_eq!(ext.get("hit"), Some(vec![3]));
    assert_eq!(ext.get("miss"), Some(vec![2]));
    assert_eq!(ext.get("Hit"), None);
    assert!(ext.contains("miss"));
    assert_eq!(ext.insert("", vec![]), None);
    assert_eq!(ext.get(""), Some(vec![]));
}

#[test]
fn a_copy_of_extensions_is_independent() {
    let mut ext = Extensions::new();
    ext.insert("a", vec![1]);
    let mut copy = ext.clone();
    copy.insert("a", vec![2]);
    copy.insert("b", vec![3]);
    assert_eq!(ext.get("a"), Some(vec![1]));
    assert_eq!(ext.get("b"), None);
    assert_eq!(copy.get("a"), Some(vec![2]));
}

#[test]
fn requests_and_responses_carry_extensions() {
    let mut req: Request<u8> = Request::new(Method::Get, Url::parse("http://example.org/").unwrap());
    assert_eq!(req.ext("marker"), None);
    assert_eq!(req.set_ext("marker", b"m".to_vec()), None);
    assert_eq!(req.set_ext("marker", b"n".to_vec()), Some(b"m".to_vec()));
    assert_eq!(req.ext("marker"), Some(b"n".to_vec()));
    assert_eq!(req.probe().ext("marker"), None);

    let mut res = Response::new(StatusCode::new(200));
    assert_eq!(res.insert_ext("cache", b"hit".to_vec()), None);
    assert_eq!(res.ext("cache"), Some(b"hit".to_vec()));
    assert_eq!(res.clone_without_body().ext("cache"), Some(b"hit".to_vec()));
}
