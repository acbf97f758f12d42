use surf::client::Client;
use surf::config::Config;
use surf::error::Error;
use surf::headers::HeaderError;
use surf::message::Body;
use surf::message::Method;
use surf::request::Request;
use surf::request_builder::RequestBuilder;
use surf::response::Mime;
use surf::url::Url;

#[test]
fn base_url() {
    let mut client: Client<u8> = Client::new();
    client.set_base_url(Url::parse("http://example.com/api/v1/").unwrap());
    let url = client.url("posts.json").unwrap();
    assert_eq!(url.as_str(), "http://example.com/api/v1/posts.json");
}

#[test]
fn without_a_base_url_the_uri_must_be_absolute() {
    let client: Client<u8> = Client::new();
    assert_eq!(client.url("http://example.com/x").unwrap().as_str(), "http://example.com/x");
    assert!(matches!(client.url("posts.json"), Err(Error::Url(_))));
    assert!(matches!(client.get("posts.json"), Err(Error::Url(_))));
}

#[test]
fn config_client_headers() {
    let config = Config::new().add_header("X-Header-Name", b"X-Header-Values").unwrap();
    let client: Client<u8> = Client::with_config(config);
    let req = client.get("http://example.org/").unwrap().build();
    assert_eq!(req.header("X-Header-Name"), Some(b"X-Header-Values".to_vec()));
    assert_eq!(req.method(), Method::Get);
    assert_eq!(req.url().as_str(), "http://example.org/");
}

#[test]
fn config_defaults_and_setters() {
    let config = Config::new();
    assert!(config.base_url.is_none());
    assert!(config.headers.names().is_empty());
    assert!(config.http_keep_alive);
    assert!(!config.tcp_no_delay);
    assert_eq!(config.timeout, Some(60));
    assert_eq!(config.max_connections_per_host, 50);
    let config = Config::default()
        .set_base_url(Url::parse("https://example.org").unwrap())
        .set_http_keep_alive(false)
        .set_tcp_no_delay(true)
        .set_timeout(Some(5))
        .set_max_connections_per_host(2);
    assert_eq!(config.base_url.as_ref().unwrap().as_str(), "https://example.org/");
    assert!(!config.http_keep_alive);
    assert!(config.tcp_no_delay);
    assert_eq!(config.timeout, Some(5));
    assert_eq!(config.max_connections_per_host, 2);
    let config = config.set_timeout(None);
    assert_eq!(config.timeout, None);
    assert!(matches!(Config::new().add_header("bad name", b"v"), Err(HeaderError::InvalidName)));
    assert!(matches!(Config::new().add_header("name", b"\n"), Err(HeaderError::InvalidValue)));
    let copy = config.clone();
    assert_eq!(copy.max_connections_per_host, 2);
}

#[test]
fn each_verb_has_its_builder() {
    let mut client: Client<u8> = Client::new();
    client.set_base_url(Url::parse("http://example.com/api/").unwrap());
    assert_eq!(client.get("a").unwrap().build().method(), Method::Get);
    assert_eq!(client.head("a").unwrap().build().method(), Method::Head);
    assert_eq!(client.post("a").unwrap().build().method(), Method::Post);
    assert_eq!(client.put("a").unwrap().build().method(), Method::Put);
    assert_eq!(client.delete("a").unwrap().build().method(), Method::Delete);
    assert_eq!(client.connect("a").unwrap().build().method(), Method::Connect);
    assert_eq!(client.options("a").unwrap().build().method(), Method::Options);
    assert_eq!(client.trace("a").unwrap().build().method(), Method::Trace);
    assert_eq!(client.patch("a").unwrap().build().method(), Method::Patch);
    assert_eq!(client.patch("a").unwrap().build().url().as_str(), "http://example.com/api/a");
}

#[test]
fn one_off_builders() {
    assert_eq!(surf::get::<u8>("http://e.org/").unwrap().build().method(), Method::Get);
    assert_eq!(surf::head::<u8>("http://e.org/").unwrap().build().method(), Method::Head);
    assert_eq!(surf::post::<u8>("http://e.org/").unwrap().build().method(), Method::Post);
    assert_eq!(surf::put::<u8>("http://e.org/").unwrap().build().method(), Method::Put);
    assert_eq!(surf::delete::<u8>("http://e.org/").unwrap().build().method(), Method::Delete);
    assert_eq!(surf::connect::<u8>("http://e.org/").unwrap().build().method(), Method::Connect);
    assert_eq!(surf::options::<u8>("http://e.org/").unwrap().build().method(), Method::Options);
    assert_eq!(surf::trace::<u8>("http://e.org/").unwrap().build().method(), Method::Trace);
    assert_eq!(surf::patch::<u8>("http://e.org/").unwrap().build().method(), Method::Patch);
    assert_eq!(surf::patch::<u8>("HTTP://E.org").unwrap().build().url().as_str(), "http://e.org/");
    assert!(matches!(surf::get::<u8>("not a url"), Err(Error::Url(_))));
}

#[test]
fn builder_sets_what_it_is_told() {
    let url = Url::parse("https://httpbin.org/post").unwrap();
    let mut request: Request<u8> = RequestBuilder::new(Method::Post, url.clone())
        .body(Body::from_string("<html>hi</html>".to_string()))
        .header("custom-header", b"value")
        .unwrap()
        .content_type(&Mime::parse("text/html;charset=utf-8").unwrap())
        .unwrap()
        .query("page=2")
        .middleware(9)
        .build();
    assert_eq!(request.take_body().into_bytes(), b"<html>hi</html>".to_vec());
    assert_eq!(request.method(), Method::Post);
    assert_eq!(request.url().as_str(), "https://httpbin.org/post?page=2");
    assert_eq!(request.query(), Some("page=2".to_string()));
    assert_eq!(request.header("custom-header"), Some(b"value".to_vec()));
    assert_eq!(request.header("content-type"), Some(b"text/html;charset=utf-8".to_vec()));
    assert_eq!(request.take_middleware(), vec![9]);
    assert!(matches!(
        RequestBuilder::<u8>::new(Method::Get, url).header("bad name", b"v"),
        Err(HeaderError::InvalidName)
    ));
}

#[test]
fn builder_bodies() {
    let url = Url::parse("https://httpbin.org/post").unwrap();
    let req: Request<u8> = RequestBuilder::new(Method::Post, url.clone()).body_string("Rød".to_string()).build();
    assert_eq!(req.len(), Some(4));
    let mut req: Request<u8> = RequestBuilder::new(Method::Post, url).body_bytes(vec![1, 2]).build();
    assert_eq!(req.is_empty(), Some(false));
    assert_eq!(req.take_body().into_bytes(), vec![1, 2]);
    assert_eq!(req.is_empty(), Some(true));
    assert_eq!(req.take_body().into_bytes(), Vec::<u8>::new());
}

#[test]
fn builder_sends_with_its_client_or_a_new_one() {
    let client: Client<u8> = Client::new().with(1).unwrap().with(2).unwrap();
    let dispatch = client.get("http://example.org/").unwrap().middleware(3).send();
    assert_eq!(dispatch.stack, vec![1, 2, 3]);
    assert!(!client.is_used());
    let dispatch = surf::get::<u8>("http://example.org/").unwrap().middleware(3).send();
    assert_eq!(dispatch.stack, vec![3]);
    assert_eq!(dispatch.req.url().as_str(), "http://example.org/");
}

#[test]
fn config_headers_come_after_the_headers_of_the_request() {
    let config = Config::new().add_header("accept", b"text/plain").unwrap();
    let client: Client<u8> = Client::with_config(config);
    let url = Url::parse("http://example.org/").unwrap();
    let builder = RequestBuilder::new(Method::Get, url)
        .header("Accept", b"text/html")
        .unwrap()
        .with_client(client)
        .unwrap();
    assert_eq!(
        builder.build().headers().get_all("accept"),
        vec![b"text/html".to_vec(), b"text/plain".to_vec()]
    );
}

#[test]
fn request_headers() {
    let mut req: Request<u8> = Request::new(Method::Get, Url::parse("http://example.org/").unwrap());
    req.set_header("X-Requested-With", b"surf").unwrap();
    assert_eq!(req.header("X-Requested-With"), Some(b"surf".to_vec()));
    assert_eq!(req.insert_header("x-requested-with", b"other"), Ok(Some(b"surf".to_vec())));
    req.append_header("x-requested-with", b"more").unwrap();
    assert_eq!(req.header_names(), vec!["x-requested-with".to_string()]);
    assert_eq!(req.remove_header("X-Requested-With"), Some(b"other".to_vec()));
    assert_eq!(req.header("X-Requested-With"), None);
    req.body_string("abc".to_string());
    assert_eq!(req.len(), Some(3));
    req.body_bytes(vec![1]);
    assert_eq!(req.len(), Some(1));
    req.set_url(Url::parse("http://example.net/").unwrap());
    assert_eq!(req.url().as_str(), "http://example.net/");
    req.set_query("a=b");
    assert_eq!(req.url().as_str(), "http://example.net/?a=b");
}

#[test]
fn a_probe_has_no_body_and_no_middleware() {
    let mut req: Request<u8> = Request::new(Method::Put, Url::parse("http://example.org/x").unwrap());
    req.set_header("a", b"b").unwrap();
    req.body_bytes(vec![1, 2, 3]);
    req.middleware(4);
    let mut probe = req.probe();
    assert_eq!(probe.method(), Method::Put);
    assert_eq!(probe.url().as_str(), "http://example.org/x");
    assert_eq!(probe.header("a"), Some(b"b".to_vec()));
    assert_eq!(probe.len(), Some(0));
    assert!(probe.take_middleware().is_empty());
    assert_eq!(req.len(), Some(3));
}

#[test]
fn conversions() {
    let body = Body::from(vec![1u8, 2, 3]);
    assert_eq!(body.len(), 3);
    assert_eq!(body.into_bytes(), vec![1, 2, 3]);
    let builder: RequestBuilder<u8> =
        RequestBuilder::new(Method::Put, Url::parse("http://example.org/x").unwrap()).middleware(5);
    let mut req = Request::from(builder);
    assert_eq!(req.method(), Method::Put);
    assert_eq!(req.url().as_str(), "http://example.org/x");
    assert_eq!(req.take_middleware(), vec![5]);
    let client: Client<u8> = Client::default();
    assert_eq!(client.middleware_len(), 0);
    assert!(!client.is_used());
    assert!(client.config().base_url.is_none());
}

#[test]
fn a_media_type_that_is_no_header_value_is_refused() {
    let url = Url::parse("http://example.org/").unwrap();
    let bad = Mime { source: "text/plain\r\nx-injected: 1".to_string(), charset: None };
    let good = Mime { source: "text/plain".to_string(), charset: None };

    let mut req: Request<u8> = Request::new(Method::Post, url.clone());
    req.set_header("content-type", b"application/json").unwrap();
    assert_eq!(req.set_content_type(&bad), Err(HeaderError::InvalidValue));
    assert_eq!(req.headers().get_all("content-type"), vec![b"application/json".to_vec()]);
    assert_eq!(req.set_content_type(&good), Ok(()));
    assert_eq!(req.headers().get_all("content-type"), vec![b"text/plain".to_vec()]);
    assert_eq!(req.content_type().unwrap().source, "text/plain");

    assert!(matches!(
        RequestBuilder::<u8>::new(Method::Post, url.clone()).content_type(&bad),
        Err(HeaderError::InvalidValue)
    ));
    let built = RequestBuilder::<u8>::new(Method::Post, url)
        .header("Content-Type", b"application/json")
        .unwrap()
        .content_type(&good)
        .unwrap()
        .build();
    assert_eq!(built.headers().get_all("content-type"), vec![b"text/plain".to_vec()]);
}

#[test]
fn a_full_request_refuses_the_content_type_and_stays_as_it_was() {
    let mut req: Request<u8> = Request::new(Method::Post, Url::parse("http://example.org/").unwrap());
    let mut i = 0;
    while req.set_header(&format!("x-{}", i), b"v").is_ok() {
        i += 1;
        assert!(i < 40000);
    }
    let good = Mime { source: "text/plain".to_string(), charset: None };
    assert_eq!(req.set_content_type(&good), Err(HeaderError::TooManyHeaders));
    assert_eq!(req.header("content-type"), None);
    assert_eq!(req.header_names().len(), i);
}

#[test]
fn a_client_with_configured_headers_begins_requests() {
    let mut config = Config::new();
    for i in 0..500 {
        config = config.add_header(&format!("x-{}", i), b"v").unwrap();
    }
    let client: Client<u8> = Client::with_config(config).with(1).unwrap();
    let builder = client.post("http://example.org/").unwrap();
    let dispatch = builder.send();
    assert_eq!(dispatch.stack, vec![1]);
    assert_eq!(dispatch.req.header_names().len(), 500);
    assert_eq!(dispatch.req.method(), Method::Post);
    assert_eq!(dispatch.req.len(), Some(0));
}
