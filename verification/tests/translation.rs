use localhost_proxy::error::ProxyError;
use localhost_proxy::headers::filter_request_headers;
use localhost_proxy::headers::filter_response_headers;
use localhost_proxy::headers::should_skip_header;
use localhost_proxy::headers::should_skip_response_header;
use localhost_proxy::headers::Header;
use localhost_proxy::method::parse_method;
use localhost_proxy::method::token_of;
use localhost_proxy::method::Method;
use localhost_proxy::model::InboundRequest;
use localhost_proxy::model::ProxyConfig;
use localhost_proxy::model::UpstreamReply;
use localhost_proxy::translate::build_client_response;
use localhost_proxy::translate::build_outbound_request;
use localhost_proxy::translate::build_target_url;
use localhost_proxy::translate::finish_exchange;

fn header(name: &str, value: &str) -> Header {
    Header { name: name.as_bytes().to_vec(), value: value.as_bytes().to_vec() }
}

fn config() -> ProxyConfig {
    ProxyConfig::new(b"https://upstream.example:8443".to_vec(), "127.0.0.1:3030".to_string())
        .expect("origin is well-formed")
}

fn inbound(method: &str, pq: Option<&str>) -> InboundRequest {
    InboundRequest {
        method: method.as_bytes().to_vec(),
        path_and_query: pq.map(|p| p.as_bytes().to_vec()),
        headers: Vec::new(),
        body: Vec::new(),
    }
}

fn names(hs: &[Header]) -> Vec<Vec<u8>> {
    hs.iter().map(|h| h.name.clone()).collect()
}

fn pairs(hs: &[Header]) -> Vec<(Vec<u8>, Vec<u8>)> {
    hs.iter().map(|h| (h.name.clone(), h.value.clone())).collect()
}

#[test]
fn standard_methods_forwarded_with_path_and_query() {
    let cases = [
        ("GET", Method::Get),
        ("POST", Method::Post),
        ("PUT", Method::Put),
        ("DELETE", Method::Delete),
        ("PATCH", Method::Patch),
        ("HEAD", Method::Head),
        ("OPTIONS", Method::Options),
    ];
    for (token, expected) in cases {
        let req = inbound(token, Some("/a/b?q=1&r=2"));
        let out = build_outbound_request(&config(), &req).expect("standard method maps");
        assert_eq!(out.method, expected);
        assert_eq!(out.url, b"https://upstream.example:8443/a/b?q=1&r=2".to_vec());
    }
}

#[test]
fn missing_path_and_query_defaults_to_root() {
    let req = inbound("GET", None);
    let out = build_outbound_request(&config(), &req).expect("standard method maps");
    assert_eq!(out.url, b"https://upstream.example:8443/".to_vec());
}

#[test]
fn target_url_is_verbatim_concatenation() {
    let url = build_target_url(b"https://h:1", &Some(b"/a%20b?c=%2F".to_vec()));
    assert_eq!(url, b"https://h:1/a%20b?c=%2F".to_vec());
    let root = build_target_url(b"https://h:1", &None);
    assert_eq!(root, b"https://h:1/".to_vec());
}

#[test]
fn lowercase_method_token_is_rejected() {
    let req = inbound("get", Some("/"));
    let r = build_outbound_request(&config(), &req);
    assert!(matches!(r, Err(ProxyError::MethodError)));
}

#[test]
fn invalid_method_gives_502_and_library_stays_usable() {
    let bad = inbound("NOT-A-METHOD", Some("/x"));
    let err = build_outbound_request(&config(), &bad).expect_err("unmappable token fails");
    assert!(matches!(err, ProxyError::MethodError));
    let resp = finish_exchange(Err(err));
    assert_eq!(resp.status, 502);
    assert!(resp.body.starts_with(b"Proxy error:"));
    let good = inbound("GET", Some("/x"));
    let out = build_outbound_request(&config(), &good).expect("next request still works");
    assert_eq!(out.method, Method::Get);
}

#[test]
fn request_filter_drops_hop_by_hop_and_host() {
    let hs = vec![
        header("Connection", "keep-alive"),
        header("HOST", "localhost:3030"),
        header("Transfer-Encoding", "chunked"),
        header("Upgrade", "websocket"),
        header("Proxy-Connection", "keep-alive"),
        header("Accept", "text/html"),
        header("X-Custom", "v"),
    ];
    let kept = filter_request_headers(&hs);
    assert_eq!(
        pairs(&kept),
        vec![
            (b"Accept".to_vec(), b"text/html".to_vec()),
            (b"X-Custom".to_vec(), b"v".to_vec()),
        ]
    );
}

#[test]
fn request_filter_preserves_order_casing_and_duplicates() {
    let hs = vec![
        header("X-Dup", "one"),
        header("connection", "close"),
        header("x-dup", "two"),
        header("Set-Cookie", "a=1"),
        header("Set-Cookie", "b=2"),
    ];
    let kept = filter_request_headers(&hs);
    assert_eq!(
        pairs(&kept),
        vec![
            (b"X-Dup".to_vec(), b"one".to_vec()),
            (b"x-dup".to_vec(), b"two".to_vec()),
            (b"Set-Cookie".to_vec(), b"a=1".to_vec()),
            (b"Set-Cookie".to_vec(), b"b=2".to_vec()),
        ]
    );
}

#[test]
fn response_filter_drops_hop_by_hop_but_keeps_host() {
    let hs = vec![
        header("Connection", "close"),
        header("Host", "upstream.example"),
        header("transfer-encoding", "chunked"),
        header("UPGRADE", "h2c"),
        header("Proxy-Connection", "close"),
        header("Content-Type", "application/json"),
    ];
    let kept = filter_response_headers(&hs);
    assert_eq!(
        pairs(&kept),
        vec![
            (b"Host".to_vec(), b"upstream.example".to_vec()),
            (b"Content-Type".to_vec(), b"application/json".to_vec()),
        ]
    );
}

#[test]
fn filtering_twice_is_a_no_op() {
    let hs = vec![
        header("Connection", "close"),
        header("Accept", "*/*"),
        header("X-A", "1"),
        header("X-A", "2"),
        header("upgrade", "websocket"),
    ];
    let once = filter_request_headers(&hs);
    let twice = filter_request_headers(&once);
    assert_eq!(pairs(&once), pairs(&twice));
    let ronce = filter_response_headers(&hs);
    let rtwice = filter_response_headers(&ronce);
    assert_eq!(pairs(&ronce), pairs(&rtwice));
}

#[test]
fn skip_predicates_are_case_insensitive() {
    assert!(should_skip_header(b"CoNnEcTiOn"));
    assert!(should_skip_header(b"host"));
    assert!(should_skip_header(b"TRANSFER-ENCODING"));
    assert!(should_skip_header(b"Upgrade"));
    assert!(should_skip_header(b"proxy-connection"));
    assert!(!should_skip_header(b"content-type"));
    assert!(!should_skip_header(b"connection2"));
    assert!(!should_skip_header(b""));
    assert!(should_skip_response_header(b"Connection"));
    assert!(!should_skip_response_header(b"Host"));
    assert!(!should_skip_response_header(b"accept"));
}

#[test]
fn non_empty_body_passes_through_byte_identical() {
    let mut req = inbound("POST", Some("/upload"));
    req.body = vec![0u8, 1, 2, 255, 254, 10, 13];
    let out = build_outbound_request(&config(), &req).expect("standard method maps");
    assert_eq!(out.body, Some(vec![0u8, 1, 2, 255, 254, 10, 13]));
}

#[test]
fn empty_body_sends_no_body() {
    let req = inbound("GET", Some("/"));
    let out = build_outbound_request(&config(), &req).expect("standard method maps");
    assert_eq!(out.body, None);
}

#[test]
fn status_passes_through_verbatim() {
    for status in [200u16, 301, 404, 500] {
        let reply = UpstreamReply {
            status,
            headers: vec![header("Location", "https://elsewhere.example/")],
            body: b"payload".to_vec(),
        };
        let resp = build_client_response(&reply);
        assert_eq!(resp.status, status);
        assert_eq!(resp.body, b"payload".to_vec());
        assert_eq!(names(&resp.headers), vec![b"Location".to_vec()]);
    }
}

#[test]
fn transport_failure_maps_to_502_with_descriptive_body() {
    let outcome = Err(ProxyError::RequestError(
        b"error trying to connect: invalid peer certificate".to_vec(),
    ));
    let resp = finish_exchange(outcome);
    assert_eq!(resp.status, 502);
    assert!(resp.headers.is_empty());
    assert!(resp.body.starts_with(b"Proxy error:"));
    assert_eq!(
        resp.body,
        b"Proxy error: Request error: error trying to connect: invalid peer certificate".to_vec()
    );
}

#[test]
fn every_error_variant_renders_its_own_text() {
    let cases: Vec<(ProxyError, &[u8])> = vec![
        (ProxyError::RequestError(b"x".to_vec()), b"Proxy error: Request error: x"),
        (
            ProxyError::InvalidHeaderValue(b"x".to_vec()),
            b"Proxy error: Invalid header value: x",
        ),
        (
            ProxyError::InvalidHeaderName(b"x".to_vec()),
            b"Proxy error: Invalid header name: x",
        ),
        (ProxyError::UriError(b"x".to_vec()), b"Proxy error: URI parse error: x"),
        (ProxyError::HttpError(b"x".to_vec()), b"Proxy error: HTTP error: x"),
        (ProxyError::AxumError(b"x".to_vec()), b"Proxy error: Axum error: x"),
        (ProxyError::MethodError, b"Proxy error: Method conversion error"),
    ];
    for (e, expected) in cases {
        let resp = e.into_response();
        assert_eq!(resp.status, 502);
        assert_eq!(resp.body, expected.to_vec());
    }
}

#[test]
fn method_tokens_round_trip() {
    let all = [
        Method::Get,
        Method::Post,
        Method::Put,
        Method::Delete,
        Method::Patch,
        Method::Head,
        Method::Options,
    ];
    for m in all {
        let token = token_of(&m);
        assert_eq!(parse_method(&token), Some(m));
    }
    assert_eq!(parse_method(b"TRACE"), None);
    assert_eq!(parse_method(b""), None);
}

#[test]
fn config_rejects_origin_with_trailing_slash() {
    assert!(ProxyConfig::new(b"https://h/".to_vec(), "a".to_string()).is_none());
    assert!(ProxyConfig::new(Vec::new(), "a".to_string()).is_none());
    let c = ProxyConfig::new(b"https://h".to_vec(), "a".to_string()).expect("well-formed");
    assert_eq!(c.target_origin, b"https://h".to_vec());
    assert!(!c.verify_upstream_tls);
    assert!(!c.follow_redirects);
}

#[test]
fn distinct_paths_get_distinct_urls() {
    let cfg = config();
    for i in 0..100 {
        let path = format!("/resource/{}?n={}", i, i);
        let req = inbound("GET", Some(&path));
        let out = build_outbound_request(&cfg, &req).expect("standard method maps");
        let expected = format!("https://upstream.example:8443{}", path);
        assert_eq!(out.url, expected.into_bytes());
    }
}
