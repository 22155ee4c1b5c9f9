use pingora_http::RequestHeader;
use pproxy::field::{append_bytes, is_valid_value, same_text, MAX_NAMES};
use pproxy::orchestrator::{Event, Failure};
use pproxy::proxy::{rewrite_event, Address, Peer, Proxy, Upstream};
use pproxy::rewrite::{
    inject_forwarded, join_cookies, merge_cookies, merged_cookie, rewrite_request,
    HeaderRewriteFailure,
};

fn proxy(port: &str) -> Proxy {
    Proxy {
        upstream: Upstream { dest_addr: Address::V4 { octets: [127, 0, 0, 1], port: 8888 } },
        listen_port: String::from(port),
        domain: String::from("example.com"),
    }
}

fn get(path: &str) -> RequestHeader {
    RequestHeader::build("GET", path.as_bytes(), None).unwrap()
}

fn header(req: &RequestHeader, name: &str) -> Vec<Vec<u8>> {
    req.headers.get_all(name).iter().map(|v| v.as_bytes().to_vec()).collect()
}

fn wire(req: &RequestHeader) -> Vec<u8> {
    let mut buf: Vec<u8> = Vec::new();
    req.header_to_h1_wire(&mut buf);
    buf
}

fn with_names(count: usize) -> RequestHeader {
    let mut req = get("/");
    for i in 0..count {
        req.append_header(format!("x-n{}", i), "v").unwrap();
    }
    req
}

#[test]
fn two_cookies_become_one() {
    let mut req = get("/foo");
    req.append_header("Cookie", "a=1").unwrap();
    req.append_header("Cookie", "b=2").unwrap();
    assert_eq!(proxy("6189").upstream_request_filter(&mut req), Ok(()));
    assert_eq!(header(&req, "cookie"), vec![b"a=1; b=2".to_vec()]);
}

#[test]
fn no_cookie_stays_no_cookie() {
    let mut req = get("/foo");
    req.append_header("Accept", "*/*").unwrap();
    assert_eq!(proxy("6189").upstream_request_filter(&mut req), Ok(()));
    assert!(!req.headers.contains_key("cookie"));
    assert_eq!(header(&req, "accept"), vec![b"*/*".to_vec()]);
    assert_eq!(req.headers.len(), 4);
}

#[test]
fn one_cookie_stays_as_it_is() {
    let mut req = get("/foo");
    req.append_header("cookie", "session=abc; theme=dark").unwrap();
    assert_eq!(merge_cookies(&mut req), Ok(()));
    assert_eq!(header(&req, "cookie"), vec![b"session=abc; theme=dark".to_vec()]);
}

#[test]
fn cookies_keep_their_order() {
    let mut req = get("/foo");
    req.append_header("Cookie", "c=3").unwrap();
    req.append_header("Host", "example.com").unwrap();
    req.append_header("cookie", "a=1").unwrap();
    req.append_header("COOKIE", "b=2").unwrap();
    assert_eq!(merge_cookies(&mut req), Ok(()));
    assert_eq!(header(&req, "cookie"), vec![b"c=3; a=1; b=2".to_vec()]);
    assert_eq!(header(&req, "host"), vec![b"example.com".to_vec()]);
    assert_eq!(req.headers.len(), 2);
}

#[test]
fn cookie_bytes_beyond_ascii_survive() {
    let mut req = get("/foo");
    req.append_header("Cookie", &b"a=\xfa"[..]).unwrap();
    req.append_header("Cookie", &b"b=\t2"[..]).unwrap();
    assert_eq!(merge_cookies(&mut req), Ok(()));
    assert_eq!(header(&req, "cookie"), vec![b"a=\xfa; b=\t2".to_vec()]);
}

#[test]
fn an_empty_cookie_is_still_a_cookie() {
    let mut req = get("/foo");
    req.append_header("Cookie", "").unwrap();
    req.append_header("Cookie", "a=1").unwrap();
    assert_eq!(merge_cookies(&mut req), Ok(()));
    assert_eq!(header(&req, "cookie"), vec![b"; a=1".to_vec()]);
}

#[test]
fn forwarded_headers_are_added() {
    let mut req = get("/foo");
    assert_eq!(proxy("6189").upstream_request_filter(&mut req), Ok(()));
    assert_eq!(header(&req, "x-forwarded-proto"), vec![b"https".to_vec()]);
    assert_eq!(header(&req, "x-forwarded-scheme"), vec![b"https".to_vec()]);
    assert_eq!(header(&req, "x-forwarded-port"), vec![b"6189".to_vec()]);
    assert_eq!(
        wire(&req),
        b"X-Forwarded-Proto: https\r\nX-Forwarded-Scheme: https\r\nX-Forwarded-Port: 6189\r\n".to_vec()
    );
}

#[test]
fn forwarded_headers_never_replace() {
    let mut req = get("/foo");
    req.append_header("X-Forwarded-Proto", "http").unwrap();
    req.append_header("x-forwarded-port", "80").unwrap();
    req.append_header("x-forwarded-port", "81").unwrap();
    assert_eq!(inject_forwarded(&mut req, "443"), Ok(()));
    assert_eq!(header(&req, "x-forwarded-proto"), vec![b"http".to_vec(), b"https".to_vec()]);
    assert_eq!(header(&req, "x-forwarded-scheme"), vec![b"https".to_vec()]);
    assert_eq!(
        header(&req, "x-forwarded-port"),
        vec![b"80".to_vec(), b"81".to_vec(), b"443".to_vec()]
    );
}

#[test]
fn the_whole_rewrite() {
    let mut req = get("/foo?q=1");
    req.append_header("Host", "example.com").unwrap();
    req.append_header("Cookie", "a=1").unwrap();
    req.append_header("User-Agent", "t").unwrap();
    req.append_header("Cookie", "b=2").unwrap();
    assert_eq!(rewrite_request(&mut req, "8443"), Ok(()));
    assert_eq!(header(&req, "cookie"), vec![b"a=1; b=2".to_vec()]);
    assert_eq!(header(&req, "host"), vec![b"example.com".to_vec()]);
    assert_eq!(header(&req, "user-agent"), vec![b"t".to_vec()]);
    assert_eq!(header(&req, "x-forwarded-port"), vec![b"8443".to_vec()]);
    assert_eq!(req.headers.len(), 6);
    assert_eq!(req.uri.path(), "/foo");
    assert_eq!(req.method.as_str(), "GET");
}

#[test]
fn an_illegal_port_leaves_the_request_alone() {
    let mut req = get("/foo");
    req.append_header("Cookie", "a=1").unwrap();
    req.append_header("Cookie", "b=2").unwrap();
    assert_eq!(
        proxy("61\n89").upstream_request_filter(&mut req),
        Err(HeaderRewriteFailure::IllegalPort)
    );
    assert_eq!(header(&req, "cookie"), vec![b"a=1".to_vec(), b"b=2".to_vec()]);
    assert!(!req.headers.contains_key("x-forwarded-proto"));
    assert_eq!(req.headers.len(), 2);
}

#[test]
fn a_port_that_is_no_number_is_sent_as_it_is() {
    let mut req = get("/foo");
    assert_eq!(proxy("https").upstream_request_filter(&mut req), Ok(()));
    assert_eq!(header(&req, "x-forwarded-port"), vec![b"https".to_vec()]);
}

#[test]
fn a_full_header_is_refused() {
    let mut req = with_names(MAX_NAMES - 2);
    let before = wire(&req);
    assert_eq!(
        proxy("6189").upstream_request_filter(&mut req),
        Err(HeaderRewriteFailure::TooManyNames)
    );
    assert_eq!(wire(&req), before);
    assert_eq!(inject_forwarded(&mut req, "6189"), Err(HeaderRewriteFailure::TooManyNames));
    assert_eq!(wire(&req), before);
}

#[test]
fn a_header_with_room_for_three_is_rewritten() {
    let mut req = with_names(MAX_NAMES - 3);
    assert_eq!(proxy("6189").upstream_request_filter(&mut req), Ok(()));
    assert_eq!(req.headers.keys_len(), MAX_NAMES);
    assert_eq!(header(&req, "x-forwarded-port"), vec![b"6189".to_vec()]);
}

#[test]
fn a_full_header_refuses_the_merge_too() {
    let mut req = with_names(MAX_NAMES - 1);
    req.append_header("Cookie", "a=1").unwrap();
    req.append_header("Cookie", "b=2").unwrap();
    assert_eq!(merge_cookies(&mut req), Err(HeaderRewriteFailure::TooManyNames));
    assert_eq!(header(&req, "cookie"), vec![b"a=1".to_vec(), b"b=2".to_vec()]);
    let mut bare = with_names(MAX_NAMES);
    assert_eq!(merge_cookies(&mut bare), Ok(()));
}

#[test]
fn the_full_header_is_named_before_the_port() {
    let mut req = with_names(MAX_NAMES);
    assert_eq!(rewrite_request(&mut req, "\n"), Err(HeaderRewriteFailure::TooManyNames));
}

#[test]
fn joining() {
    assert_eq!(join_cookies(&vec![]), Vec::<u8>::new());
    assert_eq!(join_cookies(&vec![b"a=1".to_vec()]), b"a=1".to_vec());
    assert_eq!(join_cookies(&vec![b"a=1".to_vec(), b"b=2".to_vec()]), b"a=1; b=2".to_vec());
    assert_eq!(
        join_cookies(&vec![b"v1".to_vec(), b"v2".to_vec(), b"v3".to_vec()]),
        b"v1; v2; v3".to_vec()
    );
    assert_eq!(join_cookies(&vec![b"".to_vec(), b"".to_vec()]), b"; ".to_vec());
}

#[test]
fn value_bytes() {
    assert!(is_valid_value(b""));
    assert!(is_valid_value(b"a=1; b=2"));
    assert!(is_valid_value(&[9]));
    assert!(is_valid_value(&[32, 126, 128, 255]));
    assert!(!is_valid_value(&[31]));
    assert!(!is_valid_value(&[127]));
    assert!(!is_valid_value(&[0]));
    assert!(!is_valid_value(b"ok\r\nInjected: 1"));
    assert!(!is_valid_value(&[65, 66, 10]));
}

#[test]
fn appending_bytes() {
    let mut out = b"ab".to_vec();
    append_bytes(&mut out, b"cd");
    append_bytes(&mut out, b"");
    assert_eq!(out, b"abcd".to_vec());
}

#[test]
fn the_engine_s_result_as_an_event() {
    assert_eq!(rewrite_event(&Ok(())), Event::Rewritten);
    assert_eq!(
        rewrite_event(&Err(HeaderRewriteFailure::IllegalPort)),
        Event::Failed(Failure::HeaderRewriteFailure)
    );
}

#[test]
fn the_upstream_is_reached_in_plain_http() {
    let p = proxy("6189");
    let peer: Peer = p.upstream_peer();
    assert_eq!(peer.address, Address::V4 { octets: [127, 0, 0, 1], port: 8888 });
    assert!(!peer.tls);
    assert_eq!(peer.sni, "");
    let q = Proxy {
        upstream: Upstream {
            dest_addr: Address::V6 { segments: [0, 0, 0, 0, 0, 0, 0, 1], port: 80, flowinfo: 0, scope_id: 0 },
        },
        listen_port: String::from("443"),
        domain: String::from("example.com"),
    };
    assert_eq!(q.upstream_peer().address, q.upstream.dest_addr);
}

#[test]
fn the_cookie_to_send() {
    assert_eq!(merged_cookie(&vec![]), Ok(None));
    assert_eq!(merged_cookie(&vec![b"a=1".to_vec()]), Ok(Some(b"a=1".to_vec())));
    assert_eq!(
        merged_cookie(&vec![b"a=1".to_vec(), b"b=2".to_vec()]),
        Ok(Some(b"a=1; b=2".to_vec()))
    );
    assert_eq!(merged_cookie(&vec![b"".to_vec()]), Ok(Some(b"".to_vec())));
}

#[test]
fn a_cookie_with_a_line_break_is_refused() {
    assert_eq!(
        merged_cookie(&vec![b"a=1".to_vec(), b"b=2\r\nX: y".to_vec()]),
        Err(HeaderRewriteFailure::IllegalCookie)
    );
    assert_eq!(merged_cookie(&vec![vec![127]]), Err(HeaderRewriteFailure::IllegalCookie));
}

#[test]
fn every_cookie_stands_in_the_joined_value() {
    let values = vec![b"alpha=1".to_vec(), b"".to_vec(), b"b=22".to_vec(), b"c".to_vec()];
    let whole = join_cookies(&values);
    let mut start = 0;
    for (i, value) in values.iter().enumerate() {
        if i > 0 {
            assert_eq!(&whole[start..start + 2], b"; ");
            start += 2;
        }
        assert_eq!(&whole[start..start + value.len()], value.as_slice());
        start += value.len();
    }
    assert_eq!(start, whole.len());
}

#[test]
fn texts_that_are_the_same() {
    assert!(same_text("", ""));
    assert!(same_text("/.well-known/caldav", "/.well-known/caldav"));
    assert!(same_text("é", "é"));
    assert!(!same_text("a", "b"));
    assert!(!same_text("a", "ab"));
    assert!(!same_text("ab", "a"));
    assert!(!same_text("é", "e"));
    assert!(!same_text("A", "a"));
}

#[test]
fn cookies_under_the_standard_name() {
    let mut req = get("/foo");
    req.append_header(http::header::COOKIE, "a=1").unwrap();
    req.append_header("cookie", "b=2").unwrap();
    req.append_header(http::header::COOKIE, "c=3").unwrap();
    assert_eq!(rewrite_request(&mut req, "443"), Ok(()));
    assert_eq!(header(&req, "cookie"), vec![b"a=1; b=2; c=3".to_vec()]);
    assert_eq!(req.headers.get_all(http::header::COOKIE).iter().count(), 1);
}

#[test]
fn a_request_without_case_memory_is_rewritten_too() {
    let mut req = RequestHeader::build_no_case("GET", b"/foo", None).unwrap();
    req.append_header("Cookie", "a=1").unwrap();
    req.append_header("Cookie", "b=2").unwrap();
    assert_eq!(rewrite_request(&mut req, "443"), Ok(()));
    assert_eq!(header(&req, "cookie"), vec![b"a=1; b=2".to_vec()]);
    assert_eq!(header(&req, "x-forwarded-proto"), vec![b"https".to_vec()]);
}
