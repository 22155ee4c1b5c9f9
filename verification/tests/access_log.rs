use pingora_http::ResponseHeader;
use pproxy::access_log::{access_log_line, response_code, write_decimal};
use pproxy::proxy::{Address, Proxy, Upstream};

fn decimal(n: u16) -> String {
    let mut out = String::new();
    write_decimal(&mut out, n);
    out
}

#[test]
fn numbers_in_decimal() {
    assert_eq!(decimal(0), "0");
    assert_eq!(decimal(7), "7");
    assert_eq!(decimal(9), "9");
    assert_eq!(decimal(10), "10");
    assert_eq!(decimal(301), "301");
    assert_eq!(decimal(502), "502");
    assert_eq!(decimal(1000), "1000");
    assert_eq!(decimal(65535), "65535");
    for n in [0u16, 5, 10, 99, 100, 101, 999, 4096, 12345, 65535] {
        assert_eq!(decimal(n), n.to_string());
    }
}

#[test]
fn decimal_is_written_behind_what_is_there() {
    let mut out = String::from("code ");
    write_decimal(&mut out, 404);
    assert_eq!(out, "code 404");
}

#[test]
fn the_line() {
    assert_eq!(
        access_log_line("GET /foo, Host: example.com", 200),
        "GET /foo, Host: example.com response code: 200"
    );
    assert_eq!(access_log_line("", 0), " response code: 0");
}

#[test]
fn the_status_that_is_recorded() {
    assert_eq!(response_code(None), 0);
    let resp = ResponseHeader::build(404u16, None).unwrap();
    assert_eq!(response_code(Some(&resp)), 404);
    let resp = ResponseHeader::build(301u16, None).unwrap();
    assert_eq!(response_code(Some(&resp)), 301);
}

#[test]
fn logging_a_request() {
    let proxy = Proxy {
        upstream: Upstream { dest_addr: Address::V4 { octets: [127, 0, 0, 1], port: 8888 } },
        listen_port: String::from("6189"),
        domain: String::from("example.com"),
    };
    let resp = proxy
        .request_filter(&pingora_http::RequestHeader::build("GET", b"/.well-known/caldav", None).unwrap())
        .unwrap()
        .unwrap();
    assert_eq!(
        proxy.logging("GET /.well-known/caldav, Host: example.com", Some(&resp)),
        "GET /.well-known/caldav, Host: example.com response code: 301"
    );
    assert_eq!(proxy.logging("GET /x, Host: ", None), "GET /x, Host:  response code: 0");
}
