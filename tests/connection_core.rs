use minreq::connection::{get_redirect, handle_redirects, Connection, Next};
use minreq::error::{Error, IoErrorKind};
use minreq::host::{ensure_ascii_host, tls_server_name, tls_session_name};
use minreq::proxy::{connect_request, tunnel_reply_complete, verify_tunnel_reply};
use minreq::response::{eq_ignoring_case, header_value, parse_status_code, trim};
use minreq::request::{split_url, Method, Proxy, Request};
use minreq::timing::{
    calibrate_timeout, deadline_at, parse_timeout_secs, read_timeout, timeout_duration,
};

fn request(method: Method, host: &str, resource: &str, timeout: Option<u64>) -> Request {
    Request {
        method,
        https: false,
        host: host.to_string(),
        resource: resource.to_string(),
        body: Vec::new(),
        timeout,
        proxy: None,
    }
}

fn connection(method: Method) -> Connection {
    Connection::new(request(method, "example.com:80", "/a", None), None)
}

fn follow(method: Method, status: i32, location: &str) -> Request {
    let location = location.to_string();
    match get_redirect(connection(method), status, Some(&location)) {
        Some(Ok(r)) => r,
        _ => panic!("expected a follow-up request"),
    }
}

#[test]
fn budget_is_whole_seconds_in_nanoseconds() {
    assert_eq!(timeout_duration(Some(2)), Some(2_000_000_000));
    assert_eq!(timeout_duration(None), None);
    assert_eq!(deadline_at(Some(1), 100), Some(1_000_000_100));
    assert_eq!(deadline_at(None, 100), None);
}

#[test]
fn calibrate_shrinks_budget_to_what_is_left() {
    let mut t = Some(5_000);
    assert_eq!(calibrate_timeout(&mut t, Some(10_000), 7_000), Ok(()));
    assert_eq!(t, Some(3_000));
}

#[test]
fn calibrate_after_deadline_fails() {
    let mut t = Some(5_000);
    assert_eq!(calibrate_timeout(&mut t, Some(10_000), 10_000), Err(Error::DeadlineExceeded));
    assert_eq!(t, Some(5_000));
    assert_eq!(calibrate_timeout(&mut t, Some(10_000), 12_000), Err(Error::DeadlineExceeded));
}

#[test]
fn calibrate_without_deadline_changes_nothing() {
    let mut t = None;
    assert_eq!(calibrate_timeout(&mut t, None, 12_000), Ok(()));
    assert_eq!(t, None);
    let mut u = Some(4);
    assert_eq!(calibrate_timeout(&mut u, None, 12_000), Ok(()));
    assert_eq!(u, Some(4));
}

#[test]
fn read_after_deadline_fails_at_once() {
    assert_eq!(read_timeout(Some(50), 60), Err(Error::IoError(IoErrorKind::TimedOut)));
    assert_eq!(read_timeout(Some(50), 50), Err(Error::IoError(IoErrorKind::TimedOut)));
}

#[test]
fn read_before_deadline_is_bounded_by_what_is_left() {
    assert_eq!(read_timeout(Some(50), 20), Ok(Some(30)));
}

#[test]
fn no_timeout_means_unbounded_phases() {
    let c = Connection::new(request(Method::Get, "example.com:80", "/", None), None);
    assert_eq!(c.timeout, None);
    let s = match c.start(1_000) {
        Ok(s) => s,
        Err(_) => panic!("start failed"),
    };
    assert_eq!(s.timeout, None);
    assert_eq!(s.timeout_at, None);
    let mut t = s.timeout;
    assert_eq!(calibrate_timeout(&mut t, s.timeout_at, 9_000_000), Ok(()));
    assert_eq!(t, None);
    assert_eq!(read_timeout(s.timeout_at, u128::MAX), Ok(None));
}

#[test]
fn zero_timeout_expires_before_connect() {
    let c = Connection::new(request(Method::Get, "example.com:80", "/", Some(0)), None);
    let s = match c.start(1_000) {
        Ok(s) => s,
        Err(_) => panic!("start failed"),
    };
    assert_eq!(s.timeout, Some(0));
    assert_eq!(s.timeout_at, Some(1_000));
    let mut t = s.timeout;
    assert_eq!(calibrate_timeout(&mut t, s.timeout_at, 1_000), Err(Error::DeadlineExceeded));
}

#[test]
fn start_fixes_deadline_from_now() {
    let c = Connection::new(request(Method::Get, "example.com:80", "/", Some(3)), None);
    let s = match c.start(500) {
        Ok(s) => s,
        Err(_) => panic!("start failed"),
    };
    assert_eq!(s.timeout, Some(3_000_000_000));
    assert_eq!(s.timeout_at, Some(3_000_000_500));
    assert_eq!(s.connection.request.host, "example.com:80");
}

#[test]
fn start_encodes_unicode_host() {
    let c = Connection::new(request(Method::Get, "bücher.de:443", "/", None), None);
    match c.start(0) {
        Ok(s) => assert_eq!(s.connection.request.host, "xn--bcher-kva.de:443"),
        Err(_) => panic!("start failed"),
    }
}

#[test]
fn environment_timeout_used_when_request_has_none() {
    let c = Connection::new(request(Method::Get, "h:80", "/", None), Some("30"));
    assert_eq!(c.timeout, Some(30));
    let c = Connection::new(request(Method::Get, "h:80", "/", Some(5)), Some("30"));
    assert_eq!(c.timeout, Some(5));
    let c = Connection::new(request(Method::Get, "h:80", "/", None), Some("soon"));
    assert_eq!(c.timeout, None);
}

#[test]
fn timeout_setting_parses_like_integers() {
    assert_eq!(parse_timeout_secs("30"), Some(30));
    assert_eq!(parse_timeout_secs("+7"), Some(7));
    assert_eq!(parse_timeout_secs("007"), Some(7));
    assert_eq!(parse_timeout_secs(""), None);
    assert_eq!(parse_timeout_secs("+"), None);
    assert_eq!(parse_timeout_secs("-1"), None);
    assert_eq!(parse_timeout_secs("1 "), None);
    assert_eq!(parse_timeout_secs("18446744073709551615"), Some(u64::MAX));
    assert_eq!(parse_timeout_secs("18446744073709551616"), None);
    assert_eq!(parse_timeout_secs("99999999999999999999x"), None);
}

#[test]
fn see_other_downgrades_post_put_delete() {
    assert_eq!(follow(Method::Post, 303, "/c").method, Method::Get);
    assert_eq!(follow(Method::Put, 303, "/c").method, Method::Get);
    assert_eq!(follow(Method::Delete, 303, "/c").method, Method::Get);
}

#[test]
fn see_other_keeps_other_methods() {
    assert_eq!(follow(Method::Head, 303, "/c").method, Method::Head);
    assert_eq!(follow(Method::Get, 303, "/c").method, Method::Get);
    assert_eq!(follow(Method::Patch, 303, "/c").method, Method::Patch);
}

#[test]
fn other_redirects_keep_the_method() {
    for status in [301, 302, 307] {
        assert_eq!(follow(Method::Post, status, "/c").method, Method::Post);
        assert_eq!(follow(Method::Delete, status, "/c").method, Method::Delete);
    }
}

#[test]
fn redirect_without_location_is_an_error() {
    for status in [301, 302, 303, 307] {
        assert!(matches!(
            get_redirect(connection(Method::Get), status, None),
            Some(Err(Error::RedirectLocationMissing))
        ));
        assert!(matches!(
            handle_redirects(connection(Method::Get), "body", status, None),
            Err(Error::RedirectLocationMissing)
        ));
    }
}

#[test]
fn non_redirect_status_returns_response() {
    let location = "/elsewhere".to_string();
    for status in [200, 304, 404, 500] {
        assert!(get_redirect(connection(Method::Get), status, Some(&location)).is_none());
        match handle_redirects(connection(Method::Get), "body", status, Some(&location)) {
            Ok(Next::Done(r)) => assert_eq!(r, "body"),
            _ => panic!("expected the response back"),
        }
    }
}

#[test]
fn moved_permanently_to_absolute_url() {
    let location = "http://example.com/b".to_string();
    match handle_redirects(connection(Method::Get), (), 301, Some(&location)) {
        Ok(Next::Follow(r)) => {
            assert_eq!(r.method, Method::Get);
            assert!(!r.https);
            assert_eq!(r.host, "example.com:80");
            assert_eq!(r.resource, "/b");
        }
        _ => panic!("expected one follow-up request"),
    }
}

#[test]
fn see_other_post_to_relative_path() {
    let r = follow(Method::Post, 303, "/c");
    assert_eq!(r.method, Method::Get);
    assert_eq!(r.host, "example.com:80");
    assert_eq!(r.resource, "/c");
}

#[test]
fn redirect_keeps_body_timeout_and_proxy() {
    let mut req = request(Method::Put, "a.test:80", "/", Some(9));
    req.body = vec![1, 2, 3];
    req.proxy = Some(Proxy { server: "proxy.test".to_string(), port: 3128 });
    let location = "https://b.test/x?y=1".to_string();
    match get_redirect(Connection::new(req, None), 307, Some(&location)) {
        Some(Ok(r)) => {
            assert_eq!(r.method, Method::Put);
            assert!(r.https);
            assert_eq!(r.host, "b.test:443");
            assert_eq!(r.resource, "/x?y=1");
            assert_eq!(r.body, vec![1, 2, 3]);
            assert_eq!(r.timeout, Some(9));
            let p = r.proxy.expect("proxy kept");
            assert_eq!(p.server, "proxy.test");
            assert_eq!(p.port, 3128);
        }
        _ => panic!("expected a follow-up request"),
    }
}

#[test]
fn redirect_to_url_without_host_is_refused() {
    let location = "http:///x".to_string();
    assert!(matches!(
        get_redirect(connection(Method::Get), 302, Some(&location)),
        Some(Err(Error::InvalidRedirectUrl))
    ));
}

#[test]
fn split_url_parts() {
    let t = split_url("https://secure.example.org").ok().expect("valid");
    assert!(t.https);
    assert_eq!(t.host, "secure.example.org:443");
    assert_eq!(t.resource, "/");
    let t = split_url("http://h:8080/x/y").ok().expect("valid");
    assert!(!t.https);
    assert_eq!(t.host, "h:8080");
    assert_eq!(t.resource, "/x/y");
    assert!(matches!(split_url("https:///"), Err(Error::InvalidRedirectUrl)));
}

#[test]
fn ascii_host_is_kept() {
    assert_eq!(ensure_ascii_host("example.com:80".to_string()), Ok("example.com:80".to_string()));
}

#[test]
fn unicode_labels_become_punycode() {
    assert_eq!(
        ensure_ascii_host("bücher.de:443".to_string()),
        Ok("xn--bcher-kva.de:443".to_string())
    );
    assert_eq!(
        ensure_ascii_host("www.münchen.de:80".to_string()),
        Ok("www.xn--mnchen-3ya.de:80".to_string())
    );
}

#[test]
fn server_name_drops_port() {
    assert_eq!(tls_server_name("example.com:443"), "example.com");
    assert_eq!(tls_server_name("example.com"), "example.com");
}

#[test]
fn tunnel_request_text() {
    assert_eq!(
        connect_request("example.com:443"),
        "CONNECT example.com:443 HTTP/1.1\r\nHost: example.com:443\r\n\r\n"
    );
}

#[test]
fn tunnel_refused_by_proxy() {
    assert_eq!(
        verify_tunnel_reply(b"HTTP/1.1 407 Proxy Authentication Required\r\n\r\n"),
        Err(Error::ProxyRejected(407))
    );
    assert_eq!(verify_tunnel_reply(b"HTTP/1.1 502 Bad Gateway\r\n\r\n"), Err(Error::ProxyRejected(502)));
}

#[test]
fn tunnel_opened_by_proxy() {
    assert_eq!(verify_tunnel_reply(b"HTTP/1.1 200 Connection established\r\n\r\n"), Ok(()));
    let mut padded = b"HTTP/1.0 200 OK\r\n\r\n".to_vec();
    padded.resize(256, 0);
    assert_eq!(verify_tunnel_reply(&padded), Ok(()));
}

#[test]
fn tunnel_reply_without_status() {
    assert_eq!(verify_tunnel_reply(b""), Err(Error::BadProxyResponse));
    assert_eq!(verify_tunnel_reply(b"HTTP/1.1 20"), Err(Error::BadProxyResponse));
    assert_eq!(verify_tunnel_reply(b"HTTP/1.1 2000 x"), Err(Error::BadProxyResponse));
}

#[test]
fn status_codes_of_lines() {
    assert_eq!(parse_status_code(b"HTTP/1.1 301 Moved Permanently"), Some(301));
    assert_eq!(parse_status_code(b"HTTP/1.1 404"), Some(404));
    assert_eq!(parse_status_code(b"garbage"), None);
}

#[test]
fn short_read_ends_tunnel_reply() {
    assert!(tunnel_reply_complete(0));
    assert!(tunnel_reply_complete(255));
    assert!(!tunnel_reply_complete(256));
}

#[test]
fn session_name_for_valid_host() {
    assert_eq!(tls_session_name("example.com:443"), Ok("example.com".to_string()));
    assert_eq!(tls_session_name("xn--bcher-kva.de:443"), Ok("xn--bcher-kva.de".to_string()));
}

#[test]
fn session_name_refused_for_invalid_host() {
    assert_eq!(tls_session_name("bad_host!:443"), Err(Error::IoError(IoErrorKind::Other)));
    assert_eq!(tls_session_name(":443"), Err(Error::IoError(IoErrorKind::Other)));
}

#[test]
fn decimal_text_digits() {
    assert_eq!(minreq::wire::decimal_text(0), "0");
    assert_eq!(minreq::wire::decimal_text(7), "7");
    assert_eq!(minreq::wire::decimal_text(1024), "1024");
    assert_eq!(minreq::wire::decimal_text(usize::MAX), usize::MAX.to_string());
}

#[test]
fn head_without_body() {
    let r = request(Method::Get, "example.com:80", "/b", None);
    assert_eq!(r.head(), "GET /b HTTP/1.1\r\nHost: example.com:80\r\n\r\n");
}

#[test]
fn head_with_body_states_length() {
    let mut r = request(Method::Post, "example.com:80", "/form", None);
    r.body = b"a=1&b=22".to_vec();
    assert_eq!(
        r.head(),
        "POST /form HTTP/1.1\r\nHost: example.com:80\r\nContent-Length: 8\r\n\r\n"
    );
}

#[test]
fn method_names() {
    assert_eq!(Method::Delete.name(), "DELETE");
    assert_eq!(Method::Options.name(), "OPTIONS");
    assert_eq!(Method::Patch.name(), "PATCH");
}

#[test]
fn header_lookup_ignores_case_and_spaces() {
    assert_eq!(header_value("Location: /next\r\n", "location"), Some("/next".to_string()));
    assert_eq!(header_value("LOCATION:http://a.test/x ", "location"), Some("http://a.test/x".to_string()));
    assert_eq!(header_value("  location \t:  \t", "Location"), Some(String::new()));
    assert_eq!(header_value("Content-Type: text/html", "location"), None);
    assert_eq!(header_value("no colon here", "location"), None);
}

#[test]
fn header_value_keeps_later_colons() {
    assert_eq!(header_value("Location: http://h:8080/p", "location"), Some("http://h:8080/p".to_string()));
}

#[test]
fn trimming_both_ends() {
    assert_eq!(trim("  a b \r\n"), "a b");
    assert_eq!(trim(" \t "), "");
    assert_eq!(trim("x"), "x");
}

#[test]
fn case_insensitive_names() {
    assert!(eq_ignoring_case("Content-Length", "content-length"));
    assert!(!eq_ignoring_case("Location", "Locations"));
    assert!(!eq_ignoring_case("[", "{"));
}

#[test]
fn overlong_unicode_label_is_refused() {
    let label = format!("{}\u{10FE4F}", "a".repeat(3856));
    assert_eq!(
        ensure_ascii_host(format!("{}.de:443", label)),
        Err(Error::PunycodeConversionFailed)
    );
    let label = format!("{}ü", "a".repeat(3800));
    assert_eq!(ensure_ascii_host(format!("{}.de:443", label)), Err(Error::PunycodeConversionFailed));
}

#[test]
fn longest_unicode_label_is_encoded() {
    let label = format!("{}ü", "a".repeat(3799));
    match ensure_ascii_host(format!("{}.de:443", label)) {
        Ok(h) => {
            assert!(h.starts_with("xn--"));
            assert!(h.ends_with(".de:443"));
            assert!(h.is_ascii());
        }
        Err(_) => panic!("a label of 3800 characters is encoded"),
    }
    let long_ascii = "a".repeat(5000);
    assert_eq!(ensure_ascii_host(format!("{}.de:80", long_ascii)), Ok(format!("{}.de:80", long_ascii)));
}
